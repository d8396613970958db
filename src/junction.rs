//! Junction relations: the many-to-many edges from an owning entity to the
//! entities it references, each stored as a two-column table of id pairs
//! whose composite primary key makes each pair unique.
use vstd::prelude::*;

verus! {

/// The junction tables of the store.
#[derive(Clone, Copy, Debug, PartialEq, Eq, Structural)]
pub enum JunctionTable {
    BackgroundProfs,
    BackgroundLangs,
    BackgroundInvintory,
    BackgroundFeatures,
    CharacterSpells,
}

impl JunctionTable {
    /// The junction table's name.
    pub open spec fn spec_name(self) -> Seq<char> {
        match self {
            JunctionTable::BackgroundProfs => "background_proficiencies"@,
            JunctionTable::BackgroundLangs => "background_languages"@,
            JunctionTable::BackgroundInvintory => "background_inventory"@,
            JunctionTable::BackgroundFeatures => "background_features"@,
            JunctionTable::CharacterSpells => "character_spells"@,
        }
    }

    /// The owning-side column.
    pub open spec fn spec_owner_column(self) -> Seq<char> {
        match self {
            JunctionTable::CharacterSpells => "character"@,
            _ => "background"@,
        }
    }

    /// The referenced-side column.
    pub open spec fn spec_referenced_column(self) -> Seq<char> {
        match self {
            JunctionTable::BackgroundProfs => "proficiency"@,
            JunctionTable::BackgroundLangs => "language"@,
            JunctionTable::BackgroundInvintory => "item"@,
            JunctionTable::BackgroundFeatures => "feature"@,
            JunctionTable::CharacterSpells => "spell"@,
        }
    }

    /// The owning entity's table.
    pub open spec fn spec_owner_table(self) -> Seq<char> {
        match self {
            JunctionTable::CharacterSpells => "characters"@,
            _ => "backgrounds"@,
        }
    }

    /// The referenced entity's table.
    pub open spec fn spec_referenced_table(self) -> Seq<char> {
        match self {
            JunctionTable::BackgroundProfs => "proficiencies"@,
            JunctionTable::BackgroundLangs => "languages"@,
            JunctionTable::BackgroundInvintory => "items"@,
            JunctionTable::BackgroundFeatures => "features"@,
            JunctionTable::CharacterSpells => "spells"@,
        }
    }

    /// The junction table's name.
    pub fn name(&self) -> (r: String)
        ensures
            r@ == self.spec_name(),
    {
        match self {
            JunctionTable::BackgroundProfs => String::from_str("background_proficiencies"),
            JunctionTable::BackgroundLangs => String::from_str("background_languages"),
            JunctionTable::BackgroundInvintory => String::from_str("background_inventory"),
            JunctionTable::BackgroundFeatures => String::from_str("background_features"),
            JunctionTable::CharacterSpells => String::from_str("character_spells"),
        }
    }

    /// The owning-side and referenced-side columns.
    pub fn columns(&self) -> (r: (String, String))
        ensures
            r.0@ == self.spec_owner_column(),
            r.1@ == self.spec_referenced_column(),
    {
        let referenced = match self {
            JunctionTable::BackgroundProfs => String::from_str("proficiency"),
            JunctionTable::BackgroundLangs => String::from_str("language"),
            JunctionTable::BackgroundInvintory => String::from_str("item"),
            JunctionTable::BackgroundFeatures => String::from_str("feature"),
            JunctionTable::CharacterSpells => String::from_str("spell"),
        };
        let owner = match self {
            JunctionTable::CharacterSpells => String::from_str("character"),
            _ => String::from_str("background"),
        };
        (owner, referenced)
    }

    /// The owning and referenced tables.
    pub fn references(&self) -> (r: (String, String))
        ensures
            r.0@ == self.spec_owner_table(),
            r.1@ == self.spec_referenced_table(),
    {
        let referenced = match self {
            JunctionTable::BackgroundProfs => String::from_str("proficiencies"),
            JunctionTable::BackgroundLangs => String::from_str("languages"),
            JunctionTable::BackgroundInvintory => String::from_str("items"),
            JunctionTable::BackgroundFeatures => String::from_str("features"),
            JunctionTable::CharacterSpells => String::from_str("spells"),
        };
        let owner = match self {
            JunctionTable::CharacterSpells => String::from_str("characters"),
            _ => String::from_str("backgrounds"),
        };
        (owner, referenced)
    }

    /// The positional markers of a junction row.
    pub fn values(&self) -> (r: String)
        ensures
            r@ == "?1, ?2"@,
    {
        String::from_str("?1, ?2")
    }

    /// Statement that creates the junction table if it is absent.
    pub open spec fn spec_create_sql(self) -> Seq<char> {
        "CREATE TABLE IF NOT EXISTS "@ + self.spec_name() + " ("@
            + self.spec_owner_column() + " INTEGER REFERENCES "@ + self.spec_owner_table() + "(id), "@
            + self.spec_referenced_column() + " INTEGER REFERENCES "@ + self.spec_referenced_table() + "(id), "@
            + "PRIMARY KEY ("@ + self.spec_owner_column() + ", "@ + self.spec_referenced_column() + "))"@
    }

    /// Statement that deletes every row whose owning id is `?1`.
    pub open spec fn spec_clear_sql(self) -> Seq<char> {
        "DELETE FROM "@ + self.spec_name() + " WHERE "@ + self.spec_owner_column() + "=?1"@
    }

    /// Statement that records the pair `(?1, ?2)`; recording a pair that is
    /// already there changes nothing.
    pub open spec fn spec_insert_sql(self) -> Seq<char> {
        "INSERT OR REPLACE INTO "@ + self.spec_name() + " ("@ + self.spec_owner_column() + ", "@
            + self.spec_referenced_column() + ") VALUES (?1, ?2)"@
    }

    /// Statement that selects the pairs of owning id `?1`, owning id first.
    pub open spec fn spec_select_ids_sql(self) -> Seq<char> {
        "SELECT "@ + self.spec_owner_column() + ", "@ + self.spec_referenced_column() + " FROM "@ + self.spec_name()
            + " WHERE "@ + self.spec_owner_column() + "=?1"@
    }

    /// Statement that creates the junction table if it is absent.
    pub fn create_sql(&self) -> (r: String)
        ensures
            r@ == self.spec_create_sql(),
    {
        let (owner_col, ref_col) = self.columns();
        let (owner_table, ref_table) = self.references();
        let mut r = String::from_str("CREATE TABLE IF NOT EXISTS ");
        r.append(self.name().as_str());
        r.append(" (");
        r.append(owner_col.as_str());
        r.append(" INTEGER REFERENCES ");
        r.append(owner_table.as_str());
        r.append("(id), ");
        r.append(ref_col.as_str());
        r.append(" INTEGER REFERENCES ");
        r.append(ref_table.as_str());
        r.append("(id), ");
        r.append("PRIMARY KEY (");
        r.append(owner_col.as_str());
        r.append(", ");
        r.append(ref_col.as_str());
        r.append("))");
        r
    }

    /// Statement that deletes every row whose owning id is `?1`.
    pub fn clear_sql(&self) -> (r: String)
        ensures
            r@ == self.spec_clear_sql(),
    {
        let (owner_col, _) = self.columns();
        let mut r = String::from_str("DELETE FROM ");
        r.append(self.name().as_str());
        r.append(" WHERE ");
        r.append(owner_col.as_str());
        r.append("=?1");
        r
    }

    /// Statement that records the pair `(?1, ?2)`.
    pub fn insert_sql(&self) -> (r: String)
        ensures
            r@ == self.spec_insert_sql(),
    {
        let (owner_col, ref_col) = self.columns();
        let mut r = String::from_str("INSERT OR REPLACE INTO ");
        r.append(self.name().as_str());
        r.append(" (");
        r.append(owner_col.as_str());
        r.append(", ");
        r.append(ref_col.as_str());
        r.append(") VALUES (?1, ?2)");
        r
    }

    /// Statement that selects the pairs of owning id `?1`, owning id first.
    pub fn select_ids_sql(&self) -> (r: String)
        ensures
            r@ == self.spec_select_ids_sql(),
    {
        let (owner_col, ref_col) = self.columns();
        let mut r = String::from_str("SELECT ");
        r.append(owner_col.as_str());
        r.append(", ");
        r.append(ref_col.as_str());
        r.append(" FROM ");
        r.append(self.name().as_str());
        r.append(" WHERE ");
        r.append(owner_col.as_str());
        r.append("=?1");
        r
    }
}

/// One change to a junction table.
#[derive(Clone, Copy, Debug, PartialEq, Eq, Structural)]
pub enum JunctionOp {
    /// Delete every pair of this owning id.
    Clear(i64),
    /// Record the pair (owning id, referenced id).
    Insert(i64, i64),
}

/// A junction table's rows: a set of (owning id, referenced id) pairs.
pub open spec fn apply_op(rows: Set<(i64, i64)>, op: JunctionOp) -> Set<(i64, i64)> {
    match op {
        JunctionOp::Clear(o) => rows.filter(|p: (i64, i64)| p.0 != o),
        JunctionOp::Insert(o, x) => rows.insert((o, x)),
    }
}

/// The rows after a sequence of changes, applied in order.
pub open spec fn apply_ops(rows: Set<(i64, i64)>, ops: Seq<JunctionOp>) -> Set<(i64, i64)>
    decreases ops.len(),
{
    if ops.len() == 0 {
        rows
    } else {
        apply_op(apply_ops(rows, ops.drop_last()), ops.last())
    }
}

/// Applying two runs of changes is applying the first, then the second.
pub proof fn lemma_apply_ops_concat(rows: Set<(i64, i64)>, a: Seq<JunctionOp>, b: Seq<JunctionOp>)
    ensures
        apply_ops(rows, a + b) == apply_ops(apply_ops(rows, a), b),
    decreases b.len(),
{
    if b.len() == 0 {
        assert(a + b =~= a);
    } else {
        lemma_apply_ops_concat(rows, a, b.drop_last());
        assert((a + b).drop_last() =~= a + b.drop_last());
        assert((a + b).last() == b.last());
    }
}

/// The referenced ids recorded for an owning id.
pub open spec fn owned(rows: Set<(i64, i64)>, owner: i64) -> Set<i64> {
    Set::new(|x: i64| rows.contains((owner, x)))
}

/// The changes that replace the associations of `owner` by `ids`: one clear,
/// then one insert per id.
pub open spec fn spec_plan(owner: i64, ids: Seq<i64>) -> Seq<JunctionOp> {
    seq![JunctionOp::Clear(owner)] + ids.map_values(|x: i64| JunctionOp::Insert(owner, x))
}

/// The rows after the associations of `owner` are replaced by `ids`.
pub open spec fn replaced(rows: Set<(i64, i64)>, owner: i64, ids: Set<i64>) -> Set<(i64, i64)> {
    rows.filter(|p: (i64, i64)| p.0 != owner).union(Set::new(|p: (i64, i64)| p.0 == owner && ids.contains(p.1)))
}

/// The changes that replace the associations of `owner` by the ids in `ids`,
/// each id once, in the order of first occurrence.
pub fn replacement_plan(owner: i64, ids: &Vec<i64>) -> (r: (Vec<JunctionOp>, Ghost<Seq<i64>>))
    ensures
        r.0@ == spec_plan(owner, r.1@),
        r.1@.no_duplicates(),
        r.1@.to_set() == ids@.to_set(),
{
    let mut ops: Vec<JunctionOp> = vec![JunctionOp::Clear(owner)];
    let mut seen: Vec<i64> = Vec::new();
    let mut i: usize = 0;
    while i < ids.len()
        invariant
            i <= ids@.len(),
            ops@ == spec_plan(owner, seen@),
            seen@.no_duplicates(),
            seen@.to_set() == ids@.subrange(0, i as int).to_set(),
        decreases ids@.len() - i,
    {
        let x = ids[i];
        let mut found = false;
        let mut j: usize = 0;
        while j < seen.len()
            invariant
                j <= seen@.len(),
                found == exists|k: int| 0 <= k < j && seen@[k] == x,
            decreases seen@.len() - j,
        {
            if seen[j] == x {
                found = true;
            }
            j = j + 1;
        }
        proof {
            assert(ids@.subrange(0, i as int + 1) =~= ids@.subrange(0, i as int).push(x));
            ids@.subrange(0, i as int).lemma_push_to_set_commute(x);
            seen@.lemma_push_to_set_commute(x);
        }
        if !found {
            proof {
                assert forall|k: int| 0 <= k < seen@.len() implies seen@[k] != x by {}
                assert(!seen@.contains(x));
            }
            seen.push(x);
            ops.push(JunctionOp::Insert(owner, x));
            proof {
                assert(ops@ =~= spec_plan(owner, seen@));
            }
        } else {
            proof {
                let k = choose|k: int| 0 <= k < seen@.len() && seen@[k] == x;
                assert(seen@.to_set().contains(x));
                assert(seen@.to_set().insert(x) =~= seen@.to_set());
            }
        }
        i = i + 1;
    }
    proof {
        assert(ids@.subrange(0, ids@.len() as int) =~= ids@);
    }
    (ops, Ghost(seen@))
}

/// Applying the plan for `ids` replaces the associations of `owner` by the
/// set of `ids` and leaves every other owner's rows as they were.
pub proof fn lemma_plan_effect(rows: Set<(i64, i64)>, owner: i64, ids: Seq<i64>)
    ensures
        apply_ops(rows, spec_plan(owner, ids)) == replaced(rows, owner, ids.to_set()),
    decreases ids.len(),
{
    let p = spec_plan(owner, ids);
    if ids.len() == 0 {
        assert(p.drop_last() =~= Seq::<JunctionOp>::empty());
        assert(p.last() == JunctionOp::Clear(owner));
        assert(apply_ops(rows, p.drop_last()) == rows);
        assert(ids.to_set() =~= Set::<i64>::empty());
        assert(replaced(rows, owner, ids.to_set()) =~= rows.filter(|q: (i64, i64)| q.0 != owner));
        assert(apply_ops(rows, p) == apply_op(rows, JunctionOp::Clear(owner)));
    } else {
        let x = ids.last();
        let front = ids.drop_last();
        lemma_plan_effect(rows, owner, front);
        assert(ids =~= front.push(x));
        assert(p.drop_last() =~= spec_plan(owner, front));
        assert(p.last() == JunctionOp::Insert(owner, x));
        assert(apply_ops(rows, p) == apply_ops(rows, spec_plan(owner, front)).insert((owner, x)));
        front.lemma_push_to_set_commute(x);
        assert(replaced(rows, owner, ids.to_set()) =~= replaced(rows, owner, front.to_set()).insert((owner, x)));
    }
}

/// Replacing the associations of `owner` twice in a row by the same set of
/// ids, in any order and with any repetition, leaves exactly the rows of
/// doing it once: the owner is associated with exactly those ids, with no
/// duplicate and no stale pair.
pub proof fn lemma_replace_idempotent(rows: Set<(i64, i64)>, owner: i64, ids: Seq<i64>, again: Seq<i64>)
    requires
        again.to_set() == ids.to_set(),
    ensures
        apply_ops(apply_ops(rows, spec_plan(owner, ids)), spec_plan(owner, again)) == apply_ops(rows, spec_plan(owner, ids)),
        owned(apply_ops(rows, spec_plan(owner, ids)), owner) == ids.to_set(),
{
    let once = apply_ops(rows, spec_plan(owner, ids));
    lemma_plan_effect(rows, owner, ids);
    lemma_plan_effect(once, owner, again);
    assert(replaced(once, owner, again.to_set()) =~= once);
    assert(owned(once, owner) =~= ids.to_set());
}

/// A replacement forgets what an earlier replacement for the same owner
/// recorded: only the latest ids remain.
pub proof fn lemma_replace_drops_stale(rows: Set<(i64, i64)>, owner: i64, earlier: Seq<i64>, ids: Seq<i64>)
    ensures
        apply_ops(apply_ops(rows, spec_plan(owner, earlier)), spec_plan(owner, ids)) == apply_ops(rows, spec_plan(owner, ids)),
{
    let first = apply_ops(rows, spec_plan(owner, earlier));
    lemma_plan_effect(rows, owner, earlier);
    lemma_plan_effect(first, owner, ids);
    lemma_plan_effect(rows, owner, ids);
    assert(replaced(first, owner, ids.to_set()) =~= replaced(rows, owner, ids.to_set()));
}

/// After the pairs of `owner` are cleared, no referenced id is recorded for
/// it, and every other owner keeps its ids.
pub proof fn lemma_clear_leaves_none(rows: Set<(i64, i64)>, owner: i64)
    ensures
        owned(apply_op(rows, JunctionOp::Clear(owner)), owner) == Set::<i64>::empty(),
        forall|o: i64| o != owner ==> owned(apply_op(rows, JunctionOp::Clear(owner)), o) == owned(rows, o),
{
    assert(owned(apply_op(rows, JunctionOp::Clear(owner)), owner) =~= Set::<i64>::empty());
    assert forall|o: i64| o != owner implies owned(apply_op(rows, JunctionOp::Clear(owner)), o) == owned(rows, o) by {
        assert(owned(apply_op(rows, JunctionOp::Clear(owner)), o) =~= owned(rows, o));
    }
}

} // verus!
