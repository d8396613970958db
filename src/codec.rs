//! Enumerated field values and their stored text. Every enumeration has one
//! text per variant; text outside that set is rejected, never defaulted.
use vstd::prelude::*;

verus! {

/// Whether two strings hold the same characters.
pub fn str_eq(a: &str, b: &str) -> (r: bool)
    ensures
        r == (a@ == b@),
{
    let n = a.unicode_len();
    if n != b.unicode_len() {
        return false;
    }
    let mut i: usize = 0;
    while i < n
        invariant
            n == a@.len(),
            n == b@.len(),
            i <= n,
            forall|j: int| 0 <= j < i ==> a@[j] == b@[j],
        decreases n - i,
    {
        if a.get_char(i) != b.get_char(i) {
            return false;
        }
        i = i + 1;
    }
    assert(a@ =~= b@);
    true
}

/// An enumeration stored as text.
pub trait Codec: Sized {
    /// The stored text of a variant.
    spec fn text_of(self) -> Seq<char>;

    /// The variant whose stored text is `s`, if there is one.
    spec fn parse(s: Seq<char>) -> Option<Self>;

    /// The stored text of this variant.
    fn to_storable(&self) -> (r: String)
        ensures
            r@ == self.text_of(),
    ;

    /// The variant stored as `s`, or `None` for text outside the enumeration.
    fn from_storable(s: &str) -> (r: Option<Self>)
        ensures
            r == Self::parse(s@),
    ;

    /// Reading back the stored text of a variant gives that variant.
    proof fn lemma_parse_text(v: Self)
        ensures
            Self::parse(v.text_of()) == Some(v),
    ;

    /// Text is read as a variant only if it is that variant's stored text.
    proof fn lemma_parse_sound(s: Seq<char>)
        ensures
            Self::parse(s) matches Some(v) ==> v.text_of() == s,
    ;
}


/// The moral outlook of a character.
#[derive(Clone, Copy, Debug, PartialEq, Eq, Structural)]
pub enum Alignment {
    LawfulGood,
    NeutralGood,
    ChaoticGood,
    LawfulNeutral,
    Neutral,
    ChaoticNeutral,
    LawfulEvil,
    NeutralEvil,
    ChaoticEvil,
}

impl Default for Alignment {
    fn default() -> (r: Self)
        ensures
            r == Alignment::Neutral,
    {
        Alignment::Neutral
    }
}

impl Codec for Alignment {
    open spec fn text_of(self) -> Seq<char> {
        match self {
            Alignment::LawfulGood => "Lawful Good"@,
            Alignment::NeutralGood => "Neutral Good"@,
            Alignment::ChaoticGood => "Chaotic Good"@,
            Alignment::LawfulNeutral => "Lawful Neutral"@,
            Alignment::Neutral => "Neutral"@,
            Alignment::ChaoticNeutral => "Chaotic Neutral"@,
            Alignment::LawfulEvil => "Lawful Evil"@,
            Alignment::NeutralEvil => "Neutral Evil"@,
            Alignment::ChaoticEvil => "Chaotic Evil"@,
        }
    }


    open spec fn parse(s: Seq<char>) -> Option<Self> {
        if s == "Lawful Good"@ {
            Some(Alignment::LawfulGood)
        } else if s == "Neutral Good"@ {
            Some(Alignment::NeutralGood)
        } else if s == "Chaotic Good"@ {
            Some(Alignment::ChaoticGood)
        } else if s == "Lawful Neutral"@ {
            Some(Alignment::LawfulNeutral)
        } else if s == "Neutral"@ {
            Some(Alignment::Neutral)
        } else if s == "Chaotic Neutral"@ {
            Some(Alignment::ChaoticNeutral)
        } else if s == "Lawful Evil"@ {
            Some(Alignment::LawfulEvil)
        } else if s == "Neutral Evil"@ {
            Some(Alignment::NeutralEvil)
        } else if s == "Chaotic Evil"@ {
            Some(Alignment::ChaoticEvil)
        } else {
            None
        }
    }


    fn to_storable(&self) -> (r: String) {
        match self {
            Alignment::LawfulGood => String::from_str("Lawful Good"),
            Alignment::NeutralGood => String::from_str("Neutral Good"),
            Alignment::ChaoticGood => String::from_str("Chaotic Good"),
            Alignment::LawfulNeutral => String::from_str("Lawful Neutral"),
            Alignment::Neutral => String::from_str("Neutral"),
            Alignment::ChaoticNeutral => String::from_str("Chaotic Neutral"),
            Alignment::LawfulEvil => String::from_str("Lawful Evil"),
            Alignment::NeutralEvil => String::from_str("Neutral Evil"),
            Alignment::ChaoticEvil => String::from_str("Chaotic Evil"),
        }
    }


    fn from_storable(s: &str) -> (r: Option<Self>) {
        if str_eq(s, "Lawful Good") {
            Some(Alignment::LawfulGood)
        } else if str_eq(s, "Neutral Good") {
            Some(Alignment::NeutralGood)
        } else if str_eq(s, "Chaotic Good") {
            Some(Alignment::ChaoticGood)
        } else if str_eq(s, "Lawful Neutral") {
            Some(Alignment::LawfulNeutral)
        } else if str_eq(s, "Neutral") {
            Some(Alignment::Neutral)
        } else if str_eq(s, "Chaotic Neutral") {
            Some(Alignment::ChaoticNeutral)
        } else if str_eq(s, "Lawful Evil") {
            Some(Alignment::LawfulEvil)
        } else if str_eq(s, "Neutral Evil") {
            Some(Alignment::NeutralEvil)
        } else if str_eq(s, "Chaotic Evil") {
            Some(Alignment::ChaoticEvil)
        } else {
            None
        }
    }


    proof fn lemma_parse_text(v: Self) {
        reveal_strlit("Lawful Good");
        reveal_strlit("Neutral Good");
        reveal_strlit("Chaotic Good");
        reveal_strlit("Lawful Neutral");
        reveal_strlit("Neutral");
        reveal_strlit("Chaotic Neutral");
        reveal_strlit("Lawful Evil");
        reveal_strlit("Neutral Evil");
        reveal_strlit("Chaotic Evil");
        match v {
            Alignment::LawfulGood => {},
            Alignment::NeutralGood => {
                assert("Neutral Good"@.len() != "Lawful Good"@.len());
            },
            Alignment::ChaoticGood => {
                assert("Chaotic Good"@.len() != "Lawful Good"@.len());
                assert("Chaotic Good"@[0] != "Neutral Good"@[0]);
            },
            Alignment::LawfulNeutral => {
                assert("Lawful Neutral"@.len() != "Lawful Good"@.len());
                assert("Lawful Neutral"@.len() != "Neutral Good"@.len());
                assert("Lawful Neutral"@.len() != "Chaotic Good"@.len());
            },
            Alignment::Neutral => {
                assert("Neutral"@.len() != "Lawful Good"@.len());
                assert("Neutral"@.len() != "Neutral Good"@.len());
                assert("Neutral"@.len() != "Chaotic Good"@.len());
                assert("Neutral"@.len() != "Lawful Neutral"@.len());
            },
            Alignment::ChaoticNeutral => {
                assert("Chaotic Neutral"@.len() != "Lawful Good"@.len());
                assert("Chaotic Neutral"@.len() != "Neutral Good"@.len());
                assert("Chaotic Neutral"@.len() != "Chaotic Good"@.len());
                assert("Chaotic Neutral"@.len() != "Lawful Neutral"@.len());
                assert("Chaotic Neutral"@.len() != "Neutral"@.len());
            },
            Alignment::LawfulEvil => {
                assert("Lawful Evil"@[7] != "Lawful Good"@[7]);
                assert("Lawful Evil"@.len() != "Neutral Good"@.len());
                assert("Lawful Evil"@.len() != "Chaotic Good"@.len());
                assert("Lawful Evil"@.len() != "Lawful Neutral"@.len());
                assert("Lawful Evil"@.len() != "Neutral"@.len());
                assert("Lawful Evil"@.len() != "Chaotic Neutral"@.len());
            },
            Alignment::NeutralEvil => {
                assert("Neutral Evil"@.len() != "Lawful Good"@.len());
                assert("Neutral Evil"@[8] != "Neutral Good"@[8]);
                assert("Neutral Evil"@[0] != "Chaotic Good"@[0]);
                assert("Neutral Evil"@.len() != "Lawful Neutral"@.len());
                assert("Neutral Evil"@.len() != "Neutral"@.len());
                assert("Neutral Evil"@.len() != "Chaotic Neutral"@.len());
                assert("Neutral Evil"@.len() != "Lawful Evil"@.len());
            },
            Alignment::ChaoticEvil => {
                assert("Chaotic Evil"@.len() != "Lawful Good"@.len());
                assert("Chaotic Evil"@[0] != "Neutral Good"@[0]);
                assert("Chaotic Evil"@[8] != "Chaotic Good"@[8]);
                assert("Chaotic Evil"@.len() != "Lawful Neutral"@.len());
                assert("Chaotic Evil"@.len() != "Neutral"@.len());
                assert("Chaotic Evil"@.len() != "Chaotic Neutral"@.len());
                assert("Chaotic Evil"@.len() != "Lawful Evil"@.len());
                assert("Chaotic Evil"@[0] != "Neutral Evil"@[0]);
            },
        }
    }


    proof fn lemma_parse_sound(s: Seq<char>) {
    }
}

/// How rare an item is.
#[derive(Clone, Copy, Debug, PartialEq, Eq, Structural)]
pub enum ItemRarity {
    Common,
    Uncommon,
    Rare,
    VeryRare,
    Legendary,
    Unknown,
}

impl Codec for ItemRarity {
    open spec fn text_of(self) -> Seq<char> {
        match self {
            ItemRarity::Common => "Common"@,
            ItemRarity::Uncommon => "Uncommon"@,
            ItemRarity::Rare => "Rare"@,
            ItemRarity::VeryRare => "VeryRare"@,
            ItemRarity::Legendary => "Legendary"@,
            ItemRarity::Unknown => "Unknown"@,
        }
    }


    open spec fn parse(s: Seq<char>) -> Option<Self> {
        if s == "Common"@ {
            Some(ItemRarity::Common)
        } else if s == "Uncommon"@ {
            Some(ItemRarity::Uncommon)
        } else if s == "Rare"@ {
            Some(ItemRarity::Rare)
        } else if s == "VeryRare"@ {
            Some(ItemRarity::VeryRare)
        } else if s == "Legendary"@ {
            Some(ItemRarity::Legendary)
        } else if s == "Unknown"@ {
            Some(ItemRarity::Unknown)
        } else {
            None
        }
    }


    fn to_storable(&self) -> (r: String) {
        match self {
            ItemRarity::Common => String::from_str("Common"),
            ItemRarity::Uncommon => String::from_str("Uncommon"),
            ItemRarity::Rare => String::from_str("Rare"),
            ItemRarity::VeryRare => String::from_str("VeryRare"),
            ItemRarity::Legendary => String::from_str("Legendary"),
            ItemRarity::Unknown => String::from_str("Unknown"),
        }
    }


    fn from_storable(s: &str) -> (r: Option<Self>) {
        if str_eq(s, "Common") {
            Some(ItemRarity::Common)
        } else if str_eq(s, "Uncommon") {
            Some(ItemRarity::Uncommon)
        } else if str_eq(s, "Rare") {
            Some(ItemRarity::Rare)
        } else if str_eq(s, "VeryRare") {
            Some(ItemRarity::VeryRare)
        } else if str_eq(s, "Legendary") {
            Some(ItemRarity::Legendary)
        } else if str_eq(s, "Unknown") {
            Some(ItemRarity::Unknown)
        } else {
            None
        }
    }


    proof fn lemma_parse_text(v: Self) {
        reveal_strlit("Common");
        reveal_strlit("Uncommon");
        reveal_strlit("Rare");
        reveal_strlit("VeryRare");
        reveal_strlit("Legendary");
        reveal_strlit("Unknown");
        match v {
            ItemRarity::Common => {},
            ItemRarity::Uncommon => {
                assert("Uncommon"@.len() != "Common"@.len());
            },
            ItemRarity::Rare => {
                assert("Rare"@.len() != "Common"@.len());
                assert("Rare"@.len() != "Uncommon"@.len());
            },
            ItemRarity::VeryRare => {
                assert("VeryRare"@.len() != "Common"@.len());
                assert("VeryRare"@[0] != "Uncommon"@[0]);
                assert("VeryRare"@.len() != "Rare"@.len());
            },
            ItemRarity::Legendary => {
                assert("Legendary"@.len() != "Common"@.len());
                assert("Legendary"@.len() != "Uncommon"@.len());
                assert("Legendary"@.len() != "Rare"@.len());
                assert("Legendary"@.len() != "VeryRare"@.len());
            },
            ItemRarity::Unknown => {
                assert("Unknown"@.len() != "Common"@.len());
                assert("Unknown"@.len() != "Uncommon"@.len());
                assert("Unknown"@.len() != "Rare"@.len());
                assert("Unknown"@.len() != "VeryRare"@.len());
                assert("Unknown"@.len() != "Legendary"@.len());
            },
        }
    }


    proof fn lemma_parse_sound(s: Seq<char>) {
    }
}

/// The kind of a proficiency.
#[derive(Clone, Copy, Debug, PartialEq, Eq, Structural)]
pub enum ProficiencyClass {
    Skill,
    Armor,
    Weapon,
    Tool,
}

impl Codec for ProficiencyClass {
    open spec fn text_of(self) -> Seq<char> {
        match self {
            ProficiencyClass::Skill => "Skill"@,
            ProficiencyClass::Armor => "Armor"@,
            ProficiencyClass::Weapon => "Weapon"@,
            ProficiencyClass::Tool => "Tool"@,
        }
    }


    open spec fn parse(s: Seq<char>) -> Option<Self> {
        if s == "Skill"@ {
            Some(ProficiencyClass::Skill)
        } else if s == "Armor"@ {
            Some(ProficiencyClass::Armor)
        } else if s == "Weapon"@ {
            Some(ProficiencyClass::Weapon)
        } else if s == "Tool"@ {
            Some(ProficiencyClass::Tool)
        } else {
            None
        }
    }


    fn to_storable(&self) -> (r: String) {
        match self {
            ProficiencyClass::Skill => String::from_str("Skill"),
            ProficiencyClass::Armor => String::from_str("Armor"),
            ProficiencyClass::Weapon => String::from_str("Weapon"),
            ProficiencyClass::Tool => String::from_str("Tool"),
        }
    }


    fn from_storable(s: &str) -> (r: Option<Self>) {
        if str_eq(s, "Skill") {
            Some(ProficiencyClass::Skill)
        } else if str_eq(s, "Armor") {
            Some(ProficiencyClass::Armor)
        } else if str_eq(s, "Weapon") {
            Some(ProficiencyClass::Weapon)
        } else if str_eq(s, "Tool") {
            Some(ProficiencyClass::Tool)
        } else {
            None
        }
    }


    proof fn lemma_parse_text(v: Self) {
        reveal_strlit("Skill");
        reveal_strlit("Armor");
        reveal_strlit("Weapon");
        reveal_strlit("Tool");
        match v {
            ProficiencyClass::Skill => {},
            ProficiencyClass::Armor => {
                assert("Armor"@[0] != "Skill"@[0]);
            },
            ProficiencyClass::Weapon => {
                assert("Weapon"@.len() != "Skill"@.len());
                assert("Weapon"@.len() != "Armor"@.len());
            },
            ProficiencyClass::Tool => {
                assert("Tool"@.len() != "Skill"@.len());
                assert("Tool"@.len() != "Armor"@.len());
                assert("Tool"@.len() != "Weapon"@.len());
            },
        }
    }


    proof fn lemma_parse_sound(s: Seq<char>) {
    }
}

/// The school of magic a spell belongs to.
#[derive(Clone, Copy, Debug, PartialEq, Eq, Structural)]
pub enum School {
    Abjuration,
    Conjuration,
    Divination,
    Enchantment,
    Evocation,
    Illusion,
    Necromancy,
    Transmutation,
}

impl Codec for School {
    open spec fn text_of(self) -> Seq<char> {
        match self {
            School::Abjuration => "Abjuration"@,
            School::Conjuration => "Conjuration"@,
            School::Divination => "Divination"@,
            School::Enchantment => "Enchantment"@,
            School::Evocation => "Evocation"@,
            School::Illusion => "Illusion"@,
            School::Necromancy => "Necromancy"@,
            School::Transmutation => "Transmutation"@,
        }
    }


    open spec fn parse(s: Seq<char>) -> Option<Self> {
        if s == "Abjuration"@ {
            Some(School::Abjuration)
        } else if s == "Conjuration"@ {
            Some(School::Conjuration)
        } else if s == "Divination"@ {
            Some(School::Divination)
        } else if s == "Enchantment"@ {
            Some(School::Enchantment)
        } else if s == "Evocation"@ {
            Some(School::Evocation)
        } else if s == "Illusion"@ {
            Some(School::Illusion)
        } else if s == "Necromancy"@ {
            Some(School::Necromancy)
        } else if s == "Transmutation"@ {
            Some(School::Transmutation)
        } else {
            None
        }
    }


    fn to_storable(&self) -> (r: String) {
        match self {
            School::Abjuration => String::from_str("Abjuration"),
            School::Conjuration => String::from_str("Conjuration"),
            School::Divination => String::from_str("Divination"),
            School::Enchantment => String::from_str("Enchantment"),
            School::Evocation => String::from_str("Evocation"),
            School::Illusion => String::from_str("Illusion"),
            School::Necromancy => String::from_str("Necromancy"),
            School::Transmutation => String::from_str("Transmutation"),
        }
    }


    fn from_storable(s: &str) -> (r: Option<Self>) {
        if str_eq(s, "Abjuration") {
            Some(School::Abjuration)
        } else if str_eq(s, "Conjuration") {
            Some(School::Conjuration)
        } else if str_eq(s, "Divination") {
            Some(School::Divination)
        } else if str_eq(s, "Enchantment") {
            Some(School::Enchantment)
        } else if str_eq(s, "Evocation") {
            Some(School::Evocation)
        } else if str_eq(s, "Illusion") {
            Some(School::Illusion)
        } else if str_eq(s, "Necromancy") {
            Some(School::Necromancy)
        } else if str_eq(s, "Transmutation") {
            Some(School::Transmutation)
        } else {
            None
        }
    }


    proof fn lemma_parse_text(v: Self) {
        reveal_strlit("Abjuration");
        reveal_strlit("Conjuration");
        reveal_strlit("Divination");
        reveal_strlit("Enchantment");
        reveal_strlit("Evocation");
        reveal_strlit("Illusion");
        reveal_strlit("Necromancy");
        reveal_strlit("Transmutation");
        match v {
            School::Abjuration => {},
            School::Conjuration => {
                assert("Conjuration"@.len() != "Abjuration"@.len());
            },
            School::Divination => {
                assert("Divination"@[0] != "Abjuration"@[0]);
                assert("Divination"@.len() != "Conjuration"@.len());
            },
            School::Enchantment => {
                assert("Enchantment"@.len() != "Abjuration"@.len());
                assert("Enchantment"@[0] != "Conjuration"@[0]);
                assert("Enchantment"@.len() != "Divination"@.len());
            },
            School::Evocation => {
                assert("Evocation"@.len() != "Abjuration"@.len());
                assert("Evocation"@.len() != "Conjuration"@.len());
                assert("Evocation"@.len() != "Divination"@.len());
                assert("Evocation"@.len() != "Enchantment"@.len());
            },
            School::Illusion => {
                assert("Illusion"@.len() != "Abjuration"@.len());
                assert("Illusion"@.len() != "Conjuration"@.len());
                assert("Illusion"@.len() != "Divination"@.len());
                assert("Illusion"@.len() != "Enchantment"@.len());
                assert("Illusion"@.len() != "Evocation"@.len());
            },
            School::Necromancy => {
                assert("Necromancy"@[0] != "Abjuration"@[0]);
                assert("Necromancy"@.len() != "Conjuration"@.len());
                assert("Necromancy"@[0] != "Divination"@[0]);
                assert("Necromancy"@.len() != "Enchantment"@.len());
                assert("Necromancy"@.len() != "Evocation"@.len());
                assert("Necromancy"@.len() != "Illusion"@.len());
            },
            School::Transmutation => {
                assert("Transmutation"@.len() != "Abjuration"@.len());
                assert("Transmutation"@.len() != "Conjuration"@.len());
                assert("Transmutation"@.len() != "Divination"@.len());
                assert("Transmutation"@.len() != "Enchantment"@.len());
                assert("Transmutation"@.len() != "Evocation"@.len());
                assert("Transmutation"@.len() != "Illusion"@.len());
                assert("Transmutation"@.len() != "Necromancy"@.len());
            },
        }
    }


    proof fn lemma_parse_sound(s: Seq<char>) {
    }
}

/// Where a feature comes from.
#[derive(Clone, Copy, Debug, PartialEq, Eq, Structural)]
pub enum FeatureClass {
    Background,
    Racial,
    Class,
    Feat,
    Other,
}

impl Codec for FeatureClass {
    open spec fn text_of(self) -> Seq<char> {
        match self {
            FeatureClass::Background => "Background"@,
            FeatureClass::Racial => "Racial"@,
            FeatureClass::Class => "Class"@,
            FeatureClass::Feat => "Feat"@,
            FeatureClass::Other => "Other"@,
        }
    }


    open spec fn parse(s: Seq<char>) -> Option<Self> {
        if s == "Background"@ {
            Some(FeatureClass::Background)
        } else if s == "Racial"@ {
            Some(FeatureClass::Racial)
        } else if s == "Class"@ {
            Some(FeatureClass::Class)
        } else if s == "Feat"@ {
            Some(FeatureClass::Feat)
        } else if s == "Other"@ {
            Some(FeatureClass::Other)
        } else {
            None
        }
    }


    fn to_storable(&self) -> (r: String) {
        match self {
            FeatureClass::Background => String::from_str("Background"),
            FeatureClass::Racial => String::from_str("Racial"),
            FeatureClass::Class => String::from_str("Class"),
            FeatureClass::Feat => String::from_str("Feat"),
            FeatureClass::Other => String::from_str("Other"),
        }
    }


    fn from_storable(s: &str) -> (r: Option<Self>) {
        if str_eq(s, "Background") {
            Some(FeatureClass::Background)
        } else if str_eq(s, "Racial") {
            Some(FeatureClass::Racial)
        } else if str_eq(s, "Class") {
            Some(FeatureClass::Class)
        } else if str_eq(s, "Feat") {
            Some(FeatureClass::Feat)
        } else if str_eq(s, "Other") {
            Some(FeatureClass::Other)
        } else {
            None
        }
    }


    proof fn lemma_parse_text(v: Self) {
        reveal_strlit("Background");
        reveal_strlit("Racial");
        reveal_strlit("Class");
        reveal_strlit("Feat");
        reveal_strlit("Other");
        match v {
            FeatureClass::Background => {},
            FeatureClass::Racial => {
                assert("Racial"@.len() != "Background"@.len());
            },
            FeatureClass::Class => {
                assert("Class"@.len() != "Background"@.len());
                assert("Class"@.len() != "Racial"@.len());
            },
            FeatureClass::Feat => {
                assert("Feat"@.len() != "Background"@.len());
                assert("Feat"@.len() != "Racial"@.len());
                assert("Feat"@.len() != "Class"@.len());
            },
            FeatureClass::Other => {
                assert("Other"@.len() != "Background"@.len());
                assert("Other"@.len() != "Racial"@.len());
                assert("Other"@[0] != "Class"@[0]);
                assert("Other"@.len() != "Feat"@.len());
            },
        }
    }


    proof fn lemma_parse_sound(s: Seq<char>) {
    }
}

/// The gender of a character.
#[derive(Clone, Copy, Debug, PartialEq, Eq, Structural)]
pub enum Gender {
    Male,
    Female,
    Other,
}

impl Default for Gender {
    fn default() -> (r: Self)
        ensures
            r == Gender::Other,
    {
        Gender::Other
    }
}

impl Codec for Gender {
    open spec fn text_of(self) -> Seq<char> {
        match self {
            Gender::Male => "Male"@,
            Gender::Female => "Female"@,
            Gender::Other => "Other"@,
        }
    }


    open spec fn parse(s: Seq<char>) -> Option<Self> {
        if s == "Male"@ {
            Some(Gender::Male)
        } else if s == "Female"@ {
            Some(Gender::Female)
        } else if s == "Other"@ {
            Some(Gender::Other)
        } else {
            None
        }
    }


    fn to_storable(&self) -> (r: String) {
        match self {
            Gender::Male => String::from_str("Male"),
            Gender::Female => String::from_str("Female"),
            Gender::Other => String::from_str("Other"),
        }
    }


    fn from_storable(s: &str) -> (r: Option<Self>) {
        if str_eq(s, "Male") {
            Some(Gender::Male)
        } else if str_eq(s, "Female") {
            Some(Gender::Female)
        } else if str_eq(s, "Other") {
            Some(Gender::Other)
        } else {
            None
        }
    }


    proof fn lemma_parse_text(v: Self) {
        reveal_strlit("Male");
        reveal_strlit("Female");
        reveal_strlit("Other");
        match v {
            Gender::Male => {},
            Gender::Female => {
                assert("Female"@.len() != "Male"@.len());
            },
            Gender::Other => {
                assert("Other"@.len() != "Male"@.len());
                assert("Other"@.len() != "Female"@.len());
            },
        }
    }


    proof fn lemma_parse_sound(s: Seq<char>) {
    }
}

/// The six ability scores.
#[derive(Clone, Copy, Debug, PartialEq, Eq, Structural, Hash)]
pub enum Stats {
    STR,
    DEX,
    CON,
    INT,
    WIS,
    CHA,
}

impl Default for Stats {
    fn default() -> (r: Self)
        ensures
            r == Stats::STR,
    {
        Stats::STR
    }
}

impl Codec for Stats {
    open spec fn text_of(self) -> Seq<char> {
        match self {
            Stats::STR => "STR"@,
            Stats::DEX => "DEX"@,
            Stats::CON => "CON"@,
            Stats::INT => "INT"@,
            Stats::WIS => "WIS"@,
            Stats::CHA => "CHA"@,
        }
    }


    open spec fn parse(s: Seq<char>) -> Option<Self> {
        if s == "STR"@ {
            Some(Stats::STR)
        } else if s == "DEX"@ {
            Some(Stats::DEX)
        } else if s == "CON"@ {
            Some(Stats::CON)
        } else if s == "INT"@ {
            Some(Stats::INT)
        } else if s == "WIS"@ {
            Some(Stats::WIS)
        } else if s == "CHA"@ {
            Some(Stats::CHA)
        } else {
            None
        }
    }


    fn to_storable(&self) -> (r: String) {
        match self {
            Stats::STR => String::from_str("STR"),
            Stats::DEX => String::from_str("DEX"),
            Stats::CON => String::from_str("CON"),
            Stats::INT => String::from_str("INT"),
            Stats::WIS => String::from_str("WIS"),
            Stats::CHA => String::from_str("CHA"),
        }
    }


    fn from_storable(s: &str) -> (r: Option<Self>) {
        if str_eq(s, "STR") {
            Some(Stats::STR)
        } else if str_eq(s, "DEX") {
            Some(Stats::DEX)
        } else if str_eq(s, "CON") {
            Some(Stats::CON)
        } else if str_eq(s, "INT") {
            Some(Stats::INT)
        } else if str_eq(s, "WIS") {
            Some(Stats::WIS)
        } else if str_eq(s, "CHA") {
            Some(Stats::CHA)
        } else {
            None
        }
    }


    proof fn lemma_parse_text(v: Self) {
        reveal_strlit("STR");
        reveal_strlit("DEX");
        reveal_strlit("CON");
        reveal_strlit("INT");
        reveal_strlit("WIS");
        reveal_strlit("CHA");
        match v {
            Stats::STR => {},
            Stats::DEX => {
                assert("DEX"@[0] != "STR"@[0]);
            },
            Stats::CON => {
                assert("CON"@[0] != "STR"@[0]);
                assert("CON"@[0] != "DEX"@[0]);
            },
            Stats::INT => {
                assert("INT"@[0] != "STR"@[0]);
                assert("INT"@[0] != "DEX"@[0]);
                assert("INT"@[0] != "CON"@[0]);
            },
            Stats::WIS => {
                assert("WIS"@[0] != "STR"@[0]);
                assert("WIS"@[0] != "DEX"@[0]);
                assert("WIS"@[0] != "CON"@[0]);
                assert("WIS"@[0] != "INT"@[0]);
            },
            Stats::CHA => {
                assert("CHA"@[0] != "STR"@[0]);
                assert("CHA"@[0] != "DEX"@[0]);
                assert("CHA"@[1] != "CON"@[1]);
                assert("CHA"@[0] != "INT"@[0]);
                assert("CHA"@[0] != "WIS"@[0]);
            },
        }
    }


    proof fn lemma_parse_sound(s: Seq<char>) {
    }
}


} // verus!
