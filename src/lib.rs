//! Persistence of tabletop character records: stored values, enumeration
//! codecs, per-entity schema descriptions, junction relations and an engine
//! that drives an embedded SQLite store through them.
pub mod background;
pub mod character;
pub mod codec;
pub mod database;
pub mod feature;
pub mod full_character;
pub mod hydrate;
pub mod item;
pub mod junction;
pub mod language;
pub mod model;
pub mod proficiency;
pub mod row;
pub mod screen;
pub mod spells;
pub mod sql;
pub mod tables;
pub mod tabs;
pub mod value;
