//! Value types for a game-server simulation: identifiers, versions,
//! timestamps, integer vectors, colors, containers, and session records,
//! with verified contracts on every operation.

pub mod clock;
pub mod color;
pub mod datetime;
pub mod guid;
pub mod int_vector;
pub mod int_vector2;
pub mod name;
pub mod networking;
pub mod parse;
pub mod strfmt;
pub mod tarray;
pub mod timespan;
pub mod tmap;
pub mod tset;
pub mod text;
pub mod version;
