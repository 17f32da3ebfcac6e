//! Time-bounded projects for scenario planning.
//!
//! A project has a name, an approximate value and an allocation: the range
//! of days over which it runs. It contributes its value on the days on which
//! its allocation is active, and nothing on the others.
//!
//! Days are counted in the proleptic Gregorian calendar (see [`date::Date`]),
//! so that every rule of the library is a statement about integers.

pub mod allocation;
pub mod date;
pub mod projects;
pub mod text;
pub mod traits;
