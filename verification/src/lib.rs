//! A dynamic value: a string, a number of any width, a boolean, a list, a
//! key-ordered map, a date or time, or one of two kinds of absence, with
//! conversions between it and native types.
//!
//! `value` holds the value itself, `value_eq` and `value_order` its equality
//! and its order, `types` what a value is made of, `traits` and its siblings
//! the conversions, and `round_trip` the law that ties the two directions
//! together. Floats are held by their bits (`float`) and never as native
//! floats: the library compares them and converts integers to them, and
//! leaves reading and writing them as text to the caller. Dates and times are
//! held by their fields, and their arithmetic is that of the `chrono` crate.

pub mod decimal;
pub mod entries;
pub mod error;
pub mod float;
pub mod float_from;
pub mod float_order;
pub mod prelude;
pub mod rendering;
pub mod round_trip;
pub mod traits;
pub mod traits_map;
pub mod traits_own;
pub mod traits_sorted;
pub mod types;
pub mod value;
pub mod value_eq;
pub mod value_order;
