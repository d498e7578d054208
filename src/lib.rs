//! Easing curves for animations and transitions: a closed catalog of named
//! curve variants, their ordinals, their reversibility, and a cursor that
//! walks the catalog in order.

pub mod catalog;
pub mod easing;

pub use catalog::{all_variants, Easings};
pub use easing::{Easing, EasingError, Family, Phase, EASING_COUNT};
