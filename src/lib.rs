//! Structured justifications for risky code regions.
//!
//! A [`UnsafeReason`] records why a region of code needs operations that the
//! language cannot check for safety: an identifier, owners, bug references,
//! links, key-value tags and free-text messages. Records are values: every
//! builder method hands back a new record with one more annotation.
//!
//! [`StandardReason`] lists the common reasons, and [`unsafe_because`] /
//! [`unsafe_because_all`] attach one or more records to a region of code
//! without changing what that region computes.
use vstd::prelude::*;

mod catalog;
mod laws;
mod reason;
mod wrap;

pub use catalog::{standard_ids_stable, standard_names_unique, StandardReason};
pub use laws::{builder_adds_exactly_one, builders_accumulate};
pub use reason::{pair_views, str_views, ReasonView, UnsafeReason};
pub use wrap::{unsafe_because, unsafe_because_all, unsafe_reason};
