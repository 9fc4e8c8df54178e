//! A learning-progress tracking and recommendation engine.
//!
//! The crate models a learner's curriculum as a set of learning units grouped
//! into ordered stages, computes weighted completion statistics, evaluates
//! achievement unlock conditions, ranks the next units to study, generates
//! textual suggestions, and renders reports as plain text or as an HTML
//! document.

pub mod achieve;
pub mod clock;
pub mod dashboard;
pub mod domain;
pub mod recommend;
pub mod stats;
pub mod strutil;
pub mod suggest;
