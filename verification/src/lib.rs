//! Small verified demonstrations of single-owner value handling: what a
//! function receives, what it hands back, and what its caller may still use.
//!
//! - [`transfer`] holds the functions that take over a value, hand one out,
//!   copy it or clone it.
//! - [`report`] writes the lines that tell what a binding holds.
//! - [`decimal`] writes numbers in decimal notation for those lines.
//! - [`walkthrough`] runs every scene in order and collects the lines.
#![allow(unused_imports)]

pub mod decimal;
pub mod report;
pub mod transfer;
pub mod walkthrough;
