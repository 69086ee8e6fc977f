//! Scoring and reporting of the checks that CLOMonitor runs on repositories.
pub mod linter;
pub mod score;
pub mod table;

use vstd::prelude::*;

verus! {
} // verus!
