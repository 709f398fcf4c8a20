//! Verified core of the styleforce GritQL bindings: the outcome states of a
//! pattern sample, the aggregation of sample outcomes into a test report with
//! its summary line, the re-check after formatting, and the choice of the
//! rewritten source when a pattern is applied.
pub mod decimal;
pub mod discovery;
pub mod recheck;
pub mod report;
pub mod rewrite;
pub mod state;
