//! Syntax validation of OpenQASM 3 source text, with the decisions of the
//! command-line front door stated and proved.

pub mod cli;
pub mod front_end;
pub mod laws;
pub mod validation;

pub use cli::{outcome_report, run, usage_report, Report};
pub use validation::{outcome_of, parse_qasm3, validate, ValidationError};
