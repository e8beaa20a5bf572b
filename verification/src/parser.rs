//! Classification of parse failures on the radar link: the severity
//! scale and the catalog entry describing one known failure pattern.

use vstd::prelude::*;

verus! {

/// How serious a parse failure is.
#[derive(Debug, Clone, PartialEq, Eq, Structural)]
pub enum ErrorSeverity {
    Warning,
    Error,
    Critical,
}

/// One known failure pattern: a human-readable name and description, a
/// severity, and an optional suggestion for fixing it.
#[derive(Debug, Clone)]
pub struct ErrorPattern {
    pub name: String,
    pub severity: ErrorSeverity,
    pub description: String,
    pub fix_suggestion: Option<String>,
}

impl ErrorPattern {
    /// The pattern's name.
    pub fn get_name(&self) -> (r: &str)
        ensures
            r@ == self.name@,
    {
        self.name.as_str()
    }

    /// The pattern's description.
    pub fn get_description(&self) -> (r: &str)
        ensures
            r@ == self.description@,
    {
        self.description.as_str()
    }
}

} // verus!
