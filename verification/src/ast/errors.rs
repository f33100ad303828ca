//! The parser's error taxonomy.

use vstd::prelude::*;

verus! {

/// A failure of the parser. Parsing is fail-fast: the first malformed
/// statement aborts the whole parse and surfaces its error to the caller.
#[derive(Debug, Clone, Copy, PartialEq, Eq, Structural)]
pub enum AstError {
    /// A `let` statement does not match the `let IDENT = EXPR` shape.
    LetStmt,
    /// No expression-grammar rule matched the current token.
    Expression,
    /// A statement could not be started from the current token.
    General,
}

impl AstError {
    /// A short description of the error. The expression failure has no
    /// description of its own and reports the general one.
    pub fn to_string(&self) -> (r: String)
        ensures
            r@ == match self {
                AstError::LetStmt => "parsing Let statement"@,
                _ => "general error"@,
            },
    {
        match self {
            AstError::LetStmt => "parsing Let statement".to_owned(),
            _ => "general error".to_owned(),
        }
    }
}

} // verus!
