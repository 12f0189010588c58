//! A result shown as `Ok(..)` or `Err(..)` around the text of what it holds.

use vstd::prelude::*;
use vstd::string::*;
use crate::text::DisplayText;

verus! {

/// The text of a result: the text of the value inside `Ok(` `)`, or the text
/// of the error inside `Err(` `)`.
pub open spec fn result_text<T: DisplayText, E: DisplayText>(result: Result<T, E>) -> Seq<char> {
    match result {
        Ok(value) => seq!['O', 'k', '('] + value.display_text() + seq![')'],
        Err(error) => seq!['E', 'r', 'r', '('] + error.display_text() + seq![')'],
    }
}

/// A borrowed result to be shown.
pub struct DisplayResult<'a, T: DisplayText, E: DisplayText>(pub &'a Result<T, E>);

impl<'a, T: DisplayText, E: DisplayText> DisplayResult<'a, T, E> {
    /// Writes the result.
    pub fn to_string(&self) -> (out: String)
        ensures
            out@ == result_text(*self.0),
    {
        proof {
            reveal_strlit("Ok(");
            reveal_strlit("Err(");
            reveal_strlit(")");
        }
        let mut out = match self.0 {
            Ok(value) => {
                let mut out = String::from_str("Ok(");
                out.append(value.display_string().as_str());
                out
            },
            Err(error) => {
                let mut out = String::from_str("Err(");
                out.append(error.display_string().as_str());
                out
            },
        };
        out.append(")");
        assert(out@ =~= result_text(*self.0));
        out
    }
}

/// Results whose value and error both have a text.
pub trait DisplayResultExt<'a, T: DisplayText, E: DisplayText> {
    /// This result.
    spec fn as_result(&self) -> Result<T, E>;

    /// Wraps the result for showing.
    fn display(&'a self) -> (shown: DisplayResult<'a, T, E>)
        ensures
            *shown.0 == self.as_result(),
    ;
}

impl<T: DisplayText, E: DisplayText> DisplayResultExt<'_, T, E> for Result<T, E> {
    open spec fn as_result(&self) -> Result<T, E> {
        *self
    }

    fn display(&self) -> (shown: DisplayResult<'_, T, E>) {
        DisplayResult(self)
    }
}

} // verus!
