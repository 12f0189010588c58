//! An optional value shown as its own text, or as `None` where it is absent.

use vstd::prelude::*;
use vstd::string::*;
use crate::text::{DebugStyle, DebugText, DisplayStyle, DisplayText, Style};

verus! {

/// What is written for an absent value.
pub open spec fn none_text() -> Seq<char> {
    seq!['N', 'o', 'n', 'e']
}

/// The text of an optional value whose content is written in `style`.
pub open spec fn option_text<T, S: Style<T>>(value: Option<T>, style: S) -> Seq<char> {
    match value {
        None => none_text(),
        Some(content) => style.text_of(&content),
    }
}

/// A borrowed optional value together with the style its content is written
/// in.
pub struct DisplayOption<'a, T, S = DisplayStyle> {
    inner: &'a Option<T>,
    style: S,
}

impl<'a, T, S: Style<T>> DisplayOption<'a, T, S> {
    /// The optional value that is shown.
    pub closed spec fn value(&self) -> Option<T> {
        *self.inner
    }

    /// The style in which its content is written.
    pub closed spec fn style(&self) -> S {
        self.style
    }

    /// Writes the content in the style, or `None`.
    pub fn to_string(&self) -> (out: String)
        ensures
            out@ == option_text(self.value(), self.style()),
    {
        match self.inner {
            None => {
                proof {
                    reveal_strlit("None");
                }
                let out = String::from_str("None");
                assert(out@ =~= none_text());
                out
            },
            Some(content) => self.style.write(content),
        }
    }
}

/// Optional values whose content has a text for end users.
pub trait DisplayOptionExt<'a, T: DisplayText> {
    /// This optional value.
    spec fn as_option(&self) -> Option<T>;

    /// Wraps the value so that its content is written for end users.
    fn display(&'a self) -> (shown: DisplayOption<'a, T>)
        ensures
            shown.value() == self.as_option(),
            shown.style() == DisplayStyle,
    ;
}

impl<T: DisplayText> DisplayOptionExt<'_, T> for Option<T> {
    open spec fn as_option(&self) -> Option<T> {
        *self
    }

    fn display(&self) -> (shown: DisplayOption<'_, T>) {
        DisplayOption { inner: self, style: DisplayStyle }
    }
}

/// Optional values whose content has a text for diagnostics.
pub trait DisplayDebugOptionExt<'a, T: DebugText> {
    /// This optional value.
    spec fn as_debug_option(&self) -> Option<T>;

    /// Wraps the value so that its content is written for diagnostics.
    fn display_debug(&'a self) -> (shown: DisplayOption<'a, T, DebugStyle>)
        ensures
            shown.value() == self.as_debug_option(),
            shown.style() == DebugStyle,
    ;
}

impl<T: DebugText> DisplayDebugOptionExt<'_, T> for Option<T> {
    open spec fn as_debug_option(&self) -> Option<T> {
        *self
    }

    fn display_debug(&self) -> (shown: DisplayOption<'_, T, DebugStyle>) {
        DisplayOption { inner: self, style: DebugStyle }
    }
}

} // verus!
