//! What it means for a value to have a text, and the texts of common types.
//!
//! A type that can be shown implements [`DisplayText`]; one that also has a
//! notation for diagnostics implements [`DebugText`]. Each trait pairs a
//! specification of the text with the function that produces it.

use vstd::prelude::*;

verus! {

/// A value that has a text for end users.
pub trait DisplayText {
    /// The characters that stand for this value.
    spec fn display_text(&self) -> Seq<char>;

    /// Renders this value.
    fn display_string(&self) -> (out: String)
        ensures
            out@ == self.display_text(),
    ;
}

/// A value that has a text for diagnostics.
pub trait DebugText {
    /// The characters that stand for this value in diagnostics.
    spec fn debug_text(&self) -> Seq<char>;

    /// Renders this value for diagnostics.
    fn debug_string(&self) -> (out: String)
        ensures
            out@ == self.debug_text(),
    ;
}

/// A way of writing values of type `T`.
pub trait Style<T> {
    /// The characters that this style writes for `value`.
    spec fn text_of(&self, value: &T) -> Seq<char>;

    /// Writes `value` in this style.
    fn write(&self, value: &T) -> (out: String)
        ensures
            out@ == self.text_of(value),
    ;
}

/// The style that writes a value's text for end users.
pub struct DisplayStyle;

/// The style that writes a value's text for diagnostics.
pub struct DebugStyle;

impl<T: DisplayText> Style<T> for DisplayStyle {
    open spec fn text_of(&self, value: &T) -> Seq<char> {
        value.display_text()
    }

    fn write(&self, value: &T) -> (out: String) {
        value.display_string()
    }
}

impl<T: DebugText> Style<T> for DebugStyle {
    open spec fn text_of(&self, value: &T) -> Seq<char> {
        value.debug_text()
    }

    fn write(&self, value: &T) -> (out: String) {
        value.debug_string()
    }
}

/// The parts in order, with `sep` between each two neighbours.
pub open spec fn join(parts: Seq<Seq<char>>, sep: Seq<char>) -> Seq<char>
    decreases parts.len(),
{
    if parts.len() == 0 {
        Seq::empty()
    } else if parts.len() == 1 {
        parts[0]
    } else {
        join(parts.drop_last(), sep) + sep + parts.last()
    }
}

/// The parts in order, each one followed by `sep`.
pub open spec fn each_followed_by(parts: Seq<Seq<char>>, sep: Seq<char>) -> Seq<char>
    decreases parts.len(),
{
    if parts.len() == 0 {
        Seq::empty()
    } else {
        each_followed_by(parts.drop_last(), sep) + parts.last() + sep
    }
}

/// The number of characters in all the parts together.
pub open spec fn total_len(parts: Seq<Seq<char>>) -> nat
    decreases parts.len(),
{
    if parts.len() == 0 {
        0
    } else {
        total_len(parts.drop_last()) + parts.last().len()
    }
}

/// Joining parts and one more part is the same as following each of the
/// parts by the separator and then writing the last one.
pub proof fn lemma_join_push(parts: Seq<Seq<char>>, last: Seq<char>, sep: Seq<char>)
    ensures
        join(parts.push(last), sep) == each_followed_by(parts, sep) + last,
    decreases parts.len(),
{
    let all = parts.push(last);
    assert(all.drop_last() =~= parts);
    if parts.len() == 0 {
        assert(join(all, sep) =~= each_followed_by(parts, sep) + last);
    } else {
        let init = parts.drop_last();
        assert(init.push(parts.last()) =~= parts);
        lemma_join_push(init, parts.last(), sep);
        assert(join(all, sep) =~= each_followed_by(parts, sep) + last);
    }
}

/// A join of `k` parts holds all their characters and `k - 1` separators, and
/// none where there is no part.
pub proof fn lemma_join_len(parts: Seq<Seq<char>>, sep: Seq<char>)
    ensures
        parts.len() == 0 ==> join(parts, sep).len() == 0,
        parts.len() > 0 ==> join(parts, sep).len() == total_len(parts) + (parts.len() - 1)
            * sep.len(),
    decreases parts.len(),
{
    if parts.len() == 1 {
        assert(parts.drop_last().len() == 0);
        assert(total_len(parts.drop_last()) == 0);
    } else if parts.len() > 1 {
        lemma_join_len(parts.drop_last(), sep);
        assert((parts.len() - 1) * sep.len() == (parts.len() - 2) * sep.len() + sep.len())
            by (nonlinear_arith);
    }
}

/// Parts that are each followed by the separator hold all their characters
/// and as many separators as there are parts.
pub proof fn lemma_each_followed_by_len(parts: Seq<Seq<char>>, sep: Seq<char>)
    ensures
        each_followed_by(parts, sep).len() == total_len(parts) + parts.len() * sep.len(),
    decreases parts.len(),
{
    if parts.len() > 0 {
        lemma_each_followed_by_len(parts.drop_last(), sep);
        assert(parts.len() * sep.len() == (parts.len() - 1) * sep.len() + sep.len())
            by (nonlinear_arith);
    }
}

} // verus!
