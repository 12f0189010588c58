//! A slice shown between brackets, with its middle left out beyond a limit.
//!
//! At most `limit` elements are written. A longer slice keeps its first
//! `limit - 1` elements and its last one, with `..` in place of the others:
//! `[1,2,3,4,..,9]`. With a limit of zero only the `..` is left.

use vstd::prelude::*;
use vstd::string::*;
use crate::text::{
    each_followed_by, join, lemma_each_followed_by_len, lemma_join_len, lemma_join_push, total_len,
    DisplayText,
};

verus! {

/// The number of elements shown where no limit was set.
pub const DEFAULT_LIMIT: usize = 5;

/// One part of what is written for a sequence.
pub enum Piece {
    /// The element at this index.
    Item(int),
    /// The mark that stands for the elements left out.
    Ellipsis,
}

/// The mark that stands for the elements left out.
pub open spec fn ellipsis() -> Seq<char> {
    seq!['.', '.']
}

/// The parts written for a sequence of `len` elements under `limit`, in
/// order. Nothing but the two numbers decides it.
pub open spec fn selection(len: nat, limit: nat) -> Seq<Piece> {
    if limit == 0 {
        seq![Piece::Ellipsis]
    } else if len <= limit {
        Seq::new(len, |i: int| Piece::Item(i))
    } else {
        Seq::new((limit - 1) as nat, |i: int| Piece::Item(i)).push(Piece::Ellipsis).push(
            Piece::Item(len - 1),
        )
    }
}

/// The text of one part, given the texts of the elements.
pub open spec fn piece_text(texts: Seq<Seq<char>>, piece: Piece) -> Seq<char> {
    match piece {
        Piece::Item(i) => texts[i],
        Piece::Ellipsis => ellipsis(),
    }
}

/// The texts of the parts written for elements with these texts.
pub open spec fn part_texts(texts: Seq<Seq<char>>, limit: nat) -> Seq<Seq<char>> {
    selection(texts.len(), limit).map_values(|piece: Piece| piece_text(texts, piece))
}

/// What a [`DisplaySlice`] stands for: the elements and the four options.
pub struct SliceFormat<T> {
    /// The elements of the slice.
    pub items: Seq<T>,
    /// The limit that was set, if any.
    pub limit: Option<usize>,
    /// What is written between two parts.
    pub separator: Seq<char>,
    /// What opens the text.
    pub left: Seq<char>,
    /// What closes the text.
    pub right: Seq<char>,
}

impl<T: DisplayText> SliceFormat<T> {
    /// The format of a slice for which no option was set.
    pub open spec fn of(items: Seq<T>) -> Self {
        SliceFormat { items, limit: None, separator: seq![','], left: seq!['['], right: seq![']'] }
    }

    /// The limit in force: the one that was set, or the default.
    pub open spec fn limit_in_force(self) -> nat {
        match self.limit {
            Some(n) => n as nat,
            None => DEFAULT_LIMIT as nat,
        }
    }

    /// The text of each element.
    pub open spec fn texts(self) -> Seq<Seq<char>> {
        self.items.map_values(|item: T| item.display_text())
    }

    /// The parts that are written.
    pub open spec fn selection(self) -> Seq<Piece> {
        selection(self.items.len(), self.limit_in_force())
    }

    /// The whole text: the parts that are written, joined by the separator,
    /// between the brackets.
    pub open spec fn text(self) -> Seq<char> {
        self.left + join(part_texts(self.texts(), self.limit_in_force()), self.separator) + self.right
    }
}

/// A borrowed slice together with the options for writing it.
pub struct DisplaySlice<'a, T: DisplayText> {
    slice: &'a [T],
    limit: Option<usize>,
    separator: &'a str,
    left_bracket: &'a str,
    right_bracket: &'a str,
}

impl<'a, T: DisplayText> View for DisplaySlice<'a, T> {
    type V = SliceFormat<T>;

    closed spec fn view(&self) -> SliceFormat<T> {
        SliceFormat {
            items: self.slice@,
            limit: self.limit,
            separator: self.separator@,
            left: self.left_bracket@,
            right: self.right_bracket@,
        }
    }
}

impl<'a, T: DisplayText> DisplaySlice<'a, T> {
    /// Wraps `slice` with no limit set, `,` as separator and `[` `]` as
    /// brackets.
    pub fn new(slice: &'a [T]) -> (shown: Self)
        ensures
            shown@ == SliceFormat::of(slice@),
    {
        proof {
            reveal_strlit(",");
            reveal_strlit("[");
            reveal_strlit("]");
        }
        let shown = DisplaySlice {
            slice,
            limit: None,
            separator: ",",
            left_bracket: "[",
            right_bracket: "]",
        };
        assert(shown@.separator =~= seq![',']);
        assert(shown@.left =~= seq!['[']);
        assert(shown@.right =~= seq![']']);
        shown
    }

    /// Sets the limit, or with `None` goes back to the default.
    pub fn at_most(self, limit: Option<usize>) -> (shown: Self)
        ensures
            shown@ == (SliceFormat { limit, ..self@ }),
    {
        DisplaySlice { limit, ..self }
    }

    /// Sets what is written between two parts.
    pub fn with_separator(self, separator: &'a str) -> (shown: Self)
        ensures
            shown@ == (SliceFormat { separator: separator@, ..self@ }),
    {
        DisplaySlice { separator, ..self }
    }

    /// Sets what opens and what closes the text.
    pub fn with_brackets(self, left: &'a str, right: &'a str) -> (shown: Self)
        ensures
            shown@ == (SliceFormat { left: left@, right: right@, ..self@ }),
    {
        DisplaySlice { left_bracket: left, right_bracket: right, ..self }
    }

    /// The limit in force: the one that was set, or [`DEFAULT_LIMIT`].
    pub fn limit(&self) -> (limit: usize)
        ensures
            limit == self@.limit_in_force(),
    {
        match self.limit {
            Some(n) => n,
            None => DEFAULT_LIMIT,
        }
    }

    /// Writes the slice: the text of its format. Only the elements that are
    /// written are asked for their text.
    pub fn to_string(&self) -> (out: String)
        ensures
            out@ == self@.text(),
    {
        let limit: usize = self.limit();
        let len: usize = self.slice.len();
        let ghost sep = self@.separator;
        let ghost texts = self@.texts();
        let ghost parts = part_texts(texts, limit as nat);
        let mut out = String::from_str(self.left_bracket);
        if limit == 0 {
            proof {
                reveal_strlit("..");
            }
            out.append("..");
            assert(parts =~= seq![ellipsis()]);
            assert(".."@ =~= ellipsis());
        } else if len > limit {
            let ghost leading = texts.take(limit - 1);
            let mut i: usize = 0;
            while i < limit - 1
                invariant
                    0 < limit < len,
                    len == self.slice@.len(),
                    i <= limit - 1,
                    sep == self@.separator,
                    texts == self@.texts(),
                    out@ == self@.left + each_followed_by(texts.take(i as int), sep),
                decreases limit - 1 - i,
            {
                let item = self.slice[i].display_string();
                out.append(item.as_str());
                out.append(self.separator);
                proof {
                    assert(texts.take(i + 1).drop_last() =~= texts.take(i as int));
                    assert(texts.take(i + 1).last() == item@);
                    assert(out@ =~= self@.left + each_followed_by(texts.take(i + 1), sep));
                }
                i += 1;
            }
            proof {
                reveal_strlit("..");
            }
            out.append("..");
            out.append(self.separator);
            let last = self.slice[len - 1].display_string();
            out.append(last.as_str());
            proof {
                let kept = leading.push(ellipsis());
                assert(parts =~= kept.push(last@));
                assert(kept.drop_last() =~= leading);
                assert(".."@ =~= ellipsis());
                lemma_join_push(kept, last@, sep);
                assert(out@ =~= self@.left + join(parts, sep));
            }
        } else {
            let mut i: usize = 0;
            while i < len
                invariant
                    len == self.slice@.len(),
                    i <= len,
                    sep == self@.separator,
                    texts == self@.texts(),
                    out@ == self@.left + join(texts.take(i as int), sep),
                decreases len - i,
            {
                if i > 0 {
                    out.append(self.separator);
                }
                let item = self.slice[i].display_string();
                out.append(item.as_str());
                proof {
                    assert(texts.take(i + 1).drop_last() =~= texts.take(i as int));
                    assert(texts.take(i + 1).last() == item@);
                    assert(out@ =~= self@.left + join(texts.take(i + 1), sep));
                }
                i += 1;
            }
            assert(texts.take(len as int) =~= texts);
            assert(parts =~= texts);
        }
        out.append(self.right_bracket);
        assert(out@ =~= self@.text());
        out
    }
}

/// Slices that can be shown with [`DisplaySlice`].
pub trait DisplaySliceExt<'a, T: DisplayText> {
    /// The elements of this sequence.
    spec fn elements(&self) -> Seq<T>;

    /// Wraps the elements with no option set.
    fn display(&'a self) -> (shown: DisplaySlice<'a, T>)
        ensures
            shown@ == SliceFormat::of(self.elements()),
    ;

    /// Wraps the elements with a limit of `n`.
    fn display_n(&'a self, n: usize) -> (shown: DisplaySlice<'a, T>)
        ensures
            shown@ == (SliceFormat { limit: Some(n), ..SliceFormat::of(self.elements()) }),
    {
        self.display().at_most(Some(n))
    }
}

impl<T: DisplayText> DisplaySliceExt<'_, T> for [T] {
    open spec fn elements(&self) -> Seq<T> {
        self@
    }

    fn display(&self) -> (shown: DisplaySlice<'_, T>) {
        DisplaySlice::new(self)
    }
}

/// A sequence no longer than a limit above zero is written whole: the parts
/// are its elements, each once and in order, with no mark among them, and
/// `n` elements have `n - 1` separators between them.
pub proof fn lemma_within_limit_writes_all<T: DisplayText>(format: SliceFormat<T>)
    requires
        0 < format.limit_in_force(),
        format.items.len() <= format.limit_in_force(),
    ensures
        format.selection() == Seq::new(format.items.len(), |i: int| Piece::Item(i)),
        part_texts(format.texts(), format.limit_in_force()) == format.texts(),
        format.text() == format.left + join(format.texts(), format.separator) + format.right,
        format.items.len() > 0 ==> format.text().len() == format.left.len() + total_len(
            format.texts(),
        ) + (format.items.len() - 1) * format.separator.len() + format.right.len(),
{
    let texts = format.texts();
    assert(part_texts(texts, format.limit_in_force()) =~= texts);
    lemma_join_len(texts, format.separator);
}

/// A sequence longer than a limit above zero is written as its first
/// `limit - 1` elements, the mark and its last element: `limit + 1` parts,
/// the leading ones and the mark each followed by one separator, `limit`
/// separators in all.
pub proof fn lemma_beyond_limit_elides_middle<T: DisplayText>(format: SliceFormat<T>)
    requires
        0 < format.limit_in_force() < format.items.len(),
    ensures
        format.selection().len() == format.limit_in_force() + 1,
        forall|i: int|
            0 <= i < format.limit_in_force() - 1 ==> format.selection()[i] == Piece::Item(i),
        format.selection()[format.limit_in_force() - 1] == Piece::Ellipsis,
        format.selection().last() == Piece::Item(format.items.len() - 1),
        format.text() == format.left + each_followed_by(
            format.texts().take(format.limit_in_force() - 1),
            format.separator,
        ) + ellipsis() + format.separator + format.texts().last() + format.right,
        format.text().len() == format.left.len() + total_len(
            format.texts().take(format.limit_in_force() - 1),
        ) + ellipsis().len() + format.texts().last().len() + format.limit_in_force()
            * format.separator.len() + format.right.len(),
{
    let limit = format.limit_in_force();
    let sep = format.separator;
    let texts = format.texts();
    let leading = texts.take(limit - 1);
    let kept = leading.push(ellipsis());
    assert(part_texts(texts, limit) =~= kept.push(texts.last()));
    assert(kept.drop_last() =~= leading);
    lemma_join_push(kept, texts.last(), sep);
    assert(format.text() =~= format.left + each_followed_by(leading, sep) + ellipsis() + sep
        + texts.last() + format.right);
    lemma_each_followed_by_len(leading, sep);
    assert(limit * sep.len() == (limit - 1) * sep.len() + sep.len()) by (nonlinear_arith);
}

/// With a limit of zero the text is the mark alone between the brackets,
/// whatever the elements and the separator are.
pub proof fn lemma_zero_limit_writes_mark_only<T: DisplayText>(format: SliceFormat<T>)
    requires
        format.limit_in_force() == 0,
    ensures
        format.selection() == seq![Piece::Ellipsis],
        format.text() == format.left + ellipsis() + format.right,
{
    assert(part_texts(format.texts(), 0) =~= seq![ellipsis()]);
}

/// An empty sequence under a limit above zero is written as the two
/// brackets with nothing between them.
pub proof fn lemma_empty_writes_brackets_only<T: DisplayText>(format: SliceFormat<T>)
    requires
        format.items.len() == 0,
        0 < format.limit_in_force(),
    ensures
        format.selection().len() == 0,
        format.text() == format.left + format.right,
{
    assert(part_texts(format.texts(), format.limit_in_force()).len() == 0);
    assert(format.text() =~= format.left + format.right);
}

/// The brackets and the separator have no say in which elements are written:
/// two formats of the same elements under the same limit select the same
/// parts, and the parts have the same texts.
pub proof fn lemma_selection_ignores_presentation<T: DisplayText>(
    one: SliceFormat<T>,
    other: SliceFormat<T>,
)
    requires
        one.items == other.items,
        one.limit == other.limit,
    ensures
        one.selection() == other.selection(),
        part_texts(one.texts(), one.limit_in_force()) == part_texts(other.texts(), other.limit_in_force()),
{
}

/// The options are independent: setting them in another order gives the
/// same format.
pub proof fn lemma_options_commute<T: DisplayText>(
    format: SliceFormat<T>,
    limit: Option<usize>,
    separator: Seq<char>,
    left: Seq<char>,
    right: Seq<char>,
)
    ensures
        (SliceFormat { limit, ..(SliceFormat { separator, ..format }) }) == (SliceFormat {
            separator,
            ..(SliceFormat { limit, ..format })
        }),
        (SliceFormat { limit, ..(SliceFormat { left, right, ..format }) }) == (SliceFormat {
            left,
            right,
            ..(SliceFormat { limit, ..format })
        }),
        (SliceFormat { separator, ..(SliceFormat { left, right, ..format }) }) == (SliceFormat {
            left,
            right,
            ..(SliceFormat { separator, ..format })
        }),
{
}

} // verus!
