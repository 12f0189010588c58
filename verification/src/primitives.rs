//! The texts of the built-in types.
//!
//! Integers are written in decimal notation, in both styles. Strings are
//! written as they are for end users, and as Rust's `Debug` formatting writes
//! them for diagnostics. A list is written for diagnostics as its elements
//! between `[` and `]`, with `, ` between each two.

use vstd::prelude::*;
use vstd::string::*;
use crate::decimal::{decimal, signed_decimal, signed_to_string, unsigned_to_string};
use crate::text::{join, DebugText, DisplayText};

verus! {

/// What `true` and `false` are written as.
pub open spec fn bool_text(value: bool) -> Seq<char> {
    if value {
        seq!['t', 'r', 'u', 'e']
    } else {
        seq!['f', 'a', 'l', 's', 'e']
    }
}

/// Writes `true` or `false`.
fn bool_to_string(value: bool) -> (out: String)
    ensures
        out@ == bool_text(value),
{
    proof {
        reveal_strlit("true");
        reveal_strlit("false");
    }
    let out = if value {
        String::from_str("true")
    } else {
        String::from_str("false")
    };
    assert(out@ =~= bool_text(value));
    out
}

/// What the `Debug` formatting of `str` writes for a string with the
/// characters `s`: the string between double quotes, with escapes for the
/// characters that could not stand in a string literal as they are.
pub uninterp spec fn str_debug_text(s: Seq<char>) -> Seq<char>;

/// The `Debug` formatting of `str` in std. Assumed: what it writes depends on
/// the characters of the string alone.
#[verifier::external_body]
fn debug_str(s: &str) -> (out: String)
    ensures
        out@ == str_debug_text(s@),
{
    format!("{:?}", s)
}

/// What a list is written as for diagnostics, given the texts of its
/// elements.
pub open spec fn list_debug_text(texts: Seq<Seq<char>>) -> Seq<char> {
    seq!['['] + join(texts, seq![',', ' ']) + seq![']']
}

impl DisplayText for bool {
    open spec fn display_text(&self) -> Seq<char> {
        bool_text(*self)
    }

    fn display_string(&self) -> (out: String) {
        bool_to_string(*self)
    }
}

impl DebugText for bool {
    open spec fn debug_text(&self) -> Seq<char> {
        bool_text(*self)
    }

    fn debug_string(&self) -> (out: String) {
        bool_to_string(*self)
    }
}

impl DisplayText for str {
    open spec fn display_text(&self) -> Seq<char> {
        self@
    }

    fn display_string(&self) -> (out: String) {
        String::from_str(self)
    }
}

impl DebugText for str {
    open spec fn debug_text(&self) -> Seq<char> {
        str_debug_text(self@)
    }

    fn debug_string(&self) -> (out: String) {
        debug_str(self)
    }
}

impl DisplayText for String {
    open spec fn display_text(&self) -> Seq<char> {
        self@
    }

    fn display_string(&self) -> (out: String) {
        self.clone()
    }
}

impl DebugText for String {
    open spec fn debug_text(&self) -> Seq<char> {
        str_debug_text(self@)
    }

    fn debug_string(&self) -> (out: String) {
        debug_str(self.as_str())
    }
}

impl<'a, T: DisplayText + ?Sized> DisplayText for &'a T {
    open spec fn display_text(&self) -> Seq<char> {
        (**self).display_text()
    }

    fn display_string(&self) -> (out: String) {
        (**self).display_string()
    }
}

impl<'a, T: DebugText + ?Sized> DebugText for &'a T {
    open spec fn debug_text(&self) -> Seq<char> {
        (**self).debug_text()
    }

    fn debug_string(&self) -> (out: String) {
        (**self).debug_string()
    }
}

impl<T: DebugText> DebugText for [T] {
    open spec fn debug_text(&self) -> Seq<char> {
        list_debug_text(self@.map_values(|item: T| item.debug_text()))
    }

    fn debug_string(&self) -> (out: String) {
        proof {
            reveal_strlit("[");
            reveal_strlit(", ");
            reveal_strlit("]");
        }
        let ghost sep = seq![',', ' '];
        let ghost texts = self@.map_values(|item: T| item.debug_text());
        let len: usize = self.len();
        let mut out = String::from_str("[");
        let mut i: usize = 0;
        while i < len
            invariant
                len == self@.len(),
                i <= len,
                sep == seq![',', ' '],
                ", "@ == sep,
                texts == self@.map_values(|item: T| item.debug_text()),
                out@ == seq!['['] + join(texts.take(i as int), sep),
            decreases len - i,
        {
            if i > 0 {
                out.append(", ");
            }
            let item = self[i].debug_string();
            out.append(item.as_str());
            proof {
                assert(texts.take(i + 1).drop_last() =~= texts.take(i as int));
                assert(texts.take(i + 1).last() == item@);
                assert(out@ =~= seq!['['] + join(texts.take(i + 1), sep));
            }
            i += 1;
        }
        out.append("]");
        assert(texts.take(len as int) =~= texts);
        assert(out@ =~= self.debug_text());
        out
    }
}

impl<T: DebugText> DebugText for Vec<T> {
    open spec fn debug_text(&self) -> Seq<char> {
        list_debug_text(self@.map_values(|item: T| item.debug_text()))
    }

    fn debug_string(&self) -> (out: String) {
        self.as_slice().debug_string()
    }
}

impl DisplayText for u8 {
    open spec fn display_text(&self) -> Seq<char> {
        decimal(*self as nat)
    }

    fn display_string(&self) -> (out: String) {
        unsigned_to_string(*self as u128)
    }
}

impl DebugText for u8 {
    open spec fn debug_text(&self) -> Seq<char> {
        decimal(*self as nat)
    }

    fn debug_string(&self) -> (out: String) {
        unsigned_to_string(*self as u128)
    }
}

impl DisplayText for u16 {
    open spec fn display_text(&self) -> Seq<char> {
        decimal(*self as nat)
    }

    fn display_string(&self) -> (out: String) {
        unsigned_to_string(*self as u128)
    }
}

impl DebugText for u16 {
    open spec fn debug_text(&self) -> Seq<char> {
        decimal(*self as nat)
    }

    fn debug_string(&self) -> (out: String) {
        unsigned_to_string(*self as u128)
    }
}

impl DisplayText for u32 {
    open spec fn display_text(&self) -> Seq<char> {
        decimal(*self as nat)
    }

    fn display_string(&self) -> (out: String) {
        unsigned_to_string(*self as u128)
    }
}

impl DebugText for u32 {
    open spec fn debug_text(&self) -> Seq<char> {
        decimal(*self as nat)
    }

    fn debug_string(&self) -> (out: String) {
        unsigned_to_string(*self as u128)
    }
}

impl DisplayText for u64 {
    open spec fn display_text(&self) -> Seq<char> {
        decimal(*self as nat)
    }

    fn display_string(&self) -> (out: String) {
        unsigned_to_string(*self as u128)
    }
}

impl DebugText for u64 {
    open spec fn debug_text(&self) -> Seq<char> {
        decimal(*self as nat)
    }

    fn debug_string(&self) -> (out: String) {
        unsigned_to_string(*self as u128)
    }
}

impl DisplayText for u128 {
    open spec fn display_text(&self) -> Seq<char> {
        decimal(*self as nat)
    }

    fn display_string(&self) -> (out: String) {
        unsigned_to_string(*self)
    }
}

impl DebugText for u128 {
    open spec fn debug_text(&self) -> Seq<char> {
        decimal(*self as nat)
    }

    fn debug_string(&self) -> (out: String) {
        unsigned_to_string(*self)
    }
}

impl DisplayText for usize {
    open spec fn display_text(&self) -> Seq<char> {
        decimal(*self as nat)
    }

    fn display_string(&self) -> (out: String) {
        unsigned_to_string(*self as u128)
    }
}

impl DebugText for usize {
    open spec fn debug_text(&self) -> Seq<char> {
        decimal(*self as nat)
    }

    fn debug_string(&self) -> (out: String) {
        unsigned_to_string(*self as u128)
    }
}

impl DisplayText for i8 {
    open spec fn display_text(&self) -> Seq<char> {
        signed_decimal(*self as int)
    }

    fn display_string(&self) -> (out: String) {
        signed_to_string(*self as i128)
    }
}

impl DebugText for i8 {
    open spec fn debug_text(&self) -> Seq<char> {
        signed_decimal(*self as int)
    }

    fn debug_string(&self) -> (out: String) {
        signed_to_string(*self as i128)
    }
}

impl DisplayText for i16 {
    open spec fn display_text(&self) -> Seq<char> {
        signed_decimal(*self as int)
    }

    fn display_string(&self) -> (out: String) {
        signed_to_string(*self as i128)
    }
}

impl DebugText for i16 {
    open spec fn debug_text(&self) -> Seq<char> {
        signed_decimal(*self as int)
    }

    fn debug_string(&self) -> (out: String) {
        signed_to_string(*self as i128)
    }
}

impl DisplayText for i32 {
    open spec fn display_text(&self) -> Seq<char> {
        signed_decimal(*self as int)
    }

    fn display_string(&self) -> (out: String) {
        signed_to_string(*self as i128)
    }
}

impl DebugText for i32 {
    open spec fn debug_text(&self) -> Seq<char> {
        signed_decimal(*self as int)
    }

    fn debug_string(&self) -> (out: String) {
        signed_to_string(*self as i128)
    }
}

impl DisplayText for i64 {
    open spec fn display_text(&self) -> Seq<char> {
        signed_decimal(*self as int)
    }

    fn display_string(&self) -> (out: String) {
        signed_to_string(*self as i128)
    }
}

impl DebugText for i64 {
    open spec fn debug_text(&self) -> Seq<char> {
        signed_decimal(*self as int)
    }

    fn debug_string(&self) -> (out: String) {
        signed_to_string(*self as i128)
    }
}

impl DisplayText for i128 {
    open spec fn display_text(&self) -> Seq<char> {
        signed_decimal(*self as int)
    }

    fn display_string(&self) -> (out: String) {
        signed_to_string(*self)
    }
}

impl DebugText for i128 {
    open spec fn debug_text(&self) -> Seq<char> {
        signed_decimal(*self as int)
    }

    fn debug_string(&self) -> (out: String) {
        signed_to_string(*self)
    }
}

impl DisplayText for isize {
    open spec fn display_text(&self) -> Seq<char> {
        signed_decimal(*self as int)
    }

    fn display_string(&self) -> (out: String) {
        signed_to_string(*self as i128)
    }
}

impl DebugText for isize {
    open spec fn debug_text(&self) -> Seq<char> {
        signed_decimal(*self as int)
    }

    fn debug_string(&self) -> (out: String) {
        signed_to_string(*self as i128)
    }
}

} // verus!
