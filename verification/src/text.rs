//! Text helpers: conversion of string arguments into owned strings, and
//! Unicode lower-casing, the basis of case-insensitive header names.

use vstd::prelude::*;

verus! {

/// Values that can be turned into an owned `String` without changing their
/// characters (`&str` and `String`).
pub trait IntoText: Sized {
    /// The characters of the value.
    spec fn text_view(&self) -> Seq<char>;

    /// Converts the value into an owned string with the same characters.
    fn into_text(self) -> (r: String)
        ensures
            r@ == self.text_view(),
    ;
}

impl<'a> IntoText for &'a str {
    open spec fn text_view(&self) -> Seq<char> {
        (*self)@
    }

    fn into_text(self) -> (r: String) {
        self.to_owned()
    }
}

impl<'a> IntoText for &'a String {
    open spec fn text_view(&self) -> Seq<char> {
        (**self)@
    }

    fn into_text(self) -> (r: String) {
        self.clone()
    }
}

impl<'a> IntoText for &'a mut str {
    open spec fn text_view(&self) -> Seq<char> {
        (**self)@
    }

    fn into_text(self) -> (r: String) {
        (&*self).to_owned()
    }
}

impl<'a> IntoText for std::borrow::Cow<'a, str> {
    open spec fn text_view(&self) -> Seq<char> {
        self@
    }

    fn into_text(self) -> (r: String) {
        match self {
            std::borrow::Cow::Borrowed(s) => s.to_owned(),
            std::borrow::Cow::Owned(s) => s,
        }
    }
}

impl IntoText for Box<str> {
    open spec fn text_view(&self) -> Seq<char> {
        (**self)@
    }

    fn into_text(self) -> (r: String) {
        (&*self).to_owned()
    }
}

impl IntoText for char {
    open spec fn text_view(&self) -> Seq<char> {
        seq![*self]
    }

    fn into_text(self) -> (r: String) {
        char_to_string(self)
    }
}

/// Calls `String::from` on a `char`, which gives the string holding just
/// that character.
#[verifier::external_body]
fn char_to_string(c: char) -> (r: String)
    ensures
        r@ == seq![c],
{
    String::from(c)
}

impl IntoText for String {
    open spec fn text_view(&self) -> Seq<char> {
        self@
    }

    fn into_text(self) -> (r: String) {
        self
    }
}

/// Whether every character of `s` is ASCII.
pub open spec fn is_ascii_text(s: Seq<char>) -> bool {
    forall|i: int| 0 <= i < s.len() ==> (#[trigger] s[i] as u32) < 128
}

/// `c` with `A`..`Z` turned into `a`..`z`; every other character is kept.
pub open spec fn ascii_lower_char(c: char) -> char {
    if 65 <= (c as u32) && (c as u32) <= 90 {
        ((c as u32) + 32) as char
    } else {
        c
    }
}

/// `c` with `a`..`z` turned into `A`..`Z`; every other character is kept.
pub open spec fn ascii_upper_char(c: char) -> char {
    if 97 <= (c as u32) && (c as u32) <= 122 {
        ((c as u32) - 32) as char
    } else {
        c
    }
}

/// `s` with its ASCII letters in lower case.
pub open spec fn ascii_lower(s: Seq<char>) -> Seq<char> {
    s.map_values(|c: char| ascii_lower_char(c))
}

/// `s` with its ASCII letters in upper case (what `str::to_ascii_uppercase`
/// gives).
pub open spec fn ascii_upper(s: Seq<char>) -> Seq<char> {
    s.map_values(|c: char| ascii_upper_char(c))
}

/// What `str::to_lowercase` returns for a string with the given characters:
/// the string lower-cased by Unicode's case mapping, in which a character may
/// map to several and a capital sigma maps by its context (final or not).
pub uninterp spec fn unicode_lowercase(s: Seq<char>) -> Seq<char>;

/// The lower-cased form of `s`: on ASCII text the letters `A`..`Z` become
/// `a`..`z` and nothing else changes; other text is mapped as Unicode
/// prescribes.
pub open spec fn lowercase(s: Seq<char>) -> Seq<char> {
    if is_ascii_text(s) {
        ascii_lower(s)
    } else {
        unicode_lowercase(s)
    }
}

/// Calls `str::to_lowercase`. The contract claims that the result is a
/// function of the characters of `s`, named by [`unicode_lowercase`], and,
/// as Unicode's case mapping gives for ASCII, that on ASCII text it turns
/// `A`..`Z` into `a`..`z` and keeps every other character. The mapping of
/// non-ASCII characters is left unstated.
#[verifier::external_body]
pub(crate) fn to_lowercase(s: &str) -> (r: String)
    ensures
        r@ == unicode_lowercase(s@),
        is_ascii_text(s@) ==> r@ == ascii_lower(s@),
{
    s.to_lowercase()
}

/// Two header names are the same name when their lower-cased forms agree.
pub open spec fn same_name(a: Seq<char>, b: Seq<char>) -> bool {
    lowercase(a) == lowercase(b)
}

} // verus!
