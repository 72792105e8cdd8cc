//! A cursor over a string slice with the search-and-split steps the log
//! parsers are built from.
pub mod error;

use crate::text::{
    bytes_of, find, lemma_find_props, matches_at, is_prefix, split_before, split_once, split_once_spec, starts_with, strip_prefix,
    trim_start, trim_start_bytes,
};
use error::{Error, ErrorSpec};
use vstd::prelude::*;
use vstd::utf8::*;
use vstd::string::*;

verus! {

broadcast use vstd::utf8::encode_utf8_valid_utf8, vstd::utf8::decode_utf8_encode_utf8, vstd::utf8::encode_utf8_decode_utf8;

/// The newline delimiter, as bytes.
pub open spec fn newline() -> Seq<u8> {
    bytes_of("\n")
}

/// What `take_until` / `split_once` gives: the text before the first
/// occurrence of `n` and the text after it.
pub open spec fn take_until_spec(h: Seq<u8>, n: Seq<u8>) -> Option<(Seq<u8>, Seq<u8>)> {
    split_once_spec(h, n)
}

/// What `take_until_exclusive` gives: the text before the first occurrence of
/// `n`, and the rest starting at that occurrence.
pub open spec fn take_until_exclusive_spec(h: Seq<u8>, n: Seq<u8>) -> Result<
    (Seq<u8>, Seq<u8>),
    ErrorSpec,
> {
    match find(h, n) {
        Some(k) => Ok((h.subrange(0, k), h.subrange(k, h.len() as int))),
        None => Err(ErrorSpec::DelimiterNotFound(n)),
    }
}

/// What `take_within` gives: the text between the first `open` and the first
/// `close` after it, and the rest after that `close`.
pub open spec fn take_within_spec(h: Seq<u8>, open: Seq<u8>, close: Seq<u8>) -> Result<
    (Seq<u8>, Seq<u8>),
    ErrorSpec,
> {
    match split_once_spec(h, open) {
        None => Err(ErrorSpec::DelimiterNotFound(open)),
        Some((_, r1)) => match split_once_spec(r1, close) {
            None => Err(ErrorSpec::DelimiterNotFound(close)),
            Some((data, r2)) => Ok((data, r2)),
        },
    }
}

/// What `take_within_exclusive` gives: like `take_within`, but the rest
/// starts at the closing delimiter.
pub open spec fn take_within_exclusive_spec(h: Seq<u8>, open: Seq<u8>, close: Seq<u8>) -> Result<
    (Seq<u8>, Seq<u8>),
    ErrorSpec,
> {
    match split_once_spec(h, open) {
        None => Err(ErrorSpec::DelimiterNotFound(open)),
        Some((_, r1)) => match take_until_exclusive_spec(r1, close) {
            Err(_) => Err(ErrorSpec::DelimiterNotFound(close)),
            Ok((data, r2)) => Ok((data, r2)),
        },
    }
}

/// The greatest character boundary of `h` at or below `k`.
pub open spec fn floor_boundary(h: Seq<u8>, k: int) -> int
    decreases k,
{
    if k <= 0 {
        0
    } else if k >= h.len() {
        h.len() as int
    } else if !is_continuation_byte(h[k]) {
        k
    } else {
        floor_boundary(h, k - 1)
    }
}

/// What `expect` gives: the rest after the expected text, or why it failed.
pub open spec fn expect_spec(h: Seq<u8>, e: Seq<u8>) -> Result<Seq<u8>, ErrorSpec> {
    if h.len() < e.len() {
        Err(ErrorSpec::NotEnoughData)
    } else if is_prefix(e, h) {
        Ok(h.subrange(e.len() as int, h.len() as int))
    } else {
        Err(ErrorSpec::Expected { expected: e, got: h.subrange(0, floor_boundary(h, e.len() as int)) })
    }
}

/// What `take_until_fallible` gives.
pub open spec fn take_until_fallible_spec(h: Seq<u8>, n: Seq<u8>) -> Result<
    (Seq<u8>, Seq<u8>),
    ErrorSpec,
> {
    match split_once_spec(h, n) {
        Some(p) => Ok(p),
        None => Err(ErrorSpec::DelimiterNotFound(n)),
    }
}

proof fn lemma_floor_boundary(h: Seq<u8>, k: int)
    requires
        valid_utf8(h),
        0 <= k <= h.len(),
    ensures
        0 <= floor_boundary(h, k) <= k,
        is_char_boundary(h, floor_boundary(h, k)),
    decreases k,
{
    if k <= 0 {
        reveal_with_fuel(is_char_boundary, 1);
    } else if k >= h.len() {
        is_char_boundary_start_end_of_seq(h);
    } else if !is_continuation_byte(h[k]) {
        is_char_boundary_iff_not_is_continuation_byte(h, k);
    } else {
        lemma_floor_boundary(h, k - 1);
    }
}

/// The standard library's error for bytes that are not valid UTF-8.
#[verifier::external_type_specification]
#[verifier::external_body]
pub struct ExUtf8Error(core::str::Utf8Error);

/// The newline delimiter is the single byte 10.
pub proof fn lemma_newline()
    ensures
        newline() == seq![10u8],
{
    reveal_strlit("\n");
    assert("\n"@ =~= seq!['\n']);
    reveal_with_fuel(encode_utf8, 2);
    assert(seq!['\n'].drop_first() =~= Seq::<char>::empty());
    assert(('\n' as u32) == 10);
    assert((10u32 & 0x7F) == 10u32) by (bit_vector);
    assert(encode_scalar('\n' as u32) =~= seq![10u8]);
    assert(encode_utf8(seq!['\n']) =~= seq![10u8]);
}

/// Taking up to a non-empty delimiter leaves strictly less text.
pub proof fn lemma_take_until_shrinks(h: Seq<u8>, n: Seq<u8>)
    requires
        n.len() > 0,
    ensures
        take_until_spec(h, n) matches Some((a, b)) ==> a.len() + n.len() + b.len() == h.len()
            && b.len() < h.len(),
{
    lemma_find_props(h, n);
}

/// `str::from_utf8`: the string slice whose bytes are `data`, when they are
/// valid UTF-8. The standard library documents that it fails exactly when the
/// bytes are not valid UTF-8 and otherwise borrows them unchanged.
#[verifier::external_body]
pub(crate) fn str_from_utf8<'a>(data: &'a [u8]) -> (r: Result<&'a str, core::str::Utf8Error>)
    ensures
        r is Ok <==> valid_utf8(data@),
        r matches Ok(s) ==> bytes_of(s) == data@,
{
    core::str::from_utf8(data)
}

/// An owned copy of a string slice.
pub fn to_string(s: &str) -> (r: String)
    ensures
        r@ == s@,
        encode_utf8(r@) == bytes_of(s),
{
    s.to_owned()
}

/// A type that can be read from a piece of text.
pub trait Parser<'a> {
    type Error;

    fn parse(data: &'a str) -> Result<Self, Self::Error> where Self: Sized;
}

/// A cursor over the text that is still to be read.
pub struct Tokenizer<'a>(&'a str);

impl<'a> View for Tokenizer<'a> {
    type V = Seq<u8>;

    /// The bytes that are still to be read.
    closed spec fn view(&self) -> Seq<u8> {
        bytes_of(self.0)
    }
}

impl<'a> Tokenizer<'a> {
    pub fn new(data: &'a str) -> (r: Self)
        ensures
            r@ == bytes_of(data),
    {
        Self(data)
    }

    /// A tokenizer over `data`, which must be valid UTF-8.
    pub fn from_bytes(data: &'a [u8]) -> (r: Result<Self, core::str::Utf8Error>)
        ensures
            r is Ok <==> valid_utf8(data@),
            r matches Ok(t) ==> t@ == data@,
    {
        let parsed = str_from_utf8(data)?;
        Ok(Self(parsed))
    }

    /// Drops the leading whitespace.
    pub fn skip_whitespace(&mut self)
        ensures
            final(self)@ == trim_start_bytes(old(self)@),
    {
        self.0 = trim_start(self.0);
    }

    pub fn is_empty(&self) -> (r: bool)
        ensures
            r == (self@.len() == 0),
    {
        self.0.as_bytes().len() == 0
    }

    /// Whether the remaining text starts with `prefix`; nothing is consumed.
    pub fn peek(&self, prefix: &str) -> (r: bool)
        ensures
            r == is_prefix(bytes_of(prefix), self@),
    {
        starts_with(self.0, prefix)
    }

    /// Consumes `expect`, which the remaining text must start with.
    pub fn expect(&mut self, expect: &str) -> (r: Result<(), Error>)
        ensures
            r is Ok <==> expect_spec(old(self)@, bytes_of(expect)) is Ok,
            r is Ok ==> final(self)@ == expect_spec(old(self)@, bytes_of(expect))->Ok_0,
            r matches Err(e) ==> {
                &&& expect_spec(old(self)@, bytes_of(expect)) == Err::<Seq<u8>, ErrorSpec>(e@)
                &&& final(self)@ == old(self)@
            },
    {
        let h = self.0.as_bytes();
        let n = expect.as_bytes().len();
        if h.len() < n {
            return Err(Error::NotEnoughData);
        }
        match strip_prefix(self.0, expect) {
            Some(rest) => {
                self.0 = rest;
                Ok(())
            },
            None => {
                let mut k = n;
                while k > 0 && k < h.len() && 0x80 <= h[k] && h[k] <= 0xbf
                    invariant
                        h@ == bytes_of(self.0),
                        k <= h.len(),
                        floor_boundary(h@, k as int) == floor_boundary(h@, n as int),
                    decreases k,
                {
                    k -= 1;
                }
                proof {
                    lemma_floor_boundary(h@, k as int);
                }
                let (got, _) = self.0.split_at(k);
                Err(Error::Expected { expected: to_string(expect), got: to_string(got) })
            },
        }
    }

    /// Takes the text before the first `needle`; the rest starts at it.
    pub fn take_until_exclusive(&mut self, needle: &str) -> (r: Result<&'a str, Error>)
        ensures
            r is Ok <==> take_until_exclusive_spec(old(self)@, bytes_of(needle)) is Ok,
            r matches Ok(d) ==> {
                let p = take_until_exclusive_spec(old(self)@, bytes_of(needle))->Ok_0;
                &&& bytes_of(d) == p.0
                &&& final(self)@ == p.1
            },
            r matches Err(e) ==> {
                &&& take_until_exclusive_spec(old(self)@, bytes_of(needle)) == Err::<
                    (Seq<u8>, Seq<u8>),
                    ErrorSpec,
                >(e@)
                &&& final(self)@ == old(self)@
            },
    {
        match split_before(self.0, needle) {
            Some((data, rest)) => {
                self.0 = rest;
                Ok(data)
            },
            None => Err(Error::DelimiterNotFound(to_string(needle))),
        }
    }

    /// Takes the text before the first `needle` and drops the needle.
    pub fn take_until(&mut self, needle: &str) -> (r: Option<&'a str>)
        ensures
            r is Some <==> take_until_spec(old(self)@, bytes_of(needle)) is Some,
            r matches Some(d) ==> {
                let p = take_until_spec(old(self)@, bytes_of(needle))->0;
                &&& bytes_of(d) == p.0
                &&& final(self)@ == p.1
            },
            r is None ==> final(self)@ == old(self)@,
    {
        let (data, rest) = split_once(self.0, needle)?;
        self.0 = rest;
        Some(data)
    }

    /// Like `take_until`, with a missing needle reported as an error.
    pub fn take_until_fallible(&mut self, needle: &str) -> (r: Result<&'a str, Error>)
        ensures
            r is Ok <==> take_until_fallible_spec(old(self)@, bytes_of(needle)) is Ok,
            r matches Ok(d) ==> {
                let p = take_until_fallible_spec(old(self)@, bytes_of(needle))->Ok_0;
                &&& bytes_of(d) == p.0
                &&& final(self)@ == p.1
            },
            r matches Err(e) ==> {
                &&& take_until_fallible_spec(old(self)@, bytes_of(needle)) == Err::<
                    (Seq<u8>, Seq<u8>),
                    ErrorSpec,
                >(e@)
                &&& final(self)@ == old(self)@
            },
    {
        match split_once(self.0, needle) {
            Some((data, rest)) => {
                self.0 = rest;
                Ok(data)
            },
            None => Err(Error::DelimiterNotFound(to_string(needle))),
        }
    }

    /// Takes the next line, without its newline.
    pub fn get_line(&mut self) -> (r: Option<&'a str>)
        ensures
            r is Some <==> take_until_spec(old(self)@, newline()) is Some,
            r matches Some(d) ==> {
                let p = take_until_spec(old(self)@, newline())->0;
                &&& bytes_of(d) == p.0
                &&& final(self)@ == p.1
            },
            r is None ==> final(self)@ == old(self)@,
    {
        self.take_until("\n")
    }

    /// The text before the first `needle`; nothing is consumed.
    pub fn peek_until(&mut self, needle: &str) -> (r: Option<&'a str>)
        ensures
            r is Some <==> take_until_spec(old(self)@, bytes_of(needle)) is Some,
            r matches Some(d) ==> bytes_of(d) == take_until_spec(
                old(self)@,
                bytes_of(needle),
            ).unwrap().0,
            final(self)@ == old(self)@,
    {
        let (data, _) = split_once(self.0, needle)?;
        Some(data)
    }

    /// The next line, without its newline; nothing is consumed.
    pub fn peek_line(&mut self) -> (r: Option<&'a str>)
        ensures
            r is Some <==> take_until_spec(old(self)@, newline()) is Some,
            r matches Some(d) ==> bytes_of(d) == take_until_spec(old(self)@, newline()).unwrap().0,
            final(self)@ == old(self)@,
    {
        self.peek_until("\n")
    }

    /// Takes the text between the first `open` and the first `close` after it.
    pub fn take_within(&mut self, open: &str, close: &str) -> (r: Result<&'a str, Error>)
        ensures
            r is Ok <==> take_within_spec(old(self)@, bytes_of(open), bytes_of(close)) is Ok,
            r matches Ok(d) ==> {
                let p = take_within_spec(old(self)@, bytes_of(open), bytes_of(close))->Ok_0;
                &&& bytes_of(d) == p.0
                &&& final(self)@ == p.1
            },
            r matches Err(e) ==> {
                &&& take_within_spec(old(self)@, bytes_of(open), bytes_of(close)) == Err::<
                    (Seq<u8>, Seq<u8>),
                    ErrorSpec,
                >(e@)
                &&& final(self)@ == old(self)@
            },
    {
        let rest = match split_once(self.0, open) {
            Some((_, rest)) => rest,
            None => return Err(Error::DelimiterNotFound(to_string(open))),
        };
        let (data, rest) = match split_once(rest, close) {
            Some(p) => p,
            None => return Err(Error::DelimiterNotFound(to_string(close))),
        };
        self.0 = rest;
        Ok(data)
    }

    /// Like `take_within`, but the rest starts at the closing delimiter.
    pub fn take_within_exclusive(&mut self, open: &str, close: &str) -> (r: Result<&'a str, Error>)
        ensures
            r is Ok <==> take_within_exclusive_spec(old(self)@, bytes_of(open), bytes_of(close)) is Ok,
            r matches Ok(d) ==> {
                let p = take_within_exclusive_spec(old(self)@, bytes_of(open), bytes_of(close))->Ok_0;
                &&& bytes_of(d) == p.0
                &&& final(self)@ == p.1
            },
            r matches Err(e) ==> {
                &&& take_within_exclusive_spec(old(self)@, bytes_of(open), bytes_of(close)) == Err::<
                    (Seq<u8>, Seq<u8>),
                    ErrorSpec,
                >(e@)
                &&& final(self)@ == old(self)@
            },
    {
        let rest = match split_once(self.0, open) {
            Some((_, rest)) => rest,
            None => return Err(Error::DelimiterNotFound(to_string(open))),
        };
        let (within, rest) = match split_before(rest, close) {
            Some(p) => p,
            None => return Err(Error::DelimiterNotFound(to_string(close))),
        };
        self.0 = rest;
        Ok(within)
    }

    /// The text that is still to be read, leaving the tokenizer where it is.
    pub fn rest(&self) -> (r: &'a str)
        ensures
            bytes_of(r) == self@,
    {
        self.0
    }

    /// The text that is still to be read.
    pub fn remaining(self) -> (r: &'a str)
        ensures
            bytes_of(r) == self@,
    {
        self.0
    }
}


/// What `take_until` takes, the needle and what is left make up the text.
pub proof fn lemma_take_until_reconstructs(h: Seq<u8>, n: Seq<u8>)
    ensures
        take_until_spec(h, n) matches Some((a, b)) ==> h == a + n + b,
{
    lemma_find_props(h, n);
    if let Some(k) = find(h, n) {
        assert(h =~= h.subrange(0, k) + n + h.subrange(k + n.len(), h.len() as int));
    }
}

/// What `expect` leaves is the text after the expected text.
pub proof fn lemma_expect_reconstructs(h: Seq<u8>, e: Seq<u8>)
    ensures
        expect_spec(h, e) matches Ok(r) ==> h == e + r,
{
    if let Ok(r) = expect_spec(h, e) {
        assert(h =~= e + r);
    }
}

/// What `take_until_exclusive` takes and what it leaves make up the text,
/// and what it leaves starts with the needle.
pub proof fn lemma_take_until_exclusive_reconstructs(h: Seq<u8>, n: Seq<u8>)
    ensures
        take_until_exclusive_spec(h, n) matches Ok((a, b)) ==> h == a + b && is_prefix(n, b),
{
    lemma_find_props(h, n);
    if let Some(k) = find(h, n) {
        assert(h =~= h.subrange(0, k) + h.subrange(k, h.len() as int));
        assert(h.subrange(k, h.len() as int).subrange(0, n.len() as int) =~= h.subrange(k, k + n.len()));
    }
}

} // verus!
