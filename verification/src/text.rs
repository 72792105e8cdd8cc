//! Byte-level operations on string slices.
//!
//! Every specification here speaks of the UTF-8 bytes of a string slice
//! (`s.spec_bytes()`), which is how the standard library's searching and
//! splitting functions see a `str`.
use vstd::prelude::*;
use vstd::utf8::*;
use vstd::string::*;

verus! {

broadcast use vstd::utf8::encode_utf8_valid_utf8;

/// The UTF-8 bytes of a string slice.
pub open spec fn bytes_of(s: &str) -> Seq<u8> {
    s.spec_bytes()
}

/// `needle` occurs in `hay` starting at byte `i`.
pub open spec fn matches_at(hay: Seq<u8>, needle: Seq<u8>, i: int) -> bool {
    &&& 0 <= i
    &&& i + needle.len() <= hay.len()
    &&& hay.subrange(i, i + needle.len()) == needle
}

/// The first position at or after `i` where `needle` occurs in `hay`.
pub open spec fn find_from(hay: Seq<u8>, needle: Seq<u8>, i: int) -> Option<int>
    decreases hay.len() + 1 - i,
{
    if i < 0 || i + needle.len() > hay.len() {
        None
    } else if matches_at(hay, needle, i) {
        Some(i)
    } else {
        find_from(hay, needle, i + 1)
    }
}

/// The first position where `needle` occurs in `hay`, as `str::find` reports it.
pub open spec fn find(hay: Seq<u8>, needle: Seq<u8>) -> Option<int> {
    find_from(hay, needle, 0)
}

pub proof fn lemma_find_from_props(hay: Seq<u8>, needle: Seq<u8>, i: int)
    requires
        0 <= i,
    ensures
        find_from(hay, needle, i) matches Some(k) ==> {
            &&& i <= k
            &&& matches_at(hay, needle, k)
            &&& forall|j: int| i <= j < k ==> !matches_at(hay, needle, j)
        },
        find_from(hay, needle, i) is None ==> forall|j: int| i <= j ==> !matches_at(hay, needle, j),
    decreases hay.len() + 1 - i,
{
    if i + needle.len() > hay.len() {
    } else if matches_at(hay, needle, i) {
    } else {
        lemma_find_from_props(hay, needle, i + 1);
    }
}

/// The first occurrence is the least position where the needle occurs.
pub proof fn lemma_find_props(hay: Seq<u8>, needle: Seq<u8>)
    ensures
        find(hay, needle) matches Some(k) ==> {
            &&& matches_at(hay, needle, k)
            &&& forall|j: int| 0 <= j < k ==> !matches_at(hay, needle, j)
        },
        find(hay, needle) is None ==> forall|j: int| !matches_at(hay, needle, j),
{
    lemma_find_from_props(hay, needle, 0);
}

/// Byte position of the first occurrence of `needle` in `hay`.
pub fn find_bytes(hay: &[u8], needle: &[u8]) -> (r: Option<usize>)
    ensures
        r matches Some(k) ==> find(hay@, needle@) == Some(k as int),
        r is None ==> find(hay@, needle@) is None,
{
    let n = needle.len();
    let h = hay.len();
    if n > h {
        return None;
    }
    let mut i: usize = 0;
    while i <= h - n
        invariant
            n == needle@.len(),
            h == hay@.len(),
            n <= h,
            i <= h - n + 1,
            find(hay@, needle@) == find_from(hay@, needle@, i as int),
        decreases h - n + 1 - i,
    {
        let mut j: usize = 0;
        while j < n && hay[i + j] == needle[j]
            invariant
                n == needle@.len(),
                h == hay@.len(),
                i + n <= h,
                j <= n,
                forall|k: int| 0 <= k < j ==> hay@[i + k] == needle@[k],
            decreases n - j,
        {
            j += 1;
        }
        if j == n {
            assert(hay@.subrange(i as int, i + n) =~= needle@);
            return Some(i);
        }
        assert(hay@.subrange(i as int, i + n)[j as int] != needle@[j as int]);
        i += 1;
    }
    None
}

/// The first byte of a valid UTF-8 encoding with at least one byte is not a
/// continuation byte, so a needle match starts on a character boundary.
pub proof fn lemma_match_start_is_boundary(hay: Seq<u8>, needle: Seq<u8>, i: int)
    requires
        valid_utf8(hay),
        valid_utf8(needle),
        matches_at(hay, needle, i),
        needle.len() > 0 || i == 0,
    ensures
        is_char_boundary(hay, i),
{
    reveal_with_fuel(is_char_boundary, 1);
    if i != 0 {
        assert(hay[i] == needle[0]) by {
            assert(hay.subrange(i, i + needle.len())[0] == needle[0]);
        }
        assert(valid_first_scalar(needle));
        is_char_boundary_iff_not_is_continuation_byte(hay, i);
    }
}

/// Splitting a valid UTF-8 sequence right after a valid UTF-8 prefix
/// happens on a character boundary.
pub proof fn lemma_prefix_end_is_boundary(a: Seq<u8>, r: Seq<u8>)
    requires
        valid_utf8(a),
        valid_utf8(a + r),
    ensures
        is_char_boundary(a + r, a.len() as int),
    decreases a.len(),
{
    let h = a + r;
    if a.len() == 0 {
        reveal_with_fuel(is_char_boundary, 1);
    } else {
        assert(valid_first_scalar(a));
        assert(h[0] == a[0]);
        assert(valid_first_scalar(h));
        let l = length_of_first_scalar(a);
        assert(length_of_first_scalar(h) == l);
        assert(pop_first_scalar(h) =~= pop_first_scalar(a) + r);
        assert(valid_utf8(pop_first_scalar(a)));
        assert(valid_utf8(pop_first_scalar(h)));
        lemma_prefix_end_is_boundary(pop_first_scalar(a), r);
        assert(pop_first_scalar(a).len() == a.len() - l);
        reveal_with_fuel(is_char_boundary, 2);
    }
}

/// `p` is a prefix of `h`.
pub open spec fn is_prefix(p: Seq<u8>, h: Seq<u8>) -> bool {
    p.len() <= h.len() && h.subrange(0, p.len() as int) == p
}

/// `p` is a suffix of `h`.
pub open spec fn is_suffix(p: Seq<u8>, h: Seq<u8>) -> bool {
    p.len() <= h.len() && h.subrange(h.len() - p.len(), h.len() as int) == p
}

/// `str::split_once`: the parts before and after the first occurrence.
pub open spec fn split_once_spec(h: Seq<u8>, n: Seq<u8>) -> Option<(Seq<u8>, Seq<u8>)> {
    match find(h, n) {
        Some(k) => Some((h.subrange(0, k), h.subrange(k + n.len(), h.len() as int))),
        None => None,
    }
}

/// Position of the first occurrence of `needle` in `s`, in bytes.
pub fn str_find(s: &str, needle: &str) -> (r: Option<usize>)
    ensures
        r matches Some(k) ==> find(bytes_of(s), bytes_of(needle)) == Some(k as int),
        r is None ==> find(bytes_of(s), bytes_of(needle)) is None,
{
    find_bytes(s.as_bytes(), needle.as_bytes())
}

/// Splits `s` at the first occurrence of `needle`, keeping the needle at the
/// front of the second part.
pub fn split_before<'a>(s: &'a str, needle: &str) -> (r: Option<(&'a str, &'a str)>)
    ensures
        r is Some <==> find(bytes_of(s), bytes_of(needle)) is Some,
        r matches Some((a, b)) ==> {
            let k = find(bytes_of(s), bytes_of(needle))->0;
            &&& bytes_of(a) == bytes_of(s).subrange(0, k)
            &&& bytes_of(b) == bytes_of(s).subrange(k, bytes_of(s).len() as int)
        },
{
    match str_find(s, needle) {
        None => None,
        Some(k) => {
            proof {
                lemma_find_props(bytes_of(s), bytes_of(needle));
                if bytes_of(needle).len() == 0 {
                    assert(bytes_of(s).subrange(0, 0) =~= bytes_of(needle));
                    assert(matches_at(bytes_of(s), bytes_of(needle), 0));
                }
                lemma_match_start_is_boundary(bytes_of(s), bytes_of(needle), k as int);
            }
            let (a, b) = s.split_at(k);
            Some((a, b))
        },
    }
}

/// `str::split_once`.
pub fn split_once<'a>(s: &'a str, needle: &str) -> (r: Option<(&'a str, &'a str)>)
    ensures
        r is Some <==> split_once_spec(bytes_of(s), bytes_of(needle)) is Some,
        r matches Some((a, b)) ==> split_once_spec(bytes_of(s), bytes_of(needle)) == Some(
            (bytes_of(a), bytes_of(b)),
        ),
{
    match split_before(s, needle) {
        None => None,
        Some((a, b)) => {
            let ghost h = bytes_of(s);
            let ghost n = bytes_of(needle);
            let ghost k = find(h, n)->0;
            proof {
                lemma_find_props(h, n);
                assert(bytes_of(b) =~= n + h.subrange(k + n.len(), h.len() as int));
                lemma_prefix_end_is_boundary(n, h.subrange(k + n.len(), h.len() as int));
            }
            let (_, c) = b.split_at(needle.as_bytes().len());
            proof {
                assert(bytes_of(c) =~= h.subrange(k + n.len(), h.len() as int));
            }
            Some((a, c))
        },
    }
}

/// `str::starts_with` for a string pattern.
pub fn starts_with(s: &str, prefix: &str) -> (r: bool)
    ensures
        r == is_prefix(bytes_of(prefix), bytes_of(s)),
{
    bytes_start_with(s.as_bytes(), prefix.as_bytes())
}

/// `<[u8]>::starts_with`.
pub fn bytes_start_with(h: &[u8], p: &[u8]) -> (r: bool)
    ensures
        r == is_prefix(p@, h@),
{
    if p.len() > h.len() {
        return false;
    }
    let mut j: usize = 0;
    while j < p.len() && h[j] == p[j]
        invariant
            p.len() <= h.len(),
            j <= p.len(),
            forall|k: int| 0 <= k < j ==> h@[k] == p@[k],
        decreases p.len() - j,
    {
        j += 1;
    }
    if j == p.len() {
        assert(h@.subrange(0, p.len() as int) =~= p@);
        true
    } else {
        assert(h@.subrange(0, p.len() as int)[j as int] != p@[j as int]);
        false
    }
}

/// `str::ends_with` for a string pattern.
pub fn ends_with(s: &str, suffix: &str) -> (r: bool)
    ensures
        r == is_suffix(bytes_of(suffix), bytes_of(s)),
{
    let h = s.as_bytes();
    let p = suffix.as_bytes();
    if p.len() > h.len() {
        return false;
    }
    let off = h.len() - p.len();
    let mut j: usize = 0;
    while j < p.len() && h[off + j] == p[j]
        invariant
            h@ == bytes_of(s),
            p@ == bytes_of(suffix),
            off + p.len() == h.len(),
            j <= p.len(),
            forall|k: int| 0 <= k < j ==> h@[off + k] == p@[k],
        decreases p.len() - j,
    {
        j += 1;
    }
    if j == p.len() {
        assert(h@.subrange(off as int, h.len() as int) =~= p@);
        true
    } else {
        assert(h@.subrange(off as int, h.len() as int)[j as int] != p@[j as int]);
        false
    }
}

/// `str::strip_prefix` for a string pattern.
pub fn strip_prefix<'a>(s: &'a str, prefix: &str) -> (r: Option<&'a str>)
    ensures
        r is Some <==> is_prefix(bytes_of(prefix), bytes_of(s)),
        r matches Some(rest) ==> bytes_of(rest) == bytes_of(s).subrange(
            bytes_of(prefix).len() as int,
            bytes_of(s).len() as int,
        ),
{
    if starts_with(s, prefix) {
        let ghost h = bytes_of(s);
        let ghost p = bytes_of(prefix);
        proof {
            assert(h =~= p + h.subrange(p.len() as int, h.len() as int));
            lemma_prefix_end_is_boundary(p, h.subrange(p.len() as int, h.len() as int));
        }
        let (_, rest) = s.split_at(prefix.as_bytes().len());
        Some(rest)
    } else {
        None
    }
}

/// Byte-wise equality of two string slices (`==` on `str`).
pub fn str_eq(a: &str, b: &str) -> (r: bool)
    ensures
        r == (bytes_of(a) == bytes_of(b)),
        r == (a@ == b@),
{
    broadcast use vstd::utf8::encode_utf8_decode_utf8;

    if a.as_bytes().len() != b.as_bytes().len() {
        return false;
    }
    let r = starts_with(a, b);
    proof {
        assert(bytes_of(a).subrange(0, bytes_of(a).len() as int) =~= bytes_of(a));
        assert(vstd::utf8::decode_utf8(bytes_of(a)) == a@);
        assert(vstd::utf8::decode_utf8(bytes_of(b)) == b@);
    }
    r
}

/// `str::contains` for a string pattern.
pub fn contains(s: &str, needle: &str) -> (r: bool)
    ensures
        r == find(bytes_of(s), bytes_of(needle)) is Some,
{
    str_find(s, needle).is_some()
}

/// Length in bytes of the UTF-8 encoding of a Unicode `White_Space` character
/// (what `char::is_whitespace` accepts) at the start of `h`, or 0 when `h`
/// does not start with one.
pub open spec fn leading_ws_len(h: Seq<u8>) -> int {
    if h.len() >= 1 && ((9 <= h[0] && h[0] <= 13) || h[0] == 32) {
        1
    } else if h.len() >= 2 && h[0] == 0xc2 && (h[1] == 0x85 || h[1] == 0xa0) {
        2
    } else if h.len() >= 3 && ((h[0] == 0xe1 && h[1] == 0x9a && h[2] == 0x80) || (h[0] == 0xe2
        && h[1] == 0x80 && ((0x80 <= h[2] && h[2] <= 0x8a) || h[2] == 0xa8 || h[2] == 0xa9
        || h[2] == 0xaf)) || (h[0] == 0xe2 && h[1] == 0x81 && h[2] == 0x9f) || (h[0] == 0xe3
        && h[1] == 0x80 && h[2] == 0x80)) {
        3
    } else {
        0
    }
}

/// Length in bytes of the UTF-8 encoding of a whitespace character at the end
/// of `h`, or 0.
pub open spec fn trailing_ws_len(h: Seq<u8>) -> int {
    let n = h.len() as int;
    if n >= 1 && ((9 <= h[n - 1] && h[n - 1] <= 13) || h[n - 1] == 32) {
        1
    } else if n >= 2 && h[n - 2] == 0xc2 && (h[n - 1] == 0x85 || h[n - 1] == 0xa0) {
        2
    } else if n >= 3 && leading_ws_len(h.subrange(n - 3, n)) == 3 {
        3
    } else {
        0
    }
}

/// `str::trim_start`: drops the leading whitespace characters.
pub open spec fn trim_start_bytes(h: Seq<u8>) -> Seq<u8>
    decreases h.len(),
{
    if leading_ws_len(h) > 0 {
        trim_start_bytes(h.subrange(leading_ws_len(h), h.len() as int))
    } else {
        h
    }
}

/// `str::trim_end`: drops the trailing whitespace characters.
pub open spec fn trim_end_bytes(h: Seq<u8>) -> Seq<u8>
    decreases h.len(),
{
    if trailing_ws_len(h) > 0 {
        trim_end_bytes(h.subrange(0, h.len() - trailing_ws_len(h)))
    } else {
        h
    }
}

/// `str::trim`: drops the leading and the trailing whitespace characters.
pub open spec fn trim_bytes(h: Seq<u8>) -> Seq<u8> {
    trim_end_bytes(trim_start_bytes(h))
}

/// Dropping leading whitespace never lengthens the text.
pub proof fn lemma_trim_start_len(h: Seq<u8>)
    ensures
        trim_start_bytes(h).len() <= h.len(),
    decreases h.len(),
{
    if leading_ws_len(h) > 0 {
        lemma_trim_start_len(h.subrange(leading_ws_len(h), h.len() as int));
    }
}

/// What `split_once` gives is as long as the text without the needle.
pub broadcast proof fn lemma_split_once_len(h: Seq<u8>, n: Seq<u8>)
    ensures
        #[trigger] split_once_spec(h, n) matches Some((a, b)) ==> a.len() + n.len() + b.len() == h.len(),
{
    lemma_find_props(h, n);
}

/// Dropping leading whitespace never lengthens the text.
pub broadcast proof fn lemma_trim_start_shorter(h: Seq<u8>)
    ensures
        #[trigger] trim_start_bytes(h).len() <= h.len(),
{
    lemma_trim_start_len(h);
}

/// A non-empty string slice has at least one byte.
pub proof fn lemma_nonempty_bytes(s: &str)
    requires
        s@.len() > 0,
    ensures
        bytes_of(s).len() > 0,
{
    reveal_with_fuel(encode_utf8, 1);
}

proof fn lemma_leading_ws_boundary(h: Seq<u8>)
    requires
        valid_utf8(h),
        leading_ws_len(h) > 0,
    ensures
        is_char_boundary(h, leading_ws_len(h)),
{
    assert(valid_first_scalar(h));
    assert(length_of_first_scalar(h) == leading_ws_len(h));
    reveal_with_fuel(is_char_boundary, 2);
}

proof fn lemma_trailing_ws_boundary(h: Seq<u8>)
    requires
        valid_utf8(h),
        trailing_ws_len(h) > 0,
    ensures
        is_char_boundary(h, h.len() - trailing_ws_len(h)),
{
    let n = h.len() as int;
    let l = trailing_ws_len(h);
    if l == 3 {
        assert(h.subrange(n - 3, n)[0] == h[n - 3]);
    }
    is_char_boundary_iff_not_is_continuation_byte(h, n - l);
}

/// `str::trim_start`.
pub fn trim_start<'a>(s: &'a str) -> (r: &'a str)
    ensures
        bytes_of(r) == trim_start_bytes(bytes_of(s)),
{
    let mut cur = s;
    loop
        invariant
            trim_start_bytes(bytes_of(cur)) == trim_start_bytes(bytes_of(s)),
        decreases bytes_of(cur).len(),
    {
        let h = cur.as_bytes();
        let n = h.len();
        let l: usize = if n >= 1 && ((9 <= h[0] && h[0] <= 13) || h[0] == 32) {
            1
        } else if n >= 2 && h[0] == 0xc2 && (h[1] == 0x85 || h[1] == 0xa0) {
            2
        } else if n >= 3 && ((h[0] == 0xe1 && h[1] == 0x9a && h[2] == 0x80) || (h[0] == 0xe2
            && h[1] == 0x80 && ((0x80 <= h[2] && h[2] <= 0x8a) || h[2] == 0xa8 || h[2] == 0xa9
            || h[2] == 0xaf)) || (h[0] == 0xe2 && h[1] == 0x81 && h[2] == 0x9f) || (h[0] == 0xe3
            && h[1] == 0x80 && h[2] == 0x80)) {
            3
        } else {
            0
        };
        assert(l == leading_ws_len(h@));
        if l == 0 {
            return cur;
        }
        proof {
            lemma_leading_ws_boundary(h@);
        }
        let (_, rest) = cur.split_at(l);
        cur = rest;
    }
}

/// `str::trim_end`.
pub fn trim_end<'a>(s: &'a str) -> (r: &'a str)
    ensures
        bytes_of(r) == trim_end_bytes(bytes_of(s)),
{
    let mut cur = s;
    loop
        invariant
            trim_end_bytes(bytes_of(cur)) == trim_end_bytes(bytes_of(s)),
        decreases bytes_of(cur).len(),
    {
        let h = cur.as_bytes();
        let n = h.len();
        let l: usize = if n >= 1 && ((9 <= h[n - 1] && h[n - 1] <= 13) || h[n - 1] == 32) {
            1
        } else if n >= 2 && h[n - 2] == 0xc2 && (h[n - 1] == 0x85 || h[n - 1] == 0xa0) {
            2
        } else if n >= 3 && ((h[n - 3] == 0xe1 && h[n - 2] == 0x9a && h[n - 1] == 0x80) || (h[n
            - 3] == 0xe2 && h[n - 2] == 0x80 && ((0x80 <= h[n - 1] && h[n - 1] <= 0x8a) || h[n
            - 1] == 0xa8 || h[n - 1] == 0xa9 || h[n - 1] == 0xaf)) || (h[n - 3] == 0xe2 && h[n
            - 2] == 0x81 && h[n - 1] == 0x9f) || (h[n - 3] == 0xe3 && h[n - 2] == 0x80 && h[n
            - 1] == 0x80)) {
            3
        } else {
            0
        };
        proof {
            if n >= 3 {
                let t = h@.subrange(n - 3, n as int);
                assert(t[0] == h@[n - 3] && t[1] == h@[n - 2] && t[2] == h@[n - 1]);
            }
        }
        assert(l == trailing_ws_len(h@));
        if l == 0 {
            return cur;
        }
        proof {
            lemma_trailing_ws_boundary(h@);
        }
        let (rest, _) = cur.split_at(n - l);
        cur = rest;
    }
}

/// `str::trim`.
pub fn trim<'a>(s: &'a str) -> (r: &'a str)
    ensures
        bytes_of(r) == trim_bytes(bytes_of(s)),
{
    trim_end(trim_start(s))
}

} // verus!
