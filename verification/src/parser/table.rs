//! Tables whose lines are cells between `|` characters, as the stuck query
//! and the CPU and memory statistics logs write them.
use crate::parser::tokenizer::error::{Error, ErrorSpec};
use crate::parser::tokenizer::{take_within_exclusive_spec, Tokenizer};
use crate::text::{bytes_of, lemma_find_props, split_once_spec, trim, trim_bytes};
use vstd::prelude::*;

verus! {

/// One step of reading a row: the text between the next two `|`, and the
/// rest, which starts at the second `|`.
pub open spec fn cell_step(t: Seq<u8>) -> Result<(Seq<u8>, Seq<u8>), ErrorSpec> {
    take_within_exclusive_spec(t, bytes_of("|"), bytes_of("|"))
}

/// The text of a row left after reading `i` of its cells; reading stops at
/// the first cell that is not there.
pub open spec fn cells_rest(t: Seq<u8>, i: nat) -> Seq<u8>
    decreases i,
{
    if i == 0 {
        t
    } else {
        match cell_step(cells_rest(t, (i - 1) as nat)) {
            Ok((_, r)) => r,
            Err(_) => cells_rest(t, (i - 1) as nat),
        }
    }
}

/// Cell `i` of the row `t` without its surrounding whitespace, when the row
/// has it.
pub open spec fn row_cell(t: Seq<u8>, i: nat) -> Option<Seq<u8>> {
    match cell_step(cells_rest(t, i)) {
        Ok((d, _)) => Some(trim_bytes(d)),
        Err(_) => None,
    }
}

/// A row step leaves less text: at least the opening `|` is read.
pub proof fn lemma_cell_step_shrinks(t: Seq<u8>)
    ensures
        cell_step(t) matches Ok((_, r)) ==> r.len() < t.len(),
{
    reveal_strlit("|");
    reveal_with_fuel(vstd::utf8::encode_utf8, 2);
    lemma_find_props(t, bytes_of("|"));
    if let Some((_, r1)) = split_once_spec(t, bytes_of("|")) {
        lemma_find_props(r1, bytes_of("|"));
    }
}

pub proof fn lemma_contains_push(s: Seq<Seq<u8>>, c: Seq<u8>, x: Seq<u8>)
    ensures
        (s + seq![c]).contains(x) == (s.contains(x) || c == x),
{
    let t = s + seq![c];
    if s.contains(x) {
        let i = choose|i: int| 0 <= i < s.len() && s[i] == x;
        assert(t[i] == x);
    }
    if c == x {
        assert(t[s.len() as int] == x);
    }
    if t.contains(x) {
        let j = choose|j: int| 0 <= j < t.len() && t[j] == x;
        if j < s.len() {
            assert(s[j] == x);
        }
    }
}

/// The names of the columns of a header line: the texts between successive
/// `|`, without their surrounding whitespace.
pub open spec fn column_names(t: Seq<u8>) -> Seq<Seq<u8>>
    decreases t.len(),
{
    match cell_step(t) {
        Err(_) => seq![],
        Ok((d, r)) => {
            proof {
                lemma_cell_step_shrinks(t);
            }
            seq![trim_bytes(d)] + column_names(r)
        },
    }
}

/// The error for a row that has fewer cells than are read from it.
pub open spec fn missing_cell_error() -> ErrorSpec {
    ErrorSpec::DelimiterNotFound(bytes_of("|"))
}

/// Reads cell `i` of `row` without its surrounding whitespace, the
/// tokenizer standing after the cells before it.
pub fn next_cell<'a>(tok: &mut Tokenizer<'a>, row: Ghost<Seq<u8>>, i: Ghost<nat>) -> (r: Result<&'a str, Error>)
    requires
        old(tok)@ == cells_rest(row@, i@),
    ensures
        match row_cell(row@, i@) {
            Some(c) => r matches Ok(s) && bytes_of(s) == c && final(tok)@ == cells_rest(row@, i@ + 1),
            None => r matches Err(e) && e@ == missing_cell_error(),
        },
{
    match tok.take_within_exclusive("|", "|") {
        Ok(c) => Ok(trim(c)),
        Err(e) => Err(e),
    }
}

} // verus!
