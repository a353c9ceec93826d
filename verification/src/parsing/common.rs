//! Shared lexical layer of the format grammar: byte classes, maximal-run
//! scanners, literal tags, decimal numbers, bare tokens and quoted text.
//!
//! Every executable parser here is proved equivalent to a specification
//! parser over the byte sequence. A parser takes the input and an offset and
//! yields the next offset (with a value where one is produced), or nothing
//! when the input does not match.

use vstd::prelude::*;
use vstd::string::StringSliceAdditionalSpecFns;
use vstd::slice::slice_to_vec;
use vstd::utf8::{valid_utf8, decode_utf8};

use crate::geometry::{TextOrientation, Justify};

verus! {

/// Greatest magnitude a parsed decimal number may take; a larger number
/// aborts the parse like any other malformed input. The cap is a deliberate
/// deviation from the lossy floating-point reading this format once had: it
/// admits every real schematic grid value while keeping every later box,
/// rotation and translation computation exact in 64 bits (and grid points
/// representable on 32-bit pointers).
pub open spec fn num_limit() -> int {
    1_000_000_000
}

pub open spec fn is_space(b: u8) -> bool {
    b == 32 || b == 9
}

pub open spec fn is_line_end(b: u8) -> bool {
    b == 13 || b == 10
}

pub open spec fn is_digit(b: u8) -> bool {
    48 <= b && b <= 57
}

/// Bytes that end a bare token: space, carriage return, line feed.
pub open spec fn is_token_stop(b: u8) -> bool {
    b == 32 || b == 13 || b == 10
}

/// End of the maximal run of spaces and tabs starting at `i`.
pub open spec fn space_run_end(s: Seq<u8>, i: int) -> int
    decreases s.len() - i when 0 <= i <= s.len()
{
    if i < s.len() && is_space(s[i]) {
        space_run_end(s, i + 1)
    } else {
        i
    }
}

pub open spec fn is_multispace(b: u8) -> bool {
    b == 32 || b == 9 || b == 13 || b == 10
}

/// End of the maximal run of spaces, tabs and line ends starting at `i`.
pub open spec fn ms_run_end(s: Seq<u8>, i: int) -> int
    decreases s.len() - i when 0 <= i <= s.len()
{
    if i < s.len() && is_multispace(s[i]) {
        ms_run_end(s, i + 1)
    } else {
        i
    }
}

/// End of the maximal run of decimal digits starting at `i`.
pub open spec fn digit_run_end(s: Seq<u8>, i: int) -> int
    decreases s.len() - i when 0 <= i <= s.len()
{
    if i < s.len() && is_digit(s[i]) {
        digit_run_end(s, i + 1)
    } else {
        i
    }
}

/// First index at or after `i` holding a token stop, or the input's length.
pub open spec fn token_run_end(s: Seq<u8>, i: int) -> int
    decreases s.len() - i when 0 <= i <= s.len()
{
    if i < s.len() && !is_token_stop(s[i]) {
        token_run_end(s, i + 1)
    } else {
        i
    }
}

/// First index at or after `i` holding a line-end byte, or the input's length.
pub open spec fn eol_index(s: Seq<u8>, i: int) -> int
    decreases s.len() - i when 0 <= i <= s.len()
{
    if i < s.len() && !is_line_end(s[i]) {
        eol_index(s, i + 1)
    } else {
        i
    }
}

/// First index at or after `i` holding a double quote, or the input's length.
pub open spec fn quote_index(s: Seq<u8>, i: int) -> int
    decreases s.len() - i when 0 <= i <= s.len()
{
    if i < s.len() && s[i] != 34 {
        quote_index(s, i + 1)
    } else {
        i
    }
}

/// Match the literal `t` at offset `i`.
pub open spec fn sp_tag(s: Seq<u8>, i: int, t: Seq<u8>) -> Option<int> {
    if 0 <= i && i + t.len() <= s.len() && s.subrange(i, i + t.len() as int) == t {
        Some(i + t.len() as int)
    } else {
        None
    }
}

/// One or more spaces or tabs.
pub open spec fn sp_space1(s: Seq<u8>, i: int) -> Option<int> {
    if 0 <= i && i < s.len() && is_space(s[i]) {
        Some(space_run_end(s, i))
    } else {
        None
    }
}

/// A line feed, or a carriage return followed by a line feed.
pub open spec fn sp_line_ending(s: Seq<u8>, i: int) -> Option<int> {
    if 0 <= i && i < s.len() && s[i] == 10 {
        Some(i + 1)
    } else if 0 <= i && i + 2 <= s.len() && s[i] == 13 && s[i + 1] == 10 {
        Some(i + 2)
    } else {
        None
    }
}

/// One or more decimal digits, position only.
pub open spec fn sp_digits1(s: Seq<u8>, i: int) -> Option<int> {
    if 0 <= i && i < s.len() && is_digit(s[i]) {
        Some(digit_run_end(s, i))
    } else {
        None
    }
}

/// Everything up to (not including) the next line end; fails when no line
/// end follows.
pub open spec fn sp_till_eol(s: Seq<u8>, i: int) -> Option<int> {
    if 0 <= i <= s.len() {
        let j = eol_index(s, i);
        if j < s.len() {
            Some(j)
        } else {
            None
        }
    } else {
        None
    }
}

pub open spec fn pat_at(s: Seq<u8>, i: int, t: Seq<u8>) -> bool {
    sp_tag(s, i, t) is Some
}

/// First offset at or after `i` where the literal `t` occurs.
pub open spec fn find_from(s: Seq<u8>, i: int, t: Seq<u8>) -> Option<int>
    decreases s.len() - i when 0 <= i <= s.len()
{
    if i + t.len() > s.len() {
        None
    } else if t.len() == 0 {
        Some(i)
    } else if pat_at(s, i, t) {
        Some(i)
    } else {
        find_from(s, i + 1, t)
    }
}

/// Everything up to and including the next occurrence of `t`; fails when `t`
/// does not occur.
pub open spec fn sp_till_consume(s: Seq<u8>, i: int, t: Seq<u8>) -> Option<int> {
    match find_from(s, i, t) {
        Some(j) => Some(j + t.len() as int),
        None => None,
    }
}

/// Numeric value of a digit run, most significant digit first.
pub open spec fn digits_val(d: Seq<u8>) -> int
    decreases d.len(),
{
    if d.len() == 0 {
        0
    } else {
        digits_val(d.drop_last()) * 10 + (d.last() - 48)
    }
}

/// An unsigned decimal number of value at most `num_limit()`.
pub open spec fn sp_uint(s: Seq<u8>, i: int) -> Option<(int, int)> {
    if 0 <= i && i < s.len() && is_digit(s[i]) {
        let j = digit_run_end(s, i);
        let v = digits_val(s.subrange(i, j));
        if 0 <= v && v <= num_limit() {
            Some((j, v))
        } else {
            None
        }
    } else {
        None
    }
}

/// A decimal number with an optional leading minus sign.
pub open spec fn sp_int(s: Seq<u8>, i: int) -> Option<(int, int)> {
    if 0 <= i && i < s.len() && s[i] == 45 {
        match sp_uint(s, i + 1) {
            Some((j, v)) => Some((j, -v)),
            None => None,
        }
    } else {
        sp_uint(s, i)
    }
}

/// Two numbers separated by whitespace: a raw coordinate pair, exactly as
/// written in the file (no axis flip here).
pub open spec fn sp_point(s: Seq<u8>, i: int) -> Option<(int, (int, int))> {
    match sp_int(s, i) {
        Some((j, x)) => match sp_space1(s, j) {
            Some(k) => match sp_int(s, k) {
                Some((l, y)) => Some((l, (x, y))),
                None => None,
            },
            None => None,
        },
        None => None,
    }
}

/// A bare token: the bytes up to the next space or line end, decoded as
/// UTF-8. Fails when no stop byte follows or the bytes are not valid UTF-8.
/// The token may be empty.
pub open spec fn sp_token(s: Seq<u8>, i: int) -> Option<(int, Seq<char>)> {
    if 0 <= i <= s.len() {
        let j = token_run_end(s, i);
        if j < s.len() {
            let b = s.subrange(i, j);
            if valid_utf8(b) {
                Some((j, decode_utf8(b)))
            } else {
                None
            }
        } else {
            None
        }
    } else {
        None
    }
}

/// Text delimited by double quotes, decoded as UTF-8.
pub open spec fn sp_quoted(s: Seq<u8>, i: int) -> Option<(int, Seq<char>)> {
    if 0 <= i && i < s.len() && s[i] == 34 {
        let j = quote_index(s, i + 1);
        if j < s.len() {
            let b = s.subrange(i + 1, j);
            if valid_utf8(b) {
                Some((j + 1, decode_utf8(b)))
            } else {
                None
            }
        } else {
            None
        }
    } else {
        None
    }
}

/// A token followed by a line ending: the remainder of a line that holds a
/// single word.
pub open spec fn sp_rest_of_line(s: Seq<u8>, i: int) -> Option<(int, Seq<char>)> {
    match sp_token(s, i) {
        Some((j, t)) => match sp_line_ending(s, j) {
            Some(k) => Some((k, t)),
            None => None,
        },
        None => None,
    }
}

/// `H` or `V`: the layout axis of a text.
pub open spec fn sp_orientation(s: Seq<u8>, i: int) -> Option<(int, TextOrientation)> {
    if 0 <= i && i < s.len() {
        if s[i] == 'H' as u8 {
            Some((i + 1, TextOrientation::Horizontal))
        } else if s[i] == 'V' as u8 {
            Some((i + 1, TextOrientation::Vertical))
        } else {
            None
        }
    } else {
        None
    }
}

/// One of `L R C B T`: a text anchor side.
pub open spec fn sp_justify(s: Seq<u8>, i: int) -> Option<(int, Justify)> {
    if 0 <= i && i < s.len() {
        if s[i] == 'L' as u8 {
            Some((i + 1, Justify::Left))
        } else if s[i] == 'R' as u8 {
            Some((i + 1, Justify::Right))
        } else if s[i] == 'C' as u8 {
            Some((i + 1, Justify::Center))
        } else if s[i] == 'B' as u8 {
            Some((i + 1, Justify::Bottom))
        } else if s[i] == 'T' as u8 {
            Some((i + 1, Justify::Top))
        } else {
            None
        }
    } else {
        None
    }
}

/// `I` for italic, `N` for upright.
pub open spec fn sp_italic(s: Seq<u8>, i: int) -> Option<(int, bool)> {
    if 0 <= i && i < s.len() {
        if s[i] == 'I' as u8 {
            Some((i + 1, true))
        } else if s[i] == 'N' as u8 {
            Some((i + 1, false))
        } else {
            None
        }
    } else {
        None
    }
}

/// `B` for bold, `N` for regular weight.
pub open spec fn sp_bold(s: Seq<u8>, i: int) -> Option<(int, bool)> {
    if 0 <= i && i < s.len() {
        if s[i] == 'B' as u8 {
            Some((i + 1, true))
        } else if s[i] == 'N' as u8 {
            Some((i + 1, false))
        } else {
            None
        }
    } else {
        None
    }
}

/// Relies on `String::from_utf8`: it returns `Ok` exactly on valid UTF-8
/// input and decodes the bytes to their characters.
#[verifier::external_body]
pub fn vec_to_string(b: Vec<u8>) -> (r: Option<String>)
    ensures
        r is Some <==> valid_utf8(b@),
        r matches Some(t) ==> t@ == decode_utf8(b@),
{
    String::from_utf8(b).ok()
}

pub fn p_space_run(s: &[u8], i: usize) -> (j: usize)
    requires
        i <= s@.len(),
    ensures
        j as int == space_run_end(s@, i as int),
        i <= j <= s@.len(),
{
    let mut j: usize = i;
    while j < s.len() && (s[j] == 32 || s[j] == 9)
        invariant
            i <= j <= s@.len(),
            space_run_end(s@, i as int) == space_run_end(s@, j as int),
        decreases s@.len() - j,
    {
        j = j + 1;
    }
    j
}

pub fn p_ms_run(s: &[u8], i: usize) -> (j: usize)
    requires
        i <= s@.len(),
    ensures
        j as int == ms_run_end(s@, i as int),
        i <= j <= s@.len(),
{
    let mut j: usize = i;
    while j < s.len() && (s[j] == 32 || s[j] == 9 || s[j] == 13 || s[j] == 10)
        invariant
            i <= j <= s@.len(),
            ms_run_end(s@, i as int) == ms_run_end(s@, j as int),
        decreases s@.len() - j,
    {
        j = j + 1;
    }
    j
}

pub fn p_digit_run(s: &[u8], i: usize) -> (j: usize)
    requires
        i <= s@.len(),
    ensures
        j as int == digit_run_end(s@, i as int),
        i <= j <= s@.len(),
{
    let mut j: usize = i;
    while j < s.len() && 48 <= s[j] && s[j] <= 57
        invariant
            i <= j <= s@.len(),
            digit_run_end(s@, i as int) == digit_run_end(s@, j as int),
        decreases s@.len() - j,
    {
        j = j + 1;
    }
    j
}

pub fn p_token_run(s: &[u8], i: usize) -> (j: usize)
    requires
        i <= s@.len(),
    ensures
        j as int == token_run_end(s@, i as int),
        i <= j <= s@.len(),
{
    let mut j: usize = i;
    while j < s.len() && s[j] != 32 && s[j] != 13 && s[j] != 10
        invariant
            i <= j <= s@.len(),
            token_run_end(s@, i as int) == token_run_end(s@, j as int),
        decreases s@.len() - j,
    {
        j = j + 1;
    }
    j
}

pub fn p_eol_index(s: &[u8], i: usize) -> (j: usize)
    requires
        i <= s@.len(),
    ensures
        j as int == eol_index(s@, i as int),
        i <= j <= s@.len(),
{
    let mut j: usize = i;
    while j < s.len() && s[j] != 13 && s[j] != 10
        invariant
            i <= j <= s@.len(),
            eol_index(s@, i as int) == eol_index(s@, j as int),
        decreases s@.len() - j,
    {
        j = j + 1;
    }
    j
}

pub fn p_quote_index(s: &[u8], i: usize) -> (j: usize)
    requires
        i <= s@.len(),
    ensures
        j as int == quote_index(s@, i as int),
        i <= j <= s@.len(),
{
    let mut j: usize = i;
    while j < s.len() && s[j] != 34
        invariant
            i <= j <= s@.len(),
            quote_index(s@, i as int) == quote_index(s@, j as int),
        decreases s@.len() - j,
    {
        j = j + 1;
    }
    j
}

pub fn p_lit(s: &[u8], i: usize, t: &str) -> (r: Option<usize>)
    requires
        i <= s@.len(),
    ensures
        match r {
            Some(j) => sp_tag(s@, i as int, t.spec_bytes()) == Some(j as int) && i <= j
                <= s@.len(),
            None => sp_tag(s@, i as int, t.spec_bytes()) is None,
        },
{
    let tb: &[u8] = t.as_bytes();
    let n: usize = tb.len();
    if s.len() - i < n {
        return None;
    }
    let mut k: usize = 0;
    while k < n
        invariant
            0 <= k <= n,
            n == tb@.len(),
            i + n <= s@.len(),
            s@.len() <= usize::MAX,
            tb@ == t.spec_bytes(),
            forall|m: int| 0 <= m < k ==> s@[i + m] == tb@[m],
        decreases n - k,
    {
        if s[i + k] != tb[k] {
            proof {
                let sub = s@.subrange(i as int, i as int + n as int);
                assert(sub[k as int] == s@[i + k]);
                assert(sub != t.spec_bytes());
            }
            return None;
        }
        k = k + 1;
    }
    proof {
        assert(s@.subrange(i as int, i as int + n as int) =~= tb@);
    }
    Some(i + n)
}

pub fn p_space1(s: &[u8], i: usize) -> (r: Option<usize>)
    requires
        i <= s@.len(),
    ensures
        match r {
            Some(j) => sp_space1(s@, i as int) == Some(j as int) && i <= j <= s@.len(),
            None => sp_space1(s@, i as int) is None,
        },
{
    if i < s.len() && (s[i] == 32 || s[i] == 9) {
        Some(p_space_run(s, i))
    } else {
        None
    }
}

pub fn p_line_ending(s: &[u8], i: usize) -> (r: Option<usize>)
    requires
        i <= s@.len(),
    ensures
        match r {
            Some(j) => sp_line_ending(s@, i as int) == Some(j as int) && i < j <= s@.len(),
            None => sp_line_ending(s@, i as int) is None,
        },
{
    if i < s.len() && s[i] == 10 {
        Some(i + 1)
    } else if i < s.len() && s[i] == 13 && i + 1 < s.len() && s[i + 1] == 10 {
        Some(i + 2)
    } else {
        None
    }
}

pub fn p_digits1(s: &[u8], i: usize) -> (r: Option<usize>)
    requires
        i <= s@.len(),
    ensures
        match r {
            Some(j) => sp_digits1(s@, i as int) == Some(j as int) && i <= j <= s@.len(),
            None => sp_digits1(s@, i as int) is None,
        },
{
    if i < s.len() && 48 <= s[i] && s[i] <= 57 {
        Some(p_digit_run(s, i))
    } else {
        None
    }
}

pub fn p_till_eol(s: &[u8], i: usize) -> (r: Option<usize>)
    requires
        i <= s@.len(),
    ensures
        match r {
            Some(j) => sp_till_eol(s@, i as int) == Some(j as int) && i <= j <= s@.len(),
            None => sp_till_eol(s@, i as int) is None,
        },
{
    let j: usize = p_eol_index(s, i);
    if j < s.len() {
        Some(j)
    } else {
        None
    }
}

pub fn p_find(s: &[u8], i: usize, t: &str) -> (r: Option<usize>)
    requires
        i <= s@.len(),
    ensures
        match r {
            Some(j) => find_from(s@, i as int, t.spec_bytes()) == Some(j as int) && i <= j
                <= s@.len() && j + t.spec_bytes().len() <= s@.len(),
            None => find_from(s@, i as int, t.spec_bytes()) is None,
        },
{
    let n: usize = t.as_bytes().len();
    let sl: usize = s.len();
    proof {
        assert(sl as int == s@.len());
    }
    if n == 0 {
        return Some(i);
    }
    let mut j: usize = i;
    while n <= s.len() - j
        invariant
            i <= j <= s@.len(),
            s@.len() <= usize::MAX,
            1 <= n == t.spec_bytes().len(),
            find_from(s@, i as int, t.spec_bytes()) == find_from(s@, j as int, t.spec_bytes()),
        decreases s@.len() - j,
    {
        match p_lit(s, j, t) {
            Some(_) => {
                return Some(j);
            },
            None => {
                j = j + 1;
            },
        }
    }
    None
}

pub fn p_till_consume(s: &[u8], i: usize, t: &str) -> (r: Option<usize>)
    requires
        i <= s@.len(),
    ensures
        match r {
            Some(j) => sp_till_consume(s@, i as int, t.spec_bytes()) == Some(j as int) && i <= j
                <= s@.len(),
            None => sp_till_consume(s@, i as int, t.spec_bytes()) is None,
        },
{
    let n: usize = t.as_bytes().len();
    let sl: usize = s.len();
    proof {
        assert(sl as int == s@.len());
    }
    match p_find(s, i, t) {
        Some(j) => Some(j + n),
        None => None,
    }
}

proof fn lemma_digit_run_bounds(s: Seq<u8>, i: int)
    requires
        0 <= i <= s.len(),
    ensures
        i <= digit_run_end(s, i) <= s.len(),
        forall|m: int| i <= m < digit_run_end(s, i) ==> is_digit(s[m]),
    decreases s.len() - i,
{
    if i < s.len() && is_digit(s[i]) {
        lemma_digit_run_bounds(s, i + 1);
    }
}

proof fn lemma_digits_val_nonneg(d: Seq<u8>)
    requires
        forall|m: int| 0 <= m < d.len() ==> is_digit(d[m]),
    ensures
        digits_val(d) >= 0,
    decreases d.len(),
{
    if d.len() > 0 {
        lemma_digits_val_nonneg(d.drop_last());
    }
}

/// Extending a digit run cannot shrink its value.
proof fn lemma_digits_prefix_le(s: Seq<u8>, i: int, k: int, j: int)
    requires
        0 <= i <= k <= j <= s.len(),
        forall|m: int| i <= m < j ==> is_digit(s[m]),
    ensures
        0 <= digits_val(s.subrange(i, k)),
        digits_val(s.subrange(i, k)) <= digits_val(s.subrange(i, j)),
    decreases j - k,
{
    assert forall|m: int| 0 <= m < s.subrange(i, k).len() implies is_digit(
        s.subrange(i, k)[m],
    ) by {}
    lemma_digits_val_nonneg(s.subrange(i, k));
    if k < j {
        assert(s.subrange(i, k + 1).drop_last() =~= s.subrange(i, k));
        assert(digits_val(s.subrange(i, k + 1)) == digits_val(s.subrange(i, k)) * 10 + (s[k]
            - 48));
        lemma_digits_prefix_le(s, i, k + 1, j);
    }
}

pub fn p_uint(s: &[u8], i: usize) -> (r: Option<(usize, i64)>)
    requires
        i <= s@.len(),
    ensures
        match r {
            Some((j, v)) => sp_uint(s@, i as int) == Some((j as int, v as int)) && i <= j
                <= s@.len() && 0 <= v <= 1_000_000_000,
            None => sp_uint(s@, i as int) is None,
        },
{
    if !(i < s.len() && 48 <= s[i] && s[i] <= 57) {
        return None;
    }
    let ghost e: int = digit_run_end(s@, i as int);
    let mut j: usize = i;
    let mut val: u64 = 0;
    while j < s.len() && 48 <= s[j] && s[j] <= 57
        invariant
            i <= j <= s@.len(),
            e == digit_run_end(s@, i as int),
            digit_run_end(s@, i as int) == digit_run_end(s@, j as int),
            forall|m: int| i <= m < j ==> is_digit(s@[m]),
            val as int == digits_val(s@.subrange(i as int, j as int)),
            val <= 10_000_000_009,
        decreases s@.len() - j,
    {
        if val > 1_000_000_000 {
            proof {
                lemma_digit_run_bounds(s@, j as int);
                lemma_digits_prefix_le(s@, i as int, j as int, e);
            }
            return None;
        }
        let d: u64 = (s[j] - 48) as u64;
        proof {
            assert(s@.subrange(i as int, j as int + 1).drop_last() =~= s@.subrange(
                i as int,
                j as int,
            ));
        }
        val = val * 10 + d;
        j = j + 1;
    }
    proof {
        assert(j as int == e);
        assert(forall|m: int| i <= m < e ==> is_digit(s@[m]));
    }
    if val > 1_000_000_000 {
        None
    } else {
        Some((j, val as i64))
    }
}

pub fn p_int(s: &[u8], i: usize) -> (r: Option<(usize, i64)>)
    requires
        i <= s@.len(),
    ensures
        match r {
            Some((j, v)) => sp_int(s@, i as int) == Some((j as int, v as int)) && i <= j
                <= s@.len() && -1_000_000_000 <= v <= 1_000_000_000,
            None => sp_int(s@, i as int) is None,
        },
{
    if i < s.len() && s[i] == 45 {
        match p_uint(s, i + 1) {
            Some((j, v)) => Some((j, -v)),
            None => None,
        }
    } else {
        p_uint(s, i)
    }
}

pub fn p_point(s: &[u8], i: usize) -> (r: Option<(usize, (i64, i64))>)
    requires
        i <= s@.len(),
    ensures
        match r {
            Some((j, (x, y))) => sp_point(s@, i as int) == Some((j as int, (x as int, y as int)))
                && i <= j <= s@.len() && -1_000_000_000 <= x <= 1_000_000_000 && -1_000_000_000 <= y
                <= 1_000_000_000,
            None => sp_point(s@, i as int) is None,
        },
{
    match p_int(s, i) {
        Some((j, x)) => match p_space1(s, j) {
            Some(k) => match p_int(s, k) {
                Some((l, y)) => Some((l, (x, y))),
                None => None,
            },
            None => None,
        },
        None => None,
    }
}

fn bytes_range_to_vec(s: &[u8], i: usize, j: usize) -> (v: Vec<u8>)
    requires
        i <= j <= s@.len(),
    ensures
        v@ == s@.subrange(i as int, j as int),
{
    let sub: &[u8] = &s[i..j];
    slice_to_vec(sub)
}

pub fn p_token(s: &[u8], i: usize) -> (r: Option<(usize, String)>)
    requires
        i <= s@.len(),
    ensures
        match r {
            Some((j, t)) => sp_token(s@, i as int) matches Some((sj, st)) && sj == j as int && st
                == t@ && i <= j <= s@.len(),
            None => sp_token(s@, i as int) is None,
        },
{
    let j: usize = p_token_run(s, i);
    if j < s.len() {
        let b: Vec<u8> = bytes_range_to_vec(s, i, j);
        match vec_to_string(b) {
            Some(t) => Some((j, t)),
            None => None,
        }
    } else {
        None
    }
}

pub fn p_quoted(s: &[u8], i: usize) -> (r: Option<(usize, String)>)
    requires
        i <= s@.len(),
    ensures
        match r {
            Some((j, t)) => sp_quoted(s@, i as int) matches Some((sj, st)) && sj == j as int && st
                == t@ && i <= j <= s@.len(),
            None => sp_quoted(s@, i as int) is None,
        },
{
    if i < s.len() && s[i] == 34 {
        let j: usize = p_quote_index(s, i + 1);
        if j < s.len() {
            let b: Vec<u8> = bytes_range_to_vec(s, i + 1, j);
            match vec_to_string(b) {
                Some(t) => Some((j + 1, t)),
                None => None,
            }
        } else {
            None
        }
    } else {
        None
    }
}

pub fn p_rest_of_line(s: &[u8], i: usize) -> (r: Option<(usize, String)>)
    requires
        i <= s@.len(),
    ensures
        match r {
            Some((j, t)) => sp_rest_of_line(s@, i as int) matches Some((sj, st)) && sj == j as int
                && st == t@ && i <= j <= s@.len(),
            None => sp_rest_of_line(s@, i as int) is None,
        },
{
    match p_token(s, i) {
        Some((j, t)) => match p_line_ending(s, j) {
            Some(k) => Some((k, t)),
            None => None,
        },
        None => None,
    }
}

pub fn p_orientation(s: &[u8], i: usize) -> (r: Option<(usize, TextOrientation)>)
    requires
        i <= s@.len(),
    ensures
        match r {
            Some((j, v)) => sp_orientation(s@, i as int) == Some((j as int, v)) && i < j
                <= s@.len(),
            None => sp_orientation(s@, i as int) is None,
        },
{
    if i < s.len() {
        let c: u8 = s[i];
        if c == 'H' as u8 {
            Some((i + 1, TextOrientation::Horizontal))
        } else if c == 'V' as u8 {
            Some((i + 1, TextOrientation::Vertical))
        } else {
            None
        }
    } else {
        None
    }
}

pub fn p_justify(s: &[u8], i: usize) -> (r: Option<(usize, Justify)>)
    requires
        i <= s@.len(),
    ensures
        match r {
            Some((j, v)) => sp_justify(s@, i as int) == Some((j as int, v)) && i < j <= s@.len(),
            None => sp_justify(s@, i as int) is None,
        },
{
    if i < s.len() {
        let c: u8 = s[i];
        if c == 'L' as u8 {
            Some((i + 1, Justify::Left))
        } else if c == 'R' as u8 {
            Some((i + 1, Justify::Right))
        } else if c == 'C' as u8 {
            Some((i + 1, Justify::Center))
        } else if c == 'B' as u8 {
            Some((i + 1, Justify::Bottom))
        } else if c == 'T' as u8 {
            Some((i + 1, Justify::Top))
        } else {
            None
        }
    } else {
        None
    }
}

pub fn p_italic(s: &[u8], i: usize) -> (r: Option<(usize, bool)>)
    requires
        i <= s@.len(),
    ensures
        match r {
            Some((j, v)) => sp_italic(s@, i as int) == Some((j as int, v)) && i < j <= s@.len(),
            None => sp_italic(s@, i as int) is None,
        },
{
    if i < s.len() {
        let c: u8 = s[i];
        if c == 'I' as u8 {
            Some((i + 1, true))
        } else if c == 'N' as u8 {
            Some((i + 1, false))
        } else {
            None
        }
    } else {
        None
    }
}

pub fn p_bold(s: &[u8], i: usize) -> (r: Option<(usize, bool)>)
    requires
        i <= s@.len(),
    ensures
        match r {
            Some((j, v)) => sp_bold(s@, i as int) == Some((j as int, v)) && i < j <= s@.len(),
            None => sp_bold(s@, i as int) is None,
        },
{
    if i < s.len() {
        let c: u8 = s[i];
        if c == 'B' as u8 {
            Some((i + 1, true))
        } else if c == 'N' as u8 {
            Some((i + 1, false))
        } else {
            None
        }
    } else {
        None
    }
}

} // verus!
