//! Character and string helpers shared by the parser, the colour reader and
//! the dock resolver.  Everything here works on `&str` views (`Seq<char>`),
//! so the rest of the crate can state its contracts over plain character
//! sequences.

use vstd::prelude::*;

verus! {

/// ASCII whitespace, the only whitespace the layout language uses.
pub open spec fn is_ws(c: char) -> bool {
    c == ' ' || c == '\t' || c == '\r' || c == '\n'
}

pub fn is_ws_exec(c: char) -> (r: bool)
    ensures
        r == is_ws(c),
{
    c == ' ' || c == '\t' || c == '\r' || c == '\n'
}

/// Uppercase ASCII letters fold to lowercase; everything else is unchanged.
pub open spec fn lower_char_spec(c: char) -> char {
    if 'A' <= c && c <= 'Z' {
        (((c as u8) + 32) as char)
    } else {
        c
    }
}

pub open spec fn lower_spec(s: Seq<char>) -> Seq<char> {
    s.map_values(|c: char| lower_char_spec(c))
}

pub fn lower_char(c: char) -> (r: char)
    ensures
        r == lower_char_spec(c),
{
    if 'A' <= c && c <= 'Z' {
        (((c as u8) + 32) as char)
    } else {
        c
    }
}

/// Equality of two strings, stated over their character views.
pub fn str_eq(a: &str, b: &str) -> (r: bool)
    ensures
        r == (a@ == b@),
{
    let alen = a.unicode_len();
    let blen = b.unicode_len();
    if alen != blen {
        assert(a@ != b@);
        return false;
    }
    let mut i: usize = 0;
    while i < alen
        invariant
            alen == a@.len(),
            alen == b@.len(),
            0 <= i <= alen,
            forall|k: int| 0 <= k < i ==> a@[k] == b@[k],
        decreases alen - i,
    {
        if a.get_char(i) != b.get_char(i) {
            return false;
        }
        i = i + 1;
    }
    proof {
        assert(a@ =~= b@);
    }
    true
}

/// Case-insensitive equality, stated through `lower_spec`.
pub fn str_eq_ignore_case(a: &str, b: &str) -> (r: bool)
    ensures
        r == (lower_spec(a@) == lower_spec(b@)),
{
    let alen = a.unicode_len();
    let blen = b.unicode_len();
    if alen != blen {
        assert(lower_spec(a@).len() != lower_spec(b@).len());
        return false;
    }
    let mut i: usize = 0;
    while i < alen
        invariant
            alen == a@.len(),
            alen == b@.len(),
            0 <= i <= alen,
            forall|k: int| 0 <= k < i ==> lower_char_spec(a@[k]) == lower_char_spec(b@[k]),
        decreases alen - i,
    {
        if lower_char(a.get_char(i)) != lower_char(b.get_char(i)) {
            assert(lower_spec(a@)[i as int] != lower_spec(b@)[i as int]);
            return false;
        }
        i = i + 1;
    }
    proof {
        assert(lower_spec(a@) =~= lower_spec(b@));
    }
    true
}

/// Lowercased copy of a string.
pub fn lower_str(s: &str) -> (r: String)
    ensures
        r@ == lower_spec(s@),
{
    let len = s.unicode_len();
    let mut out = String::new();
    let mut i: usize = 0;
    while i < len
        invariant
            len == s@.len(),
            0 <= i <= len,
            out@ == lower_spec(s@.take(i as int)),
        decreases len - i,
    {
        let c = s.get_char(i);
        let piece: &str = match c {
            'A' => "a",
            'B' => "b",
            'C' => "c",
            'D' => "d",
            'E' => "e",
            'F' => "f",
            'G' => "g",
            'H' => "h",
            'I' => "i",
            'J' => "j",
            'K' => "k",
            'L' => "l",
            'M' => "m",
            'N' => "n",
            'O' => "o",
            'P' => "p",
            'Q' => "q",
            'R' => "r",
            'S' => "s",
            'T' => "t",
            'U' => "u",
            'V' => "v",
            'W' => "w",
            'X' => "x",
            'Y' => "y",
            'Z' => "z",
            _ => s.substring_char(i, i + 1),
        };
        proof {
            reveal_strlit("a");
            reveal_strlit("b");
            reveal_strlit("c");
            reveal_strlit("d");
            reveal_strlit("e");
            reveal_strlit("f");
            reveal_strlit("g");
            reveal_strlit("h");
            reveal_strlit("i");
            reveal_strlit("j");
            reveal_strlit("k");
            reveal_strlit("l");
            reveal_strlit("m");
            reveal_strlit("n");
            reveal_strlit("o");
            reveal_strlit("p");
            reveal_strlit("q");
            reveal_strlit("r");
            reveal_strlit("s");
            reveal_strlit("t");
            reveal_strlit("u");
            reveal_strlit("v");
            reveal_strlit("w");
            reveal_strlit("x");
            reveal_strlit("y");
            reveal_strlit("z");
            assert(piece@ =~= seq![lower_char_spec(s@[i as int])]);
            assert(lower_spec(s@.take(i + 1 as int)) =~= lower_spec(s@.take(i as int)) + piece@);
        }
        out.append(piece);
        i = i + 1;
    }
    proof {
        assert(s@.take(len as int) =~= s@);
    }
    out
}

/// The leading whitespace of `s` removed.
pub open spec fn trim_start_spec(s: Seq<char>) -> Seq<char>
    decreases s.len(),
{
    if s.len() > 0 && is_ws(s[0]) {
        trim_start_spec(s.drop_first())
    } else {
        s
    }
}

/// The trailing whitespace of `s` removed.
pub open spec fn trim_end_spec(s: Seq<char>) -> Seq<char>
    decreases s.len(),
{
    if s.len() > 0 && is_ws(s[s.len() - 1]) {
        trim_end_spec(s.drop_last())
    } else {
        s
    }
}

/// Both ends trimmed, as `str::trim` does for ASCII whitespace.
pub open spec fn trim_spec(s: Seq<char>) -> Seq<char> {
    trim_end_spec(trim_start_spec(s))
}

proof fn lemma_trim_start_subrange(s: Seq<char>, i: int)
    requires
        0 <= i <= s.len(),
        forall|k: int| 0 <= k < i ==> is_ws(s[k]),
        i < s.len() ==> !is_ws(s[i]),
    ensures
        trim_start_spec(s) == s.subrange(i, s.len() as int),
    decreases i,
{
    if i == 0 {
        if s.len() > 0 && is_ws(s[0]) {
            assert(false);
        }
        assert(s.subrange(0, s.len() as int) =~= s);
    } else {
        assert(is_ws(s[0]));
        let t = s.drop_first();
        lemma_trim_start_subrange(t, i - 1);
        assert(t.subrange(i - 1, t.len() as int) =~= s.subrange(i, s.len() as int));
    }
}

proof fn lemma_trim_end_subrange(s: Seq<char>, j: int)
    requires
        0 <= j <= s.len(),
        forall|k: int| j <= k < s.len() ==> is_ws(s[k]),
        j > 0 ==> !is_ws(s[j - 1]),
    ensures
        trim_end_spec(s) == s.subrange(0, j),
    decreases s.len() - j,
{
    if j == s.len() {
        if s.len() > 0 && is_ws(s[s.len() - 1]) {
            assert(false);
        }
        assert(s.subrange(0, s.len() as int) =~= s);
    } else {
        assert(is_ws(s[s.len() - 1]));
        let t = s.drop_last();
        lemma_trim_end_subrange(t, j);
        assert(t.subrange(0, j) =~= s.subrange(0, j));
    }
}

/// Trims ASCII whitespace from both ends, returning a slice of `s`.
pub fn trim(s: &str) -> (r: &str)
    ensures
        r@ == trim_spec(s@),
{
    let len = s.unicode_len();
    let mut start: usize = 0;
    while start < len && is_ws_exec(s.get_char(start))
        invariant
            len == s@.len(),
            0 <= start <= len,
            forall|k: int| 0 <= k < start ==> is_ws(s@[k]),
        decreases len - start,
    {
        start = start + 1;
    }
    proof {
        lemma_trim_start_subrange(s@, start as int);
    }
    let mut end: usize = len;
    while end > start && is_ws_exec(s.get_char(end - 1))
        invariant
            len == s@.len(),
            start <= end <= len,
            forall|k: int| 0 <= k < start ==> is_ws(s@[k]),
            start < len ==> !is_ws(s@[start as int]),
            forall|k: int| end <= k < len ==> is_ws(s@[k]),
        decreases end,
    {
        end = end - 1;
    }
    let r = s.substring_char(start, end);
    proof {
        let t = s@.subrange(start as int, len as int);
        assert(forall|k: int| (end - start) <= k < t.len() ==> is_ws(t[k]));
        lemma_trim_end_subrange(t, end - start);
        assert(t.subrange(0, end - start) =~= s@.subrange(start as int, end as int));
    }
    r
}

/// Whether the pattern `p` occurs in `s` starting at position `i`.
pub open spec fn match_at(s: Seq<char>, p: Seq<char>, i: int) -> bool {
    0 <= i && i + p.len() <= s.len() && s.subrange(i, i + p.len()) == p
}

/// Index of the first occurrence of `p` in `s`, if any.
pub open spec fn find_spec(s: Seq<char>, p: Seq<char>) -> Option<int>
    decreases s.len(),
{
    if p.len() > s.len() {
        None
    } else if s.subrange(0, p.len() as int) == p {
        Some(0)
    } else if s.len() == 0 {
        None
    } else {
        match find_spec(s.drop_first(), p) {
            Some(i) => Some(i + 1),
            None => None,
        }
    }
}

proof fn lemma_find_spec_characterization(s: Seq<char>, p: Seq<char>, i: int)
    requires
        match_at(s, p, i),
        forall|k: int| 0 <= k < i ==> !match_at(s, p, k),
    ensures
        find_spec(s, p) == Some(i),
    decreases s.len(),
{
    if i == 0 {
        assert(s.subrange(0, p.len() as int) == p);
    } else {
        assert(!match_at(s, p, 0));
        assert(s.len() > 0);
        if p.len() <= s.len() && s.subrange(0, p.len() as int) == p {
            assert(match_at(s, p, 0));
        }
        let t = s.drop_first();
        assert(match_at(t, p, i - 1)) by {
            assert(t.subrange(i - 1, i - 1 + p.len()) =~= s.subrange(i, i + p.len()));
        }
        assert(forall|k: int| 0 <= k < i - 1 ==> !match_at(t, p, k)) by {
            assert forall|k: int| 0 <= k < i - 1 implies !match_at(t, p, k) by {
                if match_at(t, p, k) {
                    assert(s.subrange(k + 1, k + 1 + p.len()) =~= t.subrange(k, k + p.len()));
                    assert(match_at(s, p, k + 1));
                }
            }
        }
        lemma_find_spec_characterization(t, p, i - 1);
    }
}

proof fn lemma_find_spec_none(s: Seq<char>, p: Seq<char>)
    requires
        forall|k: int| !match_at(s, p, k),
    ensures
        find_spec(s, p) == None::<int>,
    decreases s.len(),
{
    if p.len() > s.len() {
    } else if s.subrange(0, p.len() as int) == p {
        assert(match_at(s, p, 0));
    } else if s.len() == 0 {
    } else {
        let t = s.drop_first();
        assert(forall|k: int| !match_at(t, p, k)) by {
            assert forall|k: int| !match_at(t, p, k) by {
                if match_at(t, p, k) {
                    assert(s.subrange(k + 1, k + 1 + p.len()) =~= t.subrange(k, k + p.len()));
                    assert(match_at(s, p, k + 1));
                }
            }
        }
        lemma_find_spec_none(t, p);
    }
}

/// Whether `p` occurs starting at `i`, tested by characters.
fn match_at_exec(s: &str, p: &str, i: usize, s_len: usize, p_len: usize) -> (r: bool)
    requires
        s_len == s@.len(),
        p_len == p@.len(),
        i + p_len <= s_len,
    ensures
        r == match_at(s@, p@, i as int),
{
    let mut k: usize = 0;
    while k < p_len
        invariant
            s_len == s@.len(),
            p_len == p@.len(),
            i + p_len <= s_len,
            0 <= k <= p_len,
            forall|j: int| 0 <= j < k ==> s@[i + j] == p@[j],
        decreases p_len - k,
    {
        if s.get_char(i + k) != p.get_char(k) {
            assert(s@.subrange(i as int, i + p@.len())[k as int] != p@[k as int]);
            return false;
        }
        k = k + 1;
    }
    proof {
        assert(s@.subrange(i as int, i + p@.len()) =~= p@);
    }
    true
}

/// First occurrence of `p` in `s`, as `find_spec` describes.
pub fn find_sub(s: &str, p: &str) -> (r: Option<usize>)
    requires
        p@.len() >= 1,
    ensures
        match r {
            Some(i) => find_spec(s@, p@) == Some(i as int),
            None => find_spec(s@, p@) == None::<int>,
        },
{
    let s_len = s.unicode_len();
    let p_len = p.unicode_len();
    if p_len > s_len {
        proof {
            assert(forall|k: int| !match_at(s@, p@, k));
            lemma_find_spec_none(s@, p@);
        }
        return None;
    }
    let mut i: usize = 0;
    while i <= s_len - p_len
        invariant
            s_len == s@.len(),
            p_len == p@.len(),
            p_len >= 1,
            p_len <= s_len,
            0 <= i <= s_len,
            forall|k: int| 0 <= k < i ==> !match_at(s@, p@, k),
        decreases s_len - i,
    {
        if match_at_exec(s, p, i, s_len, p_len) {
            proof {
                lemma_find_spec_characterization(s@, p@, i as int);
            }
            return Some(i);
        }
        i = i + 1;
    }
    proof {
        assert(forall|k: int| !match_at(s@, p@, k));
        lemma_find_spec_none(s@, p@);
    }
    None
}

/// The text before the first occurrence of `p`, and the text after it,
/// when `p` occurs at all.
pub open spec fn split_once_spec(s: Seq<char>, p: Seq<char>) -> Option<(Seq<char>, Seq<char>)> {
    match find_spec(s, p) {
        Some(i) => Some((s.subrange(0, i), s.subrange(i + p.len(), s.len() as int))),
        None => None,
    }
}

/// Splits at the first occurrence of `p`; `None` when `p` does not occur.
pub fn split_once<'a>(s: &'a str, p: &str) -> (r: Option<(&'a str, &'a str)>)
    requires
        p@.len() >= 1,
    ensures
        match r {
            Some(t) => split_once_spec(s@, p@) == Some((t.0@, t.1@)),
            None => split_once_spec(s@, p@) == None::<(Seq<char>, Seq<char>)>,
        },
{
    let s_len = s.unicode_len();
    let p_len = p.unicode_len();
    match find_sub(s, p) {
        Some(i) => {
            proof {
                lemma_find_in_bounds(s@, p@);
            }
            let before = s.substring_char(0, i);
            let after = s.substring_char(i + p_len, s_len);
            Some((before, after))
        },
        None => None,
    }
}

proof fn lemma_find_in_bounds(s: Seq<char>, p: Seq<char>)
    ensures
        match find_spec(s, p) {
            Some(i) => 0 <= i && i + p.len() <= s.len(),
            None => true,
        },
    decreases s.len(),
{
    if p.len() > s.len() {
    } else if s.subrange(0, p.len() as int) == p {
    } else if s.len() == 0 {
    } else {
        lemma_find_in_bounds(s.drop_first(), p);
    }
}

pub open spec fn is_digit(c: char) -> bool {
    '0' <= c && c <= '9'
}

pub open spec fn digit_val(c: char) -> int {
    c as u32 - 48
}

pub open spec fn all_digits(s: Seq<char>) -> bool {
    forall|i: int| 0 <= i < s.len() ==> is_digit(#[trigger] s[i])
}

/// The number a digit string denotes, most significant digit first.
pub open spec fn dec_val(s: Seq<char>) -> int
    decreases s.len(),
{
    if s.len() == 0 {
        0
    } else {
        dec_val(s.drop_last()) * 10 + digit_val(s[s.len() - 1])
    }
}

pub proof fn lemma_dec_val_nonneg(s: Seq<char>)
    requires
        all_digits(s),
    ensures
        dec_val(s) >= 0,
    decreases s.len(),
{
    if s.len() > 0 {
        assert(all_digits(s.drop_last())) by {
            assert(forall|i: int| 0 <= i < s.len() - 1 ==> is_digit(#[trigger] s.drop_last()[i]));
        }
        lemma_dec_val_nonneg(s.drop_last());
    }
}

pub proof fn lemma_dec_val_prefix(s: Seq<char>, i: int)
    requires
        all_digits(s),
        0 <= i <= s.len(),
    ensures
        dec_val(s.take(i)) <= dec_val(s),
    decreases s.len() - i,
{
    if i < s.len() {
        let t = s.take(i + 1);
        assert(all_digits(t)) by {
            assert(forall|k: int| 0 <= k < t.len() ==> is_digit(#[trigger] t[k]));
        }
        assert(t.drop_last() =~= s.take(i));
        lemma_dec_val_nonneg(t.drop_last());
        assert(dec_val(t) == dec_val(s.take(i)) * 10 + digit_val(s[i]));
        assert(dec_val(s.take(i)) <= dec_val(t));
        lemma_dec_val_prefix(s, i + 1);
    } else {
        assert(s.take(i) =~= s);
    }
}

pub open spec fn valid_u32_str(s: Seq<char>) -> bool {
    s.len() > 0 && all_digits(s) && dec_val(s) <= u32::MAX
}

/// Reads an unsigned decimal number, the way the layout language writes one:
/// digits only, no sign, no fraction.
pub fn parse_u32_str(s: &str) -> (r: Option<u32>)
    ensures
        match r {
            Some(v) => valid_u32_str(s@) && v == dec_val(s@),
            None => !valid_u32_str(s@),
        },
{
    let len = s.unicode_len();
    if len == 0 {
        return None;
    }
    let mut i: usize = 0;
    while i < len
        invariant
            len == s@.len(),
            0 <= i <= len,
            forall|k: int| 0 <= k < i ==> is_digit(#[trigger] s@[k]),
        decreases len - i,
    {
        let c = s.get_char(i);
        if !('0' <= c && c <= '9') {
            return None;
        }
        i = i + 1;
    }
    let mut acc: u64 = 0;
    let mut j: usize = 0;
    while j < len
        invariant
            len == s@.len(),
            len > 0,
            all_digits(s@),
            0 <= j <= len,
            acc == dec_val(s@.take(j as int)),
            acc <= u32::MAX,
        decreases len - j,
    {
        let c = s.get_char(j);
        assert(is_digit(s@[j as int]));
        let d: u64 = ((c as u32) - 48) as u64;
        let next: u64 = acc * 10 + d;
        proof {
            assert(s@.take(j + 1 as int).drop_last() =~= s@.take(j as int));
            assert(dec_val(s@.take(j + 1 as int)) == acc * 10 + digit_val(s@[j as int]));
        }
        if next > 0xFFFF_FFFF {
            proof {
                lemma_dec_val_prefix(s@, j + 1 as int);
            }
            return None;
        }
        acc = next;
        j = j + 1;
    }
    proof {
        assert(s@.take(len as int) =~= s@);
    }
    Some(acc as u32)
}

/// Magnitude cap for a written coordinate: what fits a 32-bit signed number.
pub open spec fn coord_input_max() -> int {
    0x7FFF_FFFF
}

/// A coordinate as the layout language writes one: an optional leading
/// minus sign, then decimal digits.
pub open spec fn valid_coord_str(s: Seq<char>) -> bool {
    if s.len() > 0 && s[0] == '-' {
        valid_u32_str(s.drop_first()) && dec_val(s.drop_first()) <= coord_input_max()
    } else {
        valid_u32_str(s) && dec_val(s) <= coord_input_max()
    }
}

pub open spec fn coord_val(s: Seq<char>) -> int {
    if s.len() > 0 && s[0] == '-' {
        -dec_val(s.drop_first())
    } else {
        dec_val(s)
    }
}

pub proof fn lemma_coord_val_bounds(s: Seq<char>)
    requires
        valid_coord_str(s),
    ensures
        -coord_input_max() <= coord_val(s) <= coord_input_max(),
{
    if s.len() > 0 && s[0] == '-' {
        lemma_dec_val_nonneg(s.drop_first());
    } else {
        lemma_dec_val_nonneg(s);
    }
}

/// Reads a signed decimal coordinate.
pub fn parse_coord(s: &str) -> (r: Option<i64>)
    ensures
        match r {
            Some(v) => valid_coord_str(s@) && v == coord_val(s@)
                && -coord_input_max() <= v <= coord_input_max(),
            None => !valid_coord_str(s@),
        },
{
    let len = s.unicode_len();
    if len > 0 && s.get_char(0) == '-' {
        let rest = s.substring_char(1, len);
        assert(rest@ =~= s@.drop_first());
        match parse_u32_str(rest) {
            Some(v) => {
                if v <= 0x7FFF_FFFF {
                    proof {
                        lemma_dec_val_nonneg(rest@);
                    }
                    Some(-(v as i64))
                } else {
                    None
                }
            },
            None => None,
        }
    } else {
        match parse_u32_str(s) {
            Some(v) => {
                if v <= 0x7FFF_FFFF {
                    proof {
                        lemma_dec_val_nonneg(s@);
                    }
                    Some(v as i64)
                } else {
                    None
                }
            },
            None => None,
        }
    }
}

} // verus!
