//! A JSON document tree and a verified parser for JSON text.
//!
//! `JsonG` is the mathematical model of a document: strings are `Seq<char>`,
//! arrays are `Seq<JsonG>`, objects are sequences of key/value pairs in text
//! order. `Json` is its executable counterpart. The parser is specified by
//! the spec functions `spec_value` and friends, which define exactly which
//! character sequences parse and to which tree; the executable parser is
//! proved to return precisely what the spec functions say.
//!
//! Numbers: the metadata schema uses 64-bit integers only, so an integer
//! literal that fits `i64` becomes `Int`; any other numeric literal (with a
//! fraction, an exponent, or out of range) is kept verbatim as `NumLit` and
//! never matches the schema.

use vstd::prelude::*;

verus! {

/// A character is JSON whitespace.
pub open spec fn is_json_ws(c: char) -> bool {
    c == ' ' || c == '\t' || c == '\n' || c == '\r'
}

/// Exec twin of `is_json_ws`.
fn json_ws(c: char) -> (r: bool)
    ensures
        r == is_json_ws(c),
{
    c == ' ' || c == '\t' || c == '\n' || c == '\r'
}

/// Mathematical model of a JSON document.
pub enum JsonG {
    Null,
    Bool(bool),
    Int(i64),
    /// A numeric literal that is not an `i64`: kept as its source characters.
    NumLit(Seq<char>),
    Str(Seq<char>),
    Arr(Seq<JsonG>),
    /// Key/value pairs in the order the text gives them.
    Obj(Seq<(Seq<char>, JsonG)>),
}

/// Executable JSON document.
#[derive(Debug, PartialEq, Eq)]
pub enum Json {
    Null,
    Bool(bool),
    Int(i64),
    NumLit(Vec<char>),
    Str(Vec<char>),
    Arr(Vec<Json>),
    Obj(Vec<(Vec<char>, Json)>),
}

/// Model of a vector of JSON values.
pub open spec fn items_view(items: Vec<Json>) -> Seq<JsonG>
    decreases items,
    via items_view_dec
{
    Seq::new(
        items@.len(),
        |i: int|
            if 0 <= i < items@.len() {
                jview(items@[i])
            } else {
                JsonG::Null
            },
    )
}

#[via_fn]
proof fn items_view_dec(items: Vec<Json>) {
    assert forall|i: int| 0 <= i < items@.len() implies #[trigger] (decreases_to!(
        items => items@[i],
    )) by {
        vstd::std_specs::vec::axiom_vec_index_decreases(items, i);
    }
}

/// Model of a vector of object entries.
pub open spec fn entries_view(entries: Vec<(Vec<char>, Json)>) -> Seq<(Seq<char>, JsonG)>
    decreases entries,
    via entries_view_dec
{
    Seq::new(
        entries@.len(),
        |i: int|
            if 0 <= i < entries@.len() {
                (entries@[i].0@, jview(entries@[i].1))
            } else {
                (Seq::empty(), JsonG::Null)
            },
    )
}

#[via_fn]
proof fn entries_view_dec(entries: Vec<(Vec<char>, Json)>) {
    assert forall|i: int| 0 <= i < entries@.len() implies #[trigger] (decreases_to!(
        entries => entries@[i].1,
    )) by {
        vstd::std_specs::vec::axiom_vec_index_decreases(entries, i);
    }
}

/// Model of an executable JSON value.
pub open spec fn jview(v: Json) -> JsonG
    decreases v,
{
    match v {
        Json::Null => JsonG::Null,
        Json::Bool(b) => JsonG::Bool(b),
        Json::Int(n) => JsonG::Int(n),
        Json::NumLit(s) => JsonG::NumLit(s@),
        Json::Str(s) => JsonG::Str(s@),
        Json::Arr(items) => JsonG::Arr(items_view(items)),
        Json::Obj(entries) => JsonG::Obj(entries_view(entries)),
    }
}

impl View for Json {
    type V = JsonG;

    open spec fn view(&self) -> JsonG {
        jview(*self)
    }
}

/// The characters of a string slice, as a vector.
pub fn chars_of(s: &str) -> (r: Vec<char>)
    ensures
        r@ == s@,
{
    let n = s.unicode_len();
    let mut r: Vec<char> = Vec::new();
    let mut i: usize = 0;
    while i < n
        invariant
            i <= n,
            n == s@.len(),
            r@ == s@.take(i as int),
        decreases n - i,
    {
        r.push(s.get_char(i));
        proof {
            assert(r@ =~= s@.take(i + 1));
        }
        i += 1;
    }
    proof {
        assert(r@ =~= s@);
    }
    r
}

/// A copy of a character slice.
pub fn copy_chars(s: &[char]) -> (r: Vec<char>)
    ensures
        r@ == s@,
{
    subvec(s, 0, s.len())
}

/// The characters of `s` between `from` and `to`, as a vector.
pub fn subvec(s: &[char], from: usize, to: usize) -> (r: Vec<char>)
    requires
        from <= to <= s@.len(),
    ensures
        r@ == s@.subrange(from as int, to as int),
{
    let mut r: Vec<char> = Vec::new();
    let mut i: usize = from;
    while i < to
        invariant
            from <= i <= to <= s@.len(),
            r@ == s@.subrange(from as int, i as int),
        decreases to - i,
    {
        r.push(s[i]);
        proof {
            assert(r@ =~= s@.subrange(from as int, i + 1));
        }
        i += 1;
    }
    r
}

/// A decimal digit.
pub open spec fn is_digit(c: char) -> bool {
    48 <= c as u32 <= 57
}

/// Exec twin of `is_digit`.
fn digit(c: char) -> (r: bool)
    ensures
        r == is_digit(c),
{
    '0' <= c && c <= '9'
}

/// Numeric value of a decimal digit.
pub open spec fn digit_val(c: char) -> int
    recommends
        is_digit(c),
{
    c as u32 - 48
}

/// Value of a hexadecimal digit, if the character is one.
pub open spec fn hex_val(c: char) -> Option<u32> {
    let u = c as u32;
    if 48 <= u && u <= 57 {
        Some((u - 48) as u32)
    } else if 65 <= u && u <= 70 {
        Some((u - 55) as u32)
    } else if 97 <= u && u <= 102 {
        Some((u - 87) as u32)
    } else {
        None
    }
}

/// Exec twin of `hex_val`.
fn hex_digit(c: char) -> (r: Option<u32>)
    ensures
        r == hex_val(c),
{
    let u = c as u32;
    if 48 <= u && u <= 57 {
        Some(u - 48)
    } else if 65 <= u && u <= 70 {
        Some(u - 55)
    } else if 97 <= u && u <= 102 {
        Some(u - 87)
    } else {
        None
    }
}

/// Value of the four hexadecimal digits at `j`, if they are such.
pub open spec fn hex4(s: Seq<char>, j: int) -> Option<u32>
    recommends
        0 <= j,
        j + 4 <= s.len(),
{
    match (hex_val(s[j]), hex_val(s[j + 1]), hex_val(s[j + 2]), hex_val(s[j + 3])) {
        (Some(a), Some(b), Some(c), Some(d)) => Some((a * 4096 + b * 256 + c * 16 + d) as u32),
        _ => None,
    }
}

/// Exec twin of `hex4`.
fn hex4_at(s: &[char], j: usize) -> (r: Option<u32>)
    requires
        j + 4 <= s@.len(),
    ensures
        r == hex4(s@, j as int),
{
    match (hex_digit(s[j]), hex_digit(s[j + 1]), hex_digit(s[j + 2]), hex_digit(s[j + 3])) {
        (Some(a), Some(b), Some(c), Some(d)) => Some(a * 4096 + b * 256 + c * 16 + d),
        _ => None,
    }
}

/// First position at or after `j` whose character is not JSON whitespace
/// (or the end of the text).
pub open spec fn spec_ws_end(s: Seq<char>, j: int) -> int
    decreases s.len() - j,
{
    if j < 0 || j >= s.len() {
        j
    } else if is_json_ws(s[j]) {
        spec_ws_end(s, j + 1)
    } else {
        j
    }
}

/// First position at or after `j` whose character is not a decimal digit
/// (or the end of the text).
pub open spec fn spec_digits_end(s: Seq<char>, j: int) -> int
    decreases s.len() - j,
{
    if j < 0 || j >= s.len() {
        j
    } else if is_digit(s[j]) {
        spec_digits_end(s, j + 1)
    } else {
        j
    }
}

/// One step of reading a decimal integer as a non-positive `i64`
/// accumulator (the negative of the magnitude, so that `i64::MIN` is
/// reachable); `None` once the magnitude no longer fits.
pub open spec fn push_neg_digit(a: Option<i64>, d: int) -> Option<i64> {
    match a {
        None => None,
        Some(x) => {
            let v = x * 10 - d;
            if x <= 0 && -0x8000_0000_0000_0000 <= v && v <= 0 {
                Some(v as i64)
            } else {
                None
            }
        },
    }
}

/// The digits of `s` between `j` and `k`, folded with `push_neg_digit`.
pub open spec fn fold_neg_digits(s: Seq<char>, j: int, k: int, a: Option<i64>) -> Option<i64>
    decreases k - j,
{
    if j < 0 || j >= k {
        a
    } else {
        fold_neg_digits(s, j + 1, k, push_neg_digit(a, digit_val(s[j])))
    }
}

/// Parse of the body of a JSON string, from `j` (just after the opening
/// quote) to a closing quote, with `acc` the characters read so far.
/// Returns the string's characters (escapes decoded) and the position just
/// after the closing quote.
pub open spec fn spec_str_body(s: Seq<char>, j: int, acc: Seq<char>) -> Option<(Seq<char>, int)>
    decreases s.len() - j,
{
    if j < 0 || j >= s.len() {
        None
    } else {
        let c = s[j];
        if c == '"' {
            Some((acc, j + 1))
        } else if c == '\\' {
            if j + 2 > s.len() {
                None
            } else {
                let e = s[j + 1];
                if e == '"' || e == '\\' || e == '/' {
                    spec_str_body(s, j + 2, acc.push(e))
                } else if e == 'b' {
                    spec_str_body(s, j + 2, acc.push('\u{0008}'))
                } else if e == 'f' {
                    spec_str_body(s, j + 2, acc.push('\u{000C}'))
                } else if e == 'n' {
                    spec_str_body(s, j + 2, acc.push('\n'))
                } else if e == 'r' {
                    spec_str_body(s, j + 2, acc.push('\r'))
                } else if e == 't' {
                    spec_str_body(s, j + 2, acc.push('\t'))
                } else if e == 'u' {
                    if j + 6 > s.len() {
                        None
                    } else {
                        match hex4(s, j + 2) {
                            None => None,
                            Some(n) => {
                                if n < 0xD800 || n >= 0xE000 {
                                    spec_str_body(s, j + 6, acc.push(n as char))
                                } else if n < 0xDC00 {
                                    // A high surrogate: a low-surrogate escape must follow,
                                    // and the pair names one supplementary character.
                                    if j + 12 <= s.len() && s[j + 6] == '\\' && s[j + 7] == 'u' {
                                        match hex4(s, j + 8) {
                                            None => None,
                                            Some(m) => {
                                                if 0xDC00 <= m < 0xE000 {
                                                    let cp = (0x10000 + (n - 0xD800) * 0x400 + (m
                                                        - 0xDC00)) as u32;
                                                    spec_str_body(s, j + 12, acc.push(cp as char))
                                                } else {
                                                    None
                                                }
                                            },
                                        }
                                    } else {
                                        None
                                    }
                                } else {
                                    None
                                }
                            },
                        }
                    }
                } else {
                    None
                }
            }
        } else if (c as u32) < 32 {
            None
        } else {
            spec_str_body(s, j + 1, acc.push(c))
        }
    }
}

/// Parse of a JSON number starting at `i`. An integer literal that fits
/// `i64` becomes `Int`; any other numeric literal is kept as `NumLit`.
pub open spec fn spec_number(s: Seq<char>, i: int) -> Option<(JsonG, int)> {
    if i < 0 || i >= s.len() {
        None
    } else {
        let neg = s[i] == '-';
        let d0 = if neg {
            i + 1
        } else {
            i
        };
        if d0 >= s.len() || !is_digit(s[d0]) {
            None
        } else {
            let dend = spec_digits_end(s, d0);
            if s[d0] == '0' && dend > d0 + 1 {
                None
            } else {
                let has_frac = dend < s.len() && s[dend] == '.';
                let fend = if has_frac {
                    spec_digits_end(s, dend + 1)
                } else {
                    dend
                };
                if has_frac && fend == dend + 1 {
                    None
                } else {
                    let has_exp = fend < s.len() && (s[fend] == 'e' || s[fend] == 'E');
                    let e0 = if has_exp && fend + 1 < s.len() && (s[fend + 1] == '+' || s[fend + 1]
                        == '-') {
                        fend + 2
                    } else {
                        fend + 1
                    };
                    let eend = if has_exp {
                        spec_digits_end(s, e0)
                    } else {
                        fend
                    };
                    if has_exp && eend == e0 {
                        None
                    } else {
                        let end = if has_exp {
                            eend
                        } else {
                            fend
                        };
                        if has_frac || has_exp {
                            Some((JsonG::NumLit(s.subrange(i, end)), end))
                        } else {
                            match fold_neg_digits(s, d0, dend, Some(0i64)) {
                                None => Some((JsonG::NumLit(s.subrange(i, end)), end)),
                                Some(mneg) => {
                                    if neg {
                                        Some((JsonG::Int(mneg), end))
                                    } else {
                                        let mag = -(mneg as int);
                                        if mag <= 0x7FFF_FFFF_FFFF_FFFF {
                                            Some((JsonG::Int(mag as i64), end))
                                        } else {
                                            Some((JsonG::NumLit(s.subrange(i, end)), end))
                                        }
                                    }
                                },
                            }
                        }
                    }
                }
            }
        }
    }
}

/// Parse of a JSON value whose first character stands at `i` (no leading
/// whitespace). Returns the value and the position just after it.
pub open spec fn spec_value(s: Seq<char>, i: int) -> Option<(JsonG, int)>
    decreases s.len() - i, 0int,
{
    if i < 0 || i >= s.len() {
        None
    } else {
        let c = s[i];
        if c == 'n' {
            if i + 4 <= s.len() && s[i + 1] == 'u' && s[i + 2] == 'l' && s[i + 3] == 'l' {
                Some((JsonG::Null, i + 4))
            } else {
                None
            }
        } else if c == 't' {
            if i + 4 <= s.len() && s[i + 1] == 'r' && s[i + 2] == 'u' && s[i + 3] == 'e' {
                Some((JsonG::Bool(true), i + 4))
            } else {
                None
            }
        } else if c == 'f' {
            if i + 5 <= s.len() && s[i + 1] == 'a' && s[i + 2] == 'l' && s[i + 3] == 's' && s[i + 4]
                == 'e' {
                Some((JsonG::Bool(false), i + 5))
            } else {
                None
            }
        } else if c == '"' {
            match spec_str_body(s, i + 1, Seq::empty()) {
                None => None,
                Some((t, j)) => Some((JsonG::Str(t), j)),
            }
        } else if c == '-' || is_digit(c) {
            spec_number(s, i)
        } else if c == '[' {
            spec_arr_items(s, i + 1, Seq::empty(), true)
        } else if c == '{' {
            spec_obj_items(s, i + 1, Seq::empty(), true)
        } else {
            None
        }
    }
}

/// The continuation position after a sub-parse that returned `j2`, started
/// at `j`: always strictly past `j` and never past the end of the text, so
/// that recursion visibly terminates (parses in fact always advance and stay
/// in bounds, so the guards change nothing).
pub open spec fn next_pos(j: int, j2: int, n: nat) -> int {
    let k = if j2 > j { j2 } else { j + 1 };
    if k > n { n as int } else { k }
}

/// Parse of array elements from `j` (just after `[` or `,`); `first` allows
/// an immediate `]`.
pub open spec fn spec_arr_items(s: Seq<char>, j: int, acc: Seq<JsonG>, first: bool) -> Option<
    (JsonG, int),
>
    decreases s.len() - j, 1int,
{
    if j < 0 || j >= s.len() {
        None
    } else if is_json_ws(s[j]) {
        spec_arr_items(s, j + 1, acc, first)
    } else if s[j] == ']' && first {
        Some((JsonG::Arr(acc), j + 1))
    } else {
        match spec_value(s, j) {
            None => None,
            Some((v, j2)) => spec_arr_after(s, next_pos(j, j2, s.len()), acc.push(v)),
        }
    }
}

/// Parse after an array element: whitespace, then `,` or `]`.
pub open spec fn spec_arr_after(s: Seq<char>, j: int, acc: Seq<JsonG>) -> Option<(JsonG, int)>
    decreases s.len() - j, 1int,
{
    if j < 0 || j >= s.len() {
        None
    } else if is_json_ws(s[j]) {
        spec_arr_after(s, j + 1, acc)
    } else if s[j] == ']' {
        Some((JsonG::Arr(acc), j + 1))
    } else if s[j] == ',' {
        spec_arr_items(s, j + 1, acc, false)
    } else {
        None
    }
}

/// Parse of object members from `j` (just after `{` or `,`); `first` allows
/// an immediate `}`.
pub open spec fn spec_obj_items(
    s: Seq<char>,
    j: int,
    acc: Seq<(Seq<char>, JsonG)>,
    first: bool,
) -> Option<(JsonG, int)>
    decreases s.len() - j, 1int,
{
    if j < 0 || j >= s.len() {
        None
    } else if is_json_ws(s[j]) {
        spec_obj_items(s, j + 1, acc, first)
    } else if s[j] == '}' && first {
        Some((JsonG::Obj(acc), j + 1))
    } else if s[j] == '"' {
        match spec_str_body(s, j + 1, Seq::empty()) {
            None => None,
            Some((key, j2)) => spec_obj_colon(s, next_pos(j, j2, s.len()), acc, key),
        }
    } else {
        None
    }
}

/// Parse between a member's key and its `:`.
pub open spec fn spec_obj_colon(
    s: Seq<char>,
    j: int,
    acc: Seq<(Seq<char>, JsonG)>,
    key: Seq<char>,
) -> Option<(JsonG, int)>
    decreases s.len() - j, 1int,
{
    if j < 0 || j >= s.len() {
        None
    } else if is_json_ws(s[j]) {
        spec_obj_colon(s, j + 1, acc, key)
    } else if s[j] == ':' {
        spec_obj_val(s, j + 1, acc, key)
    } else {
        None
    }
}

/// Parse of a member's value, after its `:`.
pub open spec fn spec_obj_val(
    s: Seq<char>,
    j: int,
    acc: Seq<(Seq<char>, JsonG)>,
    key: Seq<char>,
) -> Option<(JsonG, int)>
    decreases s.len() - j, 2int,
{
    if j < 0 || j >= s.len() {
        None
    } else if is_json_ws(s[j]) {
        spec_obj_val(s, j + 1, acc, key)
    } else {
        match spec_value(s, j) {
            None => None,
            Some((v, j2)) => spec_obj_after(s, next_pos(j, j2, s.len()), acc.push((key, v))),
        }
    }
}

/// Parse after an object member: whitespace, then `,` or `}`.
pub open spec fn spec_obj_after(s: Seq<char>, j: int, acc: Seq<(Seq<char>, JsonG)>) -> Option<
    (JsonG, int),
>
    decreases s.len() - j, 1int,
{
    if j < 0 || j >= s.len() {
        None
    } else if is_json_ws(s[j]) {
        spec_obj_after(s, j + 1, acc)
    } else if s[j] == '}' {
        Some((JsonG::Obj(acc), j + 1))
    } else if s[j] == ',' {
        spec_obj_items(s, j + 1, acc, false)
    } else {
        None
    }
}

/// Parse of a whole JSON text: one value, with whitespace allowed around it
/// and nothing else.
pub open spec fn spec_json_text(s: Seq<char>) -> Option<JsonG> {
    match spec_value(s, spec_ws_end(s, 0)) {
        None => None,
        Some((v, j)) => if spec_ws_end(s, j) == s.len() {
            Some(v)
        } else {
            None
        },
    }
}

/// Relies on `char::from_u32` of std: it returns `Some` exactly for Unicode
/// scalar values (not a surrogate, at most 0x10FFFF), and the returned
/// character has the given value.
#[verifier::external_body]
fn char_from_u32(n: u32) -> (r: Option<char>)
    ensures
        match r {
            Some(c) => vstd::utf8::is_scalar(n) && c as u32 == n,
            None => !vstd::utf8::is_scalar(n),
        },
{
    char::from_u32(n)
}

} // verus!

verus! {

/// `items_view` of a vector after a push.
proof fn lemma_items_view_push(acc: Vec<Json>, v: Json, acc2: Vec<Json>)
    requires
        acc2@ == acc@.push(v),
    ensures
        items_view(acc2) == items_view(acc).push(jview(v)),
{
    assert(items_view(acc2) =~= items_view(acc).push(jview(v)));
}

/// `entries_view` of a vector after a push.
proof fn lemma_entries_view_push(
    acc: Vec<(Vec<char>, Json)>,
    k: Vec<char>,
    v: Json,
    acc2: Vec<(Vec<char>, Json)>,
)
    requires
        acc2@ == acc@.push((k, v)),
    ensures
        entries_view(acc2) == entries_view(acc).push((k@, jview(v))),
{
    assert(entries_view(acc2) =~= entries_view(acc).push((k@, jview(v))));
}

/// Everything before a digits end is a digit, and the end stands at a
/// non-digit or at the end of the text.
proof fn lemma_digits_end(s: Seq<char>, j: int)
    requires
        0 <= j <= s.len(),
    ensures
        j <= spec_digits_end(s, j) <= s.len(),
        forall|m: int| j <= m < spec_digits_end(s, j) ==> is_digit(#[trigger] s[m]),
        j < s.len() && is_digit(s[j]) ==> spec_digits_end(s, j) > j,
    decreases s.len() - j,
{
    if j < s.len() && is_digit(s[j]) {
        lemma_digits_end(s, j + 1);
    }
}

/// A fold of `push_neg_digit` from a non-positive accumulator stays
/// non-positive.
proof fn lemma_fold_neg_nonpos(s: Seq<char>, j: int, k: int, a: Option<i64>)
    requires
        a matches Some(x) ==> x <= 0,
    ensures
        fold_neg_digits(s, j, k, a) matches Some(y) ==> y <= 0,
    decreases k - j,
{
    if !(j < 0 || j >= k) {
        lemma_fold_neg_nonpos(s, j + 1, k, push_neg_digit(a, digit_val(s[j])));
    }
}

/// Exec twin of `spec_ws_end`.
fn ws_end(s: &[char], j: usize) -> (r: usize)
    requires
        j <= s@.len(),
    ensures
        r as int == spec_ws_end(s@, j as int),
        j <= r <= s@.len(),
    decreases s@.len() - j,
{
    if j >= s.len() {
        j
    } else if json_ws(s[j]) {
        ws_end(s, j + 1)
    } else {
        j
    }
}

/// Exec twin of `spec_digits_end`.
fn digits_end(s: &[char], j: usize) -> (r: usize)
    requires
        j <= s@.len(),
    ensures
        r as int == spec_digits_end(s@, j as int),
        j <= r <= s@.len(),
    decreases s@.len() - j,
{
    if j >= s.len() {
        j
    } else if digit(s[j]) {
        digits_end(s, j + 1)
    } else {
        j
    }
}

/// Exec twin of `fold_neg_digits`, over a range of digits.
fn fold_neg(s: &[char], j: usize, k: usize, a: Option<i64>) -> (r: Option<i64>)
    requires
        j <= k <= s@.len(),
        forall|m: int| j <= m < k ==> is_digit(#[trigger] s@[m]),
    ensures
        r == fold_neg_digits(s@, j as int, k as int, a),
    decreases k - j,
{
    if j >= k {
        a
    } else {
        proof {
            assert(is_digit(s@[j as int]));
        }
        let d: u32 = s[j] as u32 - 48;
        let a2: Option<i64> = match a {
            None => None,
            Some(x) => {
                if x > 0 {
                    None
                } else {
                    match x.checked_mul(10) {
                        None => None,
                        Some(y) => y.checked_sub(d as i64),
                    }
                }
            },
        };
        fold_neg(s, j + 1, k, a2)
    }
}

/// Exec twin of `spec_str_body`.
fn str_body(s: &[char], j: usize, acc: Vec<char>) -> (r: Option<(Vec<char>, usize)>)
    requires
        j <= s@.len(),
    ensures
        match r {
            Some((t, k)) => spec_str_body(s@, j as int, acc@) == Some((t@, k as int)) && j < k
                <= s@.len(),
            None => spec_str_body(s@, j as int, acc@) is None,
        },
    decreases s@.len() - j,
{
    if j >= s.len() {
        return None;
    }
    let c = s[j];
    if c == '"' {
        Some((acc, j + 1))
    } else if c == '\\' {
        if s.len() - j < 2 {
            return None;
        }
        let e = s[j + 1];
        if e == '"' || e == '\\' || e == '/' {
            let mut acc = acc;
            acc.push(e);
            str_body(s, j + 2, acc)
        } else if e == 'b' {
            let mut acc = acc;
            acc.push('\u{0008}');
            str_body(s, j + 2, acc)
        } else if e == 'f' {
            let mut acc = acc;
            acc.push('\u{000C}');
            str_body(s, j + 2, acc)
        } else if e == 'n' {
            let mut acc = acc;
            acc.push('\n');
            str_body(s, j + 2, acc)
        } else if e == 'r' {
            let mut acc = acc;
            acc.push('\r');
            str_body(s, j + 2, acc)
        } else if e == 't' {
            let mut acc = acc;
            acc.push('\t');
            str_body(s, j + 2, acc)
        } else if e == 'u' {
            if s.len() - j < 6 {
                return None;
            }
            match hex4_at(s, j + 2) {
                None => None,
                Some(n) => {
                    if n < 0xD800 || n >= 0xE000 {
                        match char_from_u32(n) {
                            None => {
                                // cannot happen: n is outside the surrogate
                                // range and at most 0xFFFF, so it is a scalar
                                proof {
                                    assert(false);
                                }
                                None
                            },
                            Some(cc) => {
                                proof {
                                    vstd::utf8::char_u32_cast(cc, n);
                                }
                                let mut acc = acc;
                                acc.push(cc);
                                str_body(s, j + 6, acc)
                            },
                        }
                    } else if n < 0xDC00 {
                        if s.len() - j >= 12 && s[j + 6] == '\\' && s[j + 7] == 'u' {
                            match hex4_at(s, j + 8) {
                                None => None,
                                Some(m) => {
                                    if 0xDC00 <= m && m < 0xE000 {
                                        let cp: u32 = 0x10000 + (n - 0xD800) * 0x400 + (m - 0xDC00);
                                        match char_from_u32(cp) {
                                            None => {
                                                // cannot happen: a surrogate
                                                // pair names a scalar in
                                                // 0x10000 ..= 0x10FFFF
                                                proof {
                                                    assert(false);
                                                }
                                                None
                                            },
                                            Some(cc) => {
                                                proof {
                                                    vstd::utf8::char_u32_cast(cc, cp);
                                                }
                                                let mut acc = acc;
                                                acc.push(cc);
                                                str_body(s, j + 12, acc)
                                            },
                                        }
                                    } else {
                                        None
                                    }
                                },
                            }
                        } else {
                            None
                        }
                    } else {
                        None
                    }
                },
            }
        } else {
            None
        }
    } else if (c as u32) < 32 {
        None
    } else {
        let mut acc = acc;
        acc.push(c);
        str_body(s, j + 1, acc)
    }
}

/// Exec twin of `spec_number`.
fn p_number(s: &[char], i: usize) -> (r: Option<(Json, usize)>)
    requires
        i <= s@.len(),
    ensures
        match r {
            Some((v, j)) => spec_number(s@, i as int) == Some((v@, j as int)) && i < j <= s@.len(),
            None => spec_number(s@, i as int) is None,
        },
{
    if i >= s.len() {
        return None;
    }
    let neg = s[i] == '-';
    let d0 = if neg {
        i + 1
    } else {
        i
    };
    if d0 >= s.len() || !digit(s[d0]) {
        return None;
    }
    let dend = digits_end(s, d0);
    proof {
        lemma_digits_end(s@, d0 as int);
    }
    if s[d0] == '0' && dend > d0 + 1 {
        return None;
    }
    let has_frac = dend < s.len() && s[dend] == '.';
    let fend = if has_frac {
        digits_end(s, dend + 1)
    } else {
        dend
    };
    if has_frac && fend == dend + 1 {
        return None;
    }
    let has_exp = fend < s.len() && (s[fend] == 'e' || s[fend] == 'E');
    let mut end = fend;
    if has_exp {
        let e0 = if fend + 1 < s.len() && (s[fend + 1] == '+' || s[fend + 1] == '-') {
            fend + 2
        } else {
            fend + 1
        };
        let eend = digits_end(s, e0);
        if eend == e0 {
            return None;
        }
        end = eend;
    }
    if has_frac || has_exp {
        return Some((Json::NumLit(subvec(s, i, end)), end));
    }
    proof {
        lemma_fold_neg_nonpos(s@, d0 as int, dend as int, Some(0i64));
    }
    match fold_neg(s, d0, dend, Some(0i64)) {
        None => Some((Json::NumLit(subvec(s, i, end)), end)),
        Some(mneg) => {
            if neg {
                Some((Json::Int(mneg), end))
            } else {
                if mneg >= -0x7FFF_FFFF_FFFF_FFFF {
                    Some((Json::Int(-mneg), end))
                } else {
                    Some((Json::NumLit(subvec(s, i, end)), end))
                }
            }
        },
    }
}

/// Exec twin of `spec_value`.
fn p_value(s: &[char], i: usize) -> (r: Option<(Json, usize)>)
    requires
        i <= s@.len(),
    ensures
        match r {
            Some((v, j)) => spec_value(s@, i as int) == Some((v@, j as int)) && i < j <= s@.len(),
            None => spec_value(s@, i as int) is None,
        },
    decreases s@.len() - i, 0int,
{
    if i >= s.len() {
        return None;
    }
    let c = s[i];
    if c == 'n' {
        if s.len() - i >= 4 && s[i + 1] == 'u' && s[i + 2] == 'l' && s[i + 3] == 'l' {
            Some((Json::Null, i + 4))
        } else {
            None
        }
    } else if c == 't' {
        if s.len() - i >= 4 && s[i + 1] == 'r' && s[i + 2] == 'u' && s[i + 3] == 'e' {
            Some((Json::Bool(true), i + 4))
        } else {
            None
        }
    } else if c == 'f' {
        if s.len() - i >= 5 && s[i + 1] == 'a' && s[i + 2] == 'l' && s[i + 3] == 's' && s[i + 4]
            == 'e' {
            Some((Json::Bool(false), i + 5))
        } else {
            None
        }
    } else if c == '"' {
        match str_body(s, i + 1, Vec::new()) {
            None => None,
            Some((t, j)) => Some((Json::Str(t), j)),
        }
    } else if c == '-' || digit(c) {
        p_number(s, i)
    } else if c == '[' {
        let acc: Vec<Json> = Vec::new();
        proof {
            assert(items_view(acc) =~= Seq::<JsonG>::empty());
        }
        p_arr_items(s, i + 1, acc, true)
    } else if c == '{' {
        let acc: Vec<(Vec<char>, Json)> = Vec::new();
        proof {
            assert(entries_view(acc) =~= Seq::<(Seq<char>, JsonG)>::empty());
        }
        p_obj_items(s, i + 1, acc, true)
    } else {
        None
    }
}

/// Exec twin of `spec_arr_items`.
fn p_arr_items(s: &[char], j: usize, acc: Vec<Json>, first: bool) -> (r: Option<(Json, usize)>)
    requires
        j <= s@.len(),
    ensures
        match r {
            Some((v, k)) => spec_arr_items(s@, j as int, items_view(acc), first) == Some(
                (v@, k as int),
            ) && j < k <= s@.len(),
            None => spec_arr_items(s@, j as int, items_view(acc), first) is None,
        },
    decreases s@.len() - j, 1int,
{
    if j >= s.len() {
        None
    } else if json_ws(s[j]) {
        p_arr_items(s, j + 1, acc, first)
    } else if s[j] == ']' && first {
        Some((Json::Arr(acc), j + 1))
    } else {
        match p_value(s, j) {
            None => None,
            Some((v, j2)) => {
                let mut acc = acc;
                let ghost acc0 = acc;
                acc.push(v);
                proof {
                    lemma_items_view_push(acc0, v, acc);
                }
                p_arr_after(s, j2, acc)
            },
        }
    }
}

/// Exec twin of `spec_arr_after`.
fn p_arr_after(s: &[char], j: usize, acc: Vec<Json>) -> (r: Option<(Json, usize)>)
    requires
        j <= s@.len(),
    ensures
        match r {
            Some((v, k)) => spec_arr_after(s@, j as int, items_view(acc)) == Some((v@, k as int))
                && j < k <= s@.len(),
            None => spec_arr_after(s@, j as int, items_view(acc)) is None,
        },
    decreases s@.len() - j, 1int,
{
    if j >= s.len() {
        None
    } else if json_ws(s[j]) {
        p_arr_after(s, j + 1, acc)
    } else if s[j] == ']' {
        Some((Json::Arr(acc), j + 1))
    } else if s[j] == ',' {
        p_arr_items(s, j + 1, acc, false)
    } else {
        None
    }
}

/// Exec twin of `spec_obj_items`.
fn p_obj_items(s: &[char], j: usize, acc: Vec<(Vec<char>, Json)>, first: bool) -> (r: Option<
    (Json, usize),
>)
    requires
        j <= s@.len(),
    ensures
        match r {
            Some((v, k)) => spec_obj_items(s@, j as int, entries_view(acc), first) == Some(
                (v@, k as int),
            ) && j < k <= s@.len(),
            None => spec_obj_items(s@, j as int, entries_view(acc), first) is None,
        },
    decreases s@.len() - j, 1int,
{
    if j >= s.len() {
        None
    } else if json_ws(s[j]) {
        p_obj_items(s, j + 1, acc, first)
    } else if s[j] == '}' && first {
        Some((Json::Obj(acc), j + 1))
    } else if s[j] == '"' {
        match str_body(s, j + 1, Vec::new()) {
            None => None,
            Some((key, j2)) => p_obj_colon(s, j2, acc, key),
        }
    } else {
        None
    }
}

/// Exec twin of `spec_obj_colon`.
fn p_obj_colon(s: &[char], j: usize, acc: Vec<(Vec<char>, Json)>, key: Vec<char>) -> (r: Option<
    (Json, usize),
>)
    requires
        j <= s@.len(),
    ensures
        match r {
            Some((v, k)) => spec_obj_colon(s@, j as int, entries_view(acc), key@) == Some(
                (v@, k as int),
            ) && j < k <= s@.len(),
            None => spec_obj_colon(s@, j as int, entries_view(acc), key@) is None,
        },
    decreases s@.len() - j, 1int,
{
    if j >= s.len() {
        None
    } else if json_ws(s[j]) {
        p_obj_colon(s, j + 1, acc, key)
    } else if s[j] == ':' {
        p_obj_val(s, j + 1, acc, key)
    } else {
        None
    }
}

/// Exec twin of `spec_obj_val`.
fn p_obj_val(s: &[char], j: usize, acc: Vec<(Vec<char>, Json)>, key: Vec<char>) -> (r: Option<
    (Json, usize),
>)
    requires
        j <= s@.len(),
    ensures
        match r {
            Some((v, k)) => spec_obj_val(s@, j as int, entries_view(acc), key@) == Some(
                (v@, k as int),
            ) && j < k <= s@.len(),
            None => spec_obj_val(s@, j as int, entries_view(acc), key@) is None,
        },
    decreases s@.len() - j, 2int,
{
    if j >= s.len() {
        None
    } else if json_ws(s[j]) {
        p_obj_val(s, j + 1, acc, key)
    } else {
        match p_value(s, j) {
            None => None,
            Some((v, j2)) => {
                let mut acc = acc;
                let ghost acc0 = acc;
                acc.push((key, v));
                proof {
                    lemma_entries_view_push(acc0, key, v, acc);
                }
                p_obj_after(s, j2, acc)
            },
        }
    }
}

/// Exec twin of `spec_obj_after`.
fn p_obj_after(s: &[char], j: usize, acc: Vec<(Vec<char>, Json)>) -> (r: Option<(Json, usize)>)
    requires
        j <= s@.len(),
    ensures
        match r {
            Some((v, k)) => spec_obj_after(s@, j as int, entries_view(acc)) == Some((v@, k as int))
                && j < k <= s@.len(),
            None => spec_obj_after(s@, j as int, entries_view(acc)) is None,
        },
    decreases s@.len() - j, 1int,
{
    if j >= s.len() {
        None
    } else if json_ws(s[j]) {
        p_obj_after(s, j + 1, acc)
    } else if s[j] == '}' {
        Some((Json::Obj(acc), j + 1))
    } else if s[j] == ',' {
        p_obj_items(s, j + 1, acc, false)
    } else {
        None
    }
}

/// Parse a whole JSON text. Returns exactly the tree that `spec_json_text`
/// assigns to the characters, and `None` exactly when the text is not JSON.
pub fn parse_json(s: &[char]) -> (r: Option<Json>)
    ensures
        match r {
            Some(v) => spec_json_text(s@) == Some(v@),
            None => spec_json_text(s@) is None,
        },
{
    let start = ws_end(s, 0);
    match p_value(s, start) {
        None => None,
        Some((v, j)) => {
            if ws_end(s, j) == s.len() {
                Some(v)
            } else {
                None
            }
        },
    }
}

} // verus!
