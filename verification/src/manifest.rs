//! Splitting a manifest — a newline-delimited list of server addresses —
//! into its lines, exactly as line-by-line file reading does: lines are
//! separated by `'\n'`, a `'\r'` directly before a separator is stripped,
//! and a final line without a trailing newline is kept whole.

use vstd::prelude::*;

verus! {

use crate::json::subvec;
use crate::schema::strs_view;

/// First position at or after `j` holding a newline (or the end).
pub open spec fn spec_line_end(s: Seq<char>, j: int) -> int
    decreases s.len() - j,
{
    if j < 0 || j >= s.len() {
        j
    } else if s[j] == '\n' {
        j
    } else {
        spec_line_end(s, j + 1)
    }
}

/// A carriage return at the end of a line is dropped.
pub open spec fn strip_cr(line: Seq<char>) -> Seq<char> {
    if line.len() > 0 && line[line.len() - 1] == '\r' {
        line.drop_last()
    } else {
        line
    }
}

/// The lines of `s` from `pos` on.
pub open spec fn spec_lines_from(s: Seq<char>, pos: int) -> Seq<Seq<char>>
    decreases s.len() - pos,
{
    if pos < 0 || pos >= s.len() {
        Seq::empty()
    } else {
        let e = spec_line_end(s, pos);
        if e >= s.len() {
            seq![s.subrange(pos, s.len() as int)]
        } else {
            seq![strip_cr(s.subrange(pos, e))] + spec_lines_from(
                s,
                if e + 1 > pos {
                    e + 1
                } else {
                    pos + 1
                },
            )
        }
    }
}

/// The lines of a manifest text, in file order.
pub open spec fn spec_lines(s: Seq<char>) -> Seq<Seq<char>> {
    spec_lines_from(s, 0)
}

/// Exec twin of `spec_line_end`.
fn line_end(s: &[char], j: usize) -> (r: usize)
    requires
        j <= s@.len(),
    ensures
        r as int == spec_line_end(s@, j as int),
        j <= r <= s@.len(),
    decreases s@.len() - j,
{
    if j >= s.len() {
        j
    } else if s[j] == '\n' {
        j
    } else {
        line_end(s, j + 1)
    }
}

/// The lines of a manifest text: exactly `spec_lines` of its characters.
pub fn manifest_lines(text: &[char]) -> (r: Vec<Vec<char>>)
    ensures
        strs_view(r) == spec_lines(text@),
{
    let mut out: Vec<Vec<char>> = Vec::new();
    let mut pos: usize = 0;
    proof {
        assert(strs_view(out) =~= Seq::<Seq<char>>::empty());
        assert(spec_lines(text@) =~= strs_view(out) + spec_lines_from(text@, 0));
    }
    while pos < text.len()
        invariant
            pos <= text@.len(),
            spec_lines(text@) == strs_view(out) + spec_lines_from(text@, pos as int),
        decreases text@.len() - pos,
    {
        let e = line_end(text, pos);
        let ghost out0 = out;
        if e >= text.len() {
            let line = subvec(text, pos, text.len());
            out.push(line);
            proof {
                assert(spec_lines_from(text@, pos as int) =~= seq![
                    text@.subrange(pos as int, text@.len() as int),
                ]);
                assert(strs_view(out) =~= strs_view(out0).push(
                    text@.subrange(pos as int, text@.len() as int),
                ));
                assert(strs_view(out) + spec_lines_from(text@, text@.len() as int) =~= strs_view(
                    out0,
                ) + spec_lines_from(text@, pos as int));
            }
            pos = text.len();
        } else {
            let line = if e > pos && text[e - 1] == '\r' {
                subvec(text, pos, e - 1)
            } else {
                subvec(text, pos, e)
            };
            proof {
                let full = text@.subrange(pos as int, e as int);
                if e > pos && text@[e - 1] == '\r' {
                    assert(full.len() > 0 && full[full.len() - 1] == '\r');
                    assert(line@ =~= full.drop_last());
                } else {
                    assert(line@ =~= strip_cr(full));
                }
                assert(line@ == strip_cr(full));
            }
            out.push(line);
            proof {
                let full = text@.subrange(pos as int, e as int);
                assert(spec_lines_from(text@, pos as int) =~= seq![strip_cr(full)]
                    + spec_lines_from(text@, e + 1));
                assert(strs_view(out) =~= strs_view(out0).push(strip_cr(full)));
                assert(strs_view(out) + spec_lines_from(text@, e + 1) =~= strs_view(out0)
                    + spec_lines_from(text@, pos as int));
            }
            pos = e + 1;
        }
    }
    proof {
        assert(spec_lines_from(text@, pos as int) =~= Seq::<Seq<char>>::empty());
        assert(strs_view(out) + spec_lines_from(text@, pos as int) =~= strs_view(out));
    }
    out
}

} // verus!
