//! Filtering the lines of a URL list file: blank lines and `#`-comment
//! lines are skipped, every other line is kept exactly as read.

use vstd::prelude::*;
use vstd::string::StrSliceExecFns;
use crate::backlog::string_models;

verus! {

/// ASCII whitespace, as leading-blank detection understands it.
pub open spec fn is_ws_char(c: char) -> bool {
    c == ' ' || c == '\t' || c == '\r' || c == '\n' || c == '\u{b}' || c == '\u{c}'
}

/// A line is kept exactly when some character follows the leading
/// whitespace and the first such character is not `#`.
pub open spec fn kept_line(s: Seq<char>) -> bool {
    exists|i: int|
        0 <= i < s.len() && !is_ws_char(s[i]) && s[i] != '#' && (forall|j: int|
            0 <= j < i ==> is_ws_char(s[j]))
}

/// The kept lines, in order.
pub open spec fn kept_lines(s: Seq<Seq<char>>) -> Seq<Seq<char>>
    decreases s.len(),
{
    if s.len() == 0 {
        Seq::empty()
    } else if kept_line(s.last()) {
        kept_lines(s.drop_last()).push(s.last())
    } else {
        kept_lines(s.drop_last())
    }
}

/// Whether one line survives the filter.
pub fn line_is_kept(line: &str) -> (b: bool)
    ensures
        b == kept_line(line@),
{
    let n = line.unicode_len();
    let mut i: usize = 0;
    while i < n
        invariant
            n == line@.len(),
            0 <= i <= n,
            forall|j: int| 0 <= j < i ==> is_ws_char(line@[j]),
        decreases n - i,
    {
        let c = line.get_char(i);
        if !(c == ' ' || c == '\t' || c == '\r' || c == '\n' || c == '\u{b}' || c == '\u{c}') {
            if c != '#' {
                proof {
                    assert(kept_line(line@)) by {
                        assert(0 <= i < line@.len() && !is_ws_char(line@[i as int]) && line@[
                            i as int
                        ] != '#' && (forall|j: int| 0 <= j < i ==> is_ws_char(line@[j])));
                    }
                }
                return true;
            } else {
                proof {
                    assert(!kept_line(line@)) by {
                        if kept_line(line@) {
                            let w = choose|w: int|
                                0 <= w < line@.len() && !is_ws_char(line@[w]) && line@[w] != '#'
                                    && (forall|j: int| 0 <= j < w ==> is_ws_char(line@[j]));
                            assert(w != i);
                            if w < i {
                                assert(is_ws_char(line@[w]));
                            } else {
                                assert(is_ws_char(line@[i as int]));
                            }
                        }
                    }
                }
                return false;
            }
        }
        i = i + 1;
    }
    proof {
        assert(!kept_line(line@)) by {
            if kept_line(line@) {
                let w = choose|w: int|
                    0 <= w < line@.len() && !is_ws_char(line@[w]) && line@[w] != '#' && (forall|
                        j: int,
                    | 0 <= j < w ==> is_ws_char(line@[j]));
                assert(is_ws_char(line@[w]));
            }
        }
    }
    false
}

/// Keeps, in order and unmodified, exactly the lines that are neither
/// blank nor comments.
pub fn filter_url_lines(lines: Vec<String>) -> (kept: Vec<String>)
    ensures
        string_models(kept@) == kept_lines(string_models(lines@)),
{
    let ghost m = string_models(lines@);
    let mut kept: Vec<String> = Vec::new();
    let mut i: usize = 0;
    proof {
        assert(string_models(kept@) =~= kept_lines(m.take(0)));
    }
    while i < lines.len()
        invariant
            0 <= i <= lines.len(),
            m == string_models(lines@),
            string_models(kept@) == kept_lines(m.take(i as int)),
        decreases lines.len() - i,
    {
        proof {
            assert(m.take(i + 1).drop_last() =~= m.take(i as int));
            assert(m.take(i + 1).last() == m[i as int]);
        }
        if line_is_kept(lines[i].as_str()) {
            kept.push(lines[i].clone());
            proof {
                assert(string_models(kept@) =~= kept_lines(m.take(i + 1)));
            }
        } else {
            proof {
                assert(string_models(kept@) =~= kept_lines(m.take(i + 1)));
            }
        }
        i = i + 1;
    }
    proof {
        assert(m.take(lines@.len() as int) =~= m);
    }
    kept
}

} // verus!
