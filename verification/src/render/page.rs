//! The rendered text of a page, tidied for display.

use vstd::prelude::*;

use crate::browser::bookmark::string_views;
use crate::text::{chars_of, push_char, push_str, string_from_chars, trim_ws, trimmed};

verus! {

/// `line` without one trailing carriage return.
pub open spec fn strip_cr(line: Seq<char>) -> Seq<char> {
    if line.len() > 0 && line.last() == '\r' {
        line.drop_last()
    } else {
        line
    }
}

/// The lines of the rest `s` of a text, after the lines `done` and the
/// unfinished line `cur`: a line ends at `\n` (a `\r` right before it goes
/// too), and an unfinished last line counts when it is not empty.
pub open spec fn lines_from(s: Seq<char>, done: Seq<Seq<char>>, cur: Seq<char>) -> Seq<Seq<char>>
    decreases s.len(),
{
    if s.len() == 0 {
        if cur.len() == 0 {
            done
        } else {
            done.push(cur)
        }
    } else if s[0] == '\n' {
        lines_from(s.skip(1), done.push(strip_cr(cur)), Seq::empty())
    } else {
        lines_from(s.skip(1), done, cur.push(s[0]))
    }
}

/// The lines of `s`, as `str::lines` gives them.
pub open spec fn lines_of(s: Seq<char>) -> Seq<Seq<char>> {
    lines_from(s, Seq::empty(), Seq::empty())
}

/// The tidied text of the lines `lines` after the text `out` so far, where
/// `prev_blank` says whether the last line was blank: the lines of a
/// paragraph are joined with spaces, and a run of blank lines becomes one
/// paragraph break.
pub open spec fn tidied_from(lines: Seq<Seq<char>>, out: Seq<char>, prev_blank: bool) -> Seq<char>
    decreases lines.len(),
{
    if lines.len() == 0 {
        out
    } else {
        let t = trimmed(lines[0]);
        let rest = lines.skip(1);
        if t.len() == 0 {
            if !prev_blank && out.len() > 0 {
                tidied_from(rest, out.push('\n'), true)
            } else {
                tidied_from(rest, out, prev_blank)
            }
        } else {
            let sep = if out.len() > 0 && !prev_blank {
                out.push(' ')
            } else if prev_blank {
                out.push('\n')
            } else {
                out
            };
            tidied_from(rest, sep + t, false)
        }
    }
}

/// The page text `raw` tidied: each line trimmed, the lines of a paragraph
/// joined with spaces, runs of blank lines collapsed to one break.
pub open spec fn tidied(raw: Seq<char>) -> Seq<char> {
    tidied_from(lines_of(raw), Seq::empty(), false)
}

/// The lines of `s`, as `str::lines` splits them.
pub fn split_lines(s: &str) -> (res: Vec<String>)
    ensures
        string_views(res@) == lines_of(s@),
{
    let cs = chars_of(s);
    let mut done: Vec<String> = Vec::new();
    let mut cur: Vec<char> = Vec::new();
    let mut i: usize = 0;
    proof {
        assert(cs@.skip(0) =~= cs@);
        assert(string_views(done@) =~= Seq::<Seq<char>>::empty());
    }
    while i < cs.len()
        invariant
            i <= cs@.len(),
            cs@ == s@,
            lines_from(cs@.skip(i as int), string_views(done@), cur@) == lines_of(s@),
        decreases cs@.len() - i,
    {
        let c = cs[i];
        let ghost rest = cs@.skip(i as int);
        proof {
            assert(rest[0] == c);
            assert(rest.skip(1) =~= cs@.skip(i + 1));
        }
        if c == '\n' {
            let n = cur.len();
            if n > 0 && cur[n - 1] == '\r' {
                cur.pop();
            }
            let ghost before = done@;
            done.push(string_from_chars(&cur));
            proof {
                assert(string_views(done@) =~= string_views(before).push(cur@));
            }
            cur = Vec::new();
        } else {
            cur.push(c);
        }
        i = i + 1;
    }
    if cur.len() > 0 {
        let ghost before = done@;
        done.push(string_from_chars(&cur));
        proof {
            assert(string_views(done@) =~= string_views(before).push(cur@));
        }
    }
    done
}

/// Tidy the rendered text of a page so that it reads as paragraphs: each
/// line is trimmed, the lines of a paragraph are joined with spaces, and a
/// run of blank lines becomes a single paragraph break.
pub fn clean_body(raw: &str) -> (res: String)
    ensures
        res@ == tidied(raw@),
{
    let lines = split_lines(raw);
    let ghost all = string_views(lines@);
    let mut out = String::new();
    let mut prev_blank = false;
    let mut i: usize = 0;
    proof {
        assert(all.skip(0) =~= all);
    }
    while i < lines.len()
        invariant
            i <= lines@.len(),
            all == string_views(lines@),
            all == lines_of(raw@),
            tidied_from(all.skip(i as int), out@, prev_blank) == tidied(raw@),
        decreases lines@.len() - i,
    {
        let ghost rest = all.skip(i as int);
        proof {
            assert(rest[0] == lines@[i as int]@);
            assert(rest.skip(1) =~= all.skip(i + 1));
        }
        let trimmed_line = trim_ws(lines[i].as_str());
        let t = trimmed_line.as_str();
        if t.is_empty() {
            if !prev_blank && !out.as_str().is_empty() {
                push_char(&mut out, '\n');
                prev_blank = true;
            }
        } else {
            if !out.as_str().is_empty() && !prev_blank {
                push_char(&mut out, ' ');
            } else if prev_blank {
                push_char(&mut out, '\n');
            }
            push_str(&mut out, t);
            prev_blank = false;
        }
        i = i + 1;
    }
    proof {
        assert(all.skip(i as int) =~= Seq::<Seq<char>>::empty());
    }
    out
}

} // verus!
