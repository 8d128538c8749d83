//! Splitting text into lines, as `str::lines` does, and the texts of lists of
//! strings.

use crate::app::push_char;
use vstd::prelude::*;

verus! {

/// The texts of a list of strings.
pub open spec fn strings_view(v: Seq<String>) -> Seq<Seq<char>> {
    v.map_values(|s: String| s@)
}

/// A line without the carriage return that ends it, if any.
pub open spec fn strip_cr(line: Seq<char>) -> Seq<char> {
    if line.len() > 0 && line.last() == '\r' {
        line.drop_last()
    } else {
        line
    }
}

/// Reading one character: a line feed ends the current line (dropping a
/// carriage return before it), any other character extends it.
pub open spec fn lines_step(st: (Seq<Seq<char>>, Seq<char>), c: char) -> (Seq<Seq<char>>, Seq<char>) {
    if c == '\n' {
        (st.0.push(strip_cr(st.1)), Seq::empty())
    } else {
        (st.0, st.1.push(c))
    }
}

/// The finished lines and the current line after reading `s`.
pub open spec fn lines_run(s: Seq<char>) -> (Seq<Seq<char>>, Seq<char>)
    decreases s.len(),
{
    if s.len() == 0 {
        (Seq::empty(), Seq::empty())
    } else {
        lines_step(lines_run(s.drop_last()), s.last())
    }
}

/// The lines of a text: split at `\n` or `\r\n`, without the line endings;
/// a final line ending adds no empty line.
pub open spec fn text_lines(s: Seq<char>) -> Seq<Seq<char>> {
    let st = lines_run(s);
    if st.1.len() > 0 {
        st.0.push(st.1)
    } else {
        st.0
    }
}

/// Splits a text into its lines, as `str::lines` does.
pub fn split_lines(text: &str) -> (lines: Vec<String>)
    ensures
        strings_view(lines@) == text_lines(text@),
{
    let mut lines: Vec<String> = Vec::new();
    let mut current = String::new();
    let mut pending_cr = false;
    let ghost chars = text@;
    for c in it: text.chars()
        invariant
            chars == text@,
            it.seq() == chars,
            strings_view(lines@) == lines_run(chars.take(it.index() as int)).0,
            lines_run(chars.take(it.index() as int)).1 == (if pending_cr {
                current@.push('\r')
            } else {
                current@
            }),
            !pending_cr ==> current@.len() == 0 || current@.last() != '\r',
    {
        let ghost i = it.index();
        proof {
            assert(chars.take(i + 1).drop_last() =~= chars.take(i));
            assert(chars.take(i + 1).last() == c);
        }
        if c == '\n' {
            proof {
                if pending_cr {
                    assert(current@.push('\r').drop_last() =~= current@);
                }
                assert(strip_cr(lines_run(chars.take(i as int)).1) == current@);
            }
            let mut finished = String::new();
            std::mem::swap(&mut finished, &mut current);
            let ghost before = lines@;
            lines.push(finished);
            pending_cr = false;
            assert(strings_view(lines@) =~= strings_view(before).push(finished@));
        } else if c == '\r' {
            if pending_cr {
                push_char(&mut current, '\r');
            }
            pending_cr = true;
        } else {
            if pending_cr {
                push_char(&mut current, '\r');
            }
            push_char(&mut current, c);
            pending_cr = false;
        }
    }
    assert(chars.take(chars.len() as int) =~= chars);
    if pending_cr {
        push_char(&mut current, '\r');
    }
    if current.as_str().unicode_len() > 0 {
        let ghost before = lines@;
        let last = current;
        let ghost lv = last@;
        lines.push(last);
        assert(strings_view(lines@) =~= strings_view(before).push(lv));
    }
    lines
}

} // verus!
