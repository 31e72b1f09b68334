//! Splitting an input text into lines.
//!
//! A line ends at a line feed; a carriage return standing right before the
//! line feed is not part of the line. A final line ending is optional: text
//! after the last line feed forms one more line only when it is non-empty.

use vstd::prelude::*;
use vstd::string::StrSliceExecFns;
use vstd::string::StringExecFns;

verus! {

/// `l` without a trailing carriage return, if it has one.
pub open spec fn strip_carriage_return(l: Seq<char>) -> Seq<char> {
    if l.len() > 0 && l[l.len() - 1] == '\r' {
        l.subrange(0, l.len() - 1)
    } else {
        l
    }
}

/// The lines of `rest`, when the characters `cur` of the current line have
/// already been read.
pub open spec fn lines_from(rest: Seq<char>, cur: Seq<char>) -> Seq<Seq<char>>
    decreases rest.len(),
{
    if rest.len() == 0 {
        if cur.len() == 0 {
            Seq::empty()
        } else {
            seq![cur]
        }
    } else if rest[0] == '\n' {
        seq![strip_carriage_return(cur)] + lines_from(rest.subrange(1, rest.len() as int), Seq::empty())
    } else {
        lines_from(rest.subrange(1, rest.len() as int), cur.push(rest[0]))
    }
}

/// The lines of the text `s`.
pub open spec fn lines_of(s: Seq<char>) -> Seq<Seq<char>> {
    lines_from(s, Seq::empty())
}

/// The views of a sequence of owned strings.
pub open spec fn line_views(v: Seq<String>) -> Seq<Seq<char>> {
    v.map_values(|l: String| l@)
}

/// The empty text has no lines at all.
pub proof fn lemma_empty_text_has_no_lines()
    ensures
        lines_of(Seq::<char>::empty()) == Seq::<Seq<char>>::empty(),
{
}

/// Splits `s` into its lines.
pub fn split_lines(s: &str) -> (r: Vec<String>)
    ensures
        line_views(r@) == lines_of(s@),
{
    let n = s.unicode_len();
    let mut r: Vec<String> = Vec::new();
    let mut start: usize = 0;
    let mut i: usize = 0;
    proof {
        assert(s@.subrange(0, n as int) =~= s@);
        assert(s@.subrange(0, 0) =~= Seq::<char>::empty());
        assert(line_views(r@) =~= Seq::<Seq<char>>::empty());
        assert(line_views(r@) + lines_from(s@, Seq::<char>::empty()) =~= lines_from(
            s@,
            Seq::<char>::empty(),
        ));
    }
    while i < n
        invariant
            start <= i <= n,
            n == s@.len(),
            lines_of(s@) == line_views(r@) + lines_from(
                s@.subrange(i as int, n as int),
                s@.subrange(start as int, i as int),
            ),
        decreases n - i,
    {
        let ghost rest = s@.subrange(i as int, n as int);
        let ghost cur = s@.subrange(start as int, i as int);
        let c = s.get_char(i);
        assert(rest[0] == c);
        if c == '\n' {
            let end: usize = if i > start && s.get_char(i - 1) == '\r' {
                i - 1
            } else {
                i
            };
            proof {
                if i > start && s@[i - 1] == '\r' {
                    assert(cur.len() > 0 && cur[cur.len() - 1] == '\r');
                }
                assert(strip_carriage_return(cur) =~= s@.subrange(start as int, end as int));
            }
            let line = s.substring_char(start, end);
            let owned = String::from_str(line);
            proof {
                assert(rest.subrange(1, rest.len() as int) =~= s@.subrange(
                    i + 1,
                    n as int,
                ));
                assert(line_views(r@.push(owned)) =~= line_views(r@) + seq![owned@]);
                assert(line_views(r@) + lines_from(rest, cur) =~= (line_views(r@)
                    + seq![strip_carriage_return(cur)]) + lines_from(
                    rest.subrange(1, rest.len() as int),
                    Seq::empty(),
                ));
                assert(s@.subrange(i + 1, i + 1) =~= Seq::<char>::empty());
            }
            r.push(owned);
            start = i + 1;
        } else {
            proof {
                assert(rest.subrange(1, rest.len() as int) =~= s@.subrange(
                    i + 1,
                    n as int,
                ));
                assert(cur.push(rest[0]) =~= s@.subrange(start as int, i + 1));
            }
        }
        i = i + 1;
    }
    proof {
        assert(s@.subrange(n as int, n as int) =~= Seq::<char>::empty());
    }
    if start < n {
        let line = s.substring_char(start, n);
        let owned = String::from_str(line);
        proof {
            let cur = s@.subrange(start as int, n as int);
            assert(cur.len() > 0);
            assert(lines_from(Seq::<char>::empty(), cur) =~= seq![cur]);
            assert(line_views(r@.push(owned)) =~= line_views(r@) + seq![owned@]);
        }
        r.push(owned);
    } else {
        proof {
            assert(s@.subrange(start as int, n as int) =~= Seq::<char>::empty());
        }
    }
    r
}

} // verus!
