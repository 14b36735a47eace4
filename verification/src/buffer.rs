//! The line store: the document as an ordered, zero-indexed sequence of
//! text lines, with point queries and a length query.

use vstd::prelude::*;
use vstd::string::StrSliceExecFns;

verus! {

/// The document: an optional display label (the file name) and the lines.
///
/// Lines are never reordered; index `i` is stable for the life of the store.
pub struct Buffer {
    pub file: Option<String>,
    pub lines: Vec<String>,
}

/// Index of the first line feed in `s`, or `s.len()` when there is none.
pub open spec fn first_nl(s: Seq<char>) -> nat
    decreases s.len(),
{
    if s.len() == 0 {
        0
    } else if s[0] == '\n' {
        0
    } else {
        1 + first_nl(s.drop_first())
    }
}

/// A piece with its closing carriage return removed, if it carries one:
/// a line ended by a carriage return and line feed pair keeps neither.
pub open spec fn strip_cr(p: Seq<char>) -> Seq<char> {
    if p.len() > 0 && p[p.len() - 1] == '\r' {
        p.drop_last()
    } else {
        p
    }
}

/// `s` split on line boundaries: pieces end at each line feed (a carriage
/// return before the line feed belongs to the boundary), interior and
/// trailing empty lines between separators are preserved, only the record
/// separator itself is discarded, and a final separator closes the last
/// line rather than opening an empty one.
pub open spec fn spec_lines(s: Seq<char>) -> Seq<Seq<char>>
    decreases s.len(),
{
    if s.len() == 0 {
        Seq::empty()
    } else if first_nl(s) >= s.len() {
        seq![s]
    } else {
        let i = first_nl(s) as int;
        seq![strip_cr(s.take(i))] + spec_lines(s.skip(i + 1))
    }
}

/// `first_nl` names the first line feed: it is the least index holding one,
/// and `s.len()` when no index does.
pub proof fn lemma_first_nl_at(s: Seq<char>, k: int)
    requires
        0 <= k <= s.len(),
        forall|j: int| 0 <= j < k ==> s[j] != '\n',
        k < s.len() ==> s[k] == '\n',
    ensures
        first_nl(s) == k,
    decreases k,
{
    if k > 0 {
        lemma_first_nl_at(s.drop_first(), k - 1);
    }
}

impl Buffer {
    /// The document read from raw text: the text split on line boundaries,
    /// under the given display label.
    pub fn from_text(file: Option<String>, text: &str) -> (r: Buffer)
        ensures
            r.file == file,
            r.lines@.map_values(|l: String| l@) == spec_lines(text@),
    {
        Buffer { file, lines: split_lines(text) }
    }

    /// The line at `line`, or nothing when the index is past the end.
    /// Never panics on an out-of-range index.
    pub fn get_line(&self, line: usize) -> (r: Option<String>)
        ensures
            r is Some <==> line < self.lines@.len(),
            r matches Some(s) ==> s@ == self.lines@[line as int]@,
    {
        if self.lines.len() > line {
            Some(self.lines[line].clone())
        } else {
            None
        }
    }

    /// How many lines the document holds.
    pub fn len(&self) -> (r: usize)
        ensures
            r == self.lines@.len(),
    {
        self.lines.len()
    }
}

/// Splits raw text into its lines, as `spec_lines` describes.
pub fn split_lines(text: &str) -> (r: Vec<String>)
    ensures
        r@.map_values(|l: String| l@) == spec_lines(text@),
{
    let ghost s = text@;
    let n = text.unicode_len();
    let mut out: Vec<String> = Vec::new();
    let mut start: usize = 0;
    let mut i: usize = 0;
    proof {
        assert(out@.map_values(|l: String| l@) =~= Seq::<Seq<char>>::empty());
        assert(s.skip(0) =~= s);
        assert(Seq::<Seq<char>>::empty() + spec_lines(s) =~= spec_lines(s));
    }
    while i < n
        invariant
            s == text@,
            n == s.len(),
            0 <= start <= i <= n,
            forall|j: int| start <= j < i ==> s[j] != '\n',
            spec_lines(s) == out@.map_values(|l: String| l@) + spec_lines(s.skip(start as int)),
        decreases n - i,
    {
        if text.get_char(i) == '\n' {
            let piece: String = if i > start && text.get_char(i - 1) == '\r' {
                text.substring_char(start, i - 1).to_owned()
            } else {
                text.substring_char(start, i).to_owned()
            };
            proof {
                let t = s.skip(start as int);
                lemma_first_nl_at(t, i - start);
                assert(t.take(i - start) =~= s.subrange(start as int, i as int));
                assert(t.skip(i - start + 1) =~= s.skip(i + 1));
                assert(piece@ =~= strip_cr(s.subrange(start as int, i as int)));
                assert(out@.push(piece).map_values(|l: String| l@) =~= out@.map_values(
                    |l: String| l@,
                ) + seq![piece@]);
                assert(spec_lines(t) == seq![strip_cr(t.take(i - start))] + spec_lines(
                    t.skip(i - start + 1),
                ));
            }
            out.push(piece);
            start = i + 1;
        }
        i = i + 1;
    }
    if start < n {
        let piece = text.substring_char(start, n).to_owned();
        proof {
            let t = s.skip(start as int);
            lemma_first_nl_at(t, n - start);
            assert(piece@ =~= t);
            assert(spec_lines(t) =~= seq![t]);
            assert(out@.push(piece).map_values(|l: String| l@) =~= out@.map_values(
                |l: String| l@,
            ) + seq![piece@]);
        }
        out.push(piece);
    } else {
        proof {
            assert(s.skip(start as int) =~= Seq::<char>::empty());
            assert(out@.map_values(|l: String| l@) + Seq::<Seq<char>>::empty() =~= out@.map_values(
                |l: String| l@,
            ));
        }
    }
    out
}

} // verus!
