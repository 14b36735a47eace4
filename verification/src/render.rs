//! Text composition for the two-pass redraw: each viewport row padded or
//! truncated to the terminal width, and the status line's three segments
//! (mode indicator, file label, cursor position), with the file label
//! elastically padded so the segments fill the terminal width exactly.

use vstd::prelude::*;
use vstd::string::StrSliceExecFns;
use vstd::string::StringExecFns;

use crate::editor::Editor;
use crate::editor::Mode;

verus! {

/// `n` spaces.
pub open spec fn spaces(n: nat) -> Seq<char> {
    Seq::new(n, |i: int| ' ')
}

/// `s` forced to exactly `w` characters: truncated when longer, padded with
/// trailing spaces when shorter.
pub open spec fn fit_spec(s: Seq<char>, w: nat) -> Seq<char> {
    if s.len() >= w {
        s.take(w as int)
    } else {
        s + spaces((w - s.len()) as nat)
    }
}

/// The result of fitting always has exactly the asked-for width.
pub proof fn lemma_fit_len(s: Seq<char>, w: nat)
    ensures
        fit_spec(s, w).len() == w,
{
}

/// The decimal digit `d` as a character.
pub open spec fn digit_char(d: nat) -> char {
    if d == 0 {
        '0'
    } else if d == 1 {
        '1'
    } else if d == 2 {
        '2'
    } else if d == 3 {
        '3'
    } else if d == 4 {
        '4'
    } else if d == 5 {
        '5'
    } else if d == 6 {
        '6'
    } else if d == 7 {
        '7'
    } else if d == 8 {
        '8'
    } else {
        '9'
    }
}

/// The decimal digits of `n`, most significant first, with no leading
/// zeros (a lone zero for 0).
pub open spec fn dec_spec(n: nat) -> Seq<char>
    decreases n,
{
    if n < 10 {
        seq![digit_char(n)]
    } else {
        dec_spec(n / 10).push(digit_char(n % 10))
    }
}

/// A single decimal digit as a string slice.
fn digit_str(d: usize) -> (r: &'static str)
    requires
        d < 10,
    ensures
        r@ =~= seq![digit_char(d as nat)],
{
    proof {
        reveal_strlit("0");
        reveal_strlit("1");
        reveal_strlit("2");
        reveal_strlit("3");
        reveal_strlit("4");
        reveal_strlit("5");
        reveal_strlit("6");
        reveal_strlit("7");
        reveal_strlit("8");
        reveal_strlit("9");
    }
    match d {
        0 => "0",
        1 => "1",
        2 => "2",
        3 => "3",
        4 => "4",
        5 => "5",
        6 => "6",
        7 => "7",
        8 => "8",
        _ => "9",
    }
}

/// `n` written in decimal.
pub fn decimal(n: usize) -> (r: String)
    ensures
        r@ == dec_spec(n as nat),
    decreases n,
{
    if n < 10 {
        digit_str(n).to_owned()
    } else {
        let mut s = decimal(n / 10);
        s.append(digit_str(n % 10));
        proof {
            assert(dec_spec((n / 10) as nat).push(digit_char((n % 10) as nat)) =~= dec_spec(
                (n / 10) as nat,
            ) + seq![digit_char((n % 10) as nat)]);
        }
        s
    }
}

/// `s` padded with trailing spaces, or truncated, to exactly `w` characters.
pub fn fit_width(s: &str, w: usize) -> (r: String)
    ensures
        r@ == fit_spec(s@, w as nat),
{
    let n = s.unicode_len();
    if n >= w {
        s.substring_char(0, w).to_owned()
    } else {
        let mut r = s.to_owned();
        let mut i = n;
        proof {
            assert(r@ =~= s@ + spaces(0));
        }
        while i < w
            invariant
                n <= i <= w,
                r@ == s@ + spaces((i - n) as nat),
            decreases w - i,
        {
            r.append(" ");
            i = i + 1;
            proof {
                reveal_strlit(" ");
                assert(r@ =~= s@ + spaces((i - n) as nat));
            }
        }
        r
    }
}

/// The mode indicator segment of the status line.
pub open spec fn mode_text(m: Mode) -> Seq<char> {
    match m {
        Mode::Normal => " NORMAL  "@,
        Mode::Insert => " INSERT  "@,
    }
}

/// The file label before padding: the file name, or Untitled for a scratch
/// document.
pub open spec fn label_text(file: Option<String>) -> Seq<char> {
    match file {
        Some(f) => " "@ + f@,
        None => " Untitled"@,
    }
}

/// The cursor position segment of the status line.
pub open spec fn pos_text(cx: nat, cy: nat) -> Seq<char> {
    " "@ + dec_spec(cx) + ":"@ + dec_spec(cy) + " "@
}

/// The width left over for the file label once the mode and position
/// segments are placed; clamped to zero on a pathologically narrow
/// terminal rather than underflowing.
pub open spec fn label_width(width: nat, mlen: nat, plen: nat) -> nat {
    if width >= mlen + plen {
        (width - mlen - plen) as nat
    } else {
        0
    }
}

/// The whole status line: mode segment, elastically fitted file label,
/// position segment.
pub open spec fn status_text(e: Editor) -> Seq<char> {
    let m = mode_text(e.mode);
    let p = pos_text(e.cx as nat, e.cy as nat);
    m + fit_spec(label_text(e.buffer.file), label_width(e.size.0 as nat, m.len(), p.len())) + p
}

/// Status line width invariant: whenever the terminal is at least as wide
/// as the mode and position segments together, the three rendered segments
/// sum exactly to the terminal width.
pub proof fn lemma_status_width(e: Editor)
    requires
        e.size.0 >= mode_text(e.mode).len() + pos_text(e.cx as nat, e.cy as nat).len(),
    ensures
        status_text(e).len() == e.size.0,
{
    let m = mode_text(e.mode);
    let p = pos_text(e.cx as nat, e.cy as nat);
    lemma_fit_len(label_text(e.buffer.file), label_width(e.size.0 as nat, m.len(), p.len()));
}

/// The text of the document line shown on viewport row `i`, before fitting:
/// empty when the row is past the end of the document.
pub open spec fn row_line(e: Editor, i: int) -> Seq<char> {
    if 0 <= e.vtop + i < e.buffer.lines@.len() {
        e.buffer.lines@[e.vtop + i]@
    } else {
        Seq::empty()
    }
}

impl Editor {
    /// Viewport row `i` as drawn: the document line under it (or an empty
    /// line), padded or truncated to the full terminal width, so that a
    /// redraw overwrites the whole row.
    pub fn row_text(&self, i: usize) -> (r: String)
        ensures
            r@ == fit_spec(row_line(*self, i as int), self.size.0 as nat),
    {
        match self.viewport_line(i) {
            Some(line) => fit_width(line.as_str(), self.size.0),
            None => {
                proof {
                    reveal_strlit("");
                    assert(""@ =~= Seq::<char>::empty());
                }
                fit_width("", self.size.0)
            },
        }
    }

    /// The three segments of the status line, in drawing order: mode
    /// indicator, fitted file label, cursor position.
    pub fn status_segments(&self) -> (r: (String, String, String))
        ensures
            r.0@ == mode_text(self.mode),
            r.1@ == fit_spec(
                label_text(self.buffer.file),
                label_width(
                    self.size.0 as nat,
                    mode_text(self.mode).len(),
                    pos_text(self.cx as nat, self.cy as nat).len(),
                ),
            ),
            r.2@ == pos_text(self.cx as nat, self.cy as nat),
            r.0@ + r.1@ + r.2@ == status_text(*self),
    {
        let m: String = match self.mode {
            Mode::Normal => " NORMAL  ".to_owned(),
            Mode::Insert => " INSERT  ".to_owned(),
        };
        let mut p: String = " ".to_owned();
        p.append(decimal(self.cx).as_str());
        p.append(":");
        p.append(decimal(self.cy).as_str());
        p.append(" ");
        let label: String = match &self.buffer.file {
            Some(f) => {
                let mut l: String = " ".to_owned();
                l.append(f.as_str());
                l
            },
            None => " Untitled".to_owned(),
        };
        let mlen = m.as_str().unicode_len();
        let plen = p.as_str().unicode_len();
        let w = self.size.0;
        let rest: usize = if w >= mlen && w - mlen >= plen {
            w - mlen - plen
        } else {
            0
        };
        let f = fit_width(label.as_str(), rest);
        (m, f, p)
    }

    /// The status line as one string. Whenever the terminal is at least as
    /// wide as the mode and position segments together, it is exactly as
    /// wide as the terminal.
    pub fn statusline(&self) -> (r: String)
        ensures
            r@ == status_text(*self),
            self.size.0 >= mode_text(self.mode).len() + pos_text(self.cx as nat, self.cy as nat).len()
                ==> r@.len() == self.size.0,
    {
        let (m, f, p) = self.status_segments();
        let mut r = m;
        r.append(f.as_str());
        r.append(p.as_str());
        proof {
            if self.size.0 >= mode_text(self.mode).len() + pos_text(
                self.cx as nat,
                self.cy as nat,
            ).len() {
                lemma_status_width(*self);
            }
        }
        r
    }
}

} // verus!
