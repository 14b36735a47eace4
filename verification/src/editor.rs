//! The editor state machine: cursor and viewport coordinates, the current
//! mode, boundary clamping, and the interpretation of input events as
//! actions.
//!
//! The run loop (owned by the surrounding program) goes
//! clamp -> render -> read input -> interpret -> apply -> repeat.
//! Everything the loop decides is here, as verified functions; reading the
//! terminal and drawing to it are not.

use vstd::prelude::*;

use crate::buffer::Buffer;

verus! {

/// The two modes of the editor. Normal is navigation-only; Insert enters
/// characters.
#[derive(Clone, Copy, Debug, PartialEq, Eq, Structural)]
pub enum Mode {
    Normal,
    Insert,
}

/// What a recognized keystroke asks the editor to do.
#[derive(Clone, Copy, Debug, PartialEq, Eq)]
pub enum Action {
    Quit,
    MoveUp,
    MoveDown,
    MoveLeft,
    MoveRight,
    PageDown,
    EnterMode(Mode),
    AddChar(char),
    NewLine,
}

/// A key press, already decoded from the terminal into plain values.
#[derive(Clone, Copy, Debug, PartialEq, Eq)]
pub enum Key {
    Char(char),
    Left,
    Right,
    Up,
    Down,
    Enter,
    Esc,
    Other,
}

/// A raw input event: a key press or a terminal-resize notification.
#[derive(Clone, Copy, Debug, PartialEq, Eq)]
pub enum Input {
    Key(Key),
    Resize(usize, usize),
    Other,
}

/// The editor state. `cx`/`cy` are the cursor position within the viewport
/// (screen-relative); `vtop`/`vleft` are the buffer-absolute offset of the
/// viewport's top-left cell; `size` is the terminal's (width, height) in
/// character cells.
pub struct Editor {
    pub buffer: Buffer,
    pub vtop: usize,
    pub vleft: usize,
    pub cx: usize,
    pub cy: usize,
    pub mode: Mode,
    pub size: (usize, usize),
}

/// Number of lines in the document.
pub open spec fn line_count(e: Editor) -> nat {
    e.buffer.lines@.len()
}

/// Index of the last valid line, taken as 0 for an empty document.
pub open spec fn last_line(e: Editor) -> nat {
    if line_count(e) == 0 {
        0
    } else {
        (line_count(e) - 1) as nat
    }
}

/// Length, in characters, of the line at buffer-absolute `row`; 0 when no
/// such line exists.
pub open spec fn line_len_at(e: Editor, row: int) -> nat {
    if 0 <= row < e.buffer.lines@.len() {
        e.buffer.lines@[row]@.len()
    } else {
        0
    }
}

/// Length of the line under the cursor (buffer-absolute row `vtop + cy`).
pub open spec fn cur_line_len(e: Editor) -> nat {
    line_len_at(e, e.vtop + e.cy)
}

/// Height of the viewport: the terminal height minus the two rows reserved
/// for the status region.
pub open spec fn spec_vheight(e: Editor) -> int {
    e.size.1 - 2
}

/// Validity that every editor value built from real vectors and strings has:
/// lengths fit in `usize`.
pub open spec fn wf(e: Editor) -> bool {
    &&& e.buffer.lines@.len() <= usize::MAX
    &&& forall|i: int|
        0 <= i < e.buffer.lines@.len() ==> (#[trigger] e.buffer.lines@[i])@.len() <= usize::MAX
}

/// The clamp step: pulls the cursor back onto a valid, visible cell.
/// First the column is clamped to the current line (to `length - 1`, or 0 on
/// an empty or missing line), then to the terminal width; then the row is
/// pulled back so the buffer-absolute row lands on the last valid line.
pub open spec fn spec_clamp(e: Editor) -> Editor {
    let len = cur_line_len(e) as int;
    let cx1: int = if e.cx >= len {
        if len > 0 {
            len - 1
        } else {
            0
        }
    } else {
        e.cx as int
    };
    let cx2: int = if e.size.0 > 0 && cx1 >= e.size.0 {
        e.size.0 - 1
    } else {
        cx1
    };
    let n = line_count(e) as int;
    let cy1: int = if n == 0 {
        0
    } else if e.vtop + e.cy > n - 1 {
        if e.vtop <= n - 1 {
            n - 1 - e.vtop
        } else {
            0
        }
    } else {
        e.cy as int
    };
    Editor { cx: cx2 as usize, cy: cy1 as usize, ..e }
}

/// What applying an action does to the state: MoveUp scrolls when the
/// cursor is already on the top row, MoveDown scrolls once the cursor would
/// leave the viewport, MoveLeft stops at the viewport's left edge, AddChar
/// advances the column, NewLine opens the next row at column zero, and
/// EnterMode switches the mode. `Quit` and `PageDown` leave the state
/// unchanged: quitting ends the run loop and is not a state transition.
pub open spec fn spec_apply(e: Editor, a: Action) -> Editor {
    match a {
        Action::Quit => e,
        Action::PageDown => e,
        Action::MoveUp => if e.cy == 0 {
            if e.vtop > 0 {
                Editor { vtop: (e.vtop - 1) as usize, ..e }
            } else {
                e
            }
        } else {
            Editor { cy: (e.cy - 1) as usize, ..e }
        },
        Action::MoveDown => if e.cy + 1 >= spec_vheight(e) {
            Editor { vtop: (e.vtop + 1) as usize, ..e }
        } else {
            Editor { cy: (e.cy + 1) as usize, ..e }
        },
        Action::MoveLeft => {
            let cx1: int = if e.cx > 0 {
                e.cx - 1
            } else {
                0
            };
            let cx2: int = if cx1 < e.vleft {
                e.vleft as int
            } else {
                cx1
            };
            Editor { cx: cx2 as usize, ..e }
        },
        Action::MoveRight => Editor {
            cx: if e.cx < usize::MAX {
                (e.cx + 1) as usize
            } else {
                e.cx
            },
            ..e
        },
        Action::EnterMode(m) => Editor { mode: m, ..e },
        Action::AddChar(_) => Editor { cx: (e.cx + 1) as usize, ..e },
        Action::NewLine => Editor { cx: 0, cy: (e.cy + 1) as usize, ..e },
    }
}

/// The machine limits under which `apply_action` runs without overflow.
pub open spec fn apply_req(e: Editor, a: Action) -> bool {
    match a {
        Action::MoveDown => e.cy < usize::MAX && e.vtop < usize::MAX && e.size.1 >= 2,
        Action::AddChar(_) => e.cx < usize::MAX,
        Action::NewLine => e.cy < usize::MAX,
        _ => true,
    }
}

/// The state after a resize notification: the terminal size is taken over
/// unconditionally; every other event leaves the state alone.
pub open spec fn post_resize(e: Editor, ev: Input) -> Editor {
    match ev {
        Input::Resize(w, h) => Editor { size: (w, h), ..e },
        _ => e,
    }
}

/// The Normal-mode dispatch table.
pub open spec fn normal_action(ev: Input) -> Option<Action> {
    match ev {
        Input::Key(k) => match k {
            Key::Char(c) => if c == 'q' {
                Some(Action::Quit)
            } else if c == 'h' {
                Some(Action::MoveLeft)
            } else if c == 'j' {
                Some(Action::MoveDown)
            } else if c == 'k' {
                Some(Action::MoveUp)
            } else if c == 'l' {
                Some(Action::MoveRight)
            } else if c == 'i' {
                Some(Action::EnterMode(Mode::Insert))
            } else {
                None
            },
            Key::Left => Some(Action::MoveLeft),
            Key::Down => Some(Action::MoveDown),
            Key::Up => Some(Action::MoveUp),
            Key::Right => Some(Action::MoveRight),
            _ => None,
        },
        _ => None,
    }
}

/// The Insert-mode dispatch table.
pub open spec fn insert_action(ev: Input) -> Option<Action> {
    match ev {
        Input::Key(k) => match k {
            Key::Esc => Some(Action::EnterMode(Mode::Normal)),
            Key::Char(c) => Some(Action::AddChar(c)),
            Key::Enter => Some(Action::NewLine),
            _ => None,
        },
        _ => None,
    }
}

/// Pure dispatch on the mode: an event maps to at most one action, and an
/// unrecognized event to none.
pub open spec fn event_action(m: Mode, ev: Input) -> Option<Action> {
    match m {
        Mode::Normal => normal_action(ev),
        Mode::Insert => insert_action(ev),
    }
}

/// The four cursor-movement actions.
pub open spec fn is_move(a: Action) -> bool {
    match a {
        Action::MoveUp => true,
        Action::MoveDown => true,
        Action::MoveLeft => true,
        Action::MoveRight => true,
        _ => false,
    }
}

/// One iteration of the run loop's state change: apply an action, then
/// clamp before the next render.
pub open spec fn step(e: Editor, a: Action) -> Editor {
    spec_clamp(spec_apply(e, a))
}

/// The state after a whole sequence of actions, clamping after each.
pub open spec fn run_steps(e: Editor, acts: Seq<Action>) -> Editor
    decreases acts.len(),
{
    if acts.len() == 0 {
        e
    } else {
        run_steps(step(e, acts[0]), acts.drop_first())
    }
}

/// The state invariant the run loop maintains between iterations: sane
/// terminal dimensions, the viewport top on a valid line, the cursor on a
/// valid, visible cell.
pub open spec fn inv(e: Editor) -> bool {
    &&& wf(e)
    &&& e.size.0 >= 1
    &&& e.size.1 >= 4
    &&& e.vtop <= last_line(e)
    &&& e.vtop + e.cy <= last_line(e)
    &&& e.cy < spec_vheight(e)
    &&& e.cx < e.size.0
    &&& (cur_line_len(e) == 0 ==> e.cx == 0)
    &&& (cur_line_len(e) > 0 ==> e.cx < cur_line_len(e))
}

/// One movement step keeps the invariant: from a state with the cursor on a
/// valid cell, any single MoveUp/MoveDown/MoveLeft/MoveRight, followed by
/// the clamp, lands the cursor on a valid cell again, runs within machine
/// limits, and touches neither the document nor the terminal size.
pub proof fn lemma_step_preserves_inv(e: Editor, a: Action)
    requires
        inv(e),
        is_move(a),
    ensures
        apply_req(e, a),
        inv(step(e, a)),
        step(e, a).buffer == e.buffer,
        step(e, a).size == e.size,
        step(e, a).mode == e.mode,
        step(e, a).vleft == e.vleft,
        step(e, a).vtop + step(e, a).cy <= last_line(e),
{
    let e1 = spec_apply(e, a);
    assert(e1.buffer == e.buffer && e1.size == e.size);
    assert(e1.vtop <= last_line(e1));
    assert(e1.cy < spec_vheight(e1));
    let e2 = spec_clamp(e1);
    assert(e2.cy <= e1.cy);
    assert(e2.vtop + e2.cy <= last_line(e2));
    assert(cur_line_len(e2) == 0 ==> e2.cx == 0);
    assert(cur_line_len(e2) > 0 ==> e2.cx < cur_line_len(e2));
}

/// For all documents and any sequence of movement actions, the run loop's
/// per-iteration state (apply, then clamp) always leaves the buffer-absolute
/// cursor row in `[0, max(N - 1, 0)]`, the cursor column under the terminal
/// width, and the cursor column within the current line.
pub proof fn lemma_moves_stay_in_bounds(e: Editor, acts: Seq<Action>)
    requires
        inv(e),
        forall|i: int| 0 <= i < acts.len() ==> is_move(#[trigger] acts[i]),
    ensures
        inv(run_steps(e, acts)),
        run_steps(e, acts).buffer == e.buffer,
        run_steps(e, acts).size == e.size,
        run_steps(e, acts).vtop + run_steps(e, acts).cy <= last_line(e),
        run_steps(e, acts).cx < e.size.0,
        cur_line_len(run_steps(e, acts)) == 0 ==> run_steps(e, acts).cx == 0,
        cur_line_len(run_steps(e, acts)) > 0 ==> run_steps(e, acts).cx < cur_line_len(
            run_steps(e, acts),
        ),
    decreases acts.len(),
{
    if acts.len() > 0 {
        lemma_step_preserves_inv(e, acts[0]);
        let rest = acts.drop_first();
        assert(forall|i: int| 0 <= i < rest.len() ==> is_move(#[trigger] rest[i])) by {
            assert(forall|i: int| 0 <= i < rest.len() ==> rest[i] == acts[i + 1]);
        }
        lemma_moves_stay_in_bounds(step(e, acts[0]), rest);
    }
}

/// Clamping is a fixed point: applying the clamp step twice in a row
/// produces the same state as applying it once.
pub proof fn lemma_clamp_idempotent(e: Editor)
    requires
        wf(e),
    ensures
        spec_clamp(spec_clamp(e)) == spec_clamp(e),
{
    let e1 = spec_clamp(e);
    assert(e1.cy <= e.cy);
    if line_count(e) == 0 {
        assert(cur_line_len(e) == 0);
        assert(e1.cx == 0);
    } else if e.vtop + e.cy > line_count(e) - 1 {
        assert(cur_line_len(e) == 0);
        assert(e1.cx == 0);
    } else {
        assert(e1.cy == e.cy);
        assert(cur_line_len(e1) == cur_line_len(e));
    }
    assert(spec_clamp(e1).cx == e1.cx);
    assert(spec_clamp(e1).cy == e1.cy);
}

/// `k` MoveDown actions in a row.
pub open spec fn repeat_down(k: nat) -> Seq<Action> {
    Seq::new(k, |i: int| Action::MoveDown)
}

/// Running a sequence extended by one action runs the sequence, then takes
/// one more step.
pub proof fn lemma_run_steps_snoc(e: Editor, acts: Seq<Action>, a: Action)
    ensures
        run_steps(e, acts.push(a)) == step(run_steps(e, acts), a),
    decreases acts.len(),
{
    if acts.len() == 0 {
        assert(acts.push(a)[0] == a);
        assert(acts.push(a).drop_first() =~= Seq::<Action>::empty());
        assert(run_steps(e, acts.push(a)) == run_steps(step(e, a), Seq::<Action>::empty()));
    } else {
        assert(acts.push(a)[0] == acts[0]);
        assert(acts.push(a).drop_first() =~= acts.drop_first().push(a));
        lemma_run_steps_snoc(step(e, acts[0]), acts.drop_first(), a);
    }
}

/// Scroll correctness: from the top of the document, `k` MoveDown actions
/// walk the cursor down the viewport one row at a time; once the cursor
/// reaches the last visible row it stays pinned there, and each further
/// MoveDown scrolls the viewport by exactly one line. Scrolling tracks the
/// cursor losslessly as long as the walk stays on valid lines.
pub proof fn lemma_scroll_tracks_movedown(e: Editor, k: nat)
    requires
        inv(e),
        e.vtop == 0,
        e.cy == 0,
        k <= last_line(e),
    ensures
        ({
            let s = run_steps(e, repeat_down(k));
            let vh = spec_vheight(e);
            &&& s.vtop == if k < vh {
                0int
            } else {
                k - vh + 1
            }
            &&& s.cy == if k < vh {
                k as int
            } else {
                vh - 1
            }
            &&& s.buffer == e.buffer
            &&& s.size == e.size
            &&& inv(s)
        }),
    decreases k,
{
    let vh = spec_vheight(e);
    if k == 0 {
        assert(repeat_down(0) =~= Seq::<Action>::empty());
    } else {
        lemma_scroll_tracks_movedown(e, (k - 1) as nat);
        let prev = run_steps(e, repeat_down((k - 1) as nat));
        assert(repeat_down(k) =~= repeat_down((k - 1) as nat).push(Action::MoveDown));
        lemma_run_steps_snoc(e, repeat_down((k - 1) as nat), Action::MoveDown);
        lemma_step_preserves_inv(prev, Action::MoveDown);
        let s = step(prev, Action::MoveDown);
        assert(prev.vtop + prev.cy == k - 1);
        let e1 = spec_apply(prev, Action::MoveDown);
        assert(e1.vtop + e1.cy == k);
        assert(line_count(e) > 0);
        assert(e1.vtop + e1.cy <= line_count(e1) - 1);
        assert(s.cy == e1.cy && s.vtop == e1.vtop);
    }
}

/// From the top of a long enough document, three MoveDown actions past the
/// count that first fills the viewport leave the cursor pinned to the last
/// visible row, with the viewport scrolled by one line for the action that
/// reached the bottom and one more for each action after it.
pub proof fn lemma_scroll_past_viewport(e: Editor)
    requires
        inv(e),
        e.vtop == 0,
        e.cy == 0,
        line_count(e) >= spec_vheight(e) + 4,
    ensures
        ({
            let s = run_steps(e, repeat_down((spec_vheight(e) + 3) as nat));
            &&& s.vtop == 4
            &&& s.cy == spec_vheight(e) - 1
        }),
{
    lemma_scroll_tracks_movedown(e, (spec_vheight(e) + 3) as nat);
}

/// Mode round-trip: entering Insert mode and immediately returning to
/// Normal mode restores the prior state exactly, and with it the prior
/// action-dispatch table.
pub proof fn lemma_mode_round_trip(e: Editor)
    requires
        e.mode == Mode::Normal,
    ensures
        spec_apply(
            spec_apply(e, Action::EnterMode(Mode::Insert)),
            Action::EnterMode(Mode::Normal),
        ) == e,
        forall|ev: Input|
            #[trigger] event_action(
                spec_apply(
                    spec_apply(e, Action::EnterMode(Mode::Insert)),
                    Action::EnterMode(Mode::Normal),
                ).mode,
                ev,
            ) == event_action(e.mode, ev),
{
}

impl Editor {
    /// A fresh session over `buffer` on a terminal of the given size:
    /// cursor at the top-left corner, no scroll, Normal mode.
    pub fn new(buffer: Buffer, size: (usize, usize)) -> (r: Editor)
        ensures
            r.buffer == buffer,
            r.vtop == 0,
            r.vleft == 0,
            r.cx == 0,
            r.cy == 0,
            r.mode == Mode::Normal,
            r.size == size,
    {
        Editor { buffer, vtop: 0, vleft: 0, cx: 0, cy: 0, mode: Mode::Normal, size }
    }

    /// Usable width of the viewport: the full terminal width.
    pub fn vwidth(&self) -> (r: usize)
        ensures
            r == self.size.0,
    {
        self.size.0
    }

    /// Usable height of the viewport: the terminal height less the two rows
    /// of the status region.
    pub fn vheight(&self) -> (r: usize)
        requires
            self.size.1 >= 2,
        ensures
            r == spec_vheight(*self),
    {
        self.size.1 - 2
    }

    /// The line of the document shown on viewport row `n`, if any.
    pub fn viewport_line(&self, n: usize) -> (r: Option<String>)
        ensures
            r is Some <==> self.vtop + n < self.buffer.lines@.len(),
            r matches Some(s) ==> s@ == self.buffer.lines@[self.vtop + n]@,
    {
        let total = self.buffer.len();
        if self.vtop < total && n < total - self.vtop {
            self.buffer.get_line(self.vtop + n)
        } else {
            None
        }
    }

    /// Length, in characters, of the line under the cursor; 0 when the
    /// cursor row is past the end of the document.
    pub fn line_length(&self) -> (r: usize)
        ensures
            r == cur_line_len(*self),
    {
        match self.viewport_line(self.cy) {
            Some(line) => line.as_str().unicode_len(),
            None => 0,
        }
    }

    /// The clamp step, run before every render: afterwards the cursor
    /// references a valid, visible cell. Total: no input panics or wraps.
    pub fn check_bounds(&mut self)
        ensures
            *final(self) == spec_clamp(*old(self)),
    {
        let line_length = self.line_length();
        if self.cx >= line_length {
            if line_length > 0 {
                self.cx = line_length - 1;
            } else {
                self.cx = 0;
            }
        }
        let w = self.vwidth();
        if w > 0 && self.cx >= w {
            self.cx = w - 1;
        }
        let n = self.buffer.len();
        if n == 0 {
            self.cy = 0;
        } else if self.vtop > n - 1 {
            self.cy = 0;
        } else {
            let avail = (n - 1) - self.vtop;
            if self.cy > avail {
                self.cy = avail;
            }
        }
    }

    /// Applies an action to the state, as `spec_apply` lays down. Drawing an
    /// inserted character is the caller's concern; the state change is here.
    /// Inserted text is ephemeral: it moves the cursor and is drawn on
    /// screen, but is not written back into the line store.
    pub fn apply_action(&mut self, action: Action)
        requires
            apply_req(*old(self), action),
        ensures
            *final(self) == spec_apply(*old(self), action),
    {
        match action {
            Action::Quit => {},
            Action::PageDown => {},
            Action::MoveUp => {
                if self.cy == 0 {
                    if self.vtop > 0 {
                        self.vtop = self.vtop - 1;
                    }
                } else {
                    self.cy = self.cy - 1;
                }
            },
            Action::MoveDown => {
                let vh = self.vheight();
                if self.cy + 1 >= vh {
                    self.vtop = self.vtop + 1;
                } else {
                    self.cy = self.cy + 1;
                }
            },
            Action::MoveLeft => {
                if self.cx > 0 {
                    self.cx = self.cx - 1;
                }
                if self.cx < self.vleft {
                    self.cx = self.vleft;
                }
            },
            Action::MoveRight => {
                if self.cx < usize::MAX {
                    self.cx = self.cx + 1;
                }
            },
            Action::EnterMode(m) => {
                self.mode = m;
            },
            Action::AddChar(_) => {
                self.cx = self.cx + 1;
            },
            Action::NewLine => {
                self.cx = 0;
                self.cy = self.cy + 1;
            },
        }
    }

    /// Interprets a raw input event. A resize is folded into the state
    /// first, regardless of mode, and produces no action; a key press is
    /// dispatched on the current mode.
    pub fn handle_event(&mut self, ev: Input) -> (r: Option<Action>)
        ensures
            *final(self) == post_resize(*old(self), ev),
            r == event_action(old(self).mode, ev),
    {
        if let Input::Resize(w, h) = ev {
            self.size = (w, h);
        }
        match self.mode {
            Mode::Normal => self.handle_normal_event(ev),
            Mode::Insert => self.handle_insert_event(ev),
        }
    }

    /// Normal-mode dispatch: q quits; h/j/k/l and the arrows move; i enters
    /// Insert mode; everything else is silently ignored.
    pub fn handle_normal_event(&self, ev: Input) -> (r: Option<Action>)
        ensures
            r == normal_action(ev),
    {
        match ev {
            Input::Key(k) => match k {
                Key::Char('q') => Some(Action::Quit),
                Key::Left | Key::Char('h') => Some(Action::MoveLeft),
                Key::Down | Key::Char('j') => Some(Action::MoveDown),
                Key::Up | Key::Char('k') => Some(Action::MoveUp),
                Key::Right | Key::Char('l') => Some(Action::MoveRight),
                Key::Char('i') => Some(Action::EnterMode(Mode::Insert)),
                _ => None,
            },
            _ => None,
        }
    }

    /// Insert-mode dispatch: Escape returns to Normal mode, a character key
    /// inserts that character, Enter starts a new line; everything else is
    /// silently ignored.
    pub fn handle_insert_event(&self, ev: Input) -> (r: Option<Action>)
        ensures
            r == insert_action(ev),
    {
        match ev {
            Input::Key(k) => match k {
                Key::Esc => Some(Action::EnterMode(Mode::Normal)),
                Key::Char(c) => Some(Action::AddChar(c)),
                Key::Enter => Some(Action::NewLine),
                _ => None,
            },
            _ => None,
        }
    }
}

} // verus!
