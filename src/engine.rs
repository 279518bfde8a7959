//! The spinner's animation state and the decisions of its lifecycle: what to
//! do on start, on each tick of the render loop, on stop and on each update.
//!
//! The state is one record. Whoever runs the loop holds it behind one lock
//! and, per tick, calls `tick` and performs what it returns inside the same
//! critical section, so that every frame is drawn from one consistent
//! snapshot and nothing is drawn once `stop` has been handled.
use crate::compose::{compose, composed};
use crate::option::{take_text, text_or_empty, Options};
use crate::width::{capped, columns_or_default, rows_for, rows_of_text, terminal_columns};
use vstd::arithmetic::div_mod::lemma_fundamental_div_mod_converse;
use vstd::prelude::*;

verus! {

/// Relies on `termion::is_tty`: whether standard error is a terminal. Nothing
/// is known of the answer.
#[verifier::external_body]
fn stderr_is_tty() -> (r: bool) {
    termion::is_tty(&std::io::stderr())
}

/// Why an update was refused.
#[derive(Debug, Clone, Copy, PartialEq, Eq)]
pub enum OraError {
    /// A spinner needs at least one glyph.
    InvalidFrameSet,
}

/// What to do once `run` has been handled.
#[derive(Debug, Clone, PartialEq, Eq)]
pub enum StartAction {
    /// Launch a render loop that passes `epoch` to every `tick`.
    Launch { epoch: u64 },
    /// Not animated: write this line once, as plain text.
    Log { line: String },
    /// Nothing to do.
    Idle,
}

/// What a render loop does on one tick.
#[derive(Debug, Clone, PartialEq, Eq)]
pub enum Tick {
    /// Hide the cursor if `hide_cursor`, clear the last `clear_rows` rows,
    /// write `line`, then sleep `sleep_ms` milliseconds.
    Draw { hide_cursor: bool, clear_rows: usize, line: String, sleep_ms: u32 },
    /// Stop looping without writing anything.
    Exit,
}

/// What to do on the terminal once `stop` has been handled.
#[derive(Debug, Clone, Copy, PartialEq, Eq)]
pub struct StopAction {
    /// Rows of the last frame to clear.
    pub clear_rows: usize,
    /// Show the cursor again.
    pub show_cursor: bool,
}

/// The state of a spinner, as plain values.
pub ghost struct OraModel {
    pub text: Seq<char>,
    pub prefix_text: Seq<char>,
    pub suffix_text: Seq<char>,
    pub frames: Seq<Seq<char>>,
    pub interval: u32,
    pub frame_index: nat,
    pub line_count: nat,
    pub stop_requested: bool,
    pub first_render: bool,
    pub hide_cursor: bool,
    pub enable: bool,
    pub log_without_tty: bool,
    pub epoch: u64,
    pub is_spinning: bool,
    pub is_tty: bool,
}

/// A spinner: its texts and glyphs, where the animation stands, and whether it
/// runs.
pub struct Ora {
    text: String,
    prefix_text: String,
    suffix_text: String,
    frames: Vec<&'static str>,
    interval: u32,
    frame_index: usize,
    line_count: usize,
    stop_flag: bool,
    first_render: bool,
    hide_cursor: bool,
    enable: bool,
    log_without_tty: bool,
    epoch: u64,
    pub is_spinning: bool,
    pub is_tty: bool,
}

impl View for Ora {
    type V = OraModel;

    closed spec fn view(&self) -> OraModel {
        OraModel {
            text: self.text@,
            prefix_text: self.prefix_text@,
            suffix_text: self.suffix_text@,
            frames: self.frames.deep_view(),
            interval: self.interval,
            frame_index: self.frame_index as nat,
            line_count: self.line_count as nat,
            stop_requested: self.stop_flag,
            first_render: self.first_render,
            hide_cursor: self.hide_cursor,
            enable: self.enable,
            log_without_tty: self.log_without_tty,
            epoch: self.epoch,
            is_spinning: self.is_spinning,
            is_tty: self.is_tty,
        }
    }
}

/// The frame index after `i` among `n` frames: the next one, and the first
/// after the last.
pub open spec fn advance(i: nat, n: nat) -> nat {
    if i + 1 < n {
        (i + 1) as nat
    } else {
        0
    }
}

/// The frame index after `k` advances from `i`.
pub open spec fn advanced(i: nat, n: nat, k: nat) -> nat
    decreases k,
{
    if k == 0 {
        i
    } else {
        advance(advanced(i, n, (k - 1) as nat), n)
    }
}

/// The epoch that a new render loop gets.
pub open spec fn next_epoch(e: u64) -> u64 {
    if e == u64::MAX {
        0
    } else {
        (e + 1) as u64
    }
}

/// The line a spinner in state `m` shows now.
pub open spec fn current_line(m: OraModel) -> Seq<char> {
    composed(m.prefix_text, m.frames[m.frame_index as int], m.text, m.suffix_text)
}

/// Whether a spinner in state `m` animates on the terminal.
pub open spec fn animated(m: OraModel) -> bool {
    m.enable && m.is_tty
}

/// Whether a frame of the running spinner is on the screen.
pub open spec fn drawn(m: OraModel) -> bool {
    m.is_spinning && !m.first_render
}

/// The state once `stop` has been handled.
pub open spec fn stopped(m: OraModel) -> OraModel {
    OraModel { stop_requested: true, is_spinning: false, ..m }
}

/// The rows that `stop` clears in state `m`: those of the frame on the screen.
pub open spec fn rows_cleared_on_stop(m: OraModel) -> nat {
    if drawn(m) {
        m.line_count
    } else {
        0
    }
}

/// Whether `stop` shows the cursor again in state `m`: where a frame was drawn
/// after hiding it.
pub open spec fn cursor_shown_on_stop(m: OraModel) -> bool {
    drawn(m) && m.hide_cursor
}

/// Stopping twice is stopping once: the second stop leaves the state as it
/// is, clears no row and leaves the cursor alone.
pub proof fn lemma_stop_idempotent(m: OraModel)
    ensures
        stopped(stopped(m)) == stopped(m),
        rows_cleared_on_stop(stopped(m)) == 0,
        !cursor_shown_on_stop(stopped(m)),
{
}

/// Starting from the first frame, after `k` advances the index is `k` modulo
/// the number of frames: the frames come in order, each in its turn, and the
/// index never leaves the frames.
pub proof fn lemma_frames_cycle(n: nat, k: nat)
    requires
        n > 0,
    ensures
        advanced(0, n, k) == k % n,
        advanced(0, n, k) < n,
    decreases k,
{
    if k == 0 {
        lemma_fundamental_div_mod_converse(0, n as int, 0, 0);
    } else {
        let j = (k - 1) as nat;
        lemma_frames_cycle(n, j);
        let q = (j as int) / (n as int);
        let r = (j as int) % (n as int);
        assert(j as int == q * n + r) by {
            vstd::arithmetic::div_mod::lemma_fundamental_div_mod(j as int, n as int);
            assert((n as int) * q == q * (n as int)) by (nonlinear_arith);
        }
        if r + 1 < n {
            lemma_fundamental_div_mod_converse(k as int, n as int, q, r + 1);
        } else {
            assert((q + 1) * n == q * n + n) by (nonlinear_arith);
            lemma_fundamental_div_mod_converse(k as int, n as int, q + 1, 0);
        }
    }
}

impl Ora {
    /// The invariant: at least one frame, the index on one of them, and at
    /// least one row.
    pub open spec fn wf(&self) -> bool {
        &&& self@.frames.len() > 0
        &&& self@.frame_index < self@.frames.len()
        &&& self@.line_count >= 1
    }

    /// A spinner built from `options`, on a terminal that is interactive or not
    /// as `is_tty` says and `columns` wide.
    pub fn with_terminal(options: Options, is_tty: bool, columns: u16) -> (r: Ora)
        requires
            options.frames@.len() > 0,
            columns >= 1,
        ensures
            r.wf(),
            r@.text == text_or_empty(options.text),
            r@.prefix_text == text_or_empty(options.prefix_text),
            r@.suffix_text == text_or_empty(options.suffix_text),
            r@.frames == options.frames.deep_view(),
            r@.interval == options.interval,
            r@.frame_index == 0,
            r@.line_count == capped(rows_of_text(text_or_empty(options.text), columns as nat)),
            !r@.stop_requested,
            r@.first_render,
            r@.hide_cursor == options.hide_cursor,
            r@.enable == options.enable,
            r@.log_without_tty == options.log_without_tty,
            r@.epoch == 0,
            !r@.is_spinning,
            r@.is_tty == is_tty,
    {
        let text = take_text(options.text);
        let line_count = rows_for(text.as_str(), columns);
        Ora {
            text,
            prefix_text: take_text(options.prefix_text),
            suffix_text: take_text(options.suffix_text),
            frames: options.frames,
            interval: options.interval,
            frame_index: 0,
            line_count,
            stop_flag: false,
            first_render: true,
            hide_cursor: options.hide_cursor,
            enable: options.enable,
            log_without_tty: options.log_without_tty,
            epoch: 0,
            is_spinning: false,
            is_tty,
        }
    }

    /// A spinner built from `options` for standard error, laid out for the
    /// width of the terminal.
    pub fn new(options: Options) -> (r: Ora)
        requires
            options.frames@.len() > 0,
        ensures
            r.wf(),
            r@.text == text_or_empty(options.text),
            r@.prefix_text == text_or_empty(options.prefix_text),
            r@.suffix_text == text_or_empty(options.suffix_text),
            r@.frames == options.frames.deep_view(),
            r@.interval == options.interval,
            r@.frame_index == 0,
            exists|c: nat|
                c >= 1 && r@.line_count == capped(
                    #[trigger] rows_of_text(text_or_empty(options.text), c),
                ),
            !r@.stop_requested,
            r@.first_render,
            r@.hide_cursor == options.hide_cursor,
            r@.enable == options.enable,
            r@.log_without_tty == options.log_without_tty,
            r@.epoch == 0,
            !r@.is_spinning,
    {
        let is_tty = stderr_is_tty();
        let columns = columns_or_default(terminal_columns());
        let r = Ora::with_terminal(options, is_tty, columns);
        assert(r@.line_count == capped(rows_of_text(r@.text, columns as nat)));
        r
    }

    /// The line the spinner shows now.
    fn current(&self) -> (r: String)
        requires
            self.wf(),
        ensures
            r@ == current_line(self@),
    {
        let glyph = self.frames[self.frame_index];
        assert(glyph@ == self@.frames[self@.frame_index as int]);
        compose(self.prefix_text.as_str(), glyph, self.text.as_str(), self.suffix_text.as_str())
    }

    /// Starts the spinner; a spinner that runs already is left as it is.
    /// Where it animates, a render loop is to be launched with a new epoch;
    /// where it does not, its line may be logged once.
    pub fn run(&mut self) -> (r: StartAction)
        requires
            old(self).wf(),
        ensures
            final(self).wf(),
            old(self)@.is_spinning ==> r is Idle && final(self)@ == old(self)@,
            !old(self)@.is_spinning ==> final(self)@ == (OraModel {
                is_spinning: true,
                stop_requested: false,
                first_render: true,
                epoch: next_epoch(old(self)@.epoch),
                ..old(self)@
            }),
            !old(self)@.is_spinning && animated(old(self)@) ==> r == (StartAction::Launch {
                epoch: next_epoch(old(self)@.epoch),
            }),
            !old(self)@.is_spinning && !animated(old(self)@) && old(self)@.log_without_tty ==> (
            r matches StartAction::Log { line } && line@ == current_line(old(self)@)),
            !old(self)@.is_spinning && !animated(old(self)@) && !old(self)@.log_without_tty
                ==> r is Idle,
    {
        if self.is_spinning {
            return StartAction::Idle;
        }
        self.is_spinning = true;
        self.stop_flag = false;
        self.first_render = true;
        self.epoch = if self.epoch == u64::MAX {
            0
        } else {
            self.epoch + 1
        };
        if self.enable && self.is_tty {
            StartAction::Launch { epoch: self.epoch }
        } else if self.log_without_tty {
            StartAction::Log { line: self.current() }
        } else {
            StartAction::Idle
        }
    }

    /// One tick of the render loop launched with `epoch`. A loop whose spinner
    /// was stopped, or restarted since, exits. Otherwise the current frame is
    /// drawn (the first one after hiding the cursor, the others after clearing
    /// the rows of the one before) and the next frame comes in turn.
    pub fn tick(&mut self, epoch: u64) -> (r: Tick)
        requires
            old(self).wf(),
        ensures
            final(self).wf(),
            old(self)@.stop_requested || epoch != old(self)@.epoch ==> r is Exit
                && final(self)@ == old(self)@,
            !old(self)@.stop_requested && epoch == old(self)@.epoch ==> final(self)@ == (OraModel {
                frame_index: advance(old(self)@.frame_index, old(self)@.frames.len()),
                first_render: false,
                ..old(self)@
            }),
            !old(self)@.stop_requested && epoch == old(self)@.epoch ==> (r matches Tick::Draw {
                hide_cursor,
                clear_rows,
                line,
                sleep_ms,
            } && hide_cursor == (old(self)@.first_render && old(self)@.hide_cursor)
                && clear_rows == (if old(self)@.first_render { 0 } else { old(self)@.line_count })
                && line@ == current_line(old(self)@) && sleep_ms == old(self)@.interval),
    {
        if self.stop_flag || epoch != self.epoch {
            return Tick::Exit;
        }
        let n = self.frames.len();
        let line = self.current();
        let first = self.first_render;
        self.first_render = false;
        self.frame_index = if self.frame_index < n - 1 {
            self.frame_index + 1
        } else {
            0
        };
        Tick::Draw {
            hide_cursor: first && self.hide_cursor,
            clear_rows: if first {
                0
            } else {
                self.line_count
            },
            line,
            sleep_ms: self.interval,
        }
    }

    /// Stops the spinner: a running loop exits on its next tick, and the rows
    /// of a frame on the screen are to be cleared, with the cursor shown again
    /// where it was hidden. Stopping a spinner that does not run clears nothing.
    pub fn stop(&mut self) -> (r: StopAction)
        requires
            old(self).wf(),
        ensures
            final(self).wf(),
            final(self)@ == stopped(old(self)@),
            r.clear_rows == rows_cleared_on_stop(old(self)@),
            r.show_cursor == cursor_shown_on_stop(old(self)@),
    {
        let on_screen = self.is_spinning && !self.first_render;
        self.stop_flag = true;
        self.is_spinning = false;
        StopAction {
            clear_rows: if on_screen {
                self.line_count
            } else {
                0
            },
            show_cursor: on_screen && self.hide_cursor,
        }
    }

    /// Replaces the body text, with the rows it takes on a terminal `columns`
    /// wide.
    pub fn update_text_for_columns(&mut self, text: String, columns: u16)
        requires
            old(self).wf(),
            columns >= 1,
        ensures
            final(self).wf(),
            final(self)@ == (OraModel {
                text: text@,
                line_count: capped(rows_of_text(text@, columns as nat)),
                ..old(self)@
            }),
    {
        self.line_count = rows_for(text.as_str(), columns);
        self.text = text;
    }

    /// Replaces the body text, with the rows it takes on the terminal as wide
    /// as it is now.
    pub fn update_text(&mut self, text: String)
        requires
            old(self).wf(),
        ensures
            final(self).wf(),
            final(self)@ == (OraModel {
                text: text@,
                line_count: final(self)@.line_count,
                ..old(self)@
            }),
            exists|c: nat|
                c >= 1 && final(self)@.line_count == capped(#[trigger] rows_of_text(text@, c)),
    {
        let columns = columns_or_default(terminal_columns());
        let ghost t = text@;
        self.update_text_for_columns(text, columns);
        assert(self@.line_count == capped(rows_of_text(t, columns as nat)));
    }

    /// Sets the pause between frames, from the next tick on.
    pub fn update_interval(&mut self, interval: u32)
        requires
            old(self).wf(),
        ensures
            final(self).wf(),
            final(self)@ == (OraModel { interval, ..old(self)@ }),
    {
        self.interval = interval;
    }

    /// Replaces the glyphs and starts again from the first. An empty set is
    /// refused and changes nothing.
    pub fn update_frames(&mut self, frames: Vec<&'static str>) -> (r: Result<(), OraError>)
        requires
            old(self).wf(),
        ensures
            final(self).wf(),
            frames@.len() == 0 <==> r == Err::<(), OraError>(OraError::InvalidFrameSet),
            frames@.len() == 0 ==> final(self)@ == old(self)@,
            frames@.len() > 0 ==> r is Ok && final(self)@ == (OraModel {
                frames: frames.deep_view(),
                frame_index: 0,
                ..old(self)@
            }),
    {
        if frames.len() == 0 {
            return Err(OraError::InvalidFrameSet);
        }
        self.frames = frames;
        self.frame_index = 0;
        Ok(())
    }

    /// The body text.
    pub fn text(&self) -> (r: &str)
        ensures
            r@ == self@.text,
    {
        self.text.as_str()
    }

    /// The milliseconds between two frames.
    pub fn interval(&self) -> (r: u32)
        ensures
            r == self@.interval,
    {
        self.interval
    }

    /// The index of the frame shown next.
    pub fn frame_index(&self) -> (r: usize)
        ensures
            r == self@.frame_index,
    {
        self.frame_index
    }

    /// The rows the spinner's line takes.
    pub fn line_count(&self) -> (r: usize)
        ensures
            r == self@.line_count,
    {
        self.line_count
    }

    /// The number of glyphs.
    pub fn frame_count(&self) -> (r: usize)
        ensures
            r == self@.frames.len(),
    {
        self.frames.len()
    }
}

} // verus!
