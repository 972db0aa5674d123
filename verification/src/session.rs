//! One line-read transaction: the line being edited, and the stash that
//! holds the in-progress edit while the history is being browsed.
//!
//! `apply` is the dispatch at the centre of the read loop: it takes one
//! decoded command, mutates the line and the history, and tells the caller
//! what to do next — repaint, clear the screen first, finish the line,
//! report an interrupt, run completion, or nothing. The caller owns the
//! byte reads, the completion callback and the terminal writes; every
//! decision in between is made here.

use crate::buffer;
use crate::buffer::EditBuffer;
use crate::decode::Command;
use crate::history;
use crate::history::History;
use vstd::prelude::*;

verus! {

/// What the read loop must do after dispatching one command.
#[derive(Clone, Copy, PartialEq, Eq, Structural, Debug)]
pub enum Action {
    /// Nothing changed on screen; read the next key.
    Pass,
    /// The line or cursor changed; repaint, then read the next key.
    Redraw,
    /// Erase the whole screen, then repaint.
    ClearRedraw,
    /// The line is finished; hand it to the caller.
    Accepted,
    /// The user ended the transaction; report the interrupted condition.
    Interrupted,
    /// Ask the completion provider for candidates and cycle through them.
    Complete,
}

/// The per-transaction editing state.
pub struct Session {
    buffer: EditBuffer,
    stash: Vec<u8>,
    stashed: bool,
}

/// Neither the entries, the cursor nor the capacity of the history moved.
pub open spec fn hist_same(h0: History, h1: History) -> bool {
    &&& h1.entries() == h0.entries()
    &&& h1.cursor() == h0.cursor()
    &&& h1.max_len() == h0.max_len()
}

/// The history holds the same entries under the same capacity.
pub open spec fn hist_entries_same(h0: History, h1: History) -> bool {
    &&& h1.entries() == h0.entries()
    &&& h1.max_len() == h0.max_len()
}

/// The line, cursor and stash are untouched.
pub open spec fn sess_same(s0: Session, s1: Session) -> bool {
    &&& s1.line() == s0.line()
    &&& s1.cursor() == s0.cursor()
    &&& stash_same(s0, s1)
}

/// The stash is untouched.
pub open spec fn stash_same(s0: Session, s1: Session) -> bool {
    &&& s1.stash_view() == s0.stash_view()
    &&& s1.is_stashed() == s0.is_stashed()
}

/// What `Session::apply` does: for each command, how the new session and
/// history relate to the old ones and which action comes back.
pub open spec fn spec_apply(
    s0: Session,
    h0: History,
    cmd: Command,
    s1: Session,
    h1: History,
    a: Action,
) -> bool {
    match cmd {
        Command::Unknown => sess_same(s0, s1) && hist_same(h0, h1) && a == Action::Pass,
        Command::Accept => sess_same(s0, s1) && hist_same(h0, h1) && a == Action::Accepted,
        Command::Interrupt => sess_same(s0, s1) && hist_same(h0, h1) && a == Action::Interrupted,
        Command::RequestCompletion => sess_same(s0, s1) && hist_same(h0, h1) && a
            == Action::Complete,
        Command::ClearScreen => sess_same(s0, s1) && hist_same(h0, h1) && a == Action::ClearRedraw,
        Command::MoveHome => hist_same(h0, h1) && stash_same(s0, s1) && s1.line() == s0.line()
            && s1.cursor() == 0 && a == Action::Redraw,
        Command::MoveEnd => hist_same(h0, h1) && stash_same(s0, s1) && s1.line() == s0.line()
            && s1.cursor() == s0.line().len() && a == Action::Redraw,
        Command::MoveLeft => hist_same(h0, h1) && stash_same(s0, s1) && if s0.cursor() == 0 {
            sess_same(s0, s1) && a == Action::Pass
        } else {
            s1.line() == s0.line() && s1.cursor() == s0.cursor() - 1 && a == Action::Redraw
        },
        Command::MoveRight => hist_same(h0, h1) && stash_same(s0, s1) && if s0.cursor()
            == s0.line().len() {
            sess_same(s0, s1) && a == Action::Pass
        } else {
            s1.line() == s0.line() && s1.cursor() == s0.cursor() + 1 && a == Action::Redraw
        },
        Command::DeleteForward => hist_same(h0, h1) && stash_same(s0, s1) && if s0.cursor()
            < s0.line().len() {
            (s1.line(), s1.cursor()) == buffer::spec_delete_forward(s0.line(), s0.cursor()) && a
                == Action::Redraw
        } else {
            sess_same(s0, s1) && a == Action::Pass
        },
        Command::DeleteOrEof => hist_same(h0, h1) && stash_same(s0, s1) && if s0.line().len()
            == 0 {
            sess_same(s0, s1) && a == Action::Interrupted
        } else if s0.cursor() < s0.line().len() {
            (s1.line(), s1.cursor()) == buffer::spec_delete_forward(s0.line(), s0.cursor()) && a
                == Action::Redraw
        } else {
            sess_same(s0, s1) && a == Action::Pass
        },
        Command::DeleteBackward => hist_same(h0, h1) && stash_same(s0, s1) && if s0.cursor()
            == 0 {
            sess_same(s0, s1) && a == Action::Pass
        } else {
            (s1.line(), s1.cursor()) == buffer::spec_delete_backward(s0.line(), s0.cursor()) && a
                == Action::Redraw
        },
        Command::KillToEnd => hist_same(h0, h1) && stash_same(s0, s1) && s1.line()
            == s0.line().take(s0.cursor() as int) && s1.cursor() == s0.cursor() && a
            == Action::Redraw,
        Command::InsertByte(b) => hist_same(h0, h1) && stash_same(s0, s1) && (
        s1.line(),
        s1.cursor(),
        ) == buffer::spec_insert_at(s0.line(), s0.cursor(), b) && a == Action::Redraw,
        Command::HistoryPrev => hist_entries_same(h0, h1) && {
            let (p2, picked) = history::spec_prev(h0.entries().len(), h0.cursor());
            h1.cursor() == p2 && match picked {
                Some(i) => {
                    let e = h0.entries()[i];
                    &&& s1.line() == e
                    &&& s1.cursor() == e.len()
                    &&& s1.is_stashed()
                    &&& s1.stash_view() == if s0.is_stashed() {
                        s0.stash_view()
                    } else {
                        s0.line()
                    }
                    &&& a == Action::Redraw
                },
                None => sess_same(s0, s1) && a == Action::Pass,
            }
        },
        Command::HistoryNext => hist_entries_same(h0, h1) && {
            let (p2, picked) = history::spec_next(h0.entries().len(), h0.cursor());
            h1.cursor() == p2 && match picked {
                Some(i) => {
                    let e = h0.entries()[i];
                    &&& s1.line() == e
                    &&& s1.cursor() == e.len()
                    &&& stash_same(s0, s1)
                    &&& a == Action::Redraw
                },
                None => if s0.is_stashed() {
                    &&& s1.line() == s0.stash_view()
                    &&& s1.cursor() == s0.stash_view().len()
                    &&& !s1.is_stashed()
                    &&& s1.stash_view() == Seq::<u8>::empty()
                    &&& a == Action::Redraw
                } else {
                    sess_same(s0, s1) && a == Action::Pass
                },
            }
        },
    }
}

impl Session {
    /// The line under edit.
    pub closed spec fn line(&self) -> Seq<u8> {
        self.buffer.bytes()
    }

    /// The cursor inside the line.
    pub closed spec fn cursor(&self) -> nat {
        self.buffer.pos()
    }

    /// The live edit saved away while the history is being browsed.
    pub closed spec fn stash_view(&self) -> Seq<u8> {
        self.stash@
    }

    /// Whether a browsing stash is being held.
    pub closed spec fn is_stashed(&self) -> bool {
        self.stashed
    }

    /// The cursor stays inside the line.
    pub open spec fn wf(&self) -> bool {
        self.cursor() <= self.line().len()
    }

    /// A fresh transaction: empty line, cursor at 0, nothing stashed.
    pub fn new() -> (r: Self)
        ensures
            r.wf(),
            r.line() =~= Seq::<u8>::empty(),
            r.cursor() == 0,
            r.stash_view() =~= Seq::<u8>::empty(),
            !r.is_stashed(),
    {
        Session { buffer: EditBuffer::new(), stash: Vec::new(), stashed: false }
    }

    /// The line being edited, for rendering and for handing out on accept.
    pub fn buffer(&self) -> (r: &EditBuffer)
        ensures
            r.bytes() == self.line(),
            r.pos() == self.cursor(),
    {
        &self.buffer
    }

    /// A copy of the line's bytes.
    pub fn line_bytes(&self) -> (r: Vec<u8>)
        ensures
            r@ == self.line(),
    {
        self.buffer.to_vec()
    }

    /// Run the completion cycler's keystroke against this session's line.
    pub fn cycle_key(&mut self, cyc: &mut crate::completion::Cycler, key: u8) -> (r: crate::completion::CycleOutcome)
        requires
            old(self).wf(),
            old(cyc).wf(),
        ensures
            final(self).wf(),
            final(cyc).wf(),
            stash_same(*old(self), *final(self)),
            final(cyc).backup_bytes() == old(cyc).backup_bytes(),
            final(cyc).backup_cursor() == old(cyc).backup_cursor(),
            final(cyc).cands() == old(cyc).cands(),
            key == 9 ==> {
                &&& r == crate::completion::CycleOutcome::Cycled
                &&& final(cyc).idx() == (old(cyc).idx() + 1) % old(cyc).cands().len()
                &&& final(self).line() == final(cyc).cands()[final(cyc).idx() as int]
                &&& final(self).cursor() == final(self).line().len()
            },
            key == 27 ==> {
                &&& r == crate::completion::CycleOutcome::Canceled
                &&& final(cyc).idx() == old(cyc).idx()
                &&& final(self).line() == old(cyc).backup_bytes()
                &&& final(self).cursor() == old(cyc).backup_cursor()
            },
            key != 9 && key != 27 ==> {
                &&& r == crate::completion::CycleOutcome::Chosen
                &&& final(cyc).idx() == old(cyc).idx()
                &&& final(self).line() == old(self).line()
                &&& final(self).cursor() == old(self).cursor()
            },
    {
        cyc.step(&mut self.buffer, key)
    }

    /// Show the cycler's current candidate as the line.
    pub fn show_candidate(&mut self, cyc: &crate::completion::Cycler)
        requires
            cyc.wf(),
        ensures
            final(self).wf(),
            final(self).line() == cyc.cands()[cyc.idx() as int],
            final(self).cursor() == final(self).line().len(),
            stash_same(*old(self), *final(self)),
    {
        cyc.show_current(&mut self.buffer);
    }

    /// Dispatch one decoded command against the line and the history.
    ///
    /// Among what the contract pins down: an `Interrupt` always comes back
    /// as `Interrupted`, whatever the line or history hold, and
    /// `DeleteOrEof` interrupts exactly on an empty line.
    pub fn apply(&mut self, history: &mut History, cmd: Command) -> (a: Action)
        requires
            old(self).wf(),
            old(history).wf(),
            old(self).line().len() < usize::MAX,
        ensures
            final(self).wf(),
            final(history).wf(),
            spec_apply(*old(self), *old(history), cmd, *final(self), *final(history), a),
    {
        match cmd {
            Command::Unknown => Action::Pass,
            Command::Accept => Action::Accepted,
            Command::Interrupt => Action::Interrupted,
            Command::RequestCompletion => Action::Complete,
            Command::ClearScreen => Action::ClearRedraw,
            Command::MoveHome => {
                self.buffer.move_to(0);
                Action::Redraw
            },
            Command::MoveEnd => {
                let n = self.buffer.len();
                self.buffer.move_to(n);
                Action::Redraw
            },
            Command::MoveLeft => {
                let p = self.buffer.position();
                if p == 0 {
                    Action::Pass
                } else {
                    self.buffer.move_to(p - 1);
                    Action::Redraw
                }
            },
            Command::MoveRight => {
                let p = self.buffer.position();
                if p == self.buffer.len() {
                    Action::Pass
                } else {
                    self.buffer.move_to(p + 1);
                    Action::Redraw
                }
            },
            Command::DeleteForward => {
                if self.buffer.position() < self.buffer.len() {
                    self.buffer.delete_forward();
                    Action::Redraw
                } else {
                    Action::Pass
                }
            },
            Command::DeleteOrEof => {
                if self.buffer.len() == 0 {
                    Action::Interrupted
                } else if self.buffer.position() < self.buffer.len() {
                    self.buffer.delete_forward();
                    Action::Redraw
                } else {
                    Action::Pass
                }
            },
            Command::DeleteBackward => {
                if self.buffer.position() == 0 {
                    Action::Pass
                } else {
                    self.buffer.delete_backward();
                    Action::Redraw
                }
            },
            Command::KillToEnd => {
                self.buffer.kill_to_end();
                Action::Redraw
            },
            Command::InsertByte(b) => {
                self.buffer.insert_at_cursor(b);
                Action::Redraw
            },
            Command::HistoryPrev => {
                match history.prev() {
                    Some(entry) => {
                        if !self.stashed {
                            self.stash = self.buffer.to_vec();
                            self.stashed = true;
                        }
                        self.buffer.clear_and_set(entry);
                        Action::Redraw
                    },
                    None => Action::Pass,
                }
            },
            Command::HistoryNext => {
                match history.next() {
                    Some(entry) => {
                        self.buffer.clear_and_set(entry);
                        Action::Redraw
                    },
                    None => {
                        if self.stashed {
                            let restored = vstd::slice::slice_to_vec(self.stash.as_slice());
                            self.buffer.clear_and_set(restored);
                            self.stash = Vec::new();
                            self.stashed = false;
                            Action::Redraw
                        } else {
                            Action::Pass
                        }
                    },
                }
            },
        }
    }
}

} // verus!
