//! The completion cycler: once a completion request has produced
//! candidates, the line displays them one at a time. A further request
//! advances to the next candidate, wrapping past the last; escape restores
//! the line and cursor exactly as they were before cycling began; any other
//! key keeps the shown candidate and is handed back to be processed as an
//! ordinary keystroke.

use crate::buffer::EditBuffer;
use vstd::prelude::*;

verus! {

/// What one key did to the cycling sub-loop.
#[derive(Clone, Copy, PartialEq, Eq, Structural, Debug)]
pub enum CycleOutcome {
    /// The next candidate is now shown; stay in the sub-loop.
    Cycled,
    /// The pre-completion line is restored; the key is spent.
    Canceled,
    /// The shown candidate stays as the line; the key is to be reprocessed.
    Chosen,
}

/// One cycling interaction: the line as it stood before the first
/// candidate replaced it, the candidates, and which one is shown.
pub struct Cycler {
    backup: Vec<u8>,
    backup_pos: usize,
    candidates: Vec<Vec<u8>>,
    index: usize,
}

impl Cycler {
    /// The line bytes saved when cycling began.
    pub closed spec fn backup_bytes(&self) -> Seq<u8> {
        self.backup@
    }

    /// The cursor saved when cycling began.
    pub closed spec fn backup_cursor(&self) -> nat {
        self.backup_pos as nat
    }

    /// The candidate byte sequences, in the order they cycle.
    pub closed spec fn cands(&self) -> Seq<Seq<u8>> {
        Seq::new(self.candidates@.len(), |i: int| self.candidates@[i]@)
    }

    /// Which candidate is currently shown.
    pub closed spec fn idx(&self) -> nat {
        self.index as nat
    }

    /// There is at least one candidate, the shown one exists, and the
    /// saved cursor sits inside the saved line.
    pub open spec fn wf(&self) -> bool {
        &&& self.cands().len() > 0
        &&& self.idx() < self.cands().len()
        &&& self.backup_cursor() <= self.backup_bytes().len()
    }

    /// Begin cycling: save the line and cursor, start at the first
    /// candidate. The caller shows it with `show_current`.
    pub fn new(buf: &EditBuffer, candidates: Vec<Vec<u8>>) -> (r: Self)
        requires
            buf.wf(),
            candidates@.len() > 0,
        ensures
            r.wf(),
            r.backup_bytes() == buf.bytes(),
            r.backup_cursor() == buf.pos(),
            r.cands() == Seq::new(candidates@.len(), |i: int| candidates@[i]@),
            r.idx() == 0,
    {
        Cycler { backup: buf.to_vec(), backup_pos: buf.position(), candidates, index: 0 }
    }

    /// Replace the line with the shown candidate, cursor at its end.
    pub fn show_current(&self, buf: &mut EditBuffer)
        requires
            self.wf(),
        ensures
            final(buf).wf(),
            final(buf).bytes() == self.cands()[self.idx() as int],
            final(buf).pos() == self.cands()[self.idx() as int].len(),
    {
        let shown = &self.candidates[self.index];
        buf.clear_and_set(vstd::slice::slice_to_vec(shown.as_slice()));
    }

    /// One key inside the sub-loop. A completion request advances to the
    /// next candidate, wrapping after the last, and shows it. Escape puts
    /// the pre-completion line and cursor back exactly. Any other key
    /// leaves the shown candidate standing and asks the caller to process
    /// that key as a fresh keystroke.
    pub fn step(&mut self, buf: &mut EditBuffer, key: u8) -> (r: CycleOutcome)
        requires
            old(self).wf(),
            old(buf).wf(),
        ensures
            final(self).wf(),
            final(buf).wf(),
            final(self).backup_bytes() == old(self).backup_bytes(),
            final(self).backup_cursor() == old(self).backup_cursor(),
            final(self).cands() == old(self).cands(),
            key == 9 ==> {
                &&& r == CycleOutcome::Cycled
                &&& final(self).idx() == (old(self).idx() + 1) % old(self).cands().len()
                &&& final(buf).bytes() == final(self).cands()[final(self).idx() as int]
                &&& final(buf).pos() == final(buf).bytes().len()
            },
            key == 27 ==> {
                &&& r == CycleOutcome::Canceled
                &&& final(self).idx() == old(self).idx()
                &&& final(buf).bytes() == old(self).backup_bytes()
                &&& final(buf).pos() == old(self).backup_cursor()
            },
            key != 9 && key != 27 ==> {
                &&& r == CycleOutcome::Chosen
                &&& final(self).idx() == old(self).idx()
                &&& *final(buf) == *old(buf)
            },
    {
        if key == 9 {
            let n = self.candidates.len();
            proof {
                assert(self.cands().len() == self.candidates@.len());
            }
            if self.index < n - 1 {
                self.index = self.index + 1;
                proof {
                    vstd::arithmetic::div_mod::lemma_small_mod(
                        self.index as nat,
                        self.cands().len(),
                    );
                }
            } else {
                self.index = 0;
                proof {
                    vstd::arithmetic::div_mod::lemma_mod_self_0(self.cands().len() as int);
                }
            }
            self.show_current(buf);
            CycleOutcome::Cycled
        } else if key == 27 {
            let restored = vstd::slice::slice_to_vec(self.backup.as_slice());
            buf.clear_and_set(restored);
            buf.move_to(self.backup_pos);
            CycleOutcome::Canceled
        } else {
            CycleOutcome::Chosen
        }
    }
}

} // verus!
