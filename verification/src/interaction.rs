//! The engine's configuration and long-lived state: the prompt, the display
//! mode, and the history that survives across line-read transactions, with
//! a builder for assembling them.
//!
//! A driver owns the terminal and the completion callback; per accepted
//! line it runs one `Session` against this state through `apply_command`
//! and hands the finished line back through `commit_line`.

use crate::decode::Command;
use crate::history;
use crate::history::History;
use crate::session;
use crate::session::{Action, Session};
use vstd::prelude::*;
use vstd::string::StringSliceAdditionalSpecFns;

verus! {

/// One line-editing engine: prompt, display mode, and history.
pub struct Interaction {
    prompt: Vec<u8>,
    /// Whether repaints wrap across rows instead of assuming one row.
    pub multi: bool,
    history: History,
}

impl Interaction {
    /// The prompt bytes shown before the editable region.
    pub closed spec fn prompt_view(&self) -> Seq<u8> {
        self.prompt@
    }

    /// The history carried across transactions.
    pub closed spec fn hist(&self) -> History {
        self.history
    }

    /// The display mode: true wraps across rows.
    pub closed spec fn is_multi(&self) -> bool {
        self.multi
    }

    /// The history's invariant holds.
    pub open spec fn wf(&self) -> bool {
        self.hist().wf()
    }

    /// An engine with the given prompt, display mode and history capacity
    /// (0 = unbounded).
    pub fn new(prompt: Vec<u8>, multi: bool, limit: usize) -> (r: Self)
        ensures
            r.wf(),
            r.prompt_view() == prompt@,
            r.is_multi() == multi,
            r.hist().entries() =~= Seq::<Seq<u8>>::empty(),
            r.hist().cursor() == 0,
            r.hist().max_len() == limit,
    {
        Interaction { prompt, multi, history: History::new(limit) }
    }

    /// An engine with the given prompt, multi-line display and unbounded
    /// history.
    pub fn from(prompt: &[u8]) -> (r: Self)
        ensures
            r.wf(),
            r.prompt_view() == prompt@,
            r.is_multi(),
            r.hist().entries() =~= Seq::<Seq<u8>>::empty(),
            r.hist().cursor() == 0,
            r.hist().max_len() == 0,
    {
        Interaction::new(vstd::slice::slice_to_vec(prompt), true, 0)
    }

    /// As `from`, with the prompt given as a string.
    pub fn from_str(prompt: &str) -> (r: Self)
        ensures
            r.wf(),
            r.prompt_view() == prompt.spec_bytes(),
            r.is_multi(),
            r.hist().entries() =~= Seq::<Seq<u8>>::empty(),
            r.hist().cursor() == 0,
            r.hist().max_len() == 0,
    {
        Interaction::new(vstd::slice::slice_to_vec(prompt.as_bytes()), true, 0)
    }

    /// The prompt bytes.
    pub fn prompt(&self) -> (r: &Vec<u8>)
        ensures
            r@ == self.prompt_view(),
    {
        &self.prompt
    }

    /// Replace the prompt.
    pub fn set_prompt(&mut self, prompt: &[u8])
        ensures
            final(self).prompt_view() == prompt@,
            final(self).is_multi() == old(self).is_multi(),
            final(self).hist() == old(self).hist(),
    {
        self.prompt = vstd::slice::slice_to_vec(prompt);
    }

    /// Replace the history by a fresh one with the given capacity,
    /// discarding the stored entries.
    pub fn set_history_limit(&mut self, limit: usize)
        ensures
            final(self).wf(),
            final(self).prompt_view() == old(self).prompt_view(),
            final(self).is_multi() == old(self).is_multi(),
            final(self).hist().entries() =~= Seq::<Seq<u8>>::empty(),
            final(self).hist().cursor() == 0,
            final(self).hist().max_len() == limit,
    {
        self.history = History::new(limit);
    }

    /// The history, read-only.
    pub fn history(&self) -> (r: &History)
        ensures
            *r == self.hist(),
    {
        &self.history
    }

    /// Dispatch one decoded command of a running transaction against this
    /// engine's history.
    pub fn apply_command(&mut self, s: &mut Session, cmd: Command) -> (a: Action)
        requires
            old(self).wf(),
            old(s).wf(),
            old(s).line().len() < usize::MAX,
        ensures
            final(self).wf(),
            final(s).wf(),
            final(self).prompt_view() == old(self).prompt_view(),
            final(self).is_multi() == old(self).is_multi(),
            session::spec_apply(*old(s), old(self).hist(), cmd, *final(s), final(self).hist(), a),
    {
        s.apply(&mut self.history, cmd)
    }

    /// Record a finished line: a nonempty line is appended to the history,
    /// an empty one leaves it untouched.
    pub fn commit_line(&mut self, line: &Vec<u8>)
        requires
            old(self).wf(),
        ensures
            final(self).wf(),
            final(self).prompt_view() == old(self).prompt_view(),
            final(self).is_multi() == old(self).is_multi(),
            line@.len() == 0 ==> final(self).hist() == old(self).hist(),
            line@.len() > 0 ==> {
                &&& final(self).hist().entries() == history::spec_append_entry(
                    old(self).hist().entries(),
                    old(self).hist().max_len(),
                    line@,
                )
                &&& final(self).hist().cursor() == final(self).hist().entries().len()
                &&& final(self).hist().max_len() == old(self).hist().max_len()
            },
    {
        if line.len() > 0 {
            self.history.append(vstd::slice::slice_to_vec(line.as_slice()));
        }
    }

    /// Append every line of a saved history byte stream; the caller reads
    /// the file and hands the bytes in.
    pub fn load_history_bytes(&mut self, data: &Vec<u8>)
        requires
            old(self).wf(),
        ensures
            final(self).wf(),
            final(self).prompt_view() == old(self).prompt_view(),
            final(self).is_multi() == old(self).is_multi(),
            final(self).hist().entries() == history::spec_append_all(
                old(self).hist().entries(),
                old(self).hist().max_len(),
                history::spec_lines(data@, Seq::empty()),
            ),
            final(self).hist().max_len() == old(self).hist().max_len(),
    {
        self.history.load_bytes(data);
    }

    /// The byte stream that represents the history on storage; the caller
    /// writes it to the file.
    pub fn save_history_bytes(&self) -> (r: Vec<u8>)
        ensures
            r@ == history::spec_encode(self.hist().entries()),
    {
        self.history.save_bytes()
    }
}

/// Assembles an `Interaction` step by step: prompt, display mode, history
/// capacity, and optionally a preloaded history.
pub struct InteractionBuilder {
    prompt: Vec<u8>,
    multi: bool,
    history: History,
}

impl InteractionBuilder {
    /// The prompt configured so far.
    pub closed spec fn prompt_view(&self) -> Seq<u8> {
        self.prompt@
    }

    /// The display mode configured so far.
    pub closed spec fn is_multi(&self) -> bool {
        self.multi
    }

    /// The history assembled so far.
    pub closed spec fn hist(&self) -> History {
        self.history
    }

    /// The history's invariant holds.
    pub open spec fn wf(&self) -> bool {
        self.hist().wf()
    }

    /// The defaults: empty prompt, multi-line display, unbounded history.
    pub fn new() -> (r: Self)
        ensures
            r.wf(),
            r.prompt_view() =~= Seq::<u8>::empty(),
            r.is_multi(),
            r.hist().entries() =~= Seq::<Seq<u8>>::empty(),
            r.hist().cursor() == 0,
            r.hist().max_len() == 0,
    {
        InteractionBuilder { prompt: Vec::new(), multi: true, history: History::new(0) }
    }

    /// Finish: an engine with everything configured here.
    pub fn build(self) -> (r: Interaction)
        ensures
            r.prompt_view() == self.prompt_view(),
            r.is_multi() == self.is_multi(),
            r.hist() == self.hist(),
    {
        Interaction { prompt: self.prompt, multi: self.multi, history: self.history }
    }

    /// Set the prompt.
    pub fn prompt(self, prompt: &[u8]) -> (r: Self)
        ensures
            r.prompt_view() == prompt@,
            r.is_multi() == self.is_multi(),
            r.hist() == self.hist(),
    {
        InteractionBuilder {
            prompt: vstd::slice::slice_to_vec(prompt),
            multi: self.multi,
            history: self.history,
        }
    }

    /// Set the prompt from a string.
    pub fn prompt_str(self, prompt: &str) -> (r: Self)
        ensures
            r.prompt_view() == prompt.spec_bytes(),
            r.is_multi() == self.is_multi(),
            r.hist() == self.hist(),
    {
        InteractionBuilder {
            prompt: vstd::slice::slice_to_vec(prompt.as_bytes()),
            multi: self.multi,
            history: self.history,
        }
    }

    /// Set the display mode: true wraps across rows.
    pub fn mode(self, multi: bool) -> (r: Self)
        ensures
            r.prompt_view() == self.prompt_view(),
            r.is_multi() == multi,
            r.hist() == self.hist(),
    {
        InteractionBuilder { prompt: self.prompt, multi, history: self.history }
    }

    /// Replace the history by a fresh one with the given capacity.
    pub fn history_limit(self, limit: usize) -> (r: Self)
        ensures
            r.wf(),
            r.prompt_view() == self.prompt_view(),
            r.is_multi() == self.is_multi(),
            r.hist().entries() =~= Seq::<Seq<u8>>::empty(),
            r.hist().cursor() == 0,
            r.hist().max_len() == limit,
    {
        InteractionBuilder { prompt: self.prompt, multi: self.multi, history: History::new(limit) }
    }

    /// Append every line of a saved history byte stream to the history
    /// being assembled; the caller reads the file and hands the bytes in.
    pub fn load_history_bytes(self, data: &Vec<u8>) -> (r: Self)
        requires
            self.wf(),
        ensures
            r.wf(),
            r.prompt_view() == self.prompt_view(),
            r.is_multi() == self.is_multi(),
            r.hist().entries() == history::spec_append_all(
                self.hist().entries(),
                self.hist().max_len(),
                history::spec_lines(data@, Seq::empty()),
            ),
            r.hist().max_len() == self.hist().max_len(),
    {
        let mut h = self.history;
        h.load_bytes(data);
        InteractionBuilder { prompt: self.prompt, multi: self.multi, history: h }
    }
}

} // verus!
