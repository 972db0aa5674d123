//! The edit buffer: one line of bytes under construction, with a cursor.
//!
//! The cursor is a byte offset, never a character index, and it always lies
//! in `[0, len]`. A plain byte typed mid-line overwrites the byte under the
//! cursor rather than inserting before it; only at the end does it append.

use vstd::prelude::*;

verus! {

/// The buffer and cursor after inserting byte `b` at offset `p`:
/// mid-line the byte under the cursor is overwritten, at the end it is
/// appended; either way the cursor advances by one.
pub open spec fn spec_insert_at(s: Seq<u8>, p: nat, b: u8) -> (Seq<u8>, nat)
    recommends
        p <= s.len(),
{
    if p < s.len() {
        (s.update(p as int, b), p + 1)
    } else {
        (s.push(b), p + 1)
    }
}

/// The buffer and cursor after deleting the byte under the cursor:
/// a no-op when the cursor sits at the end.
pub open spec fn spec_delete_forward(s: Seq<u8>, p: nat) -> (Seq<u8>, nat)
    recommends
        p <= s.len(),
{
    if p < s.len() {
        (s.remove(p as int), p)
    } else {
        (s, p)
    }
}

/// The buffer and cursor after deleting the byte before the cursor:
/// a no-op when the cursor sits at offset 0.
pub open spec fn spec_delete_backward(s: Seq<u8>, p: nat) -> (Seq<u8>, nat)
    recommends
        p <= s.len(),
{
    if p > 0 {
        (s.remove(p - 1), (p - 1) as nat)
    } else {
        (s, p)
    }
}

/// One line of bytes being edited, together with the cursor offset.
pub struct EditBuffer {
    bytes: Vec<u8>,
    position: usize,
}

impl EditBuffer {
    /// The byte contents of the line.
    pub closed spec fn bytes(&self) -> Seq<u8> {
        self.bytes@
    }

    /// The cursor, as a byte offset into the line.
    pub closed spec fn pos(&self) -> nat {
        self.position as nat
    }

    /// The positional invariant: the cursor never passes the end.
    pub open spec fn wf(&self) -> bool {
        self.pos() <= self.bytes().len()
    }

    /// An empty line with the cursor at offset 0.
    pub fn new() -> (r: Self)
        ensures
            r.bytes() =~= Seq::<u8>::empty(),
            r.pos() == 0,
            r.wf(),
    {
        EditBuffer { bytes: Vec::new(), position: 0 }
    }

    /// The current length of the line in bytes.
    pub fn len(&self) -> (n: usize)
        ensures
            n == self.bytes().len(),
    {
        self.bytes.len()
    }

    /// The current cursor offset.
    pub fn position(&self) -> (p: usize)
        ensures
            p == self.pos(),
    {
        self.position
    }

    /// A view of the line's bytes.
    pub fn as_bytes(&self) -> (r: &Vec<u8>)
        ensures
            r@ == self.bytes(),
    {
        &self.bytes
    }

    /// The line's bytes, copied out.
    pub fn to_vec(&self) -> (r: Vec<u8>)
        ensures
            r@ == self.bytes(),
    {
        vstd::slice::slice_to_vec(self.bytes.as_slice())
    }

    /// Type a plain byte: overwrite under the cursor mid-line, append at the
    /// end, and advance the cursor.
    pub fn insert_at_cursor(&mut self, b: u8)
        requires
            old(self).wf(),
            old(self).bytes().len() < usize::MAX,
        ensures
            final(self).wf(),
            (final(self).bytes(), final(self).pos()) == spec_insert_at(
                old(self).bytes(),
                old(self).pos(),
                b,
            ),
    {
        if self.position < self.bytes.len() {
            self.bytes.set(self.position, b);
        } else {
            self.bytes.push(b);
        }
        self.position = self.position + 1;
    }

    /// Delete the byte under the cursor; a no-op at the end of the line.
    pub fn delete_forward(&mut self)
        requires
            old(self).wf(),
        ensures
            final(self).wf(),
            (final(self).bytes(), final(self).pos()) == spec_delete_forward(
                old(self).bytes(),
                old(self).pos(),
            ),
    {
        if self.position < self.bytes.len() {
            self.bytes.remove(self.position);
        }
    }

    /// Delete the byte before the cursor and step the cursor back; a no-op
    /// when the cursor sits at offset 0.
    pub fn delete_backward(&mut self)
        requires
            old(self).wf(),
        ensures
            final(self).wf(),
            (final(self).bytes(), final(self).pos()) == spec_delete_backward(
                old(self).bytes(),
                old(self).pos(),
            ),
            old(self).pos() == 0 ==> *final(self) == *old(self),
    {
        if self.position > 0 {
            self.position = self.position - 1;
            self.bytes.remove(self.position);
        }
    }

    /// Move the cursor to `p`, clamped to `[0, len]`.
    pub fn move_to(&mut self, p: usize)
        ensures
            final(self).wf(),
            final(self).bytes() == old(self).bytes(),
            final(self).pos() == if p <= old(self).bytes().len() {
                p as nat
            } else {
                old(self).bytes().len()
            },
    {
        if p <= self.bytes.len() {
            self.position = p;
        } else {
            self.position = self.bytes.len();
        }
    }

    /// Truncate the line at the cursor, discarding everything after it.
    pub fn kill_to_end(&mut self)
        requires
            old(self).wf(),
        ensures
            final(self).wf(),
            final(self).bytes() == old(self).bytes().take(old(self).pos() as int),
            final(self).pos() == old(self).pos(),
    {
        self.bytes.truncate(self.position);
    }

    /// Replace the whole line and put the cursor at its end; used when a
    /// history entry or a completion candidate takes the place of the line.
    pub fn clear_and_set(&mut self, bytes: Vec<u8>)
        ensures
            final(self).wf(),
            final(self).bytes() == bytes@,
            final(self).pos() == bytes@.len(),
    {
        self.position = bytes.len();
        self.bytes = bytes;
    }
}

/// One editing keystroke of the kind that mutates the line in place.
pub enum EditOp {
    Insert(u8),
    DeleteForward,
    DeleteBackward,
}

/// The buffer and cursor after one editing keystroke.
pub open spec fn apply_edit(s: Seq<u8>, p: nat, op: EditOp) -> (Seq<u8>, nat) {
    match op {
        EditOp::Insert(b) => spec_insert_at(s, p, b),
        EditOp::DeleteForward => spec_delete_forward(s, p),
        EditOp::DeleteBackward => spec_delete_backward(s, p),
    }
}

/// The buffer and cursor after a whole sequence of editing keystrokes,
/// applied left to right.
pub open spec fn apply_edits(s: Seq<u8>, p: nat, ops: Seq<EditOp>) -> (Seq<u8>, nat)
    decreases ops.len(),
{
    if ops.len() == 0 {
        (s, p)
    } else {
        let (s1, p1) = apply_edit(s, p, ops[0]);
        apply_edits(s1, p1, ops.drop_first())
    }
}

/// Every sequence of insert / delete-forward / delete-backward keystrokes
/// keeps the cursor inside `[0, len]`: the positional invariant holds after
/// every operation, whatever the line held to begin with.
pub proof fn lemma_edits_preserve_wf(s: Seq<u8>, p: nat, ops: Seq<EditOp>)
    requires
        p <= s.len(),
    ensures
        apply_edits(s, p, ops).1 <= apply_edits(s, p, ops).0.len(),
    decreases ops.len(),
{
    if ops.len() > 0 {
        let (s1, p1) = apply_edit(s, p, ops[0]);
        lemma_edits_preserve_wf(s1, p1, ops.drop_first());
    }
}

} // verus!
