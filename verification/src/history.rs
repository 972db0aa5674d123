//! The command history: an insertion-ordered, capacity-bounded log of
//! accepted lines, with a browsing cursor that is independent of the line
//! being edited.
//!
//! A limit of 0 means unbounded; otherwise appending at capacity evicts the
//! oldest entry. A cursor equal to the number of entries means "at the live
//! edit", not browsing. The history travels to and from storage as a
//! newline-delimited byte stream; the codec here is pure, so the caller owns
//! the file.

use std::collections::VecDeque;
use vstd::prelude::*;

verus! {

/// The entries after appending `l` under capacity `limit`: at capacity the
/// oldest entry leaves first.
pub open spec fn spec_append_entry(es: Seq<Seq<u8>>, limit: nat, l: Seq<u8>) -> Seq<Seq<u8>> {
    if limit > 0 && es.len() == limit {
        es.drop_first().push(l)
    } else {
        es.push(l)
    }
}

/// The entries after appending a whole sequence of lines, left to right.
pub open spec fn spec_append_all(es: Seq<Seq<u8>>, limit: nat, ls: Seq<Seq<u8>>) -> Seq<Seq<u8>>
    decreases ls.len(),
{
    if ls.len() == 0 {
        es
    } else {
        spec_append_all(spec_append_entry(es, limit, ls[0]), limit, ls.drop_first())
    }
}

/// What one `prev` step does to the browsing cursor of a history of `len`
/// entries: the new cursor, and the index of the entry returned, if any.
pub open spec fn spec_prev(len: nat, p: nat) -> (nat, Option<int>)
    recommends
        p <= len,
{
    if len == 0 || p == 0 {
        (p, None)
    } else {
        ((p - 1) as nat, Some(p - 1))
    }
}

/// What one `next` step does to the browsing cursor: stepping past the last
/// entry lands back at the live edit and returns nothing.
pub open spec fn spec_next(len: nat, p: nat) -> (nat, Option<int>)
    recommends
        p <= len,
{
    if len == 0 || p == len {
        (p, None)
    } else if p + 1 == len {
        ((p + 1) as nat, None)
    } else {
        ((p + 1) as nat, Some(p + 1 as int))
    }
}

/// The lines that the loader finds in `data`, given that the bytes of an
/// unfinished line `cmd` have already been seen: a newline closes the line
/// it ends, provided that line is nonempty; a trailing line without a final
/// newline still counts.
pub open spec fn spec_lines(data: Seq<u8>, cmd: Seq<u8>) -> Seq<Seq<u8>>
    decreases data.len(),
{
    if data.len() == 0 {
        if cmd.len() > 0 {
            seq![cmd]
        } else {
            Seq::empty()
        }
    } else if data[0] == 10 && cmd.len() > 0 {
        seq![cmd] + spec_lines(data.drop_first(), Seq::empty())
    } else {
        spec_lines(data.drop_first(), cmd.push(data[0]))
    }
}

/// The byte stream that saving writes: each entry followed by one newline.
pub open spec fn spec_encode(es: Seq<Seq<u8>>) -> Seq<u8>
    decreases es.len(),
{
    if es.len() == 0 {
        Seq::empty()
    } else {
        es[0] + seq![10u8] + spec_encode(es.drop_first())
    }
}

/// The ordered, size-bounded log of accepted lines.
pub struct History {
    commands: VecDeque<Vec<u8>>,
    position: usize,
    limit: usize,
}

impl History {
    /// The stored entries, oldest first.
    pub closed spec fn entries(&self) -> Seq<Seq<u8>> {
        Seq::new(self.commands@.len(), |i: int| self.commands@[i]@)
    }

    /// The browsing cursor; equal to `entries().len()` when not browsing.
    pub closed spec fn cursor(&self) -> nat {
        self.position as nat
    }

    /// The capacity bound; 0 means unbounded.
    pub closed spec fn max_len(&self) -> nat {
        self.limit as nat
    }

    /// The invariant: within capacity, and the cursor inside `[0, len]`.
    pub open spec fn wf(&self) -> bool {
        &&& self.max_len() > 0 ==> self.entries().len() <= self.max_len()
        &&& self.cursor() <= self.entries().len()
    }

    /// An empty history with capacity `limit` (0 = unbounded).
    pub fn new(limit: usize) -> (r: Self)
        ensures
            r.entries() =~= Seq::<Seq<u8>>::empty(),
            r.cursor() == 0,
            r.max_len() == limit,
            r.wf(),
    {
        let r = History { commands: VecDeque::new(), position: 0, limit };
        proof {
            assert(r.entries() =~= Seq::<Seq<u8>>::empty());
        }
        r
    }

    /// How many entries are stored.
    pub fn len(&self) -> (n: usize)
        ensures
            n == self.entries().len(),
    {
        self.commands.len()
    }

    /// The entry at `i`, oldest first.
    pub fn entry_at(&self, i: usize) -> (r: &Vec<u8>)
        requires
            i < self.entries().len(),
        ensures
            r@ == self.entries()[i as int],
    {
        &self.commands[i]
    }

    /// Append one line, evicting the oldest entry at capacity; the browsing
    /// cursor does not move.
    fn append_entry(&mut self, line: Vec<u8>)
        ensures
            final(self).entries() == spec_append_entry(
                old(self).entries(),
                old(self).max_len(),
                line@,
            ),
            final(self).cursor() == old(self).cursor(),
            final(self).max_len() == old(self).max_len(),
    {
        let ghost pre = self.entries();
        if self.limit > 0 && self.commands.len() == self.limit {
            self.commands.pop_front();
            proof {
                assert(self.entries() =~= pre.drop_first());
            }
        }
        let ghost mid = self.entries();
        self.commands.push_back(line);
        proof {
            assert(self.entries() =~= mid.push(line@));
        }
    }

    /// Append one accepted line and leave browsing: the cursor returns to
    /// the live edit, past the newest entry.
    pub fn append(&mut self, line: Vec<u8>)
        requires
            old(self).wf(),
        ensures
            final(self).wf(),
            final(self).entries() == spec_append_entry(
                old(self).entries(),
                old(self).max_len(),
                line@,
            ),
            final(self).cursor() == final(self).entries().len(),
            final(self).max_len() == old(self).max_len(),
    {
        self.append_entry(line);
        self.position = self.commands.len();
    }

    /// Step the browsing cursor one entry back and return a copy of the
    /// entry it lands on; nothing happens at the oldest entry or when the
    /// history is empty.
    pub fn prev(&mut self) -> (r: Option<Vec<u8>>)
        requires
            old(self).wf(),
        ensures
            final(self).wf(),
            final(self).entries() == old(self).entries(),
            final(self).max_len() == old(self).max_len(),
            final(self).cursor() == spec_prev(old(self).entries().len(), old(self).cursor()).0,
            match spec_prev(old(self).entries().len(), old(self).cursor()).1 {
                Some(i) => r matches Some(v) && v@ == old(self).entries()[i],
                None => r is None,
            },
    {
        if self.commands.len() == 0 || self.position == 0 {
            None
        } else {
            self.position = self.position - 1;
            let entry = &self.commands[self.position];
            Some(vstd::slice::slice_to_vec(entry.as_slice()))
        }
    }

    /// Step the browsing cursor one entry forward and return a copy of the
    /// entry it lands on; stepping past the newest entry returns to the live
    /// edit and yields nothing, as does a cursor already there.
    pub fn next(&mut self) -> (r: Option<Vec<u8>>)
        requires
            old(self).wf(),
        ensures
            final(self).wf(),
            final(self).entries() == old(self).entries(),
            final(self).max_len() == old(self).max_len(),
            final(self).cursor() == spec_next(old(self).entries().len(), old(self).cursor()).0,
            match spec_next(old(self).entries().len(), old(self).cursor()).1 {
                Some(i) => r matches Some(v) && v@ == old(self).entries()[i],
                None => r is None,
            },
    {
        if self.commands.len() == 0 || self.position == self.commands.len() {
            None
        } else {
            self.position = self.position + 1;
            if self.position < self.commands.len() {
                let entry = &self.commands[self.position];
                Some(vstd::slice::slice_to_vec(entry.as_slice()))
            } else {
                None
            }
        }
    }

    /// Append every line found in a saved byte stream, then leave the cursor
    /// at the live edit if anything is stored. Pure: the caller reads the
    /// file and hands the bytes in.
    pub fn load_bytes(&mut self, data: &Vec<u8>)
        requires
            old(self).wf(),
        ensures
            final(self).wf(),
            final(self).entries() == spec_append_all(
                old(self).entries(),
                old(self).max_len(),
                spec_lines(data@, Seq::empty()),
            ),
            final(self).max_len() == old(self).max_len(),
            final(self).cursor() == if final(self).entries().len() > 0 {
                final(self).entries().len()
            } else {
                old(self).cursor()
            },
    {
        let ghost l = old(self).max_len();
        let ghost es0 = old(self).entries();
        let ghost cur0 = old(self).cursor();
        let ghost total = spec_append_all(es0, l, spec_lines(data@, Seq::empty()));
        let mut cmd: Vec<u8> = Vec::new();
        proof {
            assert(data@.skip(0) =~= data@);
            assert(cmd@ =~= Seq::<u8>::empty());
        }
        let mut i: usize = 0;
        while i < data.len()
            invariant
                i <= data@.len(),
                self.max_len() == l,
                self.cursor() == cur0,
                cur0 <= es0.len(),
                self.entries().len() >= es0.len(),
                l > 0 ==> self.entries().len() <= l,
                spec_append_all(self.entries(), l, spec_lines(data@.skip(i as int), cmd@))
                    == total,
            decreases data@.len() - i,
        {
            let c = data[i];
            proof {
                assert(data@.skip(i as int).drop_first() =~= data@.skip(i as int + 1));
                assert(data@.skip(i as int)[0] == data@[i as int]);
            }
            if c == 10 && cmd.len() > 0 {
                let ghost rest = spec_lines(data@.skip(i as int + 1), Seq::empty());
                proof {
                    assert(spec_lines(data@.skip(i as int), cmd@) =~= seq![cmd@] + rest);
                    assert((seq![cmd@] + rest).drop_first() =~= rest);
                }
                self.append_entry(cmd);
                cmd = Vec::new();
            } else {
                proof {
                    assert(spec_lines(data@.skip(i as int), cmd@) == spec_lines(
                        data@.skip(i as int + 1),
                        cmd@.push(c),
                    ));
                }
                cmd.push(c);
            }
            i = i + 1;
        }
        proof {
            assert(data@.skip(i as int) =~= Seq::<u8>::empty());
        }
        let ghost es1 = self.entries();
        if cmd.len() > 0 {
            proof {
                assert(spec_lines(Seq::<u8>::empty(), cmd@) =~= seq![cmd@]);
                assert(seq![cmd@].drop_first() =~= Seq::<Seq<u8>>::empty());
                assert(spec_append_all(es1, l, seq![cmd@]) == spec_append_all(
                    spec_append_entry(es1, l, cmd@),
                    l,
                    seq![cmd@].drop_first(),
                ));
                assert(spec_append_all(spec_append_entry(es1, l, cmd@), l, Seq::empty())
                    == spec_append_entry(es1, l, cmd@));
            }
            self.append_entry(cmd);
        } else {
            proof {
                assert(spec_lines(Seq::<u8>::empty(), cmd@) =~= Seq::<Seq<u8>>::empty());
                assert(spec_append_all(es1, l, Seq::empty()) == es1);
            }
        }
        if self.commands.len() > 0 {
            self.position = self.commands.len();
        }
    }

    /// The byte stream that represents this history on storage: each entry
    /// followed by one newline. Pure: the caller writes the file.
    pub fn save_bytes(&self) -> (r: Vec<u8>)
        ensures
            r@ == spec_encode(self.entries()),
    {
        let mut out: Vec<u8> = Vec::new();
        let n = self.commands.len();
        let mut i: usize = 0;
        while i < n
            invariant
                n == self.entries().len(),
                i <= n,
                out@ == spec_encode(self.entries().take(i as int)),
            decreases n - i,
        {
            let ghost pre = out@;
            let entry = &self.commands[i];
            let mut j: usize = 0;
            while j < entry.len()
                invariant
                    j <= entry@.len(),
                    entry@ == self.entries()[i as int],
                    i < n,
                    n == self.entries().len(),
                    out@ == pre + entry@.take(j as int),
                decreases entry@.len() - j,
            {
                out.push(entry[j]);
                proof {
                    assert(entry@.take(j as int + 1) =~= entry@.take(j as int).push(
                        entry@[j as int],
                    ));
                }
                j = j + 1;
            }
            out.push(10);
            proof {
                assert(entry@.take(entry@.len() as int) =~= entry@);
                lemma_encode_push(self.entries().take(i as int), entry@);
                assert(self.entries().take(i as int).push(entry@) =~= self.entries().take(
                    i as int + 1,
                ));
                assert(out@ =~= spec_encode(self.entries().take(i as int + 1)));
            }
            i = i + 1;
        }
        proof {
            assert(self.entries().take(n as int) =~= self.entries());
        }
        out
    }
}

/// An entry the storage format can represent faithfully: nonempty and free
/// of newlines.
pub open spec fn storable(e: Seq<u8>) -> bool {
    e.len() > 0 && forall|j: int| 0 <= j < e.len() ==> e[j] != 10
}

/// The cursor after `k` successive `prev` steps over `len` entries.
pub open spec fn cursor_after_prevs(len: nat, p: nat, k: nat) -> nat
    decreases k,
{
    if k == 0 {
        p
    } else {
        spec_prev(len, cursor_after_prevs(len, p, (k - 1) as nat)).0
    }
}

/// The cursor after `k` successive `next` steps over `len` entries.
pub open spec fn cursor_after_nexts(len: nat, p: nat, k: nat) -> nat
    decreases k,
{
    if k == 0 {
        p
    } else {
        spec_next(len, cursor_after_nexts(len, p, (k - 1) as nat)).0
    }
}

proof fn lemma_prevs_cursor(n: nat, k: nat)
    requires
        k <= n,
    ensures
        cursor_after_prevs(n, n, k) == n - k,
    decreases k,
{
    if k > 0 {
        lemma_prevs_cursor(n, (k - 1) as nat);
    }
}

proof fn lemma_nexts_cursor(n: nat, k: nat)
    requires
        k <= n,
    ensures
        cursor_after_nexts(n, 0, k) == k,
    decreases k,
{
    if k > 0 {
        lemma_nexts_cursor(n, (k - 1) as nat);
    }
}

/// Browsing round trip: starting at the live edit over `n` entries, `n`
/// `prev` steps each return an entry and reach the oldest one; `n` `next`
/// steps then return to the live edit, with nothing returned on the final
/// step.
pub proof fn lemma_browse_round_trip(n: nat)
    ensures
        cursor_after_prevs(n, n, n) == 0,
        forall|k: nat| k < n ==> (#[trigger] spec_prev(n, cursor_after_prevs(n, n, k))).1 is Some,
        cursor_after_nexts(n, 0, n) == n,
        forall|k: nat|
            k + 1 < n ==> (#[trigger] spec_next(n, cursor_after_nexts(n, 0, k))).1 is Some,
        n > 0 ==> spec_next(n, cursor_after_nexts(n, 0, (n - 1) as nat)).1 is None,
{
    lemma_prevs_cursor(n, n);
    lemma_nexts_cursor(n, n);
    assert forall|k: nat| k < n implies (#[trigger] spec_prev(
        n,
        cursor_after_prevs(n, n, k),
    )).1 is Some by {
        lemma_prevs_cursor(n, k);
    }
    assert forall|k: nat| k + 1 < n implies (#[trigger] spec_next(
        n,
        cursor_after_nexts(n, 0, k),
    )).1 is Some by {
        lemma_nexts_cursor(n, k);
    }
    if n > 0 {
        lemma_nexts_cursor(n, (n - 1) as nat);
    }
}

/// While no eviction is possible, appending lines one by one just
/// concatenates them onto the stored entries.
pub proof fn lemma_append_all_no_evict(es: Seq<Seq<u8>>, limit: nat, ls: Seq<Seq<u8>>)
    requires
        limit == 0 || es.len() + ls.len() <= limit,
    ensures
        spec_append_all(es, limit, ls) == es + ls,
    decreases ls.len(),
{
    if ls.len() == 0 {
        assert(es + ls =~= es);
    } else {
        let es1 = spec_append_entry(es, limit, ls[0]);
        assert(es1 == es.push(ls[0]));
        lemma_append_all_no_evict(es1, limit, ls.drop_first());
        assert(es.push(ls[0]) + ls.drop_first() =~= es + ls);
    }
}

proof fn lemma_append_all_window(es: Seq<Seq<u8>>, limit: nat, ls: Seq<Seq<u8>>)
    requires
        limit > 0,
        es.len() <= limit,
    ensures
        spec_append_all(es, limit, ls).len() <= limit,
        (es + ls).len() <= limit ==> spec_append_all(es, limit, ls) == es + ls,
        (es + ls).len() > limit ==> spec_append_all(es, limit, ls) == (es + ls).skip(
            (es + ls).len() - limit,
        ),
    decreases ls.len(),
{
    if ls.len() == 0 {
        assert(es + ls =~= es);
    } else {
        let es1 = spec_append_entry(es, limit, ls[0]);
        lemma_append_all_window(es1, limit, ls.drop_first());
        if es.len() == limit {
            assert(es1 == es.drop_first().push(ls[0]));
            assert(es1 + ls.drop_first() =~= (es + ls).skip(1));
            let t = es + ls;
            let t1 = es1 + ls.drop_first();
            if t1.len() <= limit {
                assert(t1 =~= t.skip(t.len() - limit));
            } else {
                assert(t1.skip(t1.len() - limit) =~= t.skip(t.len() - limit));
            }
        } else {
            assert(es1 == es.push(ls[0]));
            assert(es1 + ls.drop_first() =~= es + ls);
        }
    }
}

/// The capacity bound in action: after any number of appends into an empty
/// history with capacity `limit > 0`, at most `limit` entries remain, and
/// they are exactly the most recently appended ones, oldest first.
pub proof fn lemma_capacity_retains_recent(ls: Seq<Seq<u8>>, limit: nat)
    requires
        limit > 0,
    ensures
        spec_append_all(Seq::empty(), limit, ls).len() <= limit,
        ls.len() <= limit ==> spec_append_all(Seq::empty(), limit, ls) == ls,
        ls.len() > limit ==> spec_append_all(Seq::empty(), limit, ls) == ls.skip(
            ls.len() - limit,
        ),
{
    lemma_append_all_window(Seq::empty(), limit, ls);
    assert(Seq::<Seq<u8>>::empty() + ls =~= ls);
}

/// A nonempty, newline-free entry at the front of a stream is consumed
/// byte by byte into the pending line.
proof fn lemma_lines_of_entry(e: Seq<u8>, s: Seq<u8>, c: Seq<u8>)
    requires
        forall|j: int| 0 <= j < e.len() ==> e[j] != 10,
    ensures
        spec_lines(e + s, c) == spec_lines(s, c + e),
    decreases e.len(),
{
    if e.len() == 0 {
        assert(e + s =~= s);
        assert(c + e =~= c);
    } else {
        assert((e + s)[0] == e[0]);
        assert((e + s).drop_first() =~= e.drop_first() + s);
        lemma_lines_of_entry(e.drop_first(), s, c.push(e[0]));
        assert(c.push(e[0]) + e.drop_first() =~= c + e);
    }
}

/// Decoding inverts encoding, entry by entry, for storable entries.
proof fn lemma_lines_decode(es: Seq<Seq<u8>>)
    requires
        forall|i: int| 0 <= i < es.len() ==> storable(#[trigger] es[i]),
    ensures
        spec_lines(spec_encode(es), Seq::empty()) == es,
    decreases es.len(),
{
    if es.len() == 0 {
        assert(spec_lines(spec_encode(es), Seq::empty()) =~= Seq::<Seq<u8>>::empty());
    } else {
        let tail = seq![10u8] + spec_encode(es.drop_first());
        assert(spec_encode(es) =~= es[0] + tail);
        lemma_lines_of_entry(es[0], tail, Seq::empty());
        assert(Seq::<u8>::empty() + es[0] =~= es[0]);
        assert(tail[0] == 10);
        assert(tail.drop_first() =~= spec_encode(es.drop_first()));
        assert(forall|i: int|
            0 <= i < es.drop_first().len() ==> storable(#[trigger] es.drop_first()[i]));
        lemma_lines_decode(es.drop_first());
        assert(seq![es[0]] + es.drop_first() =~= es);
    }
}

/// Round trip through storage: a history of nonempty, newline-free entries,
/// saved and then loaded into a fresh empty history of the same capacity,
/// comes back unchanged and in the same order.
pub proof fn lemma_save_load_round_trip(es: Seq<Seq<u8>>, limit: nat)
    requires
        forall|i: int| 0 <= i < es.len() ==> storable(#[trigger] es[i]),
        limit == 0 || es.len() <= limit,
    ensures
        spec_append_all(Seq::empty(), limit, spec_lines(spec_encode(es), Seq::empty())) == es,
{
    lemma_lines_decode(es);
    lemma_append_all_no_evict(Seq::empty(), limit, es);
    assert(Seq::<Seq<u8>>::empty() + es =~= es);
}

/// Appending one more line extends the encoding by that line and a newline.
proof fn lemma_encode_push(es: Seq<Seq<u8>>, l: Seq<u8>)
    ensures
        spec_encode(es.push(l)) =~= spec_encode(es) + l + seq![10u8],
    decreases es.len(),
{
    if es.len() == 0 {
        assert(es.push(l).drop_first() =~= Seq::<Seq<u8>>::empty());
        assert(spec_encode(es.push(l)) == es.push(l)[0] + seq![10u8] + spec_encode(
            es.push(l).drop_first(),
        ));
        assert(es.push(l)[0] == l);
        assert(spec_encode(Seq::<Seq<u8>>::empty()) =~= Seq::<u8>::empty());
    } else {
        assert(es.push(l).drop_first() =~= es.drop_first().push(l));
        lemma_encode_push(es.drop_first(), l);
        assert(spec_encode(es.push(l)) == es.push(l)[0] + seq![10u8] + spec_encode(
            es.push(l).drop_first(),
        ));
        assert(es.push(l)[0] == es[0]);
    }
}

} // verus!
