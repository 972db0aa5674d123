//! The repaint generator: the exact control-and-text byte stream that
//! brings the terminal up to date after an edit.
//!
//! Single-line mode rewrites one row in place. Multi-line mode first erases
//! the rows the previous repaint produced, then streams the prompt and the
//! line with a wrap at every terminal-width column, and finally walks the
//! cursor to its cell; the number of rows between the origin and the cursor
//! is carried to the next repaint as its erase count. The generator only
//! builds bytes — the caller queries the width and writes to the terminal.

use crate::buffer::EditBuffer;
use vstd::prelude::*;

verus! {

/// The decimal digits of `n` in ASCII, most significant first.
pub open spec fn spec_decimal(n: nat) -> Seq<u8>
    decreases n,
{
    if n < 10 {
        seq![(48 + n) as u8]
    } else {
        spec_decimal(n / 10).push((48 + n % 10) as u8)
    }
}

/// The control sequence ESC `[` n `letter`.
pub open spec fn spec_csi(n: nat, letter: u8) -> Seq<u8> {
    seq![27u8, 91u8] + spec_decimal(n) + seq![letter]
}

/// The wrapped text stream: each byte in order, with a newline and a
/// return to column 0 after every byte that fills a row, given that `cnt`
/// columns of the current row are already filled.
pub open spec fn spec_wrapped_from(content: Seq<u8>, width: nat, cnt: nat) -> Seq<u8>
    recommends
        width > 0,
    decreases content.len(),
{
    if content.len() == 0 {
        Seq::empty()
    } else {
        let wrap = cnt + 1 == width;
        seq![content[0]] + (if wrap {
            seq![10u8, 27u8, 91u8, 48u8, 71u8]
        } else {
            Seq::empty()
        }) + spec_wrapped_from(content.drop_first(), width, if wrap {
            0
        } else {
            cnt + 1
        })
    }
}

/// A single-line repaint: return to column 0, erase the row, rewrite the
/// prompt and the line, then park the cursor at its column.
pub open spec fn spec_render_single(prompt: Seq<u8>, line: Seq<u8>, pos: nat) -> Seq<u8> {
    seq![27u8, 91u8, 48u8, 71u8, 27u8, 91u8, 75u8] + prompt + line + seq![13u8] + spec_csi(
        prompt.len() + pos,
        67,
    )
}

/// A multi-line repaint: climb to the origin row and erase downward, stream
/// the wrapped content, return to the origin, then descend and advance to
/// the cursor's cell.
pub open spec fn spec_render_multi(
    prompt: Seq<u8>,
    line: Seq<u8>,
    pos: nat,
    width: nat,
    prev_row: nat,
) -> Seq<u8>
    recommends
        width > 0,
        pos <= line.len(),
{
    let head = if prev_row == 0 {
        seq![27u8, 91u8, 48u8, 71u8, 27u8, 91u8, 74u8]
    } else {
        seq![27u8, 91u8, 48u8, 71u8] + spec_csi(prev_row, 65) + seq![27u8, 91u8, 74u8]
    };
    let wraps = (prompt.len() + line.len()) / width;
    let back = if wraps == 0 {
        seq![27u8, 91u8, 48u8, 71u8]
    } else {
        seq![27u8, 91u8, 48u8, 71u8] + spec_csi(wraps, 65)
    };
    let row = (prompt.len() + pos) / width;
    let col = (prompt.len() + pos) % width;
    head + spec_wrapped_from(prompt + line, width, 0) + seq![13u8] + back + (if row > 0 {
        spec_csi(row, 66)
    } else {
        Seq::empty()
    }) + (if col > 0 {
        spec_csi(col, 67)
    } else {
        Seq::empty()
    })
}

/// Append every byte of `src` to `out`.
fn push_all(out: &mut Vec<u8>, src: &[u8])
    ensures
        final(out)@ == old(out)@ + src@,
{
    let ghost pre = out@;
    let mut j: usize = 0;
    while j < src.len()
        invariant
            j <= src@.len(),
            out@ == pre + src@.take(j as int),
        decreases src@.len() - j,
    {
        out.push(src[j]);
        proof {
            assert(src@.take(j as int + 1) =~= src@.take(j as int).push(src@[j as int]));
        }
        j = j + 1;
    }
    proof {
        assert(src@.take(src@.len() as int) =~= src@);
    }
}

/// The decimal digits of `n` in ASCII.
fn dec_digits(n: usize) -> (r: Vec<u8>)
    ensures
        r@ == spec_decimal(n as nat),
    decreases n,
{
    if n < 10 {
        let mut v: Vec<u8> = Vec::new();
        v.push(48 + n as u8);
        v
    } else {
        let mut v = dec_digits(n / 10);
        v.push(48 + (n % 10) as u8);
        v
    }
}

/// Append the control sequence ESC `[` n `letter` to `out`.
fn push_csi(out: &mut Vec<u8>, n: usize, letter: u8)
    ensures
        final(out)@ == old(out)@ + spec_csi(n as nat, letter),
{
    let ghost pre = out@;
    out.push(27);
    out.push(91);
    let digits = dec_digits(n);
    push_all(out, digits.as_slice());
    out.push(letter);
    proof {
        assert(out@ =~= pre + spec_csi(n as nat, letter));
    }
}

/// What a repaint needs to remember between two frames: the display mode,
/// fixed for the session, and in multi-line mode the number of rows between
/// the content's origin and where the cursor was parked, which is exactly
/// how far the next repaint must climb before erasing.
pub struct Renderer {
    multi: bool,
    row: usize,
}

impl Renderer {
    /// Whether this renderer wraps across rows.
    pub closed spec fn is_multi(&self) -> bool {
        self.multi
    }

    /// Rows between the origin and the cursor after the last repaint.
    pub closed spec fn rows(&self) -> nat {
        self.row as nat
    }

    /// A fresh renderer; the first multi-line repaint erases nothing above.
    pub fn new(multi: bool) -> (r: Self)
        ensures
            r.is_multi() == multi,
            r.rows() == 0,
    {
        Renderer { multi, row: 0 }
    }

    /// The bytes of one repaint for the given prompt, line and cursor.
    /// In multi-line mode the erase count is taken from the previous
    /// repaint and replaced by this one's cursor row.
    pub fn repaint(&mut self, prompt: &Vec<u8>, buf: &EditBuffer, width: usize) -> (out: Vec<
        u8,
    >)
        requires
            buf.wf(),
            width > 0,
            prompt@.len() + buf.bytes().len() < usize::MAX,
        ensures
            final(self).is_multi() == old(self).is_multi(),
            !old(self).is_multi() ==> {
                &&& out@ == spec_render_single(prompt@, buf.bytes(), buf.pos())
                &&& final(self).rows() == old(self).rows()
            },
            old(self).is_multi() ==> {
                &&& out@ == spec_render_multi(
                    prompt@,
                    buf.bytes(),
                    buf.pos(),
                    width as nat,
                    old(self).rows(),
                )
                &&& final(self).rows() == (prompt@.len() + buf.pos()) / (width as nat)
            },
    {
        if self.multi {
            self.repaint_multi(prompt, buf, width)
        } else {
            self.repaint_single(prompt, buf)
        }
    }

    fn repaint_single(&self, prompt: &Vec<u8>, buf: &EditBuffer) -> (out: Vec<u8>)
        requires
            buf.wf(),
            prompt@.len() + buf.bytes().len() < usize::MAX,
        ensures
            out@ == spec_render_single(prompt@, buf.bytes(), buf.pos()),
    {
        let mut out: Vec<u8> = Vec::new();
        out.push(27);
        out.push(91);
        out.push(48);
        out.push(71);
        out.push(27);
        out.push(91);
        out.push(75);
        push_all(&mut out, prompt.as_slice());
        push_all(&mut out, buf.as_bytes().as_slice());
        out.push(13);
        push_csi(&mut out, buf.position() + prompt.len(), 67);
        proof {
            assert(out@ =~= spec_render_single(prompt@, buf.bytes(), buf.pos()));
        }
        out
    }

    #[verifier::rlimit(60)]
    fn repaint_multi(&mut self, prompt: &Vec<u8>, buf: &EditBuffer, width: usize) -> (out: Vec<
        u8,
    >)
        requires
            old(self).multi,
            buf.wf(),
            width > 0,
            prompt@.len() + buf.bytes().len() < usize::MAX,
        ensures
            final(self).multi == old(self).multi,
            out@ == spec_render_multi(
                prompt@,
                buf.bytes(),
                buf.pos(),
                width as nat,
                old(self).rows(),
            ),
            final(self).rows() == (prompt@.len() + buf.pos()) / (width as nat),
    {
        let ghost p = prompt@;
        let ghost l = buf.bytes();
        let mut out: Vec<u8> = Vec::new();
        out.push(27);
        out.push(91);
        out.push(48);
        out.push(71);
        if self.row > 0 {
            push_csi(&mut out, self.row, 65);
        }
        out.push(27);
        out.push(91);
        out.push(74);
        let ghost head = out@;
        proof {
            if old(self).rows() == 0 {
                assert(head =~= seq![27u8, 91u8, 48u8, 71u8, 27u8, 91u8, 74u8]);
            } else {
                assert(head =~= seq![27u8, 91u8, 48u8, 71u8] + spec_csi(old(self).rows(), 65)
                    + seq![27u8, 91u8, 74u8]);
            }
        }

        let mut content: Vec<u8> = Vec::new();
        push_all(&mut content, prompt.as_slice());
        push_all(&mut content, buf.as_bytes().as_slice());
        let ghost body = spec_wrapped_from(content@, width as nat, 0);

        proof {
            assert(content@.skip(0) =~= content@);
        }
        let mut cnt: usize = 0;
        let mut i: usize = 0;
        while i < content.len()
            invariant
                i <= content@.len(),
                cnt < width,
                width > 0,
                head + body == out@ + spec_wrapped_from(
                    content@.skip(i as int),
                    width as nat,
                    cnt as nat,
                ),
            decreases content@.len() - i,
        {
            proof {
                assert(content@.skip(i as int)[0] == content@[i as int]);
                assert(content@.skip(i as int).drop_first() =~= content@.skip(i as int + 1));
            }
            out.push(content[i]);
            if cnt + 1 == width {
                out.push(10);
                out.push(27);
                out.push(91);
                out.push(48);
                out.push(71);
                cnt = 0;
            } else {
                cnt = cnt + 1;
            }
            i = i + 1;
        }
        proof {
            assert(content@.skip(content@.len() as int) =~= Seq::<u8>::empty());
            assert(out@ == head + body);
        }

        out.push(13);
        let wraps = content.len() / width;
        out.push(27);
        out.push(91);
        out.push(48);
        out.push(71);
        if wraps > 0 {
            push_csi(&mut out, wraps, 65);
        }
        let pos_cell = prompt.len() + buf.position();
        let row = pos_cell / width;
        let col = pos_cell % width;
        if row > 0 {
            push_csi(&mut out, row, 66);
        }
        if col > 0 {
            push_csi(&mut out, col, 67);
        }
        self.row = row;
        proof {
            assert(content@ == p + l);
            assert(out@ =~= spec_render_multi(p, l, buf.pos(), width as nat, old(self).rows()));
        }
        out
    }

    /// The bytes that home the cursor and erase the whole screen, written
    /// before a repaint when the screen is cleared.
    pub fn clear_screen_seq() -> (r: Vec<u8>)
        ensures
            r@ == seq![27u8, 91u8, 72u8, 27u8, 91u8, 50u8, 74u8],
    {
        let mut v: Vec<u8> = Vec::new();
        v.push(27);
        v.push(91);
        v.push(72);
        v.push(27);
        v.push(91);
        v.push(50);
        v.push(74);
        v
    }

    /// The bytes written once a line is accepted or abandoned: step to the
    /// next row and pull the cursor back to column 0.
    pub fn accept_tail(prompt_len: usize, position: usize) -> (r: Vec<u8>)
        requires
            prompt_len + position <= usize::MAX,
        ensures
            r@ == seq![10u8] + spec_csi((prompt_len + position) as nat, 68),
    {
        let mut v: Vec<u8> = Vec::new();
        v.push(10);
        push_csi(&mut v, prompt_len + position, 68);
        v
    }
}

} // verus!
