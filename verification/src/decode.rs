//! The key decoder: a state machine that turns raw terminal bytes, one at a
//! time, into logical editing commands.
//!
//! Control bytes map through a fixed table. ESC opens an escape sequence:
//! ESC `[` selects the CSI forms for arrows, Home, End, Delete and the page
//! keys, of which the digit forms consume one trailing terminator byte.
//! Any malformed sequence degrades by reinterpreting the offending byte as
//! if it had arrived on its own, so the decoder always makes progress and
//! never waits for bytes that may not come.

use vstd::prelude::*;

verus! {

/// A logical editing command.
///
/// `DeleteOrEof` is the Ctrl-D convention: delete forward on a nonempty
/// line, end the session on an empty one. The CSI Delete key arrives as the
/// plain `DeleteForward` instead, which never ends the session.
#[derive(Clone, Copy, PartialEq, Eq, Structural, Debug)]
pub enum Command {
    Unknown,
    MoveHome,
    MoveEnd,
    MoveLeft,
    MoveRight,
    DeleteForward,
    DeleteOrEof,
    DeleteBackward,
    Accept,
    Interrupt,
    ClearScreen,
    KillToEnd,
    RequestCompletion,
    HistoryPrev,
    HistoryNext,
    InsertByte(u8),
}

/// Where the decoder stands inside a possibly multi-byte sequence.
///
/// `CsiDigit(d)` remembers the digit selector of a CSI form whose trailing
/// terminator byte is still owed and will be discarded.
#[derive(Clone, Copy, PartialEq, Eq, Structural, Debug)]
pub enum DecodeState {
    Start,
    Esc,
    Csi,
    CsiDigit(u8),
}

/// The fixed single-byte table: what a byte means when it stands alone.
/// A bare ESC here is a byte substituted out of a malformed sequence and is
/// discarded rather than opening a new sequence.
pub open spec fn spec_classify(b: u8) -> Command {
    if b == 1 {
        Command::MoveHome
    } else if b == 2 {
        Command::MoveLeft
    } else if b == 3 {
        Command::Interrupt
    } else if b == 4 {
        Command::DeleteOrEof
    } else if b == 5 {
        Command::MoveEnd
    } else if b == 6 {
        Command::MoveRight
    } else if b == 8 || b == 127 {
        Command::DeleteBackward
    } else if b == 9 {
        Command::RequestCompletion
    } else if b == 10 || b == 13 {
        Command::Accept
    } else if b == 11 {
        Command::KillToEnd
    } else if b == 12 {
        Command::ClearScreen
    } else if b == 27 {
        Command::Unknown
    } else {
        Command::InsertByte(b)
    }
}

/// One step of the decoder: the next state, and the command resolved by
/// this byte, if the sequence is complete.
pub open spec fn spec_decode_step(s: DecodeState, b: u8) -> (DecodeState, Option<Command>) {
    match s {
        DecodeState::Start => if b == 27 {
            (DecodeState::Esc, None)
        } else {
            (DecodeState::Start, Some(spec_classify(b)))
        },
        DecodeState::Esc => if b == 91 {
            (DecodeState::Csi, None)
        } else {
            (DecodeState::Start, Some(spec_classify(b)))
        },
        DecodeState::Csi => if 49 <= b && b <= 54 {
            (DecodeState::CsiDigit(b), None)
        } else if b == 65 {
            (DecodeState::Start, Some(Command::HistoryPrev))
        } else if b == 66 {
            (DecodeState::Start, Some(Command::HistoryNext))
        } else if b == 67 {
            (DecodeState::Start, Some(Command::MoveRight))
        } else if b == 68 {
            (DecodeState::Start, Some(Command::MoveLeft))
        } else {
            (DecodeState::Start, Some(spec_classify(b)))
        },
        DecodeState::CsiDigit(d) => (
            DecodeState::Start,
            Some(
                if d == 49 {
                    Command::MoveHome
                } else if d == 51 {
                    Command::DeleteForward
                } else if d == 52 {
                    Command::MoveEnd
                } else {
                    Command::Unknown
                },
            ),
        ),
    }
}

/// The single-byte table, executably.
pub fn classify(b: u8) -> (c: Command)
    ensures
        c == spec_classify(b),
{
    if b == 1 {
        Command::MoveHome
    } else if b == 2 {
        Command::MoveLeft
    } else if b == 3 {
        Command::Interrupt
    } else if b == 4 {
        Command::DeleteOrEof
    } else if b == 5 {
        Command::MoveEnd
    } else if b == 6 {
        Command::MoveRight
    } else if b == 8 || b == 127 {
        Command::DeleteBackward
    } else if b == 9 {
        Command::RequestCompletion
    } else if b == 10 || b == 13 {
        Command::Accept
    } else if b == 11 {
        Command::KillToEnd
    } else if b == 12 {
        Command::ClearScreen
    } else if b == 27 {
        Command::Unknown
    } else {
        Command::InsertByte(b)
    }
}

/// Feed one byte to the decoder: returns the next state and the command
/// this byte completes, if any.
pub fn decode_step(s: DecodeState, b: u8) -> (r: (DecodeState, Option<Command>))
    ensures
        r == spec_decode_step(s, b),
{
    match s {
        DecodeState::Start => if b == 27 {
            (DecodeState::Esc, None)
        } else {
            (DecodeState::Start, Some(classify(b)))
        },
        DecodeState::Esc => if b == 91 {
            (DecodeState::Csi, None)
        } else {
            (DecodeState::Start, Some(classify(b)))
        },
        DecodeState::Csi => if 49 <= b && b <= 54 {
            (DecodeState::CsiDigit(b), None)
        } else if b == 65 {
            (DecodeState::Start, Some(Command::HistoryPrev))
        } else if b == 66 {
            (DecodeState::Start, Some(Command::HistoryNext))
        } else if b == 67 {
            (DecodeState::Start, Some(Command::MoveRight))
        } else if b == 68 {
            (DecodeState::Start, Some(Command::MoveLeft))
        } else {
            (DecodeState::Start, Some(classify(b)))
        },
        DecodeState::CsiDigit(d) => (
            DecodeState::Start,
            Some(
                if d == 49 {
                    Command::MoveHome
                } else if d == 51 {
                    Command::DeleteForward
                } else if d == 52 {
                    Command::MoveEnd
                } else {
                    Command::Unknown
                },
            ),
        ),
    }
}

/// The decoder always makes forward progress: from any state, any four
/// bytes resolve at least one command, so it never hangs waiting for bytes
/// that a malformed sequence will not deliver.
pub proof fn lemma_decoder_progress(s: DecodeState, b1: u8, b2: u8, b3: u8, b4: u8)
    ensures
        ({
            let (s1, c1) = spec_decode_step(s, b1);
            let (s2, c2) = spec_decode_step(s1, b2);
            let (s3, c3) = spec_decode_step(s2, b3);
            let (s4, c4) = spec_decode_step(s3, b4);
            c1 is Some || c2 is Some || c3 is Some || c4 is Some
        }),
{
}

} // verus!
