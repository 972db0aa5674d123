use interaction::decode::{decode_step, Command, DecodeState};
use interaction::history::History;
use interaction::session::{Action, Session};

/// Drive a session from raw terminal bytes, as a read loop would, until
/// the stream ends or the line is accepted or interrupted.
fn drive(session: &mut Session, history: &mut History, bytes: &[u8]) -> Option<Action> {
    let mut state = DecodeState::Start;
    for &b in bytes {
        let (next, cmd) = decode_step(state, b);
        state = next;
        if let Some(cmd) = cmd {
            let action = session.apply(history, cmd);
            match action {
                Action::Accepted | Action::Interrupted => return Some(action),
                _ => {}
            }
        }
    }
    None
}

fn type_str(s: &mut Session, h: &mut History, text: &[u8]) {
    for &b in text {
        assert_eq!(s.apply(h, Command::InsertByte(b)), Action::Redraw);
    }
}

#[test]
fn typing_builds_the_line() {
    let mut s = Session::new();
    let mut h = History::new(0);
    type_str(&mut s, &mut h, b"hello");
    assert_eq!(s.buffer().as_bytes().as_slice(), b"hello");
    assert_eq!(s.buffer().position(), 5);
}

#[test]
fn interrupt_always_interrupts_whatever_the_state() {
    let mut s = Session::new();
    let mut h = History::new(0);
    type_str(&mut s, &mut h, b"partial");
    assert_eq!(s.apply(&mut h, Command::Interrupt), Action::Interrupted);
    // The line is left as it was.
    assert_eq!(s.buffer().as_bytes().as_slice(), b"partial");

    let mut empty = Session::new();
    assert_eq!(empty.apply(&mut h, Command::Interrupt), Action::Interrupted);
}

#[test]
fn ctrl_d_interrupts_only_on_empty_line() {
    let mut s = Session::new();
    let mut h = History::new(0);
    assert_eq!(s.apply(&mut h, Command::DeleteOrEof), Action::Interrupted);
    type_str(&mut s, &mut h, b"ab");
    // At the end of a nonempty line it does nothing.
    assert_eq!(s.apply(&mut h, Command::DeleteOrEof), Action::Pass);
    // Mid-line it deletes under the cursor.
    assert_eq!(s.apply(&mut h, Command::MoveHome), Action::Redraw);
    assert_eq!(s.apply(&mut h, Command::DeleteOrEof), Action::Redraw);
    assert_eq!(s.buffer().as_bytes().as_slice(), b"b");
}

#[test]
fn movement_commands() {
    let mut s = Session::new();
    let mut h = History::new(0);
    type_str(&mut s, &mut h, b"abc");
    assert_eq!(s.apply(&mut h, Command::MoveLeft), Action::Redraw);
    assert_eq!(s.buffer().position(), 2);
    assert_eq!(s.apply(&mut h, Command::MoveHome), Action::Redraw);
    assert_eq!(s.buffer().position(), 0);
    assert_eq!(s.apply(&mut h, Command::MoveLeft), Action::Pass);
    assert_eq!(s.apply(&mut h, Command::MoveRight), Action::Redraw);
    assert_eq!(s.buffer().position(), 1);
    assert_eq!(s.apply(&mut h, Command::MoveEnd), Action::Redraw);
    assert_eq!(s.buffer().position(), 3);
    assert_eq!(s.apply(&mut h, Command::MoveRight), Action::Pass);
}

#[test]
fn kill_to_end_truncates() {
    let mut s = Session::new();
    let mut h = History::new(0);
    type_str(&mut s, &mut h, b"abcdef");
    s.apply(&mut h, Command::MoveHome);
    s.apply(&mut h, Command::MoveRight);
    s.apply(&mut h, Command::MoveRight);
    assert_eq!(s.apply(&mut h, Command::KillToEnd), Action::Redraw);
    assert_eq!(s.buffer().as_bytes().as_slice(), b"ab");
}

#[test]
fn accept_and_unknown_leave_state_alone() {
    let mut s = Session::new();
    let mut h = History::new(0);
    type_str(&mut s, &mut h, b"x");
    assert_eq!(s.apply(&mut h, Command::Accept), Action::Accepted);
    assert_eq!(s.apply(&mut h, Command::Unknown), Action::Pass);
    assert_eq!(s.apply(&mut h, Command::ClearScreen), Action::ClearRedraw);
    assert_eq!(s.apply(&mut h, Command::RequestCompletion), Action::Complete);
    assert_eq!(s.buffer().as_bytes().as_slice(), b"x");
}

#[test]
fn browsing_stashes_and_restores_the_live_edit() {
    let mut s = Session::new();
    let mut h = History::new(0);
    h.append(b"first".to_vec());
    h.append(b"second".to_vec());
    type_str(&mut s, &mut h, b"draft");

    // Up: the newest entry replaces the draft, which is stashed.
    assert_eq!(s.apply(&mut h, Command::HistoryPrev), Action::Redraw);
    assert_eq!(s.buffer().as_bytes().as_slice(), b"second");
    assert_eq!(s.buffer().position(), 6);
    assert_eq!(s.apply(&mut h, Command::HistoryPrev), Action::Redraw);
    assert_eq!(s.buffer().as_bytes().as_slice(), b"first");
    // At the oldest entry, Up does nothing.
    assert_eq!(s.apply(&mut h, Command::HistoryPrev), Action::Pass);

    // Down walks forward again...
    assert_eq!(s.apply(&mut h, Command::HistoryNext), Action::Redraw);
    assert_eq!(s.buffer().as_bytes().as_slice(), b"second");
    // ...and past the newest entry the stashed draft comes back.
    assert_eq!(s.apply(&mut h, Command::HistoryNext), Action::Redraw);
    assert_eq!(s.buffer().as_bytes().as_slice(), b"draft");
    assert_eq!(s.buffer().position(), 5);
    // With nothing stashed any more, Down does nothing.
    assert_eq!(s.apply(&mut h, Command::HistoryNext), Action::Pass);
}

#[test]
fn browsing_empty_history_does_nothing() {
    let mut s = Session::new();
    let mut h = History::new(0);
    type_str(&mut s, &mut h, b"keep");
    assert_eq!(s.apply(&mut h, Command::HistoryPrev), Action::Pass);
    assert_eq!(s.apply(&mut h, Command::HistoryNext), Action::Pass);
    assert_eq!(s.buffer().as_bytes().as_slice(), b"keep");
}

#[test]
fn raw_byte_stream_drives_a_full_edit() {
    let mut s = Session::new();
    let mut h = History::new(0);
    // Type "ab", step left with the arrow key, overwrite 'b' with 'X',
    // then accept with Enter.
    let outcome = drive(&mut s, &mut h, &[b'a', b'b', 27, 91, 68, b'X', 13]);
    assert_eq!(outcome, Some(Action::Accepted));
    assert_eq!(s.buffer().as_bytes().as_slice(), b"aX");
}

#[test]
fn raw_ctrl_c_interrupts_mid_edit() {
    let mut s = Session::new();
    let mut h = History::new(0);
    let outcome = drive(&mut s, &mut h, &[b'h', b'i', 3]);
    assert_eq!(outcome, Some(Action::Interrupted));
    assert_eq!(s.buffer().as_bytes().as_slice(), b"hi");
}

#[test]
fn raw_arrows_browse_history() {
    let mut s = Session::new();
    let mut h = History::new(0);
    h.append(b"old".to_vec());
    // Up recalls the entry, Enter accepts it.
    let outcome = drive(&mut s, &mut h, &[27, 91, 65, 13]);
    assert_eq!(outcome, Some(Action::Accepted));
    assert_eq!(s.buffer().as_bytes().as_slice(), b"old");
}

#[test]
fn csi_delete_never_interrupts() {
    let mut s = Session::new();
    let mut h = History::new(0);
    // DeleteForward on an empty line is nothing, not an interrupt.
    assert_eq!(s.apply(&mut h, Command::DeleteForward), Action::Pass);
    type_str(&mut s, &mut h, b"ab");
    s.apply(&mut h, Command::MoveHome);
    assert_eq!(s.apply(&mut h, Command::DeleteForward), Action::Redraw);
    assert_eq!(s.buffer().as_bytes().as_slice(), b"b");
}
