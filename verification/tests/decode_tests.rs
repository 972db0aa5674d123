use interaction::decode::{decode_step, Command, DecodeState};

fn feed(bytes: &[u8]) -> Vec<Command> {
    let mut state = DecodeState::Start;
    let mut out = Vec::new();
    for &b in bytes {
        let (next, cmd) = decode_step(state, b);
        state = next;
        if let Some(c) = cmd {
            out.push(c);
        }
    }
    out
}

#[test]
fn control_byte_table() {
    assert_eq!(feed(&[1]), vec![Command::MoveHome]);
    assert_eq!(feed(&[2]), vec![Command::MoveLeft]);
    assert_eq!(feed(&[3]), vec![Command::Interrupt]);
    assert_eq!(feed(&[4]), vec![Command::DeleteOrEof]);
    assert_eq!(feed(&[5]), vec![Command::MoveEnd]);
    assert_eq!(feed(&[6]), vec![Command::MoveRight]);
    assert_eq!(feed(&[8]), vec![Command::DeleteBackward]);
    assert_eq!(feed(&[127]), vec![Command::DeleteBackward]);
    assert_eq!(feed(&[9]), vec![Command::RequestCompletion]);
    assert_eq!(feed(&[10]), vec![Command::Accept]);
    assert_eq!(feed(&[13]), vec![Command::Accept]);
    assert_eq!(feed(&[11]), vec![Command::KillToEnd]);
    assert_eq!(feed(&[12]), vec![Command::ClearScreen]);
}

#[test]
fn plain_bytes_insert() {
    assert_eq!(
        feed(b"hi"),
        vec![Command::InsertByte(b'h'), Command::InsertByte(b'i')]
    );
}

#[test]
fn arrow_keys() {
    assert_eq!(feed(&[27, 91, 65]), vec![Command::HistoryPrev]);
    assert_eq!(feed(&[27, 91, 66]), vec![Command::HistoryNext]);
    assert_eq!(feed(&[27, 91, 67]), vec![Command::MoveRight]);
    assert_eq!(feed(&[27, 91, 68]), vec![Command::MoveLeft]);
}

#[test]
fn csi_digit_forms_consume_terminator() {
    // Home, End and Delete: the trailing `~` is consumed and discarded.
    assert_eq!(feed(&[27, 91, 49, 126]), vec![Command::MoveHome]);
    assert_eq!(feed(&[27, 91, 52, 126]), vec![Command::MoveEnd]);
    assert_eq!(feed(&[27, 91, 51, 126]), vec![Command::DeleteForward]);
    // Insert and the page keys are ignored.
    assert_eq!(feed(&[27, 91, 50, 126]), vec![Command::Unknown]);
    assert_eq!(feed(&[27, 91, 53, 126]), vec![Command::Unknown]);
    assert_eq!(feed(&[27, 91, 54, 126]), vec![Command::Unknown]);
}

#[test]
fn terminator_byte_is_discarded_whatever_it_is() {
    assert_eq!(feed(&[27, 91, 49, b'x']), vec![Command::MoveHome]);
}

#[test]
fn esc_then_plain_byte_degrades_to_that_byte() {
    assert_eq!(feed(&[27, b'a']), vec![Command::InsertByte(b'a')]);
    assert_eq!(feed(&[27, 13]), vec![Command::Accept]);
}

#[test]
fn esc_esc_is_discarded() {
    assert_eq!(feed(&[27, 27]), vec![Command::Unknown]);
}

#[test]
fn csi_unknown_selector_degrades_to_that_byte() {
    assert_eq!(feed(&[27, 91, b'z']), vec![Command::InsertByte(b'z')]);
}

#[test]
fn decoding_resumes_cleanly_after_sequences() {
    assert_eq!(
        feed(&[b'a', 27, 91, 68, b'b']),
        vec![
            Command::InsertByte(b'a'),
            Command::MoveLeft,
            Command::InsertByte(b'b')
        ]
    );
}
