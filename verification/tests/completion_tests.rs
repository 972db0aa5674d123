use interaction::buffer::EditBuffer;
use interaction::completion::{CycleOutcome, Cycler};

fn buffer_with(bytes: &[u8], pos: usize) -> EditBuffer {
    let mut b = EditBuffer::new();
    b.clear_and_set(bytes.to_vec());
    b.move_to(pos);
    b
}

fn two_candidates() -> Vec<Vec<u8>> {
    vec![b"foo".to_vec(), b"bar".to_vec()]
}

#[test]
fn first_request_shows_first_candidate() {
    let mut buf = buffer_with(b"xy", 1);
    let cyc = Cycler::new(&buf, two_candidates());
    cyc.show_current(&mut buf);
    assert_eq!(buf.as_bytes().as_slice(), b"foo");
    assert_eq!(buf.position(), 3);
}

#[test]
fn repeated_requests_cycle_and_wrap() {
    let mut buf = buffer_with(b"xy", 1);
    let mut cyc = Cycler::new(&buf, two_candidates());
    cyc.show_current(&mut buf);
    assert_eq!(cyc.step(&mut buf, 9), CycleOutcome::Cycled);
    assert_eq!(buf.as_bytes().as_slice(), b"bar");
    // Past the last candidate it wraps back to the first.
    assert_eq!(cyc.step(&mut buf, 9), CycleOutcome::Cycled);
    assert_eq!(buf.as_bytes().as_slice(), b"foo");
}

#[test]
fn escape_restores_line_and_cursor_exactly() {
    let mut buf = buffer_with(b"xy", 1);
    let mut cyc = Cycler::new(&buf, two_candidates());
    cyc.show_current(&mut buf);
    cyc.step(&mut buf, 9);
    assert_eq!(cyc.step(&mut buf, 27), CycleOutcome::Canceled);
    assert_eq!(buf.as_bytes().as_slice(), b"xy");
    assert_eq!(buf.position(), 1);
}

#[test]
fn any_other_key_keeps_the_shown_candidate() {
    let mut buf = buffer_with(b"xy", 2);
    let mut cyc = Cycler::new(&buf, two_candidates());
    cyc.show_current(&mut buf);
    cyc.step(&mut buf, 9);
    assert_eq!(cyc.step(&mut buf, 13), CycleOutcome::Chosen);
    assert_eq!(buf.as_bytes().as_slice(), b"bar");
    assert_eq!(buf.position(), 3);
}
