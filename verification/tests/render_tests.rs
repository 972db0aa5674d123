use interaction::buffer::EditBuffer;
use interaction::render::Renderer;

fn buffer_with(bytes: &[u8], pos: usize) -> EditBuffer {
    let mut b = EditBuffer::new();
    b.clear_and_set(bytes.to_vec());
    b.move_to(pos);
    b
}

#[test]
fn single_line_repaint_bytes() {
    let mut r = Renderer::new(false);
    let prompt = b">".to_vec();
    let buf = buffer_with(b"ab", 1);
    let out = r.repaint(&prompt, &buf, 80);
    // Column 0, erase line, prompt and line, then cursor to column 1+1.
    assert_eq!(out, b"\x1b[0G\x1b[K>ab\r\x1b[2C".to_vec());
}

#[test]
fn single_line_repaint_cursor_at_start_of_empty() {
    let mut r = Renderer::new(false);
    let prompt = b"".to_vec();
    let buf = EditBuffer::new();
    let out = r.repaint(&prompt, &buf, 80);
    assert_eq!(out, b"\x1b[0G\x1b[K\r\x1b[0C".to_vec());
}

#[test]
fn multi_line_repaint_wraps_at_width() {
    // Width 10, 4 prompt bytes and 12 line bytes: the content spans two
    // rows, wrapping after the tenth byte.
    let mut r = Renderer::new(true);
    let prompt = b">>> ".to_vec();
    let buf = buffer_with(b"0123456789AB", 12);
    let out = r.repaint(&prompt, &buf, 10);
    let expected: Vec<u8> = [
        b"\x1b[0G\x1b[J".as_slice(),     // first repaint: erase from here down
        b">>> 012345",                   // first row
        b"\n\x1b[0G",                    // wrap at width
        b"6789AB",                       // second row
        b"\r\x1b[0G\x1b[1A",             // back to the content's origin
        b"\x1b[1B\x1b[6C",               // cursor: one row down, six across
    ]
    .concat();
    assert_eq!(out, expected);
}

#[test]
fn next_multi_line_repaint_erases_rows_of_previous_one() {
    let mut r = Renderer::new(true);
    let prompt = b">>> ".to_vec();
    let buf = buffer_with(b"0123456789AB", 12);
    let _first = r.repaint(&prompt, &buf, 10);
    // The cursor was parked one row below the origin, so the next repaint
    // climbs exactly one row before erasing.
    let second = r.repaint(&prompt, &buf, 10);
    assert!(second.starts_with(b"\x1b[0G\x1b[1A\x1b[J"));
}

#[test]
fn multi_line_repaint_single_row_content() {
    let mut r = Renderer::new(true);
    let prompt = b"> ".to_vec();
    let buf = buffer_with(b"hi", 2);
    let out = r.repaint(&prompt, &buf, 80);
    // No wrap, no climb, cursor four columns across.
    assert_eq!(out, b"\x1b[0G\x1b[J> hi\r\x1b[0G\x1b[4C".to_vec());
}

#[test]
fn multi_line_wrap_exactly_at_boundary() {
    // Content length equal to the width: one wrap is emitted and the
    // cursor cell is the start of the next row.
    let mut r = Renderer::new(true);
    let prompt = b"".to_vec();
    let buf = buffer_with(b"0123456789", 10);
    let out = r.repaint(&prompt, &buf, 10);
    let expected: Vec<u8> = [
        b"\x1b[0G\x1b[J".as_slice(),
        b"0123456789",
        b"\n\x1b[0G",
        b"\r\x1b[0G\x1b[1A",
        b"\x1b[1B",
    ]
    .concat();
    assert_eq!(out, expected);
}

#[test]
fn clear_screen_and_accept_tail_bytes() {
    assert_eq!(Renderer::clear_screen_seq(), b"\x1b[H\x1b[2J".to_vec());
    assert_eq!(Renderer::accept_tail(4, 12), b"\n\x1b[16D".to_vec());
}
