use quadigit_phat::fonts::mask::{DIGIT_EIGHT, PERIOD};
use quadigit_phat::{ascii, Digit, MockDevice, PHat, TransportError};

#[test]
fn encode_plain_digits() {
    // "8888": four standalone glyphs, no dot bits set
    let mut phat = PHat::new(MockDevice::new());
    phat.set_str("8888");
    let buf = phat.cbuf();
    assert_eq!(buf, [DIGIT_EIGHT; 4]);
    for m in buf {
        assert_eq!(m & PERIOD, 0);
    }
}

#[test]
fn encode_folds_single_dot() {
    // "8.888": the dot folds onto position 0
    let mut phat = PHat::new(MockDevice::new());
    phat.set_str("8.888");
    assert_eq!(
        phat.cbuf(),
        [DIGIT_EIGHT | PERIOD, DIGIT_EIGHT, DIGIT_EIGHT, DIGIT_EIGHT]
    );
}

#[test]
fn encode_escapes_second_dot() {
    // "8..88": a doubled dot escapes to a standalone glyph instead
    let mut phat = PHat::new(MockDevice::new());
    phat.set_str("8..88");
    assert_eq!(phat.cbuf(), [DIGIT_EIGHT, PERIOD, DIGIT_EIGHT, DIGIT_EIGHT]);
}

#[test]
fn encode_leading_dot_stands_alone() {
    // ".888": a dot at the buffer start has nothing to fold onto
    let mut phat = PHat::new(MockDevice::new());
    phat.set_str(".888");
    assert_eq!(phat.cbuf(), [PERIOD, DIGIT_EIGHT, DIGIT_EIGHT, DIGIT_EIGHT]);
}

#[test]
fn encode_all_dots_fill_the_display() {
    // "........": every dot stands alone and the buffer fills after four
    let mut phat = PHat::new(MockDevice::new());
    phat.set_str("........");
    assert_eq!(phat.cbuf(), [PERIOD; 4]);
}

#[test]
fn encode_is_repeatable_on_a_cleared_buffer() {
    let mut phat = PHat::new(MockDevice::new());
    phat.set_str("1.2.");
    let first = phat.cbuf();
    phat.clear();
    phat.set_str("1.2.");
    assert_eq!(first, phat.cbuf());
}

#[test]
fn encode_truncates_overlong_input() {
    let mut long = PHat::new(MockDevice::new());
    long.set_str("TESTING");
    let mut short = PHat::new(MockDevice::new());
    short.set_str("TEST");
    assert_eq!(long.cbuf(), short.cbuf());
}

#[test]
fn encode_leaves_the_tail_of_the_buffer() {
    // positions past the end of the input keep their prior contents
    let mut phat = PHat::new(MockDevice::new());
    phat.set_str("8888");
    phat.set_str("1");
    assert_eq!(
        phat.cbuf(),
        [ascii(b'1'), DIGIT_EIGHT, DIGIT_EIGHT, DIGIT_EIGHT]
    );
}

#[test]
fn set_char_bypasses_folding() {
    let mut phat = PHat::new(MockDevice::new());
    phat.set_char(Digit::DIGIT_2, b'.');
    // a direct write stores the dot's own (blank) glyph, no folding
    assert_eq!(phat.cbuf(), [0, 0, PERIOD, 0]);
}

#[test]
fn dot_operations_preserve_other_segments() {
    let mut phat = PHat::new(MockDevice::new());
    phat.set_char(Digit::DIGIT_1, b'8');
    let before = phat.cbuf()[1];

    phat.set_dot(Digit::DIGIT_1, true);
    assert_eq!(phat.cbuf()[1] & !PERIOD, before & !PERIOD);
    assert_eq!(phat.cbuf()[1] & PERIOD, PERIOD);

    phat.set_dot(Digit::DIGIT_1, false);
    assert_eq!(phat.cbuf()[1] & !PERIOD, before & !PERIOD);
    assert_eq!(phat.cbuf()[1] & PERIOD, 0);

    phat.toggle_dot(Digit::DIGIT_1);
    assert_eq!(phat.cbuf()[1] & !PERIOD, before & !PERIOD);
    assert_eq!(phat.cbuf()[1] & PERIOD, PERIOD);

    phat.toggle_dot(Digit::DIGIT_1);
    assert_eq!(phat.cbuf()[1], before);
}

#[test]
fn flush_writes_the_wire_layout() {
    let mut phat = PHat::new(MockDevice::new());
    phat.set_str("TEST");
    assert_eq!(phat.flush(), Ok(()));
    let device = phat.take_device();
    assert_eq!(
        device.written,
        vec![
            0b0000_0001,
            0b0001_0010,
            0b1111_1001,
            0b0000_0000,
            0b1110_1101,
            0b0000_0000,
            0b0000_0001,
            0b0001_0010,
        ]
    );
}

#[test]
fn failed_flush_leaves_the_buffer() {
    let mut phat = PHat::new(MockDevice::broken());
    phat.set_str("8.88");
    let before = phat.cbuf();
    assert_eq!(phat.flush(), Err(TransportError));
    assert_eq!(phat.cbuf(), before);
    // the caller may simply retry
    assert_eq!(phat.flush(), Err(TransportError));
    assert_eq!(phat.cbuf(), before);
}

#[test]
fn set_mask_writes_one_position() {
    let mut phat = PHat::new(MockDevice::new());
    phat.set_mask(Digit::DIGIT_3, 0xbeef);
    assert_eq!(phat.cbuf(), [0, 0, 0, 0xbeef]);
    assert_eq!(
        phat.raw_bytes(),
        [0, 0, 0, 0, 0, 0, 0xef, 0xbe]
    );
}

#[test]
fn set_cbuf_replaces_the_whole_buffer() {
    let mut phat = PHat::new(MockDevice::new());
    phat.set_cbuf(&[1, 2, 3, 4]);
    assert_eq!(phat.cbuf(), [1, 2, 3, 4]);
    phat.clear();
    assert_eq!(phat.cbuf(), [0; 4]);
}

#[test]
fn raw_bytes_splits_masks_low_byte_first() {
    let mut phat = PHat::new(MockDevice::new());
    phat.set_cbuf(&[0x1234, 0x00ff, 0xff00, 0x0000]);
    assert_eq!(
        phat.raw_bytes(),
        [0x34, 0x12, 0xff, 0x00, 0x00, 0xff, 0x00, 0x00]
    );
}
