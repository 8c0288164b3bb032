use epson::{Alignment, Barcode, CharacterSet, Command, HriPosition, Raster};

fn encoded(cmd: Command) -> Vec<u8> {
    cmd.as_bytes().unwrap()
}

#[test]
fn encode_init() {
    assert_eq!(&[0x1b, 0x40], &encoded(Command::Init)[..]);
}

#[test]
fn encode_cut() {
    assert_eq!(&[0x1b, 0x69], &encoded(Command::Cut)[..]);
}

#[test]
fn encode_underline_false() {
    assert_eq!(&[0x1b, 0x2d, 0x00], &encoded(Command::Underline(false))[..]);
}

#[test]
fn encode_underline_true() {
    assert_eq!(&[0x1b, 0x2d, 0x01], &encoded(Command::Underline(true))[..]);
}

#[test]
fn encode_emphasize_false() {
    assert_eq!(&[0x1b, 0x45, 0x00], &encoded(Command::Emphasize(false))[..]);
}

#[test]
fn encode_emphasize_true() {
    assert_eq!(&[0x1b, 0x45, 0xFF], &encoded(Command::Emphasize(true))[..]);
}

#[test]
fn encode_double_strike_false() {
    assert_eq!(
        &[0x1b, 0x47, 0x00],
        &encoded(Command::DoubleStrike(false))[..]
    );
}

#[test]
fn encode_double_strike_true() {
    assert_eq!(
        &[0x1b, 0x47, 0xFF],
        &encoded(Command::DoubleStrike(true))[..]
    );
}

#[test]
fn encode_reverse_false() {
    assert_eq!(&[0x1b, 0x42, 0x00], &encoded(Command::Reverse(false))[..]);
}

#[test]
fn encode_reverse_true() {
    assert_eq!(&[0x1b, 0x42, 0xFF], &encoded(Command::Reverse(true))[..]);
}

#[test]
fn encode_justify_left() {
    assert_eq!(
        &[0x1b, 0x61, 0x00],
        &encoded(Command::Justification(Alignment::Left))[..]
    );
}

#[test]
fn encode_justify_right() {
    assert_eq!(
        &[0x1b, 0x61, 0x02],
        &encoded(Command::Justification(Alignment::Right))[..]
    );
}

#[test]
fn encode_justify_center() {
    assert_eq!(
        &[0x1b, 0x61, 0x01],
        &encoded(Command::Justification(Alignment::Center))[..]
    );
}

#[test]
fn feed_0() {
    assert_eq!(&[0x1b, 0x64, 0x00], &encoded(Command::Feed(0))[..]);
}

#[test]
fn feed_10() {
    assert_eq!(&[0x1b, 0x64, 0x0a], &encoded(Command::Feed(10))[..]);
}

#[test]
fn feed_255() {
    assert_eq!(&[0x1b, 0x64, 0xff], &encoded(Command::Feed(255))[..]);
}

#[test]
fn speed_1() {
    assert_eq!(
        &[0x1d, 0x28, 0x4b, 0x02, 0x00, 0x32, 0x01],
        &encoded(Command::Speed(1))[..]
    );
}

#[test]
fn speed_8() {
    assert_eq!(
        &[0x1d, 0x28, 0x4b, 0x02, 0x00, 0x32, 0x08],
        &encoded(Command::Speed(8))[..]
    );
}

// speed is reduced modulo 9, not clamped or rejected
#[test]
fn speed_9() {
    assert_eq!(
        &[0x1d, 0x28, 0x4b, 0x02, 0x00, 0x32, 0x00],
        &encoded(Command::Speed(9))[..]
    );
}

#[test]
fn encode_character_set_raw() {
    assert_eq!(
        &[0x1c, 0x28, 0x43, 0x02, 0x00, 0x30, 0x01],
        &encoded(Command::CharacterSet(CharacterSet::Raw))[..]
    );
}

#[test]
fn encode_character_set_unicode() {
    assert_eq!(
        &[0x1c, 0x28, 0x43, 0x02, 0x00, 0x30, 0x02],
        &encoded(Command::CharacterSet(CharacterSet::Unicode))[..]
    );
}

#[test]
fn encode_hri_positions() {
    assert_eq!(
        &[0x1d, 0x48, 0x00],
        &encoded(Command::SetHriPosition(HriPosition::NotPrinted))[..]
    );
    assert_eq!(
        &[0x1d, 0x48, 0x01],
        &encoded(Command::SetHriPosition(HriPosition::Above))[..]
    );
    assert_eq!(
        &[0x1d, 0x48, 0x02],
        &encoded(Command::SetHriPosition(HriPosition::Below))[..]
    );
    assert_eq!(
        &[0x1d, 0x48, 0x03],
        &encoded(Command::SetHriPosition(HriPosition::Both))[..]
    );
}

#[test]
fn encode_image_small() {
    // Two pixels wide, one high: a black pixel then a white one packs
    // to a single byte with only the top bit set.
    let raster = Raster::new(2, 1, vec![0, 200]).unwrap();
    assert_eq!(
        &[0x1d, 0x76, 0x30, 0x00, 0x01, 0x00, 0x01, 0x00, 0x80],
        &encoded(Command::Image(raster))[..]
    );
}

#[test]
fn encode_barcode_11_digits_appends_check_digit() {
    let barcode = Barcode::new_upca(b"12345678901").unwrap();
    let mut expected = vec![0x1d, 0x6b, 65, 12];
    expected.extend_from_slice(b"12345678901");
    expected.push(b'2');
    assert_eq!(expected, encoded(Command::Barcode(barcode)));
}

#[test]
fn encode_barcode_12_digits_verbatim() {
    let barcode = Barcode::new_upca(b"123456789012").unwrap();
    let mut expected = vec![0x1d, 0x6b, 65, 12];
    expected.extend_from_slice(b"123456789012");
    assert_eq!(expected, encoded(Command::Barcode(barcode)));
}
