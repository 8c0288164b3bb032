use epson::write::{Error, MemSink};
use epson::{Barcode, CharacterSet, Model, Raster, Writer};

fn open_generic() -> Writer<MemSink> {
    Writer::open(Model::Generic, MemSink::new()).unwrap()
}

#[test]
fn open_transmits_init_first() {
    let writer = open_generic();
    assert_eq!(writer.w.bytes(), &[0x1b, 0x40]);
}

#[test]
fn commands_are_appended_in_call_order() {
    let mut writer = open_generic();
    writer.speed(5).unwrap();
    writer.feed(3).unwrap();
    writer.cut().unwrap();
    let mut expected = vec![0x1b, 0x40];
    expected.extend_from_slice(&[0x1d, 0x28, 0x4b, 0x02, 0x00, 0x32, 0x05]);
    expected.extend_from_slice(&[0x1b, 0x64, 0x03]);
    expected.extend_from_slice(&[0x1b, 0x69]);
    assert_eq!(writer.w.bytes(), &expected[..]);
}

#[test]
fn unsupported_character_set_is_refused_before_any_write() {
    let mut writer = open_generic();
    let r = writer.set_unicode();
    assert!(matches!(r, Err(Error::Epson(epson::Error::Unsupported))));
    // Nothing beyond the Init bytes reached the transport.
    assert_eq!(writer.w.bytes(), &[0x1b, 0x40]);
}

#[test]
fn supported_character_set_is_transmitted() {
    let mut writer = Writer::open(Model::T30II, MemSink::new()).unwrap();
    writer.set_unicode().unwrap();
    let mut expected = vec![0x1b, 0x40];
    expected.extend_from_slice(&[0x1c, 0x28, 0x43, 0x02, 0x00, 0x30, 0x02]);
    assert_eq!(writer.w.bytes(), &expected[..]);

    writer.character_set(CharacterSet::Raw).unwrap();
    expected.extend_from_slice(&[0x1c, 0x28, 0x43, 0x02, 0x00, 0x30, 0x01]);
    assert_eq!(writer.w.bytes(), &expected[..]);
}

#[test]
fn checked_image_print_refuses_wide_raster() {
    let mut writer = open_generic();
    // 513 pixels exceeds the Generic model's 512-pixel maximum.
    let wide = Raster::new(513, 1, vec![0; 513]).unwrap();
    let r = writer.print_image(wide);
    assert!(matches!(r, Err(Error::Epson(epson::Error::ImageTooLarge))));
    assert_eq!(writer.w.bytes(), &[0x1b, 0x40]);
}

#[test]
fn unchecked_image_print_transmits_wide_raster() {
    let mut writer = open_generic();
    let wide = Raster::new(513, 1, vec![0; 513]).unwrap();
    writer.print_image_unchecked(wide).unwrap();
    // Init, the 8-byte image header, then 65 packed bytes for one row.
    assert_eq!(writer.w.bytes().len(), 2 + 8 + 65);
    assert_eq!(&writer.w.bytes()[2..10], &[0x1d, 0x76, 0x30, 0x00, 65, 0x00, 0x01, 0x00]);
}

#[test]
fn checked_image_print_transmits_narrow_raster() {
    let mut writer = open_generic();
    let narrow = Raster::new(8, 1, vec![0; 8]).unwrap();
    writer.print_image(narrow).unwrap();
    let mut expected = vec![0x1b, 0x40];
    expected.extend_from_slice(&[0x1d, 0x76, 0x30, 0x00, 0x01, 0x00, 0x01, 0x00, 0xff]);
    assert_eq!(writer.w.bytes(), &expected[..]);
}

#[test]
fn barcode_is_encoded_and_transmitted() {
    let mut writer = open_generic();
    let barcode = Barcode::new_upca(b"12345678901").unwrap();
    writer.print_barcode(barcode).unwrap();
    let mut expected = vec![0x1b, 0x40];
    expected.extend_from_slice(&[0x1d, 0x6b, 65, 12]);
    expected.extend_from_slice(b"123456789012");
    assert_eq!(writer.w.bytes(), &expected[..]);
}

#[test]
fn raw_write_all_passes_bytes_through() {
    let mut writer = open_generic();
    writer.write_all(b"HACK THE PLANET\n").unwrap();
    let mut expected = vec![0x1b, 0x40];
    expected.extend_from_slice(b"HACK THE PLANET\n");
    assert_eq!(writer.w.bytes(), &expected[..]);
}

#[test]
fn text_attribute_commands_round_trip() {
    let mut writer = open_generic();
    writer.underline(true).unwrap();
    writer.emphasize(true).unwrap();
    writer.double_strike(false).unwrap();
    writer.reverse(false).unwrap();
    let mut expected = vec![0x1b, 0x40];
    expected.extend_from_slice(&[0x1b, 0x2d, 0x01]);
    expected.extend_from_slice(&[0x1b, 0x45, 0xff]);
    expected.extend_from_slice(&[0x1b, 0x47, 0x00]);
    expected.extend_from_slice(&[0x1b, 0x42, 0x00]);
    assert_eq!(writer.w.bytes(), &expected[..]);
}
