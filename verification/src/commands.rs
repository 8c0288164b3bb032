//! The command encoder: every logical printer command and its exact,
//! byte-for-byte wire encoding.

use vstd::prelude::*;
use vstd::slice::slice_index_get;
use crate::barcode::{spec_upca_check_digit, Barcode};
use crate::epson_image::{packed_bitmap, width_bytes, ImageBuffer, Raster};
use crate::Error;

verus! {

/// Horizontal alignment.
#[derive(Copy, Clone, Debug, PartialEq, Eq, Structural)]
pub enum Alignment {
    /// Align to the leftmost edge.
    Left,
    /// Align to the rightmost edge.
    Right,
    /// Center the text within the printable region.
    Center,
}

/// Character sets that printed bytes can be interpreted in.
#[derive(Copy, Clone, Debug, PartialEq, Eq, Structural)]
pub enum CharacterSet {
    /// Bytes are sent to the printer as-is, in its native legacy set.
    Raw,
    /// Bytes are interpreted as UTF-8 text.
    Unicode,
}

/// Print position of the human-readable interpretation (HRI)
/// characters accompanying a barcode.
#[derive(Copy, Clone, Debug, PartialEq, Eq, Structural)]
pub enum HriPosition {
    /// Do not print the HRI characters.
    NotPrinted,
    /// Print them above the barcode.
    Above,
    /// Print them below the barcode.
    Below,
    /// Print them both above and below the barcode.
    Both,
}

/// All commands that can be encoded to control the printer.
pub enum Command {
    /// Initialize the printer.
    Init,
    /// If true, underline the printed text following. If false, remove
    /// the text decoration.
    Underline(bool),
    /// If true, emphasize the printed text following. If false, remove
    /// the text decoration.
    Emphasize(bool),
    /// If true, double strike the printed text following. If false,
    /// remove the text decoration.
    DoubleStrike(bool),
    /// If true, invert the color of the printed text following. If
    /// false, remove the text decoration.
    Reverse(bool),
    /// Align the text to follow according to the specified horizontal
    /// text alignment.
    Justification(Alignment),
    /// Set the print speed; the value is reduced modulo 9.
    Speed(u8),
    /// Cut the thermal printer paper.
    Cut,
    /// Feed the specified number of lines.
    Feed(u8),
    /// Select the character set for the printed bytes to follow.
    CharacterSet(CharacterSet),
    /// Set the print position of barcode HRI characters.
    SetHriPosition(HriPosition),
    /// Print a grayscale image.
    Image(Raster),
    /// Print a barcode.
    Barcode(Barcode),
}

/// The wire code of a horizontal alignment. The codes of `Center` and
/// `Right` do not follow the declaration order; the numeric values here
/// are the protocol's, and are intentional.
pub open spec fn spec_alignment_code(a: Alignment) -> u8 {
    match a {
        Alignment::Left => 0,
        Alignment::Center => 1,
        Alignment::Right => 2,
    }
}

/// The wire code of a character set selection.
pub open spec fn spec_character_set_code(c: CharacterSet) -> u8 {
    match c {
        CharacterSet::Raw => 1,
        CharacterSet::Unicode => 2,
    }
}

/// The wire code of an HRI position.
pub open spec fn spec_hri_position_code(p: HriPosition) -> u8 {
    match p {
        HriPosition::NotPrinted => 0,
        HriPosition::Above => 1,
        HriPosition::Below => 2,
        HriPosition::Both => 3,
    }
}

/// The encoding of an image command: header, little-endian 16-bit packed
/// width in bytes and height in rows, then the packed bitmap.
pub open spec fn spec_image_encoding(img: Raster) -> Seq<u8> {
    let wb = width_bytes(img.width as nat);
    let h = img.height as nat;
    seq![
        0x1du8,
        0x76u8,
        0x30u8,
        0x00u8,
        (wb % 256) as u8,
        (wb / 256) as u8,
        (h % 256) as u8,
        (h / 256) as u8,
    ] + packed_bitmap(img)
}

/// The digit payload put on the wire for UPC-A data: the 12 given
/// digits, or the 11 given digits completed with the computed check
/// digit.
pub open spec fn spec_upca_payload(data: Seq<u8>) -> Seq<u8> {
    if data.len() == 12 {
        data
    } else {
        data.push((48 + spec_upca_check_digit(data)) as u8)
    }
}

/// The encoding of a barcode command: the symbology's wire code followed
/// by the 12-digit payload.
pub open spec fn spec_barcode_encoding(b: Barcode) -> Seq<u8> {
    seq![0x1du8, 0x6bu8, 65u8, 12u8] + spec_upca_payload(b.spec_data())
}

/// Whether a command can be encoded at all: every command is total but
/// an image whose packed dimensions exceed the 16-bit range.
pub open spec fn spec_encodable(cmd: Command) -> bool {
    match cmd {
        Command::Image(img) => width_bytes(img.width as nat) <= u16::MAX && img.height
            <= u16::MAX,
        _ => true,
    }
}

/// The exact byte encoding of each command.
pub open spec fn spec_encoding(cmd: Command) -> Seq<u8> {
    match cmd {
        Command::Init => seq![0x1bu8, 0x40u8],
        Command::Cut => seq![0x1bu8, 0x69u8],
        Command::Underline(s) => seq![0x1bu8, 0x2du8, if s { 1u8 } else { 0u8 }],
        Command::Emphasize(s) => seq![0x1bu8, 0x45u8, if s { 0xffu8 } else { 0u8 }],
        Command::DoubleStrike(s) => seq![0x1bu8, 0x47u8, if s { 0xffu8 } else { 0u8 }],
        Command::Reverse(s) => seq![0x1bu8, 0x42u8, if s { 0xffu8 } else { 0u8 }],
        Command::Justification(a) => seq![0x1bu8, 0x61u8, spec_alignment_code(a)],
        Command::Speed(n) => seq![0x1du8, 0x28u8, 0x4bu8, 0x02u8, 0x00u8, 0x32u8, (n % 9) as u8],
        Command::Feed(n) => seq![0x1bu8, 0x64u8, n],
        Command::CharacterSet(c) => seq![
            0x1cu8,
            0x28u8,
            0x43u8,
            0x02u8,
            0x00u8,
            0x30u8,
            spec_character_set_code(c),
        ],
        Command::SetHriPosition(p) => seq![0x1du8, 0x48u8, spec_hri_position_code(p)],
        Command::Image(img) => spec_image_encoding(img),
        Command::Barcode(b) => spec_barcode_encoding(b),
    }
}

impl Alignment {
    /// The wire code of this alignment.
    pub fn code(&self) -> (r: u8)
        ensures
            r == spec_alignment_code(*self),
    {
        match self {
            Alignment::Left => 0,
            Alignment::Center => 1,
            Alignment::Right => 2,
        }
    }
}

impl CharacterSet {
    /// The wire code of this character set.
    pub fn code(&self) -> (r: u8)
        ensures
            r == spec_character_set_code(*self),
    {
        match self {
            CharacterSet::Raw => 1,
            CharacterSet::Unicode => 2,
        }
    }
}

impl HriPosition {
    /// The wire code of this HRI position.
    pub fn code(&self) -> (r: u8)
        ensures
            r == spec_hri_position_code(*self),
    {
        match self {
            HriPosition::NotPrinted => 0,
            HriPosition::Above => 1,
            HriPosition::Below => 2,
            HriPosition::Both => 3,
        }
    }
}

impl Command {
    /// A command is well formed when the raster or barcode it carries is.
    pub open spec fn wf(&self) -> bool {
        match self {
            Command::Image(img) => img.wf(),
            Command::Barcode(b) => b.wf(),
            _ => true,
        }
    }

    /// Return the command as the raw bytes which can be sent to the
    /// printer: exactly its wire encoding. Fails, producing no bytes,
    /// exactly when an image's packed dimensions exceed the 16-bit range.
    pub fn as_bytes(&self) -> (r: Result<Vec<u8>, Error>)
        requires
            self.wf(),
        ensures
            match r {
                Ok(bytes) => spec_encodable(*self) && bytes@ == spec_encoding(*self),
                Err(e) => !spec_encodable(*self) && e == Error::ImageTooLarge,
            },
    {
        match self {
            Command::Init => Ok(two_bytes(0x1b, 0x40)),
            Command::Cut => Ok(two_bytes(0x1b, 0x69)),
            Command::Underline(state) => Ok(three_bytes(0x1b, 0x2d, if *state { 1 } else { 0 })),
            Command::Emphasize(state) => Ok(
                three_bytes(0x1b, 0x45, if *state { 0xff } else { 0 }),
            ),
            Command::DoubleStrike(state) => Ok(
                three_bytes(0x1b, 0x47, if *state { 0xff } else { 0 }),
            ),
            Command::Reverse(state) => Ok(three_bytes(0x1b, 0x42, if *state { 0xff } else { 0 })),
            Command::Justification(alignment) => Ok(three_bytes(0x1b, 0x61, alignment.code())),
            Command::Feed(count) => Ok(three_bytes(0x1b, 0x64, *count)),
            Command::Speed(speed) => {
                let mut out = two_bytes(0x1d, 0x28);
                out.push(0x4b);
                out.push(0x02);
                out.push(0x00);
                out.push(0x32);
                out.push(speed % 9);
                proof {
                    assert(out@ =~= spec_encoding(*self));
                }
                Ok(out)
            },
            Command::CharacterSet(c) => {
                let mut out = two_bytes(0x1c, 0x28);
                out.push(0x43);
                out.push(0x02);
                out.push(0x00);
                out.push(0x30);
                out.push(c.code());
                proof {
                    assert(out@ =~= spec_encoding(*self));
                }
                Ok(out)
            },
            Command::SetHriPosition(position) => Ok(three_bytes(0x1d, 0x48, position.code())),
            Command::Image(img) => {
                let buf = match ImageBuffer::pack(img) {
                    Ok(buf) => buf,
                    Err(e) => {
                        return Err(e);
                    },
                };
                let mut out = two_bytes(0x1d, 0x76);
                out.push(0x30);
                out.push(0x00);
                out.push((buf.width % 256) as u8);
                out.push((buf.width / 256) as u8);
                out.push((buf.height % 256) as u8);
                out.push((buf.height / 256) as u8);
                let mut pix = buf.pixels;
                out.append(&mut pix);
                proof {
                    assert(out@ =~= spec_encoding(*self));
                }
                Ok(out)
            },
            Command::Barcode(barcode) => {
                let mut out = two_bytes(0x1d, 0x6b);
                out.push(barcode.barcode_type());
                out.push(12);
                push_all(&mut out, barcode.data());
                let data = barcode.data();
                if data.len() == 11 {
                    let check = barcode.check_digit();
                    out.push(48 + check);
                }
                proof {
                    assert(out@ =~= spec_encoding(*self));
                }
                Ok(out)
            },
        }
    }
}

/// A two-byte command frame.
fn two_bytes(a: u8, b: u8) -> (r: Vec<u8>)
    ensures
        r@ == seq![a, b],
{
    let mut out: Vec<u8> = Vec::new();
    out.push(a);
    out.push(b);
    proof {
        assert(out@ =~= seq![a, b]);
    }
    out
}

/// A three-byte command frame.
fn three_bytes(a: u8, b: u8, c: u8) -> (r: Vec<u8>)
    ensures
        r@ == seq![a, b, c],
{
    let mut out: Vec<u8> = Vec::new();
    out.push(a);
    out.push(b);
    out.push(c);
    proof {
        assert(out@ =~= seq![a, b, c]);
    }
    out
}

/// Append every byte of a slice to a vector, in order.
pub(crate) fn push_all(out: &mut Vec<u8>, bytes: &[u8])
    ensures
        final(out)@ == old(out)@ + bytes@,
{
    let n: usize = bytes.len();
    let mut i: usize = 0;
    proof {
        assert(out@ =~= old(out)@ + bytes@.subrange(0, 0));
    }
    while i < n
        invariant
            i <= n,
            n == bytes@.len(),
            out@ == old(out)@ + bytes@.subrange(0, i as int),
        decreases n - i,
    {
        out.push(*slice_index_get(bytes, i));
        proof {
            assert(bytes@.subrange(0, i + 1) =~= bytes@.subrange(0, i as int).push(
                bytes@[i as int],
            ));
            assert(old(out)@ + bytes@.subrange(0, i + 1) =~= (old(out)@ + bytes@.subrange(
                0,
                i as int,
            )).push(bytes@[i as int]));
        }
        i = i + 1;
    }
    proof {
        assert(bytes@.subrange(0, n as int) =~= bytes@);
    }
}

} // verus!
