//! What is put on the clipboard, byte by byte.
use crate::errors::{is_message, message_error, RsnipError};
use crate::images::{png_file, png_of_image, png_signature, yields_bytes, PngPurpose};
use crate::pixels::lemma_position_bound;
use crate::screen::capture::CapturedImage;
use crate::text::{append_u64, decimal, encode_utf16, utf16, wide_null};
use vstd::prelude::*;

verus! {

/// What kind of thing is on the clipboard.
#[derive(Debug, Clone, Copy, PartialEq, Eq, Structural)]
pub enum ClipboardFormat {
    Image,
    Text,
    FileDrop,
}

/// The number under which the system knows a kind of thing.
pub fn format_code(format: ClipboardFormat) -> (r: u32)
    ensures
        r == match format {
            ClipboardFormat::Image => 8u32,
            ClipboardFormat::Text => 13u32,
            ClipboardFormat::FileDrop => 15u32,
        },
{
    match format {
        ClipboardFormat::Image => 8,
        ClipboardFormat::Text => 13,
        ClipboardFormat::FileDrop => 15,
    }
}

// ---------------------------------------------------------------------------------------------
// Numbers
// ---------------------------------------------------------------------------------------------

/// A number of 16 bits, its lower byte first.
pub open spec fn bytes16(value: u16) -> Seq<u8> {
    seq![(value % 256) as u8, (value / 256) as u8]
}

/// A number of 32 bits, its lowest byte first.
pub open spec fn bytes32(value: u32) -> Seq<u8> {
    seq![
        (value % 256) as u8,
        (value / 256 % 256) as u8,
        (value / 65536 % 256) as u8,
        (value / 16777216) as u8,
    ]
}

/// The units of a text, the lower byte of each first.
pub open spec fn unit_bytes(units: Seq<u16>) -> Seq<u8>
    decreases units.len(),
{
    if units.len() == 0 {
        Seq::empty()
    } else {
        unit_bytes(units.drop_last()) + bytes16(units.last())
    }
}

fn push16(bytes: &mut Vec<u8>, value: u16)
    ensures
        final(bytes)@ == old(bytes)@ + bytes16(value),
{
    bytes.push((value % 256) as u8);
    bytes.push((value / 256) as u8);
    assert(bytes@ =~= old(bytes)@ + bytes16(value));
}

fn push32(bytes: &mut Vec<u8>, value: u32)
    ensures
        final(bytes)@ == old(bytes)@ + bytes32(value),
{
    bytes.push((value % 256) as u8);
    bytes.push((value / 256 % 256) as u8);
    bytes.push((value / 65536 % 256) as u8);
    bytes.push((value / 16777216) as u8);
    assert(bytes@ =~= old(bytes)@ + bytes32(value));
}

fn push_units(bytes: &mut Vec<u8>, units: &Vec<u16>)
    ensures
        final(bytes)@ == old(bytes)@ + unit_bytes(units@),
{
    let ghost before = bytes@;
    let mut i: usize = 0;
    assert(before + unit_bytes(units@.take(0)) =~= before);
    while i < units.len()
        invariant
            i <= units@.len(),
            bytes@ == before + unit_bytes(units@.take(i as int)),
        decreases units@.len() - i,
    {
        push16(bytes, units[i]);
        i += 1;
        assert(units@.take(i as int).drop_last() =~= units@.take(i - 1));
        assert(bytes@ =~= before + unit_bytes(units@.take(i as int)));
    }
    assert(units@.take(i as int) =~= units@);
}

/// The number of 16 bits that stands at a place, its lower byte first.
pub open spec fn unit_at(bytes: Seq<u8>, at: int) -> int {
    bytes[at] + 256 * bytes[at + 1]
}

/// The number of 32 bits that stands at a place, its lowest byte first.
pub open spec fn number_at(bytes: Seq<u8>, at: int) -> int {
    unit_at(bytes, at) + 65536 * unit_at(bytes, at + 2)
}

/// The number of 32 bits that stands at a place, its lowest byte first, read as a two's complement
/// number.
pub open spec fn signed_at(bytes: Seq<u8>, at: int) -> int {
    if number_at(bytes, at) < 0x8000_0000 {
        number_at(bytes, at)
    } else {
        number_at(bytes, at) - 0x1_0000_0000
    }
}

/// The units of a text stand one after the other, and each is read back from its two bytes.
pub proof fn law_units_are_read_back(units: Seq<u16>, index: int)
    requires
        0 <= index < units.len(),
    ensures
        unit_bytes(units).len() == 2 * units.len(),
        unit_at(unit_bytes(units), 2 * index) == units[index],
    decreases units.len(),
{
    lemma_unit_bytes_len(units);
    let rest = units.drop_last();
    lemma_unit_bytes_len(rest);
    if index < rest.len() {
        law_units_are_read_back(rest, index);
    }
}

proof fn lemma_unit_bytes_len(units: Seq<u16>)
    ensures
        unit_bytes(units).len() == 2 * units.len(),
    decreases units.len(),
{
    if units.len() > 0 {
        lemma_unit_bytes_len(units.drop_last());
    }
}

// ---------------------------------------------------------------------------------------------
// Text and files
// ---------------------------------------------------------------------------------------------

/// The bytes of a text on the clipboard: UTF-16 with a zero unit at its end.
pub fn copy_text(text: &str) -> (r: Vec<u8>)
    ensures
        r@ == unit_bytes(wide_null(text@)),
{
    let mut units = encode_utf16(text);
    units.push(0);
    let mut bytes: Vec<u8> = Vec::new();
    push_units(&mut bytes, &units);
    assert(bytes@ =~= unit_bytes(wide_null(text@)));
    bytes
}

/// The head of a list of files: where the list begins, a point that is not used, and that the
/// paths are in UTF-16.
pub open spec fn file_drop_head() -> Seq<u8> {
    bytes32(20) + bytes32(0) + bytes32(0) + bytes32(0) + bytes32(1)
}

/// The bytes of a file on the clipboard: the head, and the path with two zero units at its end.
pub fn copy_file(path: &str) -> (r: Vec<u8>)
    ensures
        r@ == file_drop_head() + unit_bytes(utf16(path@).push(0).push(0)),
{
    let mut units = encode_utf16(path);
    units.push(0);
    units.push(0);
    let mut bytes: Vec<u8> = Vec::new();
    push32(&mut bytes, 20);
    push32(&mut bytes, 0);
    push32(&mut bytes, 0);
    push32(&mut bytes, 0);
    push32(&mut bytes, 1);
    assert(bytes@ =~= file_drop_head());
    push_units(&mut bytes, &units);
    bytes
}

/// What is put on the clipboard for a text has a zero unit at its end, and the units before it are
/// those of the text.
pub proof fn law_copied_text_is_read_back(text: Seq<char>, index: int)
    ensures
        ({
            let bytes = unit_bytes(wide_null(text));
            let count = utf16(text).len() as int;
            &&& bytes.len() == 2 * count + 2
            &&& unit_at(bytes, 2 * count) == 0
            &&& 0 <= index < count ==> unit_at(bytes, 2 * index) == utf16(text)[index]
        }),
{
    let units = wide_null(text);
    law_units_are_read_back(units, units.len() - 1);
    if 0 <= index < utf16(text).len() {
        law_units_are_read_back(units, index);
    }
}

/// What is put on the clipboard for a file says where its list of paths begins and that the paths
/// are in UTF-16; there stand the units of the path, and two zero units end the list.
pub proof fn law_copied_file_is_read_back(path: Seq<char>, index: int)
    ensures
        ({
            let bytes = file_drop_head() + unit_bytes(utf16(path).push(0).push(0));
            let count = utf16(path).len() as int;
            let list = number_at(bytes, 0);
            &&& list == 20 && bytes.len() == list + 2 * count + 4
            &&& number_at(bytes, 4) == 0 && number_at(bytes, 8) == 0 && number_at(bytes, 12) == 0
            &&& number_at(bytes, 16) == 1
            &&& unit_at(bytes, list + 2 * count) == 0 && unit_at(bytes, list + 2 * count + 2) == 0
            &&& 0 <= index < count ==> unit_at(bytes, list + 2 * index) == utf16(path)[index]
        }),
{
    let units = utf16(path).push(0).push(0);
    let bytes = file_drop_head() + unit_bytes(units);
    assert(file_drop_head().len() == 20);
    law_units_are_read_back(units, units.len() - 1);
    law_units_are_read_back(units, units.len() - 2);
    if 0 <= index < utf16(path).len() {
        law_units_are_read_back(units, index);
    }
}

// ---------------------------------------------------------------------------------------------
// Images
// ---------------------------------------------------------------------------------------------

/// A negative number of 32 bits in two's complement, given without its sign.
pub open spec fn negated(value: u32) -> u32 {
    if value == 0 {
        0
    } else {
        (0x1_0000_0000 - value) as u32
    }
}

/// The head of a bitmap of 32 bits a pixel without compression, top row first.
pub open spec fn dib_head(width: u32, height: u32, pixel_bytes: nat) -> Seq<u8> {
    bytes32(40) + bytes32(width) + bytes32(negated(height)) + bytes16(1) + bytes16(32) + bytes32(0)
        + bytes32(
        (if pixel_bytes <= u32::MAX {
            pixel_bytes as u32
        } else {
            0
        }),
    ) + bytes32(0) + bytes32(0) + bytes32(0) + bytes32(0)
}

/// The bitmap of an image, or why it has none: the head and the pixels.
pub open spec fn dib_of(image: CapturedImage) -> Result<Seq<u8>, Seq<char>> {
    if image.width > i32::MAX {
        Err("image width too large: "@ + decimal(image.width as nat))
    } else if image.height > i32::MAX {
        Err("image height too large: "@ + decimal(image.height as nat))
    } else {
        Ok(dib_head(image.width, image.height, image.bgra@.len()) + image.bgra@)
    }
}

/// Writes the bitmap of an image.
pub fn image_to_dib(image: &CapturedImage) -> (r: Result<Vec<u8>, RsnipError>)
    ensures
        yields_bytes(r, dib_of(*image)),
{
    if image.width > i32::MAX as u32 {
        let mut message = "image width too large: ".to_owned();
        append_u64(&mut message, image.width as u64);
        return Err(RsnipError::Message(message));
    }
    if image.height > i32::MAX as u32 {
        let mut message = "image height too large: ".to_owned();
        append_u64(&mut message, image.height as u64);
        return Err(RsnipError::Message(message));
    }
    let pixel_bytes: usize = image.bgra.len();
    let size_image: u32 = if pixel_bytes as u64 <= u32::MAX as u64 {
        pixel_bytes as u32
    } else {
        0
    };
    let minus_height: u32 = if image.height == 0 {
        0
    } else {
        u32::MAX - (image.height - 1)
    };
    let mut dib: Vec<u8> = Vec::new();
    push32(&mut dib, 40);
    push32(&mut dib, image.width);
    push32(&mut dib, minus_height);
    push16(&mut dib, 1);
    push16(&mut dib, 32);
    push32(&mut dib, 0);
    push32(&mut dib, size_image);
    push32(&mut dib, 0);
    push32(&mut dib, 0);
    push32(&mut dib, 0);
    push32(&mut dib, 0);
    assert(dib@ =~= dib_head(image.width, image.height, image.bgra@.len()));
    let ghost head = dib@;
    let mut i: usize = 0;
    while i < pixel_bytes
        invariant
            i <= pixel_bytes,
            pixel_bytes == image.bgra@.len(),
            dib@ == head + image.bgra@.take(i as int),
        decreases pixel_bytes - i,
    {
        dib.push(image.bgra[i]);
        i += 1;
        assert(dib@ =~= head + image.bgra@.take(i as int));
    }
    assert(image.bgra@.take(i as int) =~= image.bgra@);
    Ok(dib)
}

/// The head of a bitmap has 40 bytes, and the pixels follow it as they are.
pub proof fn law_pixels_follow_the_head(width: u32, height: u32, bgra: Seq<u8>)
    ensures
        dib_head(width, height, bgra.len()).len() == 40,
        (dib_head(width, height, bgra.len()) + bgra).skip(40) == bgra,
{
    assert((dib_head(width, height, bgra.len()) + bgra).skip(40) =~= bgra);
}

/// The pixel of a bitmap in a column and a row, counted from the top, found by what the head of
/// the bitmap says: how long the head is, how wide the rows are, how many bits a pixel has, and
/// from the sign of the height whether the top row or the bottom row comes first.
pub open spec fn bitmap_pixel(bitmap: Seq<u8>, x: int, y: int) -> Seq<u8> {
    let head = number_at(bitmap, 0);
    let width = signed_at(bitmap, 4);
    let height = signed_at(bitmap, 8);
    let bytes = unit_at(bitmap, 14) / 8;
    let row = if height < 0 {
        y
    } else {
        height - 1 - y
    };
    bitmap.subrange(head + bytes * (row * width + x), head + bytes * (row * width + x) + bytes)
}

/// The head of a bitmap tells the size of the image: the height that it names and the height of the
/// image make zero, which says that the top row comes first. It tells that there is one plane of 32
/// bits a pixel without compression, and how many bytes of pixels follow.
pub proof fn law_bitmap_head_tells_the_image(image: CapturedImage)
    ensures
        dib_of(image) matches Ok(bitmap) ==> {
            &&& bitmap.len() == 40 + image.bgra@.len()
            &&& number_at(bitmap, 0) == 40
            &&& signed_at(bitmap, 4) == image.width
            &&& signed_at(bitmap, 8) + image.height == 0
            &&& unit_at(bitmap, 12) == 1
            &&& unit_at(bitmap, 14) == 32
            &&& number_at(bitmap, 16) == 0
            &&& image.bgra@.len() <= u32::MAX ==> number_at(bitmap, 20) == image.bgra@.len()
            &&& image.bgra@.len() > u32::MAX ==> number_at(bitmap, 20) == 0
            &&& number_at(bitmap, 24) == 0 && number_at(bitmap, 28) == 0
            &&& number_at(bitmap, 32) == 0 && number_at(bitmap, 36) == 0
        },
        dib_of(image) is Ok <==> image.width <= i32::MAX && image.height <= i32::MAX,
{
    if let Ok(bitmap) = dib_of(image) {
        let head = dib_head(image.width, image.height, image.bgra@.len());
        lemma_dib_head(image.width, image.height, image.bgra@.len());
        assert forall|at: int| 0 <= at <= 36 implies #[trigger] number_at(bitmap, at) == number_at(
            head,
            at,
        ) by {}
        assert(unit_at(bitmap, 12) == unit_at(head, 12));
        assert(unit_at(bitmap, 14) == unit_at(head, 14));
    }
}

proof fn lemma_dib_head(width: u32, height: u32, pixel_bytes: nat)
    ensures
        ({
            let head = dib_head(width, height, pixel_bytes);
            &&& head.len() == 40
            &&& number_at(head, 0) == 40
            &&& number_at(head, 4) == width
            &&& number_at(head, 8) == negated(height)
            &&& unit_at(head, 12) == 1
            &&& unit_at(head, 14) == 32
            &&& number_at(head, 16) == 0
            &&& pixel_bytes <= u32::MAX ==> number_at(head, 20) == pixel_bytes
            &&& pixel_bytes > u32::MAX ==> number_at(head, 20) == 0
            &&& number_at(head, 24) == 0 && number_at(head, 28) == 0
            &&& number_at(head, 32) == 0 && number_at(head, 36) == 0
        }),
{
    let head = dib_head(width, height, pixel_bytes);
    let size: u32 = if pixel_bytes <= u32::MAX {
        pixel_bytes as u32
    } else {
        0
    };
    lemma_number_back(head, 0, 40);
    lemma_number_back(head, 4, width);
    lemma_number_back(head, 8, negated(height));
    assert(head.subrange(12, 14) =~= bytes16(1));
    assert(head[12] == head.subrange(12, 14)[0] && head[13] == head.subrange(12, 14)[1]);
    assert(head.subrange(14, 16) =~= bytes16(32));
    assert(head[14] == head.subrange(14, 16)[0] && head[15] == head.subrange(14, 16)[1]);
    lemma_number_back(head, 16, 0);
    lemma_number_back(head, 20, size);
    lemma_number_back(head, 24, 0);
    lemma_number_back(head, 28, 0);
    lemma_number_back(head, 32, 0);
    lemma_number_back(head, 36, 0);
}

/// A number is read back from the bytes that were written for it.
proof fn lemma_number_back(bytes: Seq<u8>, at: int, value: u32)
    requires
        0 <= at,
        at + 4 <= bytes.len(),
        bytes.subrange(at, at + 4) =~= bytes32(value),
    ensures
        number_at(bytes, at) == value,
{
    let part = bytes.subrange(at, at + 4);
    assert(bytes[at] == part[0] && bytes[at + 1] == part[1] && bytes[at + 2] == part[2] && bytes[at
        + 3] == part[3]);
}

/// Reading a bitmap by its own head gives each pixel of the image at its own column and row.
pub proof fn law_bitmap_is_read_back(image: CapturedImage, x: int, y: int)
    requires
        image.wf(),
        0 <= x < image.width,
        0 <= y < image.height,
    ensures
        dib_of(image) matches Ok(bitmap) ==> bitmap_pixel(bitmap, x, y) == image.bgra@.subrange(
            4 * (y * image.width + x),
            4 * (y * image.width + x) + 4,
        ),
{
    if let Ok(bitmap) = dib_of(image) {
        law_bitmap_head_tells_the_image(image);
        law_pixels_follow_the_head(image.width, image.height, image.bgra@);
        lemma_position_bound(y, image.height as int, image.width as int, x);
        assert(4 * image.width * image.height == 4 * (image.height * image.width))
            by (nonlinear_arith);
        assert(bitmap_pixel(bitmap, x, y) =~= image.bgra@.subrange(
            4 * (y * image.width + x),
            4 * (y * image.width + x) + 4,
        ));
    }
}

/// Writes the PNG file of an image.
pub fn image_to_png(image: &CapturedImage) -> (r: Result<Vec<u8>, RsnipError>)
    ensures
        yields_bytes(r, png_of_image(PngPurpose::Clipboard, *image)),
        r matches Ok(png) ==> png@.len() >= 8 && png@.take(8) == png_signature(),
{
    png_file(image, PngPurpose::Clipboard)
}

/// What is put on the clipboard for an image: the bitmap and the PNG file, each under its number.
pub struct ImagePayload {
    pub dib_format: u32,
    pub dib: Vec<u8>,
    pub png_format: u32,
    pub png: Vec<u8>,
}

/// Puts an image together for the clipboard. `png_format` is the number that the system gave to PNG
/// files, zero if it gave none.
pub fn copy_image(image: &CapturedImage, png_format: u32) -> (r: Result<ImagePayload, RsnipError>)
    ensures
        match (dib_of(*image), png_of_image(PngPurpose::Clipboard, *image)) {
            (Err(text), _) => r matches Err(error) && is_message(error, text),
            (Ok(_), Err(text)) => r matches Err(error) && is_message(error, text),
            (Ok(dib), Ok(png)) => match r {
                Ok(payload) => {
                    &&& png_format != 0
                    &&& payload.dib_format == 8 && payload.dib@ == dib
                    &&& payload.png_format == png_format && payload.png@ == png
                },
                Err(error) => png_format == 0 && is_message(
                    error,
                    "RegisterClipboardFormatW failed for PNG"@,
                ),
            },
        },
{
    let dib = image_to_dib(image)?;
    let png = image_to_png(image)?;
    if png_format == 0 {
        return Err(message_error("RegisterClipboardFormatW failed for PNG"));
    }
    Ok(
        ImagePayload {
            dib_format: format_code(ClipboardFormat::Image),
            dib,
            png_format,
            png,
        },
    )
}

// ---------------------------------------------------------------------------------------------
// Opening the clipboard
// ---------------------------------------------------------------------------------------------

/// How often opening the clipboard is tried.
pub const CLIPBOARD_OPEN_RETRIES: u32 = 5;

/// How long to wait after a try, in milliseconds.
pub const CLIPBOARD_RETRY_DELAY_MS: u64 = 40;

/// The error after as many failures as there are tries; before that, none. `cause` is that of the
/// last failure.
pub fn open_with_retries(failures: u32, cause: &str) -> (r: Option<RsnipError>)
    ensures
        match r {
            None => failures < CLIPBOARD_OPEN_RETRIES,
            Some(error) => failures >= CLIPBOARD_OPEN_RETRIES && is_message(
                error,
                "OpenClipboard failed after 5 attempts: "@ + cause@,
            ),
        },
{
    if failures < CLIPBOARD_OPEN_RETRIES {
        return None;
    }
    let mut message = "OpenClipboard failed after 5 attempts: ".to_owned();
    message.append(cause);
    Some(RsnipError::Message(message))
}

} // verus!
