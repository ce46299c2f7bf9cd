//! Images as PNG files: for the clipboard, for the editor and for the text recognition.
use crate::errors::{is_message, RsnipError};
use crate::paths::{is_file_in, is_separator, is_verbatim, temp_image_name, TempImage};
use crate::pixels::{
    bgra_to_rgba, law_swapping_exchanges_first_and_third, swapped_channels,
};
use crate::recording::optional_text;
use crate::screen::capture::CapturedImage;
use crate::text::{append_u64, chars_of, decimal, lowered};
use vstd::prelude::*;

verus! {

/// What a PNG file is for.
#[derive(Debug, Clone, Copy, PartialEq, Eq, Structural)]
pub enum PngPurpose {
    Clipboard,
    Editor,
    Ocr,
}

/// Whether a result holds the given bytes, or is an error with the given message.
pub open spec fn yields_bytes(
    result: Result<Vec<u8>, RsnipError>,
    expected: Result<Seq<u8>, Seq<char>>,
) -> bool {
    match (result, expected) {
        (Ok(bytes), Ok(wanted)) => bytes@ == wanted,
        (Err(error), Err(text)) => is_message(error, text),
        _ => false,
    }
}

// ---------------------------------------------------------------------------------------------
// Writing
// ---------------------------------------------------------------------------------------------

/// What `image` makes of pixels as a PNG file: its bytes, or why there are none.
pub uninterp spec fn png_encoding(width: u32, height: u32, rgba: Seq<u8>) -> Result<
    Seq<u8>,
    Seq<char>,
>;

/// The bytes in a result, or the text of its error.
pub open spec fn encoded(result: Result<Vec<u8>, String>) -> Result<Seq<u8>, Seq<char>> {
    match result {
        Ok(bytes) => Ok(bytes@),
        Err(cause) => Err(cause@),
    }
}

/// The eight bytes with which every PNG file starts.
pub open spec fn png_signature() -> Seq<u8> {
    seq![0x89, 0x50, 0x4e, 0x47, 0x0d, 0x0a, 0x1a, 0x0a]
}

/// Whether a buffer has room for the pixels of an image.
pub open spec fn pixels_suffice(width: u32, height: u32, len: nat) -> bool {
    4 * width <= usize::MAX && 4 * width * height <= len
}

/// Encodes pixels as a PNG file: builds an image with `image::ImageBuffer::from_raw` and writes it
/// with `image::ImageBuffer::write_to` in the format `Png`. The contract claims that the image is
/// built exactly where the buffer has room for its pixels, that what is written depends on the size
/// and the bytes alone, and that it starts with the PNG signature. The bytes that follow are not
/// stated.
#[verifier::external_body]
fn encode_png(width: u32, height: u32, rgba: Vec<u8>) -> (r: Option<Result<Vec<u8>, String>>)
    ensures
        match r {
            None => !pixels_suffice(width, height, rgba@.len()),
            Some(result) => {
                &&& pixels_suffice(width, height, rgba@.len())
                &&& encoded(result) == png_encoding(width, height, rgba@)
                &&& result matches Ok(bytes) ==> bytes@.len() >= 8 && bytes@.take(8)
                    == png_signature()
            },
        },
{
    let buffer = image::RgbaImage::from_raw(width, height, rgba)?;
    let mut png = std::io::Cursor::new(Vec::new());
    let written = buffer.write_to(&mut png, image::ImageFormat::Png);
    Some(written.map(|()| png.into_inner()).map_err(|error| error.to_string()))
}

/// What a PNG file is called in a message.
pub open spec fn purpose_label(purpose: PngPurpose) -> Seq<char> {
    match purpose {
        PngPurpose::Clipboard => "clipboard"@,
        PngPurpose::Editor => "editor"@,
        PngPurpose::Ocr => "OCR"@,
    }
}

/// What is done with a PNG file, in a message.
pub open spec fn purpose_verb(purpose: PngPurpose) -> Seq<char> {
    match purpose {
        PngPurpose::Clipboard => "encode"@,
        PngPurpose::Editor => "save"@,
        PngPurpose::Ocr => "save"@,
    }
}

fn label_of(purpose: PngPurpose) -> (r: &'static str)
    ensures
        r@ == purpose_label(purpose),
{
    match purpose {
        PngPurpose::Clipboard => "clipboard",
        PngPurpose::Editor => "editor",
        PngPurpose::Ocr => "OCR",
    }
}

fn verb_of(purpose: PngPurpose) -> (r: &'static str)
    ensures
        r@ == purpose_verb(purpose),
{
    match purpose {
        PngPurpose::Clipboard => "encode",
        PngPurpose::Editor => "save",
        PngPurpose::Ocr => "save",
    }
}

/// The PNG file of an image, or why there is none, given what encoding it gave.
pub open spec fn png_of(
    purpose: PngPurpose,
    width: u32,
    height: u32,
    encoding: Option<Result<Seq<u8>, Seq<char>>>,
) -> Result<Seq<u8>, Seq<char>> {
    match encoding {
        None => Err(
            "failed to build "@ + purpose_label(purpose) + " PNG buffer for "@ + decimal(
                width as nat,
            ) + "x"@ + decimal(height as nat) + " image"@,
        ),
        Some(Err(cause)) => Err(
            "failed to "@ + purpose_verb(purpose) + " "@ + purpose_label(purpose) + " PNG: "@
                + cause,
        ),
        Some(Ok(bytes)) => Ok(bytes),
    }
}

/// Turns what encoding an image gave into its PNG file.
pub fn png_of_encoding(
    purpose: PngPurpose,
    width: u32,
    height: u32,
    encoding: Option<Result<Vec<u8>, String>>,
) -> (r: Result<Vec<u8>, RsnipError>)
    ensures
        yields_bytes(
            r,
            png_of(
                purpose,
                width,
                height,
                match encoding {
                    Some(result) => Some(encoded(result)),
                    None => None,
                },
            ),
        ),
{
    match encoding {
        Some(Ok(png)) => Ok(png),
        Some(Err(cause)) => {
            let mut message = "failed to ".to_owned();
            message.append(verb_of(purpose));
            message.append(" ");
            message.append(label_of(purpose));
            message.append(" PNG: ");
            message.append(cause.as_str());
            Err(RsnipError::Message(message))
        },
        None => {
            let mut message = "failed to build ".to_owned();
            message.append(label_of(purpose));
            message.append(" PNG buffer for ");
            append_u64(&mut message, width as u64);
            message.append("x");
            append_u64(&mut message, height as u64);
            message.append(" image");
            Err(RsnipError::Message(message))
        },
    }
}

/// The PNG file of a captured image, or why there is none.
pub open spec fn png_of_image(purpose: PngPurpose, image: CapturedImage) -> Result<
    Seq<u8>,
    Seq<char>,
> {
    let rgba = swapped_channels(image.bgra@);
    if image.bgra@.len() % 4 != 0 {
        Err("BGRA buffer length must be divisible by 4, got "@ + decimal(image.bgra@.len()))
    } else {
        png_of(
            purpose,
            image.width,
            image.height,
            if pixels_suffice(image.width, image.height, rgba.len()) {
                Some(png_encoding(image.width, image.height, rgba))
            } else {
                None
            },
        )
    }
}

/// Writes the PNG file of a captured image.
pub fn png_file(image: &CapturedImage, purpose: PngPurpose) -> (r: Result<Vec<u8>, RsnipError>)
    ensures
        yields_bytes(r, png_of_image(purpose, *image)),
        r matches Ok(png) ==> png@.len() >= 8 && png@.take(8) == png_signature(),
{
    let rgba = bgra_to_rgba(image.bgra.as_slice())?;
    png_of_encoding(
        purpose,
        image.width,
        image.height,
        encode_png(image.width, image.height, rgba),
    )
}

/// Whatever a PNG file is for, it holds the same bytes.
pub proof fn law_purposes_share_the_file(a: PngPurpose, b: PngPurpose, image: CapturedImage)
    ensures
        png_of_image(a, image) is Ok == png_of_image(b, image) is Ok,
        png_of_image(a, image) is Ok ==> png_of_image(a, image) == png_of_image(b, image),
{
}

/// The PNG file of an image is the encoding of the whole image with the red part of each pixel
/// first: its bytes are those of the captured pixels with the first and the third exchanged.
pub proof fn law_png_holds_every_pixel(purpose: PngPurpose, image: CapturedImage, index: int)
    requires
        image.wf(),
        0 <= index < image.width * image.height,
    ensures
        png_of_image(purpose, image) matches Ok(bytes) ==> exists|rgba: Seq<u8>|
            #![trigger png_encoding(image.width, image.height, rgba)]
            {
                &&& png_encoding(image.width, image.height, rgba) == Ok::<Seq<u8>, Seq<char>>(bytes)
                &&& rgba.len() == image.bgra@.len()
                &&& rgba[4 * index] == image.bgra@[4 * index + 2]
                &&& rgba[4 * index + 1] == image.bgra@[4 * index + 1]
                &&& rgba[4 * index + 2] == image.bgra@[4 * index]
                &&& rgba[4 * index + 3] == image.bgra@[4 * index + 3]
            },
{
    let rgba = swapped_channels(image.bgra@);
    assert(4 * image.width * image.height == 4 * (image.width * image.height))
        by (nonlinear_arith);
    law_swapping_exchanges_first_and_third(image.bgra@, index);
    if let Ok(bytes) = png_of_image(purpose, image) {
        assert(png_encoding(image.width, image.height, rgba) == Ok::<Seq<u8>, Seq<char>>(bytes));
    }
}

/// An image has a PNG file exactly if its encoding succeeds; that of the encoder is the only way in
/// which a whole image can fail.
pub proof fn law_whole_images_have_png_files(purpose: PngPurpose, image: CapturedImage)
    requires
        image.wf(),
        image.bgra@.len() <= usize::MAX,
    ensures
        png_of_image(purpose, image) is Ok <==> png_encoding(
            image.width,
            image.height,
            swapped_channels(image.bgra@),
        ) is Ok,
{
    assert(4 * image.width <= 4 * image.width * image.height) by (nonlinear_arith)
        requires
            0 < image.width,
            0 < image.height,
    ;
    assert(4 * image.width * image.height == 4 * (image.width * image.height))
        by (nonlinear_arith);
}

// ---------------------------------------------------------------------------------------------
// Reading
// ---------------------------------------------------------------------------------------------

/// The size and the pixels of an image, red first.
pub struct DecodedModel {
    pub width: u32,
    pub height: u32,
    pub rgba: Seq<u8>,
}

/// What `image` makes of the bytes of a PNG file: an image, or why there is none.
pub uninterp spec fn png_decoding(bytes: Seq<u8>) -> Result<DecodedModel, Seq<char>>;

/// The image in a result, or the text of its error.
pub open spec fn decoded(result: Result<(u32, u32, Vec<u8>), String>) -> Result<
    DecodedModel,
    Seq<char>,
> {
    match result {
        Ok((width, height, rgba)) => Ok(DecodedModel { width, height, rgba: rgba@ }),
        Err(cause) => Err(cause@),
    }
}

/// Whether the last component of a path is a file name whatever system reads the path: the path
/// starts with no two separators, or with a share and more behind it, or with a drive in verbatim
/// form.
pub open spec fn has_file_name(path: Seq<char>) -> bool {
    ||| path.len() < 2 || !is_separator(path[0]) || !is_separator(path[1])
    ||| path.len() > 2 && path[2] != '?' && path[2] != '.' && !is_separator(path[2])
        && exists|i: int, j: int|
        2 < i && i + 1 < j < path.len() && #[trigger] is_separator(path[i])
            && #[trigger] is_separator(path[j])
    ||| is_verbatim(path) && path.len() > 6 && path[5] == ':' && path[6] == '\\' && !path.contains(
        '/',
    )
}

/// Whether a path names a file with the given extension whatever system reads it. The extension may
/// be empty; it stands behind a dot, which stands behind a name.
pub open spec fn has_extension(path: Seq<char>, extension: Seq<char>) -> bool {
    let dot = path.len() - extension.len() - 1;
    &&& dot >= 1
    &&& path[dot] == '.'
    &&& path.skip(dot + 1) == extension
    &&& !is_separator(path[dot - 1]) && path[dot - 1] != ':' && path[dot - 1] != '.'
    &&& forall|i: int|
        0 <= i < extension.len() ==> !is_separator(#[trigger] extension[i]) && extension[i] != ':'
            && extension[i] != '.'
    &&& has_file_name(path)
}

/// Whether a path names a PNG file whatever system reads it, by its extension in small or capital
/// letters.
pub open spec fn names_png(path: Seq<char>) -> bool {
    exists|extension: Seq<char>| #[trigger]
        has_extension(path, extension) && (lowered(extension) == "png"@ || lowered(extension)
            == "apng"@)
}

/// Whether a path names a file without an extension, or with an empty one, whatever system reads it.
pub open spec fn names_no_format(path: Seq<char>) -> bool {
    !path.contains('.') || has_extension(path, Seq::empty())
}

/// Whether an extension is that of a path, where it does not depend on the system.
pub open spec fn is_extension_of(path: Seq<char>, found: Option<Seq<char>>) -> bool {
    &&& forall|extension: Seq<char>| #[trigger]
        has_extension(path, extension) ==> found == Some(extension)
    &&& !path.contains('.') ==> found is None
}

/// The extension of a path, by `std::path::Path::extension`. The contract claims that it is what
/// stands behind the last dot of the last component. It claims this only for paths whose last
/// component is the same on every system, and claims that a path without a dot has none.
#[verifier::external_body]
fn path_extension(path: &str) -> (r: Option<String>)
    ensures
        is_extension_of(path@, optional_text(r)),
{
    let extension = std::path::Path::new(path).extension();
    extension.map(|text| text.to_string_lossy().into_owned())
}

/// What is said of a file whose format nothing tells.
pub open spec fn unknown_format_text() -> Seq<char> {
    "The image format could not be determined"@
}

/// The most bytes of pixels that are read from a file: 512 MiB.
pub open spec fn largest_image() -> int {
    0x2000_0000
}

/// Whether a result is the image that was written, or an error where that is too large, where the
/// bytes are a PNG file that `image` wrote.
pub open spec fn reads_back(
    path: Seq<char>,
    bytes: Seq<u8>,
    result: Result<DecodedModel, Seq<char>>,
) -> bool {
    forall|width: u32, height: u32, rgba: Seq<u8>|
        #![trigger png_encoding(width, height, rgba)]
        names_png(path) && pixels_suffice(width, height, rgba.len()) && png_encoding(
            width,
            height,
            rgba,
        ) == Ok::<Seq<u8>, Seq<char>>(bytes) ==> if 4 * width * height <= largest_image() {
            result == Ok::<DecodedModel, Seq<char>>(
                DecodedModel { width, height, rgba: rgba.take(4 * width * height) },
            )
        } else {
            result is Err
        }
}

/// Whether a result is the error of a file whose format nothing tells.
pub open spec fn is_unknown_format(result: Result<DecodedModel, Seq<char>>) -> bool {
    result == Err::<DecodedModel, Seq<char>>(unknown_format_text())
}

/// Decodes the bytes of an image file: `image::ImageFormat::from_path` tells the format by the path,
/// `image::load_from_memory_with_format` decodes the bytes, and `image::DynamicImage::into_rgba8`
/// gives the pixels. The contract claims that there are four bytes for each pixel, that under the
/// name of a PNG file the result depends on the bytes alone, and that from a PNG file that `image`
/// wrote the pixels come back that went into it, unless they take more than the 512 MiB that the
/// decoder reserves at most. Of an empty path it claims the error. Which other bytes are accepted is
/// not stated, nor what comes of other paths: how a path is split depends on the system.
#[verifier::external_body]
fn decode_image(path: &str, bytes: &Vec<u8>) -> (r: Result<(u32, u32, Vec<u8>), String>)
    ensures
        names_png(path@) ==> decoded(r) == png_decoding(bytes@),
        r matches Ok((width, height, rgba)) ==> rgba@.len() == 4 * width * height,
        reads_back(path@, bytes@, decoded(r)),
        path@.len() == 0 ==> is_unknown_format(decoded(r)),
{
    image::ImageFormat::from_path(path)
        .and_then(|format| image::load_from_memory_with_format(bytes, format))
        .map(|decoded| decoded.into_rgba8())
        .map(|pixels| (pixels.width(), pixels.height(), pixels.into_raw()))
        .map_err(|error| error.to_string())
}

/// Whether a result is the given captured image, or an error where that is too large.
pub open spec fn is_capture_read(
    image: CapturedImage,
    result: Result<DecodedModel, Seq<char>>,
) -> bool {
    if image.bgra@.len() <= largest_image() {
        result == Ok::<DecodedModel, Seq<char>>(
            DecodedModel {
                width: image.width,
                height: image.height,
                rgba: swapped_channels(image.bgra@),
            },
        )
    } else {
        result is Err
    }
}

/// Whether a result is the captured image that was written, or an error where that is too large,
/// where the bytes are its PNG file.
pub open spec fn gives_capture_back(
    path: Seq<char>,
    bytes: Seq<u8>,
    result: Result<DecodedModel, Seq<char>>,
) -> bool {
    forall|purpose: PngPurpose, image: CapturedImage|
        #![trigger png_of_image(purpose, image)]
        names_png(path) && image.wf() && png_of_image(purpose, image) == Ok::<Seq<u8>, Seq<char>>(
            bytes,
        ) ==> is_capture_read(image, result)
}

/// Reads the image in the bytes of a file. The extension of the path tells the format; an empty one
/// tells as little as none.
pub fn read_image(path: &str, bytes: &Vec<u8>) -> (r: Result<(u32, u32, Vec<u8>), String>)
    ensures
        names_png(path@) ==> decoded(r) == png_decoding(bytes@),
        r matches Ok((width, height, rgba)) ==> rgba@.len() == 4 * width * height,
        gives_capture_back(path@, bytes@, decoded(r)),
        names_no_format(path@) ==> is_unknown_format(decoded(r)),
{
    let told = match path_extension(path) {
        Some(extension) => chars_of(extension.as_str()).len() > 0,
        None => false,
    };
    let named: &str = if told {
        path
    } else {
        ""
    };
    proof {
        reveal_strlit("");
        reveal_strlit("png");
        reveal_strlit("apng");
        if names_png(path@) {
            let extension = choose|extension: Seq<char>| #[trigger]
                has_extension(path@, extension) && (lowered(extension) == "png"@ || lowered(
                    extension,
                ) == "apng"@);
            assert(lowered(extension).len() == extension.len());
        }
        if has_extension(path@, Seq::empty()) {
            assert(!told);
        }
    }
    let r = decode_image(named, bytes);
    assert forall|purpose: PngPurpose, image: CapturedImage|
        #![trigger png_of_image(purpose, image)]
        names_png(path@) && image.wf() && png_of_image(purpose, image) == Ok::<Seq<u8>, Seq<char>>(
            bytes@,
        ) implies is_capture_read(image, decoded(r)) by {
        let rgba = swapped_channels(image.bgra@);
        assert(png_encoding(image.width, image.height, rgba) == Ok::<Seq<u8>, Seq<char>>(bytes@));
        assert(rgba.take(4 * image.width * image.height) =~= rgba);
    }
    r
}

/// A temporary image is named as a PNG file, wherever the folder for temporary files is, if its path
/// has a file name whatever system reads it.
pub proof fn law_temporary_images_are_png_files(
    folder: Seq<char>,
    purpose: TempImage,
    process: u32,
    nanos: nat,
    path: Seq<char>,
)
    requires
        is_file_in(folder, temp_image_name(purpose, process, nanos), path),
        has_file_name(path),
    ensures
        names_png(path),
{
    reveal_strlit(".png");
    lemma_decimal_ends_in_digit(nanos);
    let name = temp_image_name(purpose, process, nanos);
    let digits = decimal(nanos);
    assert(name.len() >= 5);
    assert(name[name.len() - 5] == digits[digits.len() - 1]);
    assert(path.skip(path.len() - name.len()) =~= name);
    assert forall|i: int| 1 <= i <= 5 implies #[trigger] path[path.len() - i] == name[name.len()
        - i] by {
        assert(path.skip(path.len() - name.len())[name.len() - i] == path[path.len() - i]);
    }
    assert(path[path.len() - 5] == name[name.len() - 5]);
    assert(path[path.len() - 4] == name[name.len() - 4]);
    assert(path[path.len() - 3] == name[name.len() - 3]);
    assert(path[path.len() - 2] == name[name.len() - 2]);
    assert(path[path.len() - 1] == name[name.len() - 1]);
    reveal_strlit("png");
    assert(path.skip(path.len() - 3) =~= "png"@);
    assert(lowered("png"@) =~= "png"@);
    assert(has_extension(path, "png"@));
}

proof fn lemma_decimal_ends_in_digit(value: nat)
    ensures
        decimal(value).len() > 0,
        '0' <= decimal(value).last() <= '9',
{
}

} // verus!
