//! Captured images and the regions that are cut out of them.
use crate::errors::{is_message, message_error, RsnipError};
use crate::math::{far_edge, far_edge_of};
use crate::pixels::{lemma_position_bound, lemma_row_position, pixel_bytes};
use crate::screen::monitor::{point_in_rect, rect_fits, rect_in_rect, ScreenRect, VirtualScreen};
use crate::text::{append_i32, append_u64, decimal, signed_decimal};
use crate::time::Elapsed;
use vstd::arithmetic::div_mod::lemma_fundamental_div_mod;
use vstd::prelude::*;

verus! {

/// A part of the virtual desktop.
#[derive(Debug, Clone, Copy, PartialEq, Eq, Structural)]
pub struct CaptureRegion {
    pub x: i32,
    pub y: i32,
    pub width: u32,
    pub height: u32,
}

/// An image of a part of the virtual desktop: rows from top to bottom, four bytes a pixel.
#[derive(Debug, Clone, PartialEq, Eq)]
pub struct CapturedImage {
    pub origin_x: i32,
    pub origin_y: i32,
    pub width: u32,
    pub height: u32,
    pub bgra: Vec<u8>,
}

/// How long a capture took.
#[derive(Debug, Clone, Copy, PartialEq, Eq, Structural)]
pub struct CaptureMetrics {
    pub elapsed: Elapsed,
}

/// A captured image and how long it took.
#[derive(Debug, Clone, PartialEq, Eq)]
pub struct ScreenCapture {
    pub image: CapturedImage,
    pub metrics: CaptureMetrics,
}

/// What the graphics system copied: the number of rows it reports and the bytes it wrote.
#[derive(Debug, Clone, PartialEq, Eq)]
pub struct CopiedRows {
    pub scan_lines: i32,
    pub bgra: Vec<u8>,
}

// ---------------------------------------------------------------------------------------------
// Sizes and positions
// ---------------------------------------------------------------------------------------------

/// Whether an image of the given size has no length in bytes.
pub open spec fn too_large(width: u32, height: u32) -> bool {
    4 * width > usize::MAX || 4 * width * height > usize::MAX
}

/// Why a row of pixels has no length in bytes.
pub open spec fn row_error(error: RsnipError, width: u32) -> bool {
    4 * width > usize::MAX && is_message(
        error,
        "image row length overflow: "@ + decimal(width as nat),
    )
}

/// Why an image has no length in bytes.
pub open spec fn buffer_error(error: RsnipError, width: u32, height: u32) -> bool {
    ||| row_error(error, width)
    ||| 4 * width <= usize::MAX && 4 * width * height > usize::MAX && is_message(
        error,
        "image buffer length overflow: "@ + decimal(width as nat) + "x"@ + decimal(height as nat),
    )
}

/// Why the size of an image is refused.
pub open spec fn dimension_error(error: RsnipError, width: u32, height: u32) -> bool {
    ||| (width == 0 || height == 0) && is_message(
        error,
        "image dimensions must be non-empty, got "@ + decimal(width as nat) + "x"@ + decimal(
            height as nat,
        ),
    )
    ||| width > 0 && height > 0 && buffer_error(error, width, height)
}

/// The bytes of a row of pixels.
pub fn row_len(width: u32) -> (r: Result<usize, RsnipError>)
    ensures
        match r {
            Ok(len) => len == 4 * width,
            Err(error) => row_error(error, width),
        },
{
    match (width as usize).checked_mul(4) {
        Some(len) => Ok(len),
        None => {
            let mut message = "image row length overflow: ".to_owned();
            append_u64(&mut message, width as u64);
            Err(RsnipError::Message(message))
        },
    }
}

/// The bytes of an image.
pub fn buffer_len(width: u32, height: u32) -> (r: Result<usize, RsnipError>)
    ensures
        match r {
            Ok(len) => len == 4 * width * height && 4 * width <= usize::MAX,
            Err(error) => buffer_error(error, width, height),
        },
{
    let row = row_len(width)?;
    match row.checked_mul(height as usize) {
        Some(len) => Ok(len),
        None => {
            let mut message = "image buffer length overflow: ".to_owned();
            append_u64(&mut message, width as u64);
            message.append("x");
            append_u64(&mut message, height as u64);
            Err(RsnipError::Message(message))
        },
    }
}

/// Refuses empty images and images that no buffer can hold.
pub fn validate_dimensions(width: u32, height: u32) -> (r: Result<(), RsnipError>)
    ensures
        match r {
            Ok(()) => width > 0 && height > 0 && !too_large(width, height),
            Err(error) => dimension_error(error, width, height),
        },
{
    if width == 0 || height == 0 {
        let mut message = "image dimensions must be non-empty, got ".to_owned();
        append_u64(&mut message, width as u64);
        message.append("x");
        append_u64(&mut message, height as u64);
        return Err(RsnipError::Message(message));
    }
    let _ = buffer_len(width, height)?;
    Ok(())
}

/// The position of a pixel in a buffer whose rows hold `width` pixels.
pub fn pixel_offset(width: u32, x: u32, y: u32) -> (r: Result<usize, RsnipError>)
    ensures
        match r {
            Ok(offset) => offset == 4 * (y * width + x) && 4 * width <= usize::MAX,
            Err(error) => {
                ||| row_error(error, width)
                ||| 4 * width <= usize::MAX && 4 * (y * width + x) > usize::MAX && is_message(
                    error,
                    "pixel offset overflow"@,
                )
            },
        },
{
    let stride = row_len(width)?;
    assert(0 <= y * stride <= 0x4_0000_0000 * 0x1_0000_0000) by (nonlinear_arith)
        requires
            0 <= stride <= 0x4_0000_0000,
            0 <= y <= 0x1_0000_0000,
    ;
    let offset: u128 = y as u128 * stride as u128 + x as u128 * 4;
    assert(offset == 4 * (y * width + x)) by (nonlinear_arith)
        requires
            stride == 4 * width,
            offset == y * stride + x * 4,
    ;
    if offset > usize::MAX as u128 {
        return Err(message_error("pixel offset overflow"));
    }
    Ok(offset as usize)
}

// ---------------------------------------------------------------------------------------------
// Regions
// ---------------------------------------------------------------------------------------------

/// The message that refuses an empty region.
pub open spec fn empty_region_text(x: i32, y: i32, width: u32, height: u32) -> Seq<char> {
    "capture region must be non-empty, got "@ + decimal(width as nat) + "x"@ + decimal(
        height as nat,
    ) + " at "@ + signed_decimal(x as int) + ","@ + signed_decimal(y as int)
}

/// Why a region is refused.
pub open spec fn empty_region_error(
    error: RsnipError,
    x: i32,
    y: i32,
    width: u32,
    height: u32,
) -> bool {
    (width == 0 || height == 0) && is_message(error, empty_region_text(x, y, width, height))
}

impl CaptureRegion {
    /// The rectangle of a region.
    pub open spec fn spec_rect(self) -> ScreenRect {
        ScreenRect { x: self.x, y: self.y, width: self.width, height: self.height }
    }

    /// A region, unless it is empty.
    pub fn new(x: i32, y: i32, width: u32, height: u32) -> (r: Result<Self, RsnipError>)
        ensures
            match r {
                Ok(region) => width > 0 && height > 0 && region == (CaptureRegion {
                    x,
                    y,
                    width,
                    height,
                }),
                Err(error) => empty_region_error(error, x, y, width, height),
            },
    {
        if width == 0 || height == 0 {
            let mut message = "capture region must be non-empty, got ".to_owned();
            append_u64(&mut message, width as u64);
            message.append("x");
            append_u64(&mut message, height as u64);
            message.append(" at ");
            append_i32(&mut message, x);
            message.append(",");
            append_i32(&mut message, y);
            return Err(RsnipError::Message(message));
        }
        Ok(CaptureRegion { x, y, width, height })
    }

    /// The right edge.
    pub fn right(self) -> (r: i32)
        ensures
            r == far_edge(self.x, self.width),
    {
        far_edge_of(self.x, self.width)
    }

    /// The bottom edge.
    pub fn bottom(self) -> (r: i32)
        ensures
            r == far_edge(self.y, self.height),
    {
        far_edge_of(self.y, self.height)
    }

    /// The rectangle of the region.
    pub fn rect(self) -> (r: ScreenRect)
        ensures
            r == self.spec_rect(),
    {
        ScreenRect { x: self.x, y: self.y, width: self.width, height: self.height }
    }
}

/// How a region is written in messages.
pub open spec fn region_text(region: CaptureRegion) -> Seq<char> {
    "CaptureRegion { x: "@ + signed_decimal(region.x as int) + ", y: "@ + signed_decimal(
        region.y as int,
    ) + ", width: "@ + decimal(region.width as nat) + ", height: "@ + decimal(
        region.height as nat,
    ) + " }"@
}

/// Writes a region for a message.
pub fn describe_region(region: CaptureRegion) -> (r: String)
    ensures
        r@ == region_text(region),
{
    let mut text = "CaptureRegion { x: ".to_owned();
    append_i32(&mut text, region.x);
    text.append(", y: ");
    append_i32(&mut text, region.y);
    text.append(", width: ");
    append_u64(&mut text, region.width as u64);
    text.append(", height: ");
    append_u64(&mut text, region.height as u64);
    text.append(" }");
    text
}

// ---------------------------------------------------------------------------------------------
// Images
// ---------------------------------------------------------------------------------------------

/// Why a point has no position in an image.
pub open spec fn offset_error(image: CapturedImage, x: i32, y: i32, error: RsnipError) -> bool {
    ||| !point_in_rect(image.spec_rect(), x as int, y as int) && is_message(
        error,
        "point "@ + signed_decimal(x as int) + ","@ + signed_decimal(y as int)
            + " is outside captured image "@ + decimal(image.width as nat) + "x"@ + decimal(
            image.height as nat,
        ) + " at "@ + signed_decimal(image.origin_x as int) + ","@ + signed_decimal(
            image.origin_y as int,
        ),
    )
    ||| point_in_rect(image.spec_rect(), x as int, y as int) && row_error(error, image.width)
    ||| point_in_rect(image.spec_rect(), x as int, y as int) && 4 * image.width <= usize::MAX && 4
        * ((y - image.origin_y) * image.width + (x - image.origin_x)) > usize::MAX && is_message(
        error,
        "pixel offset overflow"@,
    )
}

/// Whether the columns and rows of a region are columns and rows of an image.
pub open spec fn region_inside(image: CapturedImage, region: CaptureRegion) -> bool {
    &&& 0 <= region.x - image.origin_x <= i32::MAX
    &&& 0 <= region.y - image.origin_y <= i32::MAX
    &&& region.x - image.origin_x + region.width <= image.width
    &&& region.y - image.origin_y + region.height <= image.height
}

/// Why an image cannot be cut down to a region.
pub open spec fn crop_error(image: CapturedImage, region: CaptureRegion, error: RsnipError) -> bool {
    ||| !rect_in_rect(image.spec_rect(), region.spec_rect()) && is_message(
        error,
        "crop region "@ + region_text(region) + " is outside captured image "@ + region_text(
            image.full_region_spec(),
        ),
    )
    ||| rect_in_rect(image.spec_rect(), region.spec_rect()) && if too_large(
        region.width,
        region.height,
    ) {
        buffer_error(error, region.width, region.height)
    } else {
        (region.width == 0 || region.height == 0) && dimension_error(
            error,
            region.width,
            region.height,
        )
    }
}

/// Whether an image can be cut down to a region or the region is refused: where it is not outside
/// the image by its edges, its columns and rows are columns and rows of the image, or it is too
/// large for any image, or it has no rows.
pub open spec fn crop_admitted(image: CapturedImage, region: CaptureRegion) -> bool {
    rect_in_rect(image.spec_rect(), region.spec_rect()) ==> {
        ||| region_inside(image, region)
        ||| too_large(region.width, region.height)
        ||| region.height == 0 && region.x - image.origin_x <= i32::MAX && region.y
            - image.origin_y <= i32::MAX
    }
}

/// Whether an image is the part of another one that a region covers.
pub open spec fn is_cropped(image: CapturedImage, region: CaptureRegion, part: CapturedImage) -> bool {
    &&& part.wf()
    &&& part.full_region_spec() == region
    &&& forall|x: int, y: int|
        0 <= x < region.width && 0 <= y < region.height ==> #[trigger] pixel_bytes(
            part.bgra@,
            region.width as int,
            x,
            y,
        ) == pixel_bytes(
            image.bgra@,
            image.width as int,
            x + region.x - image.origin_x,
            y + region.y - image.origin_y,
        )
}

impl CapturedImage {
    /// Whether the buffer holds exactly the pixels of a non-empty image.
    pub open spec fn wf(self) -> bool {
        &&& self.width > 0
        &&& self.height > 0
        &&& self.bgra@.len() == 4 * self.width * self.height
    }

    /// The rectangle that the image shows.
    pub open spec fn spec_rect(self) -> ScreenRect {
        ScreenRect {
            x: self.origin_x,
            y: self.origin_y,
            width: self.width,
            height: self.height,
        }
    }

    /// The region that the image shows.
    pub open spec fn full_region_spec(self) -> CaptureRegion {
        CaptureRegion {
            x: self.origin_x,
            y: self.origin_y,
            width: self.width,
            height: self.height,
        }
    }

    /// The bytes of the pixel at a point of the virtual desktop.
    pub open spec fn pixel_at(self, x: int, y: int) -> Seq<u8> {
        pixel_bytes(self.bgra@, self.width as int, x - self.origin_x, y - self.origin_y)
    }

    /// An image of the given size, unless it is empty or the buffer has another length.
    pub fn new(origin_x: i32, origin_y: i32, width: u32, height: u32, bgra: Vec<u8>) -> (r: Result<
        Self,
        RsnipError,
    >)
        ensures
            match r {
                Ok(image) => {
                    &&& image.wf()
                    &&& image.origin_x == origin_x && image.origin_y == origin_y
                    &&& image.width == width && image.height == height
                    &&& image.bgra@ == bgra@
                },
                Err(error) => {
                    ||| dimension_error(error, width, height)
                    ||| width > 0 && height > 0 && 4 * width * height <= usize::MAX && bgra@.len()
                        != 4 * width * height && is_message(
                        error,
                        "invalid BGRA buffer length: got "@ + decimal(bgra@.len()) + ", expected "@
                            + decimal((4 * width * height) as nat) + " for "@ + decimal(
                            width as nat,
                        ) + "x"@ + decimal(height as nat),
                    )
                },
            },
    {
        validate_dimensions(width, height)?;
        let expected = buffer_len(width, height)?;
        if bgra.len() != expected {
            let mut message = "invalid BGRA buffer length: got ".to_owned();
            append_u64(&mut message, bgra.len() as u64);
            message.append(", expected ");
            append_u64(&mut message, expected as u64);
            message.append(" for ");
            append_u64(&mut message, width as u64);
            message.append("x");
            append_u64(&mut message, height as u64);
            return Err(RsnipError::Message(message));
        }
        Ok(CapturedImage { origin_x, origin_y, width, height, bgra })
    }

    /// The region that the image shows.
    pub fn full_region(&self) -> (r: CaptureRegion)
        ensures
            r == self.full_region_spec(),
    {
        CaptureRegion {
            x: self.origin_x,
            y: self.origin_y,
            width: self.width,
            height: self.height,
        }
    }

    /// The rectangle that the image shows.
    pub fn rect(&self) -> (r: ScreenRect)
        ensures
            r == self.spec_rect(),
    {
        ScreenRect {
            x: self.origin_x,
            y: self.origin_y,
            width: self.width,
            height: self.height,
        }
    }

    /// The right edge.
    pub fn right(&self) -> (r: i32)
        ensures
            r == far_edge(self.origin_x, self.width),
    {
        far_edge_of(self.origin_x, self.width)
    }

    /// The bottom edge.
    pub fn bottom(&self) -> (r: i32)
        ensures
            r == far_edge(self.origin_y, self.height),
    {
        far_edge_of(self.origin_y, self.height)
    }

    /// The position in the buffer of the pixel at a point of the virtual desktop.
    pub fn offset_for_virtual_point(&self, x: i32, y: i32) -> (r: Result<usize, RsnipError>)
        ensures
            match r {
                Ok(offset) => {
                    &&& point_in_rect(self.spec_rect(), x as int, y as int)
                    &&& offset == 4 * ((y - self.origin_y) * self.width + (x - self.origin_x))
                },
                Err(error) => offset_error(*self, x, y, error),
            },
    {
        if x < self.origin_x || y < self.origin_y || x >= self.right() || y >= self.bottom() {
            let mut message = "point ".to_owned();
            append_i32(&mut message, x);
            message.append(",");
            append_i32(&mut message, y);
            message.append(" is outside captured image ");
            append_u64(&mut message, self.width as u64);
            message.append("x");
            append_u64(&mut message, self.height as u64);
            message.append(" at ");
            append_i32(&mut message, self.origin_x);
            message.append(",");
            append_i32(&mut message, self.origin_y);
            return Err(RsnipError::Message(message));
        }
        let local_x = (x - self.origin_x) as u32;
        let local_y = (y - self.origin_y) as u32;
        pixel_offset(self.width, local_x, local_y)
    }

    /// Tells whether the image can be cut down to a region or the region is refused.
    pub fn admits_crop(&self, region: CaptureRegion) -> (r: bool)
        ensures
            r == crop_admitted(*self, region),
    {
        let dx = region.x as i64 - self.origin_x as i64;
        let dy = region.y as i64 - self.origin_y as i64;
        let inside = 0 <= dx && dx <= i32::MAX as i64 && 0 <= dy && dy <= i32::MAX as i64 && dx
            + region.width as i64 <= self.width as i64 && dy + region.height as i64
            <= self.height as i64;
        inside || !self.rect().contains_rect(region.rect()) || buffer_len(
            region.width,
            region.height,
        ).is_err() || (region.height == 0 && dx <= i32::MAX as i64 && dy <= i32::MAX as i64)
    }

    /// The part of the image that a region covers.
    pub fn crop(&self, region: CaptureRegion) -> (r: Result<CapturedImage, RsnipError>)
        requires
            self.wf(),
            crop_admitted(*self, region),
        ensures
            match r {
                Ok(part) => {
                    &&& region_inside(*self, region)
                    &&& rect_in_rect(self.spec_rect(), region.spec_rect())
                    &&& region.width > 0 && region.height > 0
                    &&& is_cropped(*self, region, part)
                },
                Err(error) => crop_error(*self, region, error),
            },
    {
        if !self.rect().contains_rect(region.rect()) {
            let mut message = "crop region ".to_owned();
            message.append(describe_region(region).as_str());
            message.append(" is outside captured image ");
            message.append(describe_region(self.full_region()).as_str());
            return Err(RsnipError::Message(message));
        }
        let _ = buffer_len(region.width, region.height)?;
        validate_dimensions(region.width, region.height)?;
        let source_x = (region.x - self.origin_x) as u32;
        let source_y = (region.y - self.origin_y) as u32;
        proof {
            lemma_sub_image_len(
                self.width as int,
                self.height as int,
                region.width as int,
                region.height as int,
            );
        }
        let cropped = copy_sub_image(
            &self.bgra,
            self.width,
            self.height,
            source_x,
            source_y,
            region.width,
            region.height,
        );
        assert(4 * region.width * region.height <= self.bgra.len());
        CapturedImage::new(region.x, region.y, region.width, region.height, cropped)
    }
}

/// A part of an image takes no more bytes than the image.
pub proof fn lemma_sub_image_len(width: int, height: int, part_width: int, part_height: int)
    requires
        0 <= part_width <= width,
        0 <= part_height <= height,
    ensures
        0 <= 4 * part_width * part_height <= 4 * width * height,
        part_height > 0 ==> 4 * part_width <= 4 * width * height,
{
    if part_height > 0 {
        assert(part_width <= width * height) by (nonlinear_arith)
            requires
                0 <= part_width <= width,
                0 < height,
        ;
    }
    assert(0 <= part_width * part_height <= width * height) by (nonlinear_arith)
        requires
            0 <= part_width <= width,
            0 <= part_height <= height,
    ;
    assert(4 * part_width * part_height == 4 * (part_width * part_height)) by (nonlinear_arith);
    assert(4 * width * height == 4 * (width * height)) by (nonlinear_arith);
}

/// The position from which a byte of a part of an image is taken.
pub open spec fn sub_image_source(width: int, x: int, y: int, part_width: int, index: int) -> int {
    (y + index / (4 * part_width)) * (4 * width) + 4 * x + index % (4 * part_width)
}

/// Copies the pixels of a part of an image, row by row.
pub fn copy_sub_image(
    pixels: &Vec<u8>,
    width: u32,
    height: u32,
    x: u32,
    y: u32,
    part_width: u32,
    part_height: u32,
) -> (out: Vec<u8>)
    requires
        pixels@.len() == 4 * width * height,
        part_width > 0,
        x + part_width <= width,
        y + part_height <= height,
    ensures
        out@.len() == 4 * part_width * part_height,
        forall|px: int, py: int|
            0 <= px < part_width && 0 <= py < part_height ==> #[trigger] pixel_bytes(
                out@,
                part_width as int,
                px,
                py,
            ) == pixel_bytes(pixels@, width as int, px + x, py + y),
{
    let mut out: Vec<u8> = Vec::new();
    if part_height == 0 {
        return out;
    }
    let ghost stride_spec = 4 * width as int;
    proof {
        assert(pixels@.len() == height * stride_spec) by (nonlinear_arith)
            requires
                pixels@.len() == 4 * width * height,
                stride_spec == 4 * width as int,
        ;
        lemma_position_bound(0, height as int, stride_spec, 0);
    }
    let total: usize = pixels.len();
    let stride: usize = width as usize * 4;
    let part_stride: usize = part_width as usize * 4;
    let left: usize = x as usize * 4;
    let mut row: u32 = 0;
    while row < part_height
        invariant
            row <= part_height,
            y + part_height <= height,
            stride == 4 * width,
            part_stride == 4 * part_width,
            left == 4 * x,
            x + part_width <= width,
            part_width > 0,
            pixels@.len() == height * stride,
            total == pixels@.len(),
            out@.len() == row * part_stride,
            forall|i: int|
                0 <= i < out@.len() ==> #[trigger] out@[i] == pixels@[sub_image_source(
                    width as int,
                    x as int,
                    y as int,
                    part_width as int,
                    i,
                )],
        decreases part_height - row,
    {
        proof {
            lemma_position_bound((y + row) as int, height as int, stride as int, 0);
            lemma_position_bound(row as int, part_height as int, part_stride as int, 0);
        }
        let start: usize = (y + row) as usize * stride + left;
        let mut k: usize = 0;
        while k < part_stride
            invariant
                k <= part_stride,
                row < part_height,
                y + part_height <= height,
                stride == 4 * width,
                part_stride == 4 * part_width,
                left == 4 * x,
                x + part_width <= width,
                pixels@.len() == height * stride,
                total == pixels@.len(),
                start == (y + row) * stride + left,
                start + part_stride <= pixels@.len(),
                out@.len() == row * part_stride + k,
                forall|i: int|
                    0 <= i < out@.len() ==> #[trigger] out@[i] == pixels@[sub_image_source(
                        width as int,
                        x as int,
                        y as int,
                        part_width as int,
                        i,
                    )],
            decreases part_stride - k,
        {
            proof {
                lemma_row_position(row as int, part_stride as int, k as int);
            }
            out.push(pixels[start + k]);
            k += 1;
        }
        row += 1;
    }
    proof {
        assert(4 * part_width * part_height == part_height * part_stride) by (nonlinear_arith)
            requires
                part_stride == 4 * part_width,
        ;
        assert forall|px: int, py: int|
            0 <= px < part_width && 0 <= py < part_height implies #[trigger] pixel_bytes(
            out@,
            part_width as int,
            px,
            py,
        ) == pixel_bytes(pixels@, width as int, px + x, py + y) by {
            lemma_pixel_start(part_width as int, part_height as int, px, py);
            lemma_pixel_start(width as int, height as int, px + x, py + y);
            assert forall|c: int| 0 <= c < 4 implies #[trigger] pixel_bytes(
                out@,
                part_width as int,
                px,
                py,
            )[c] == pixel_bytes(pixels@, width as int, px + x, py + y)[c] by {
                lemma_row_position(py, part_stride as int, 4 * px + c);
            }
            assert(pixel_bytes(out@, part_width as int, px, py) =~= pixel_bytes(
                pixels@,
                width as int,
                px + x,
                py + y,
            ));
        }
    }
    out
}

/// Where the bytes of a pixel start, counted in whole rows.
pub proof fn lemma_pixel_start(width: int, height: int, x: int, y: int)
    requires
        0 <= x < width,
        0 <= y < height,
    ensures
        4 * (y * width + x) == y * (4 * width) + 4 * x,
        0 <= 4 * (y * width + x),
        4 * (y * width + x) + 4 <= 4 * width * height,
{
    lemma_position_bound(y, height, width, x);
    assert(4 * (y * width + x) == y * (4 * width) + 4 * x) by (nonlinear_arith);
    assert(4 * width * height == 4 * (height * width)) by (nonlinear_arith);
}

// ---------------------------------------------------------------------------------------------
// Laws of cropping
// ---------------------------------------------------------------------------------------------

/// Whether no edge of an image leaves the range of coordinates.
pub open spec fn image_fits(image: CapturedImage) -> bool {
    rect_fits(image.spec_rect())
}

/// Where no edge leaves the range of coordinates, a region that is not refused covers only columns
/// and rows of the image.
pub proof fn law_contained_region_is_inside(image: CapturedImage, region: CaptureRegion)
    requires
        image_fits(image),
        rect_fits(region.spec_rect()),
        rect_in_rect(image.spec_rect(), region.spec_rect()),
    ensures
        region_inside(image, region),
{
}

/// A cropped image shows, at each point of its region, what the image shows there.
pub proof fn law_crop_keeps_pixels(
    image: CapturedImage,
    region: CaptureRegion,
    part: CapturedImage,
    x: int,
    y: int,
)
    requires
        is_cropped(image, region, part),
        region.x <= x < region.x + region.width,
        region.y <= y < region.y + region.height,
    ensures
        part.pixel_at(x, y) == image.pixel_at(x, y),
{
    assert(pixel_bytes(part.bgra@, region.width as int, x - region.x, y - region.y) == pixel_bytes(
        image.bgra@,
        image.width as int,
        x - region.x + region.x - image.origin_x,
        y - region.y + region.y - image.origin_y,
    ));
}

/// Each byte of a cropped image is the byte of the same channel of the pixel that the image has at
/// the same place of the desktop.
pub proof fn law_crop_copies_every_byte(
    image: CapturedImage,
    region: CaptureRegion,
    part: CapturedImage,
    x: int,
    y: int,
    channel: int,
)
    requires
        image.wf(),
        region_inside(image, region),
        is_cropped(image, region, part),
        0 <= x < region.width,
        0 <= y < region.height,
        0 <= channel < 4,
    ensures
        part.width == region.width && part.height == region.height,
        part.origin_x == region.x && part.origin_y == region.y,
        part.bgra@.len() == 4 * part.width * part.height,
        part.bgra@[4 * (y * part.width + x) + channel] == image.bgra@[4 * ((y + (region.y
            - image.origin_y)) * image.width + (x + (region.x - image.origin_x))) + channel],
{
    let (column, row) = (x + region.x - image.origin_x, y + region.y - image.origin_y);
    lemma_position_bound(y, region.height as int, region.width as int, x);
    lemma_position_bound(row, image.height as int, image.width as int, column);
    assert(4 * image.width * image.height == 4 * (image.height * image.width)) by (nonlinear_arith);
    assert(4 * part.width * part.height == 4 * (part.height * part.width)) by (nonlinear_arith);
    let kept = pixel_bytes(part.bgra@, region.width as int, x, y);
    let source = pixel_bytes(image.bgra@, image.width as int, column, row);
    assert(kept[channel] == part.bgra@[4 * (y * part.width + x) + channel]);
    assert(source[channel] == image.bgra@[4 * (row * image.width + column) + channel]);
}

/// Cropping twice is cropping once to the smaller region.
pub proof fn law_crop_of_crop(
    image: CapturedImage,
    outer: CaptureRegion,
    part: CapturedImage,
    inner: CaptureRegion,
    smaller: CapturedImage,
)
    requires
        is_cropped(image, outer, part),
        region_inside(part, inner),
        is_cropped(part, inner, smaller),
    ensures
        is_cropped(image, inner, smaller),
{
    assert forall|x: int, y: int|
        0 <= x < inner.width && 0 <= y < inner.height implies #[trigger] pixel_bytes(
        smaller.bgra@,
        inner.width as int,
        x,
        y,
    ) == pixel_bytes(
        image.bgra@,
        image.width as int,
        x + inner.x - image.origin_x,
        y + inner.y - image.origin_y,
    ) by {
        law_crop_keeps_pixels(part, inner, smaller, x + inner.x, y + inner.y);
        law_crop_keeps_pixels(image, outer, part, x + inner.x, y + inner.y);
    }
}

/// Cropping to the whole region gives the image back.
pub proof fn law_crop_to_full_region(image: CapturedImage, part: CapturedImage)
    requires
        image.wf(),
        is_cropped(image, image.full_region_spec(), part),
    ensures
        part.bgra@ == image.bgra@,
{
    let width = image.width as int;
    let height = image.height as int;
    assert forall|i: int| 0 <= i < image.bgra@.len() implies #[trigger] part.bgra@[i]
        == image.bgra@[i] by {
        let pixel = i / 4;
        let x = pixel % width;
        let y = pixel / width;
        lemma_fundamental_div_mod(pixel, width);
        lemma_pixel_row(pixel, width, height);
        law_crop_keeps_pixels(
            image,
            image.full_region_spec(),
            part,
            x + image.origin_x,
            y + image.origin_y,
        );
        lemma_pixel_start(width, height, x, y);
        assert(y * width == width * y) by (nonlinear_arith);
        assert(part.pixel_at(x + image.origin_x, y + image.origin_y)[i % 4] == part.bgra@[i]);
        assert(image.pixel_at(x + image.origin_x, y + image.origin_y)[i % 4] == image.bgra@[i]);
    }
}

/// The row of a pixel of an image stands below its height.
pub proof fn lemma_pixel_row(pixel: int, width: int, height: int)
    requires
        width > 0,
        0 <= pixel,
        4 * pixel < 4 * width * height,
    ensures
        0 <= pixel % width < width,
        0 <= pixel / width < height,
{
    assert(0 <= pixel % width < width && 0 <= pixel / width < height) by (nonlinear_arith)
        requires
            width > 0,
            0 <= pixel,
            4 * pixel < 4 * width * height,
    ;
}

// ---------------------------------------------------------------------------------------------
// Capturing
// ---------------------------------------------------------------------------------------------

/// The layout of a bitmap whose rows are copied.
#[derive(Debug, Clone, Copy, PartialEq, Eq, Structural)]
pub struct BitmapLayout {
    pub header_size: u32,
    pub width: i32,
    pub height: i32,
    pub planes: u16,
    pub bit_count: u16,
    pub compression: u32,
}

/// The layout of a bitmap of 32 bits a pixel without compression; the negative height puts the top
/// row first.
pub fn top_down_bgra_bitmap_info(width: i32, height: i32) -> (r: BitmapLayout)
    requires
        height > i32::MIN,
    ensures
        r == (BitmapLayout {
            header_size: 40,
            width,
            height: (-height) as i32,
            planes: 1,
            bit_count: 32,
            compression: 0,
        }),
{
    BitmapLayout { header_size: 40, width, height: -height, planes: 1, bit_count: 32, compression: 0 }
}

/// Why the graphics system is not asked for an image of this size.
pub open spec fn surface_error(error: RsnipError, width: u32, height: u32) -> bool {
    ||| width > i32::MAX && is_message(
        error,
        "capture width too large: "@ + decimal(width as nat),
    )
    ||| width <= i32::MAX && height > i32::MAX && is_message(
        error,
        "capture height too large: "@ + decimal(height as nat),
    )
}

/// The size of a region as the graphics system takes it.
pub fn surface_size(region: CaptureRegion) -> (r: Result<(i32, i32), RsnipError>)
    ensures
        match r {
            Ok(size) => size.0 == region.width && size.1 == region.height,
            Err(error) => surface_error(error, region.width, region.height),
        },
{
    if region.width > i32::MAX as u32 {
        let mut message = "capture width too large: ".to_owned();
        append_u64(&mut message, region.width as u64);
        return Err(RsnipError::Message(message));
    }
    if region.height > i32::MAX as u32 {
        let mut message = "capture height too large: ".to_owned();
        append_u64(&mut message, region.height as u64);
        return Err(RsnipError::Message(message));
    }
    Ok((region.width as i32, region.height as i32))
}

/// Why the rows that were copied do not make an image of a region.
pub open spec fn capture_error(region: CaptureRegion, rows: CopiedRows, error: RsnipError) -> bool {
    ||| surface_error(error, region.width, region.height)
    ||| region.width <= i32::MAX && region.height <= i32::MAX && {
        ||| buffer_error(error, region.width, region.height)
        ||| 4 * region.width * region.height <= usize::MAX && 4 * region.width <= usize::MAX && {
            ||| (rows.scan_lines == 0 || rows.scan_lines != region.height) && is_message(
                error,
                "GetDIBits failed or returned partial data: "@ + signed_decimal(
                    rows.scan_lines as int,
                ) + "/"@ + signed_decimal(region.height as int),
            )
            ||| rows.scan_lines != 0 && rows.scan_lines == region.height && {
                ||| region.width == 0 && dimension_error(error, region.width, region.height)
                ||| region.width > 0 && rows.bgra@.len() != 4 * region.width * region.height
                    && is_message(
                    error,
                    "invalid BGRA buffer length: got "@ + decimal(rows.bgra@.len())
                        + ", expected "@ + decimal((4 * region.width * region.height) as nat)
                        + " for "@ + decimal(region.width as nat) + "x"@ + decimal(
                        region.height as nat,
                    ),
                )
            }
        }
    }
}

/// A region of an image that lies in it and is not empty is never refused, and neither is a point of
/// the image.
pub proof fn law_parts_of_an_image_are_accepted(
    image: CapturedImage,
    region: CaptureRegion,
    x: i32,
    y: i32,
    error: RsnipError,
)
    requires
        image.wf(),
        image.bgra@.len() <= usize::MAX,
        image_fits(image),
        region.width > 0,
        region.height > 0,
        image.origin_x <= region.x,
        region.x + region.width <= image.origin_x + image.width,
        image.origin_y <= region.y,
        region.y + region.height <= image.origin_y + image.height,
        image.origin_x <= x < image.origin_x + image.width,
        image.origin_y <= y < image.origin_y + image.height,
    ensures
        !crop_error(image, region, error),
        crop_admitted(image, region),
        !offset_error(image, x, y, error),
{
    lemma_sub_image_len(
        image.width as int,
        image.height as int,
        region.width as int,
        region.height as int,
    );
    assert(4 * image.width <= 4 * image.width * image.height) by (nonlinear_arith)
        requires
            0 < image.width,
            0 < image.height,
    ;
    lemma_position_bound(
        y - image.origin_y,
        image.height as int,
        image.width as int,
        x - image.origin_x,
    );
    assert(4 * image.width * image.height == 4 * (image.height * image.width)) by (nonlinear_arith);
}

/// Rows that were copied in full make an image: a region that can be captured is never refused.
pub proof fn law_complete_rows_are_accepted(
    region: CaptureRegion,
    rows: CopiedRows,
    error: RsnipError,
)
    requires
        0 < region.width <= i32::MAX,
        0 < region.height <= i32::MAX,
        rows.scan_lines == region.height,
        rows.bgra@.len() == 4 * region.width * region.height,
        rows.bgra@.len() <= usize::MAX,
    ensures
        !surface_error(error, region.width, region.height),
        !capture_error(region, rows, error),
{
    assert(4 * region.width <= 4 * region.width * region.height) by (nonlinear_arith)
        requires
            0 < region.width,
            0 < region.height,
    ;
}

/// The image of a region from the rows that the graphics system copied.
pub fn capture_region_gdi(region: CaptureRegion, rows: CopiedRows) -> (r: Result<
    CapturedImage,
    RsnipError,
>)
    ensures
        match r {
            Ok(image) => {
                &&& image.wf()
                &&& image.full_region_spec() == region
                &&& image.bgra@ == rows.bgra@
                &&& rows.scan_lines == region.height
            },
            Err(error) => capture_error(region, rows, error),
        },
{
    let size = surface_size(region)?;
    let _ = buffer_len(region.width, region.height)?;
    if rows.scan_lines == 0 || rows.scan_lines != size.1 {
        let mut message = "GetDIBits failed or returned partial data: ".to_owned();
        append_i32(&mut message, rows.scan_lines);
        message.append("/");
        append_i32(&mut message, size.1);
        return Err(RsnipError::Message(message));
    }
    CapturedImage::new(region.x, region.y, region.width, region.height, rows.bgra)
}

/// The capture of a region: its image and how long it took.
pub fn capture_region(region: CaptureRegion, rows: CopiedRows, elapsed: Elapsed) -> (r: Result<
    ScreenCapture,
    RsnipError,
>)
    ensures
        match r {
            Ok(capture) => {
                &&& capture.image.wf()
                &&& capture.image.full_region_spec() == region
                &&& capture.image.bgra@ == rows.bgra@
                &&& rows.scan_lines == region.height
                &&& capture.metrics.elapsed == elapsed
            },
            Err(error) => capture_error(region, rows, error),
        },
{
    let image = capture_region_gdi(region, rows)?;
    Ok(ScreenCapture { image, metrics: CaptureMetrics { elapsed } })
}

/// The region that covers the virtual desktop.
pub fn capture_virtual_screen(screen: VirtualScreen) -> (r: Result<CaptureRegion, RsnipError>)
    ensures
        match r {
            Ok(region) => screen.width > 0 && screen.height > 0 && region == (CaptureRegion {
                x: screen.x,
                y: screen.y,
                width: screen.width,
                height: screen.height,
            }),
            Err(error) => empty_region_error(
                error,
                screen.x,
                screen.y,
                screen.width,
                screen.height,
            ),
        },
{
    CaptureRegion::new(screen.x, screen.y, screen.width, screen.height)
}

} // verus!
