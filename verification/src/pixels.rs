//! Bytes of pixels: positions in a buffer and the order of the colour channels.
use crate::errors::{is_message, RsnipError};
use crate::text::{append_u64, decimal};
use vstd::arithmetic::div_mod::lemma_fundamental_div_mod_converse;
use vstd::prelude::*;

verus! {

/// The bytes of the pixel in column `x` of row `y`, in a buffer of four bytes a pixel.
pub open spec fn pixel_bytes(bytes: Seq<u8>, width: int, x: int, y: int) -> Seq<u8> {
    bytes.subrange(4 * (y * width + x), 4 * (y * width + x) + 4)
}

/// A position in a row of `stride` places determines the row and the place in it.
pub proof fn lemma_row_position(row: int, stride: int, place: int)
    requires
        0 <= place < stride,
    ensures
        (row * stride + place) / stride == row,
        (row * stride + place) % stride == place,
{
    lemma_fundamental_div_mod_converse(row * stride + place, stride, row, place);
}

/// A place in a row stands before the end of the rows.
pub proof fn lemma_position_bound(row: int, rows: int, stride: int, place: int)
    requires
        0 <= row < rows,
        0 <= place < stride,
    ensures
        0 <= row * stride + place < rows * stride,
        0 <= row * stride,
        (row + 1) * stride <= rows * stride,
        (row + 1) * stride == row * stride + stride,
{
    assert(0 <= row * stride) by (nonlinear_arith)
        requires
            0 <= row,
            0 <= stride,
    ;
    assert((row + 1) * stride <= rows * stride) by (nonlinear_arith)
        requires
            row + 1 <= rows,
            0 <= stride,
    ;
    assert((row + 1) * stride == row * stride + stride) by (nonlinear_arith);
}

/// The index from which the byte at `index` is taken when the first and the third channel of each
/// pixel trade places.
pub open spec fn swapped_index(index: int) -> int {
    if index % 4 == 0 {
        index + 2
    } else if index % 4 == 2 {
        index - 2
    } else {
        index
    }
}

/// The whole pixels of a buffer with the first and the third channel of each exchanged.
pub open spec fn swapped_channels(bytes: Seq<u8>) -> Seq<u8> {
    Seq::new((bytes.len() / 4 * 4) as nat, |i: int| bytes[swapped_index(i)])
}

/// Exchanging the channels twice gives back a buffer of whole pixels.
pub proof fn law_swapping_channels_twice_restores(bytes: Seq<u8>)
    requires
        bytes.len() % 4 == 0,
    ensures
        swapped_channels(swapped_channels(bytes)) == bytes,
{
    assert(swapped_channels(swapped_channels(bytes)) =~= bytes);
}

/// Exchanging channels moves the first byte of each pixel to the third place and back, and keeps
/// the second and the fourth.
pub proof fn law_swapping_exchanges_first_and_third(bytes: Seq<u8>, index: int)
    requires
        0 <= index < bytes.len() / 4,
    ensures
        swapped_channels(bytes).len() == bytes.len() - bytes.len() % 4,
        swapped_channels(bytes)[4 * index] == bytes[4 * index + 2],
        swapped_channels(bytes)[4 * index + 1] == bytes[4 * index + 1],
        swapped_channels(bytes)[4 * index + 2] == bytes[4 * index],
        swapped_channels(bytes)[4 * index + 3] == bytes[4 * index + 3],
{
}

/// Exchanges the first and the third channel of every whole pixel.
pub fn swap_channels(bytes: &[u8]) -> (r: Vec<u8>)
    ensures
        r@ == swapped_channels(bytes@),
{
    let mut out: Vec<u8> = Vec::new();
    let mut i: usize = 0;
    while bytes.len() - i >= 4
        invariant
            i <= bytes@.len(),
            i % 4 == 0,
            out@.len() == i,
            forall|k: int| 0 <= k < i ==> #[trigger] out@[k] == bytes@[swapped_index(k)],
        decreases bytes@.len() - i,
    {
        out.push(bytes[i + 2]);
        out.push(bytes[i + 1]);
        out.push(bytes[i]);
        out.push(bytes[i + 3]);
        i += 4;
    }
    assert(out@ =~= swapped_channels(bytes@));
    out
}

/// Turns BGRA bytes into RGBA bytes.
pub fn bgra_to_rgba(bgra: &[u8]) -> (r: Result<Vec<u8>, RsnipError>)
    ensures
        match r {
            Ok(rgba) => bgra@.len() % 4 == 0 && rgba@ == swapped_channels(bgra@),
            Err(error) => bgra@.len() % 4 != 0 && is_message(
                error,
                "BGRA buffer length must be divisible by 4, got "@ + decimal(bgra@.len()),
            ),
        },
{
    if bgra.len() % 4 != 0 {
        let mut message = "BGRA buffer length must be divisible by 4, got ".to_owned();
        append_u64(&mut message, bgra.len() as u64);
        return Err(RsnipError::Message(message));
    }
    Ok(swap_channels(bgra))
}

} // verus!
