//! Layout of the pixel buffer read back from the GPU.
//!
//! A texture copied into a buffer has each row padded to a multiple of 256
//! bytes; the image handed on is the rows packed back to back, 4 bytes per
//! RGBA pixel.
use vstd::prelude::*;

verus! {

/// The alignment of buffer rows, in bytes.
pub const ROW_ALIGNMENT: u32 = 256;

/// `4 * width` rounded up to a multiple of 256.
pub open spec fn padded_row_len(width: nat) -> nat {
    ((4 * width + 255) / 256 * 256) as nat
}

/// The bytes per buffer row for an image `width` pixels wide.
pub fn padded_bytes_per_row(width: u32) -> (r: u32)
    requires
        4 * width + 255 <= u32::MAX,
    ensures
        r == padded_row_len(width as nat),
        r % 256 == 0,
        4 * width <= r < 4 * width + 256,
{
    let x: u32 = width * 4 + 255;
    let r = x & !255u32;
    assert(x & !255u32 == x - x % 256) by (bit_vector);
    r
}

/// The pixels of row `y` of a buffer with rows of `stride` bytes.
pub open spec fn row_of(data: Seq<u8>, stride: nat, row_bytes: nat, y: int) -> Seq<u8> {
    data.subrange(y * stride, y * stride + row_bytes)
}

/// The `height` rows of `4 * width` bytes each, packed back to back.
pub open spec fn unpadded(data: Seq<u8>, width: nat, height: nat, stride: nat) -> Seq<u8> {
    Seq::new(height, |y: int| row_of(data, stride, 4 * width, y)).flatten()
}

/// The image bytes of a padded buffer: the first `4 * width` bytes of each
/// of its `height` rows.
pub fn unpad_rows(data: &[u8], width: u32, height: u32, stride: u32) -> (r: Vec<u8>)
    requires
        4 * width <= stride,
        height as int * stride as int <= data@.len(),
    ensures
        r@ == unpadded(data@, width as nat, height as nat, stride as nat),
        r@.len() == 4 * width * height,
{
    let ghost rows = Seq::new(height as nat, |y: int| row_of(data@, stride as nat, 4 * width as nat, y));
    let row_bytes: usize = width as usize * 4;
    let n: usize = data.len();
    let mut r: Vec<u8> = Vec::new();
    let mut y: usize = 0;
    while y < height as usize
        invariant
            4 * width <= stride,
            height as int * stride as int <= data@.len(),
            n == data@.len(),
            row_bytes == 4 * width,
            y <= height,
            rows == Seq::new(height as nat, |y: int| row_of(data@, stride as nat, 4 * width as nat, y)),
            r@ == rows.take(y as int).flatten(),
            r@.len() == y * row_bytes,
        decreases height - y,
    {
        proof {
            assert((y + 1) * stride <= height * stride) by (nonlinear_arith)
                requires
                    y < height,
            ;
            assert((y + 1) * stride == y * stride + stride) by (nonlinear_arith);
        }
        let start: usize = y * stride as usize;
        let ghost before = r@;
        let mut x: usize = 0;
        while x < row_bytes
            invariant
                x <= row_bytes,
                row_bytes <= stride,
                start == y * stride,
                start + stride <= n,
                n == data@.len(),
                r@ == before + data@.subrange(start as int, start + x),
            decreases row_bytes - x,
        {
            r.push(data[start + x]);
            proof {
                assert(data@.subrange(start as int, start + x + 1) =~= data@.subrange(start as int, start + x).push(
                    data@[start + x],
                ));
                assert(r@ =~= before + data@.subrange(start as int, start + x + 1));
            }
            x = x + 1;
        }
        proof {
            let row = rows[y as int];
            assert(row == data@.subrange(start as int, start + row_bytes));
            assert(rows.take(y + 1) =~= rows.take(y as int).push(row));
            rows.take(y as int).lemma_flatten_push(row);
            assert((y + 1) * row_bytes == y * row_bytes + row_bytes) by (nonlinear_arith);
        }
        y = y + 1;
    }
    proof {
        assert(rows.take(height as int) =~= rows);
        assert(height * row_bytes == 4 * width * height) by (nonlinear_arith)
            requires
                row_bytes == 4 * width,
        ;
    }
    r
}

} // verus!
