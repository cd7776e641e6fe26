//! Preparing a captured RGBA frame for the H.264 encoder.
//!
//! The encoder takes YUV 4:2:0, which needs even dimensions, and at most
//! 3840×2160. A frame is checked, cut down to even width and height (the
//! last column and row of an odd frame are dropped) and copied row by row
//! into a tight buffer, turned upside down when it was read bottom-up
//! (`glReadPixels`).

use vstd::prelude::*;
use crate::text::{decimal, push_decimal};

verus! {

/// The largest multiple of two not above `n`.
pub open spec fn even_floor(n: u32) -> int {
    n - n % 2
}

/// `W x H` as text.
pub open spec fn dims_text(w: u32, h: u32) -> Seq<char> {
    decimal(w as nat) + "x"@ + decimal(h as nat)
}

/// Why a frame of `len` bytes and `w`×`h` pixels cannot be encoded.
pub open spec fn frame_problem(len: nat, w: u32, h: u32) -> Option<Seq<char>> {
    if w == 0 || h == 0 {
        Some("[h264] invalid dimensions "@ + dims_text(w, h))
    } else if w > 3840 || h > 2160 {
        Some("[h264] resolution "@ + dims_text(w, h) + " exceeds OpenH264 max"@)
    } else if even_floor(w) == 0 || even_floor(h) == 0 {
        Some("[h264] resolution too small "@ + dims_text(w, h))
    } else if len < w * h * 4 {
        Some(
            "[h264] rgba buffer too small: "@ + decimal(len) + " < "@ + decimal((w * h * 4) as nat) + " ("@ + dims_text(w, h)
                + ")"@,
        )
    } else {
        None
    }
}

/// The source row of output row `y`.
pub open spec fn source_row(y: int, h: u32, flip_y: bool) -> int {
    if flip_y {
        h - 1 - y
    } else {
        y
    }
}

/// The rows of the prepared frame: for each of the first `even_floor(h)`
/// output rows, the first `even_floor(w)` pixels of its source row.
pub open spec fn frame_rows(rgba: Seq<u8>, w: u32, h: u32, flip_y: bool) -> Seq<Seq<u8>> {
    Seq::new(
        even_floor(h) as nat,
        |y: int| rgba.subrange(source_row(y, h, flip_y) * (w * 4), source_row(y, h, flip_y) * (w * 4) + even_floor(w) * 4),
    )
}

/// A frame ready for the encoder: tightly packed RGBA rows of even size.
#[derive(Debug, Clone, PartialEq, Eq)]
pub struct Frame {
    pub data: Vec<u8>,
    pub width: u32,
    pub height: u32,
}

fn dims(out: &mut String, w: u32, h: u32)
    ensures
        final(out)@ == old(out)@ + dims_text(w, h),
{
    push_decimal(out, w as u64);
    out.append("x");
    push_decimal(out, h as u64);
    assert(final(out)@ =~= old(out)@ + dims_text(w, h));
}

/// Checks, crops and packs a frame (see [`frame_problem`] and [`frame_rows`]).
pub fn prepare_frame(rgba: &[u8], width: u32, height: u32, flip_y: bool) -> (res: Result<Frame, String>)
    ensures
        match res {
            Ok(f) => {
                &&& frame_problem(rgba@.len(), width, height) is None
                &&& f.width == even_floor(width)
                &&& f.height == even_floor(height)
                &&& f.data@ == frame_rows(rgba@, width, height, flip_y).flatten()
                &&& f.data@.len() == f.width * f.height * 4
            },
            Err(m) => frame_problem(rgba@.len(), width, height) == Some(m@),
        },
{
    if width == 0 || height == 0 {
        let mut m = String::from_str("[h264] invalid dimensions ");
        dims(&mut m, width, height);
        return Err(m);
    }
    if width > 3840 || height > 2160 {
        let mut m = String::from_str("[h264] resolution ");
        dims(&mut m, width, height);
        m.append(" exceeds OpenH264 max");
        return Err(m);
    }
    let enc_w = width - width % 2;
    let enc_h = height - height % 2;
    if enc_w == 0 || enc_h == 0 {
        let mut m = String::from_str("[h264] resolution too small ");
        dims(&mut m, width, height);
        return Err(m);
    }
    let src_stride = width as usize * 4;
    assert(height * src_stride <= 2160 * (3840 * 4)) by (nonlinear_arith)
        requires
            height <= 2160,
            src_stride == width * 4,
            width <= 3840,
    ;
    let needed = height as usize * src_stride;
    if rgba.len() < needed {
        let mut m = String::from_str("[h264] rgba buffer too small: ");
        push_decimal(&mut m, rgba.len() as u64);
        m.append(" < ");
        push_decimal(&mut m, needed as u64);
        m.append(" (");
        dims(&mut m, width, height);
        m.append(")");
        assert(needed == width * height * 4) by (nonlinear_arith)
            requires
                needed == height * src_stride,
                src_stride == width * 4,
        ;
        return Err(m);
    }
    assert(width * height * 4 <= rgba@.len()) by (nonlinear_arith)
        requires
            needed == height * src_stride,
            src_stride == width * 4,
            needed <= rgba@.len(),
    ;
    let row_bytes = enc_w as usize * 4;
    let ghost rows = frame_rows(rgba@, width, height, flip_y);
    let mut compact: Vec<u8> = Vec::new();
    let mut y: usize = 0;
    while y < enc_h as usize
        invariant
            rows == frame_rows(rgba@, width, height, flip_y),
            0 < enc_h <= height <= 2160,
            0 < enc_w <= width <= 3840,
            enc_h == even_floor(height),
            enc_w == even_floor(width),
            src_stride == width * 4,
            row_bytes == enc_w * 4,
            needed == height * src_stride,
            needed <= rgba@.len(),
            y <= enc_h,
            compact@ == rows.take(y as int).flatten(),
            compact@.len() == y * row_bytes,
        decreases enc_h - y,
    {
        let src_y: usize = if flip_y { height as usize - 1 - y } else { y };
        assert(src_y == source_row(y as int, height, flip_y));
        assert(src_y * src_stride + row_bytes <= needed) by (nonlinear_arith)
            requires
                src_y < height,
                row_bytes <= src_stride,
                needed == height * src_stride,
        ;
        let row_start = src_y * src_stride;
        let ghost before = compact@;
        let mut x: usize = 0;
        while x < row_bytes
            invariant
                row_start + row_bytes <= needed,
                needed <= rgba@.len(),
                x <= row_bytes,
                compact@ == before + rgba@.subrange(row_start as int, row_start + x),
            decreases row_bytes - x,
        {
            compact.push(rgba[row_start + x]);
            assert(rgba@.subrange(row_start as int, row_start + x + 1) =~= rgba@.subrange(
                row_start as int,
                row_start + x,
            ).push(rgba@[row_start + x]));
            assert(compact@ =~= before + rgba@.subrange(row_start as int, row_start + x + 1));
            x = x + 1;
        }
        proof {
            assert(rows[y as int] == rgba@.subrange(row_start as int, row_start + row_bytes));
            assert(rows.take(y + 1) =~= rows.take(y as int).push(rows[y as int]));
            rows.take(y as int).lemma_flatten_push(rows[y as int]);
            assert((y + 1) * row_bytes == y * row_bytes + row_bytes) by (nonlinear_arith);
        }
        y = y + 1;
    }
    assert(rows.take(enc_h as int) =~= rows);
    assert(enc_h * row_bytes == enc_w * enc_h * 4) by (nonlinear_arith)
        requires
            row_bytes == enc_w * 4,
    ;
    Ok(Frame { data: compact, width: enc_w, height: enc_h })
}

} // verus!
