use vstd::prelude::*;

verus! {

/// Bytes in a frame of `width` x `height` pixels at four bytes per pixel,
/// rows packed with no padding.
pub open spec fn spec_frame_len(width: u16, height: u16) -> int {
    width * height * 4
}

/// Byte size of the shared segment behind a pixmap of the given size;
/// `None` where it does not fit in a `usize`.
pub fn segment_len(width: u16, height: u16) -> (r: Option<usize>)
    ensures
        r matches Some(n) ==> n == spec_frame_len(width, height),
        r is None <==> spec_frame_len(width, height) > usize::MAX,
{
    let px = (width as usize).checked_mul(height as usize);
    match px {
        Some(p) => p.checked_mul(4),
        None => {
            assert(width * height * 4 > usize::MAX) by (nonlinear_arith)
                requires width * height > usize::MAX;
            None
        },
    }
}

/// The smallest multiple of `align` that is at least `row`.
pub open spec fn spec_align_up(row: int, align: int) -> int {
    if row % align == 0 { row } else { row - row % align + align }
}

/// Row stride of a readback of a frame `width` pixels wide, rounded up to the
/// copy alignment that the backend asks of rows.
pub fn padded_row_len(width: u16, align: u32) -> (r: u32)
    requires
        align > 0,
    ensures
        r == spec_align_up(width * 4, align as int),
{
    let row: u64 = width as u64 * 4;
    let a = align as u64;
    let rem = row % a;
    proof {
        vstd::arithmetic::div_mod::lemma_mod_decreases(row as nat, a as nat);
        if row < a {
            vstd::arithmetic::div_mod::lemma_small_mod(row as nat, a as nat);
        }
    }
    let padded: u64 = if rem == 0 { row } else { row - rem + a };
    padded as u32
}

/// A padded row is never shorter than the packed row, and each row adds at
/// most `align - 1` bytes of padding.
pub proof fn lemma_padded_row_covers(row: int, align: int)
    requires
        row >= 0,
        align > 0,
    ensures
        row <= spec_align_up(row, align) < row + align,
        spec_align_up(row, align) % align == 0,
{
    vstd::arithmetic::div_mod::lemma_fundamental_div_mod(row, align);
    if row % align != 0 {
        vstd::arithmetic::div_mod::lemma_mod_multiples_basic(row / align + 1, align);
        assert(row - row % align + align == align * (row / align + 1)) by (nonlinear_arith)
            requires row == align * (row / align) + row % align;
        assert((row / align + 1) * align == align * (row / align + 1)) by (nonlinear_arith);
    }
}

/// Byte length of a readback buffer with `height` rows of `stride` bytes.
pub fn readback_len(stride: u32, height: u16) -> (r: u64)
    ensures
        r == stride * height,
{
    assert(stride * height <= 4294967295 * 65535) by (nonlinear_arith)
        requires stride <= 4294967295u32, height <= 65535u16;
    stride as u64 * height as u64
}

/// A readback laid out with the padded stride holds at least the packed frame.
pub proof fn lemma_readback_holds_frame(width: u16, height: u16, align: u32)
    requires
        align > 0,
    ensures
        spec_align_up(width * 4, align as int) * height >= spec_frame_len(width, height),
{
    lemma_padded_row_covers(width * 4, align as int);
    let s = spec_align_up(width * 4, align as int);
    assert(s * height >= width * 4 * height) by (nonlinear_arith)
        requires s >= width * 4, height >= 0;
    assert(width * 4 * height == width * height * 4) by (nonlinear_arith);
}

/// Why a row copy was refused.
#[derive(Clone, Copy, Debug, PartialEq, Eq, Structural)]
pub enum CopyError {
    /// The source stride is shorter than a row.
    StrideTooSmall,
    /// The destination does not hold exactly `rows` packed rows.
    DestinationLength,
    /// The source ends before the last row does.
    SourceTooShort,
}

/// Bytes the source must hold for `rows` rows at `stride`, the last one
/// `row_len` bytes long.
pub open spec fn spec_source_needed(stride: int, row_len: int, rows: int) -> int {
    if rows == 0 { 0 } else { (rows - 1) * stride + row_len }
}

/// `dst` holds the first `row_len` bytes of each of `rows` rows of `src`,
/// packed one after another.
pub open spec fn spec_depadded(dst: Seq<u8>, src: Seq<u8>, stride: int, row_len: int, rows: int) -> bool {
    &&& dst.len() == row_len * rows
    &&& forall|r: int, c: int|
        0 <= r < rows && 0 <= c < row_len ==> #[trigger] dst[r * row_len + c] == #[trigger] src[r * stride + c]
}

/// The outcome a row copy owes for the given sizes.
pub open spec fn spec_copy_outcome(
    src_len: int,
    dst_len: int,
    stride: int,
    row_len: int,
    rows: int,
) -> Result<(), CopyError> {
    if stride < row_len {
        Err(CopyError::StrideTooSmall)
    } else if dst_len != row_len * rows {
        Err(CopyError::DestinationLength)
    } else if src_len < spec_source_needed(stride, row_len, rows) {
        Err(CopyError::SourceTooShort)
    } else {
        Ok(())
    }
}

/// Copies `rows` rows of `row_len` bytes from `src`, whose rows start `stride`
/// bytes apart, into `dst` with the padding stripped.
///
/// On an error `dst` is left as it was.
pub fn copy_rows(src: &[u8], stride: usize, dst: &mut [u8], row_len: usize, rows: usize) -> (r: Result<(), CopyError>)
    ensures
        r == spec_copy_outcome(src@.len() as int, old(dst)@.len() as int, stride as int, row_len as int, rows as int),
        r is Ok ==> spec_depadded(final(dst)@, src@, stride as int, row_len as int, rows as int),
        r is Err ==> final(dst)@ == old(dst)@,
{
    let src_len = src.len();
    let dst_len = dst.len();
    if stride < row_len {
        return Err(CopyError::StrideTooSmall);
    }
    let total = match row_len.checked_mul(rows) {
        Some(t) => t,
        None => return Err(CopyError::DestinationLength),
    };
    if dst_len != total {
        return Err(CopyError::DestinationLength);
    }
    if rows > 0 {
        let enough = match (rows - 1).checked_mul(stride) {
            Some(p) => match p.checked_add(row_len) {
                Some(n) => src_len >= n,
                None => false,
            },
            None => false,
        };
        if !enough {
            return Err(CopyError::SourceTooShort);
        }
    }
    let ghost rl = row_len as int;
    let ghost st = stride as int;
    let mut r: usize = 0;
    let mut src_off: usize = 0;
    let mut dst_off: usize = 0;
    while r < rows
        invariant
            stride >= row_len,
            st == stride as int,
            rl == row_len as int,
            dst@.len() == rl * rows,
            dst@.len() == dst_len,
            src@.len() == src_len,
            rows > 0 ==> src@.len() >= (rows - 1) * st + rl,
            r <= rows,
            r < rows ==> src_off == r * st,
            dst_off == r * rl,
            forall|q: int, c: int|
                0 <= q < r && 0 <= c < rl ==> #[trigger] dst@[q * rl + c] == #[trigger] src@[q * st + c],
        decreases rows - r,
    {
        assert((r + 1) * rl <= rl * rows) by (nonlinear_arith)
            requires r < rows, rl >= 0;
        assert(r * st + rl <= (rows - 1) * st + rl) by (nonlinear_arith)
            requires r <= rows - 1, st >= 0;
        let mut c: usize = 0;
        while c < row_len
            invariant
                stride >= row_len,
                st == stride as int,
                rl == row_len as int,
                dst@.len() == rl * rows,
                dst@.len() == dst_len,
                src@.len() == src_len,
                rows > 0 ==> src@.len() >= (rows - 1) * st + rl,
                r < rows,
                src_off == r * st,
                dst_off == r * rl,
                (r + 1) * rl <= rl * rows,
                r * st + rl <= (rows - 1) * st + rl,
                c <= row_len,
                forall|q: int, k: int|
                    0 <= q < r && 0 <= k < rl ==> #[trigger] dst@[q * rl + k] == #[trigger] src@[q * st + k],
                forall|k: int| 0 <= k < c ==> #[trigger] dst@[r * rl + k] == src@[r * st + k],
            decreases row_len - c,
        {
            let ghost pre = dst@;
            assert(r * rl + rl == (r + 1) * rl) by (nonlinear_arith);
            assert(dst_off + c < dst_len);
            assert(src_off + c < src_len);
            dst[dst_off + c] = src[src_off + c];
            assert forall|q: int, k: int| 0 <= q < r && 0 <= k < rl implies
                #[trigger] dst@[q * rl + k] == #[trigger] src@[q * st + k] by {
                assert(q * rl + k < r * rl) by (nonlinear_arith)
                    requires 0 <= q < r, 0 <= k < rl;
                assert(pre[q * rl + k] == src@[q * st + k]);
            }
            c += 1;
        }
        assert forall|q: int, c: int| 0 <= q < r + 1 && 0 <= c < rl implies
            #[trigger] dst@[q * rl + c] == #[trigger] src@[q * st + c] by {
        }
        assert((r + 1) * st == r * st + st && (r + 1) * rl == r * rl + rl) by (nonlinear_arith);
        if r + 1 < rows {
            assert((r + 1) * st <= (rows - 1) * st) by (nonlinear_arith)
                requires r + 1 <= rows - 1, st >= 0;
            assert(src_off + stride <= src_len);
            src_off = src_off + stride;
        }
        assert(dst_off + row_len <= dst_len);
        dst_off = dst_off + row_len;
        r += 1;
    }
    Ok(())
}

} // verus!
