//! Single-channel bitmap records (binary PGM) of a frame's first plane.

use vstd::prelude::*;

verus! {

/// Why a plane could not be turned into a record.
#[derive(Clone, Copy, Debug, PartialEq, Eq, Structural)]
pub enum RecordError {
    /// A row is longer than the distance between rows.
    StrideTooSmall,
    /// The plane holds fewer bytes than its rows need.
    PlaneTooShort,
}

/// The decimal digits of `n`, in ASCII.
pub open spec fn decimal(n: nat) -> Seq<u8>
    decreases n,
{
    if n < 10 {
        seq![(48 + n) as u8]
    } else {
        decimal(n / 10).push((48 + n % 10) as u8)
    }
}

/// The binary graymap header: magic `P5`, then `\n<width> <height>\n255\n`.
pub open spec fn record_header(width: nat, height: nat) -> Seq<u8> {
    seq![80u8, 53u8, 10u8] + decimal(width) + seq![32u8] + decimal(height) + seq![10u8, 50u8, 53u8, 53u8, 10u8]
}

/// The first `rows` rows of a plane, `width` bytes each, rows `stride` apart.
pub open spec fn plane_rows(plane: Seq<u8>, width: nat, stride: nat, rows: nat) -> Seq<u8>
    decreases rows,
{
    if rows == 0 {
        Seq::empty()
    } else {
        let start = (rows - 1) * stride;
        plane_rows(plane, width, stride, (rows - 1) as nat) + plane.subrange(start as int, start + width)
    }
}

/// The bytes that a plane needs: `height` rows of `width` bytes, `stride` apart.
pub open spec fn plane_need(width: nat, height: nat, stride: nat) -> nat {
    if height == 0 { 0 } else { ((height - 1) * stride + width) as nat }
}

/// The record of a `width` by `height` plane.
pub open spec fn gray_record_spec(plane: Seq<u8>, width: nat, height: nat, stride: nat) -> Seq<u8> {
    record_header(width, height) + plane_rows(plane, width, stride, height)
}

fn push_decimal(out: &mut Vec<u8>, n: usize)
    ensures
        final(out)@ == old(out)@ + decimal(n as nat),
    decreases n,
{
    if n >= 10 {
        push_decimal(out, n / 10);
    }
    out.push((48 + n % 10) as u8);
    proof {
        assert(out@ =~= old(out)@ + decimal(n as nat));
    }
}

fn push_bytes(out: &mut Vec<u8>, bytes: &[u8])
    ensures
        final(out)@ == old(out)@ + bytes@,
{
    let mut i: usize = 0;
    while i < bytes.len()
        invariant
            i <= bytes@.len(),
            out@ == old(out)@ + bytes@.subrange(0, i as int),
        decreases bytes@.len() - i,
    {
        out.push(bytes[i]);
        i = i + 1;
        assert(out@ =~= old(out)@ + bytes@.subrange(0, i as int));
    }
    assert(bytes@.subrange(0, bytes@.len() as int) =~= bytes@);
}

/// The bytes that the plane needs, or `None` where that count overflows.
fn plane_need_exec(width: usize, height: usize, stride: usize) -> (r: Option<usize>)
    ensures
        match r {
            Some(n) => n == plane_need(width as nat, height as nat, stride as nat),
            None => plane_need(width as nat, height as nat, stride as nat) > usize::MAX,
        },
{
    if height == 0 {
        return Some(0);
    }
    match (height - 1).checked_mul(stride) {
        Some(m) => m.checked_add(width),
        None => {
            assert((height - 1) * stride + width > usize::MAX) by (nonlinear_arith)
                requires (height - 1) * stride > usize::MAX, width >= 0;
            None
        },
    }
}

/// The record of plane 0 of a `width` by `height` frame whose rows lie
/// `stride` bytes apart in `plane`: a binary graymap header with the frame's width and
/// height and a maximum of 255, then `width` bytes of each row.
pub fn gray_record(plane: &Vec<u8>, width: usize, height: usize, stride: usize) -> (r: Result<Vec<u8>, RecordError>)
    ensures
        stride < width <==> r == Err::<Vec<u8>, RecordError>(RecordError::StrideTooSmall),
        (stride >= width && plane@.len() < plane_need(width as nat, height as nat, stride as nat))
            <==> r == Err::<Vec<u8>, RecordError>(RecordError::PlaneTooShort),
        r.is_ok() ==> r->Ok_0@ == gray_record_spec(plane@, width as nat, height as nat, stride as nat),
{
    if stride < width {
        return Err(RecordError::StrideTooSmall);
    }
    let len = plane.len();
    let need = match plane_need_exec(width, height, stride) {
        Some(n) => n,
        None => return Err(RecordError::PlaneTooShort),
    };
    if len < need {
        return Err(RecordError::PlaneTooShort);
    }
    let mut out: Vec<u8> = Vec::new();
    push_bytes(&mut out, &[80u8, 53u8, 10u8]);
    push_decimal(&mut out, width);
    push_bytes(&mut out, &[32u8]);
    push_decimal(&mut out, height);
    push_bytes(&mut out, &[10u8, 50u8, 53u8, 53u8, 10u8]);
    let ghost header = out@;
    assert(header =~= record_header(width as nat, height as nat));
    let mut row: usize = 0;
    let mut off: usize = 0;
    while row < height
        invariant
            row <= height,
            height > 0 ==> need == (height - 1) * stride + width,
            need <= len,
            len == plane@.len(),
            row < height ==> off == row * stride,
            out@ == header + plane_rows(plane@, width as nat, stride as nat, row as nat),
        decreases height - row,
    {
        assert(off + width <= need) by (nonlinear_arith)
            requires off == row * stride, row < height, need == (height - 1) * stride + width;
        let mut col: usize = 0;
        while col < width
            invariant
                col <= width,
                off + width <= len,
                len == plane@.len(),
                out@ == header + plane_rows(plane@, width as nat, stride as nat, row as nat)
                    + plane@.subrange(off as int, off + col),
            decreases width - col,
        {
            out.push(plane[off + col]);
            col = col + 1;
            assert(out@ =~= header + plane_rows(plane@, width as nat, stride as nat, row as nat)
                + plane@.subrange(off as int, off + col));
        }
        assert(plane_rows(plane@, width as nat, stride as nat, (row + 1) as nat)
            =~= plane_rows(plane@, width as nat, stride as nat, row as nat) + plane@.subrange(off as int, off + width));
        assert(out@ =~= header + plane_rows(plane@, width as nat, stride as nat, (row + 1) as nat));
        row = row + 1;
        if row < height {
            assert(off + stride <= need) by (nonlinear_arith)
                requires off == (row - 1) * stride, row < height, need == (height - 1) * stride + width;
            assert(off + stride == row * stride) by (nonlinear_arith)
                requires off == (row - 1) * stride;
            off = off + stride;
        }
    }
    Ok(out)
}

} // verus!
