//! Conversion of a raw RGBA picture into planar YUV 4:2:0, as the encoder
//! wants it.

use vstd::prelude::*;
use yuv::{
    rgba_to_yuv420, BufferStoreMut, YuvConversionMode, YuvError, YuvPlanarImageMut, YuvRange,
    YuvStandardMatrix,
};

verus! {

/// The error of the `yuv` crate. Nothing is known of a value of it.
#[verifier::external_type_specification]
#[verifier::external_body]
pub struct ExYuvError(YuvError);

/// Why a picture was not converted.
#[derive(Debug, Clone, Copy, PartialEq, Eq, Structural)]
pub enum ScaleError {
    /// The picture has no width or no height.
    EmptyPicture,
    /// A row of the input is longer than a 32-bit count of bytes.
    TooLarge,
    /// A plane's rows are shorter than the picture is wide.
    Stride,
    /// A plane does not hold as many bytes as its rows take.
    PlaneSize,
    /// The height is odd: the chroma planes hold half a row too few.
    OddHeight,
    /// The input holds fewer than four bytes for each pixel.
    InputTooShort,
    /// The converter refused the picture.
    Refused,
}

/// A picture in planar YUV 4:2:0: a plane of luma and two planes of chroma,
/// each chroma sample shared by a square of two by two pixels.
#[derive(Debug, Clone, PartialEq, Eq)]
pub struct Yuv420Frame {
    pub width: u32,
    pub height: u32,
    /// The number of bytes from one row of luma to the next.
    pub y_stride: u32,
    pub u_stride: u32,
    pub v_stride: u32,
    pub y_plane: Vec<u8>,
    pub u_plane: Vec<u8>,
    pub v_plane: Vec<u8>,
}

/// The number of chroma samples in a row of a picture `width` pixels wide.
pub open spec fn spec_chroma_width(width: u32) -> nat {
    ((width + 1) / 2) as nat
}

/// The number of bytes in a plane of luma.
pub open spec fn spec_luma_len(stride: u32, height: u32) -> nat {
    (stride * height) as nat
}

/// The number of bytes in a plane of chroma: half the rows of the picture.
pub open spec fn spec_chroma_len(stride: u32, height: u32) -> nat {
    (stride * height / 2) as nat
}

/// The number of bytes in a row of the RGBA input.
pub open spec fn spec_rgba_stride(width: u32) -> nat {
    (4 * width) as nat
}

impl Yuv420Frame {
    /// Whether nothing but the contents of the planes tells `self` from
    /// `other`.
    pub open spec fn same_geometry(self, other: Yuv420Frame) -> bool {
        &&& self.width == other.width
        &&& self.height == other.height
        &&& self.y_stride == other.y_stride
        &&& self.u_stride == other.u_stride
        &&& self.v_stride == other.v_stride
        &&& self.y_plane@.len() == other.y_plane@.len()
        &&& self.u_plane@.len() == other.u_plane@.len()
        &&& self.v_plane@.len() == other.v_plane@.len()
    }

    /// Why a conversion of `input_len` bytes of RGBA into this frame is not
    /// even tried, or `None` where it is.
    pub open spec fn refusal(self, input_len: nat) -> Option<ScaleError> {
        if self.width == 0 || self.height == 0 {
            Some(ScaleError::EmptyPicture)
        } else if spec_rgba_stride(self.width) > u32::MAX {
            Some(ScaleError::TooLarge)
        } else if self.y_stride < self.width || self.u_stride < spec_chroma_width(self.width)
            || self.v_stride < spec_chroma_width(self.width) {
            Some(ScaleError::Stride)
        } else if self.y_plane@.len() != spec_luma_len(self.y_stride, self.height)
            || self.u_plane@.len() != spec_chroma_len(self.u_stride, self.height)
            || self.v_plane@.len() != spec_chroma_len(self.v_stride, self.height) {
            Some(ScaleError::PlaneSize)
        } else if self.height % 2 == 1 {
            Some(ScaleError::OddHeight)
        } else if input_len < spec_rgba_stride(self.width) * self.height {
            Some(ScaleError::InputTooShort)
        } else {
            None
        }
    }

    /// A frame for a picture of `width` by `height` pixels, all planes zero,
    /// rows without padding; nothing where a plane would hold more bytes
    /// than can be counted.
    pub fn new(width: u32, height: u32) -> (made: Option<Self>)
        ensures
            made is Some <==> spec_luma_len(width, height) <= usize::MAX,
            made matches Some(frame) ==> {
                &&& frame.width == width
                &&& frame.height == height
                &&& frame.y_stride == width
                &&& frame.u_stride == spec_chroma_width(width)
                &&& frame.v_stride == spec_chroma_width(width)
                &&& frame.y_plane@ == Seq::new(spec_luma_len(width, height), |i: int| 0u8)
                &&& frame.u_plane@ == Seq::new(
                    spec_chroma_len(frame.u_stride, height),
                    |i: int| 0u8,
                )
                &&& frame.v_plane@ == frame.u_plane@
            },
    {
        let chroma_width: u32 = ((width as u64 + 1) / 2) as u32;
        let luma = plane_len(width, height, 1);
        let chroma = plane_len(chroma_width, height, 2);
        if luma > usize::MAX as u64 {
            return None;
        }
        assert(chroma_width * height <= width * height) by (nonlinear_arith)
            requires
                chroma_width <= width,
        ;
        let y_plane = zeroed(luma as usize);
        let u_plane = zeroed(chroma as usize);
        let v_plane = zeroed(chroma as usize);
        Some(
            Yuv420Frame {
                width,
                height,
                y_stride: width,
                u_stride: chroma_width,
                v_stride: chroma_width,
                y_plane,
                u_plane,
                v_plane,
            },
        )
    }
}

/// `stride * height / divisor`, which always fits.
fn plane_len(stride: u32, height: u32, divisor: u64) -> (len: u64)
    requires
        divisor == 1 || divisor == 2,
    ensures
        len == stride * height / (divisor as int),
{
    assert(stride * height <= 0xffff_ffff * 0xffff_ffff) by (nonlinear_arith)
        requires
            stride <= 0xffff_ffff,
            height <= 0xffff_ffff,
    ;
    (stride as u64) * (height as u64) / divisor
}

fn zeroed(len: usize) -> (plane: Vec<u8>)
    ensures
        plane@ == Seq::new(len as nat, |i: int| 0u8),
{
    let mut plane: Vec<u8> = Vec::new();
    while plane.len() < len
        invariant
            plane@.len() <= len,
            forall|i: int| 0 <= i < plane@.len() ==> plane@[i] == 0u8,
        decreases len - plane@.len(),
    {
        plane.push(0u8);
    }
    assert(plane@ =~= Seq::new(len as nat, |i: int| 0u8));
    plane
}

/// Calls `rgba_to_yuv420` of the `yuv` crate on the three planes of
/// `output`, for limited range, the BT.601 matrix and the fast mode.
///
/// The call is made only for a picture of even height whose planes hold
/// exactly their rows, and with input for every pixel. All that is claimed of
/// it is that it returns, and that it writes into the planes without
/// changing their lengths or anything else of the frame. What it writes
/// depends on the machine and is not stated.
#[verifier::external_body]
fn convert_planes(output: &mut Yuv420Frame, rgba: &[u8], rgba_stride: u32) -> (result: Result<
    (),
    YuvError,
>)
    requires
        old(output).refusal(rgba@.len()) is None,
        rgba_stride == spec_rgba_stride(old(output).width),
    ensures
        final(output).same_geometry(*old(output)),
{
    let mut image = YuvPlanarImageMut {
        y_plane: BufferStoreMut::Borrowed(&mut output.y_plane),
        y_stride: output.y_stride,
        u_plane: BufferStoreMut::Borrowed(&mut output.u_plane),
        u_stride: output.u_stride,
        v_plane: BufferStoreMut::Borrowed(&mut output.v_plane),
        v_stride: output.v_stride,
        width: output.width,
        height: output.height,
    };
    let (range, matrix) = (YuvRange::Limited, YuvStandardMatrix::Bt601);
    rgba_to_yuv420(&mut image, rgba, rgba_stride, range, matrix, YuvConversionMode::Fast)
}

/// What a conversion comes to, given what the converter returned: its
/// refusal, whatever the reason, is the one error `Refused`.
pub fn conversion_outcome(returned: Result<(), YuvError>) -> (outcome: Result<(), ScaleError>)
    ensures
        returned is Ok ==> outcome is Ok,
        returned is Err ==> outcome == Err::<(), ScaleError>(ScaleError::Refused),
{
    match returned {
        Ok(()) => Ok(()),
        Err(_) => Err(ScaleError::Refused),
    }
}

/// Converts the RGBA picture `input`, four bytes to the pixel and rows
/// without padding, into the planes of `output`, whose width and height say
/// how large the picture is.
///
/// Where the picture cannot be converted, the error says why and `output` is
/// as it was. Otherwise the converter is called and decides: the planes then
/// hold what it wrote.
pub fn do_scale(input: &[u8], output: &mut Yuv420Frame) -> (outcome: Result<(), ScaleError>)
    ensures
        final(output).same_geometry(*old(output)),
        old(output).refusal(input@.len()) matches Some(error) ==> outcome == Err::<
            (),
            ScaleError,
        >(error) && *final(output) == *old(output),
        old(output).refusal(input@.len()) is None ==> outcome is Ok || outcome == Err::<
            (),
            ScaleError,
        >(ScaleError::Refused),
{
    let width = output.width;
    let height = output.height;
    if width == 0 || height == 0 {
        return Err(ScaleError::EmptyPicture);
    }
    if width > u32::MAX / 4 {
        return Err(ScaleError::TooLarge);
    }
    let chroma_width: u32 = ((width as u64 + 1) / 2) as u32;
    if output.y_stride < width || output.u_stride < chroma_width || output.v_stride
        < chroma_width {
        return Err(ScaleError::Stride);
    }
    if output.y_plane.len() as u64 != plane_len(output.y_stride, height, 1)
        || output.u_plane.len() as u64 != plane_len(output.u_stride, height, 2)
        || output.v_plane.len() as u64 != plane_len(output.v_stride, height, 2) {
        return Err(ScaleError::PlaneSize);
    }
    if height % 2 == 1 {
        return Err(ScaleError::OddHeight);
    }
    let rgba_stride: u32 = 4 * width;
    if (input.len() as u64) < plane_len(rgba_stride, height, 1) {
        return Err(ScaleError::InputTooShort);
    }
    let returned = convert_planes(output, input, rgba_stride);
    conversion_outcome(returned)
}

} // verus!
