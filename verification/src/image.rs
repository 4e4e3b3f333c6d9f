//! Image loading.

use vstd::prelude::*;

verus! {

/// The first frame of a PNG stream as the `png` crate decodes it with its
/// default settings: the output buffer, then the width and the height that
/// the decoder reports for the frame; `None` where it reports an error.
pub uninterp spec fn png_frame(source: Seq<u8>) -> Option<(Seq<u8>, u32, u32)>;

/// `png::Decoder::new` on the bytes, then `Decoder::read_info`, a buffer of
/// `Reader::output_buffer_size` zero bytes and `Reader::next_frame` into it.
/// The result is the buffer with the frame's width and height, or `None`
/// where `read_info` or `next_frame` returned an error. Nothing is claimed
/// of what the decoder yields beyond that it depends on the bytes alone.
#[verifier::external_body]
fn decode_png(source: &[u8]) -> (r: Option<(Vec<u8>, u32, u32)>)
    ensures
        match png_frame(source@) {
            Some(frame) => r matches Some(decoded) && decoded.0@ == frame.0 && decoded.1
                == frame.1 && decoded.2 == frame.2,
            None => r is None,
        },
{
    let mut reader = png::Decoder::new(source).read_info().ok()?;
    let mut data = vec![0; reader.output_buffer_size()];
    let info = reader.next_frame(&mut data).ok()?;
    Some((data, info.width, info.height))
}

/// Raw image data: RGBA8 pixels, row by row.
pub struct Image {
    data: Vec<u8>,
    width: u32,
    height: u32,
}

/// What an image holds.
pub ghost struct ImageView {
    pub data: Seq<u8>,
    pub width: u32,
    pub height: u32,
}

impl View for Image {
    type V = ImageView;

    closed spec fn view(&self) -> ImageView {
        ImageView { data: self.data@, width: self.width, height: self.height }
    }
}

/// Whether `len` bytes are four for each pixel of a `width` by `height`
/// image.
pub open spec fn fits(len: nat, width: u32, height: u32) -> bool {
    len == width * height * 4
}

impl Image {
    #[verifier::type_invariant]
    spec fn inv(self) -> bool {
        fits(self.data@.len(), self.width, self.height)
    }

    /// Whether `len` bytes are four for each pixel of a `width` by `height`
    /// image.
    pub fn data_fits(len: usize, width: u32, height: u32) -> (r: bool)
        ensures
            r == fits(len as nat, width, height),
    {
        assert(width * height <= 0xffff_ffff * 0xffff_ffff) by (nonlinear_arith)
            requires
                width <= 0xffff_ffff,
                height <= 0xffff_ffff,
        ;
        let pixels: u64 = width as u64 * height as u64;
        len as u128 == pixels as u128 * 4
    }

    /// What `source` decodes to: the image of its first frame where that
    /// holds four bytes for each pixel, and nothing where it does not or
    /// where the decoder fails.
    pub open spec fn decoded(source: Seq<u8>) -> Option<ImageView> {
        match png_frame(source) {
            Some(frame) => if fits(frame.0.len(), frame.1, frame.2) {
                Some(ImageView { data: frame.0, width: frame.1, height: frame.2 })
            } else {
                None
            },
            None => None,
        }
    }

    /// Creates an image from the first frame of a PNG stream, or returns
    /// `None` where the stream does not decode to RGBA8 pixels.
    pub fn from_png(source: &[u8]) -> (r: Option<Image>)
        ensures
            match r {
                Some(image) => Image::decoded(source@) == Some(image@),
                None => Image::decoded(source@) is None,
            },
    {
        match decode_png(source) {
            Some(frame) => Image::from_frame(frame.0, frame.1, frame.2),
            None => None,
        }
    }

    /// Creates an image from a decoded frame, or returns `None` where the
    /// frame does not hold four bytes for each pixel.
    pub fn from_frame(data: Vec<u8>, width: u32, height: u32) -> (r: Option<Image>)
        ensures
            match r {
                Some(image) => fits(data@.len(), width, height) && image@.data == data@
                    && image@.width == width && image@.height == height,
                None => !fits(data@.len(), width, height),
            },
    {
        if Image::data_fits(data.len(), width, height) {
            Some(Image::from_data(data, width, height))
        } else {
            None
        }
    }

    /// Creates an image from raw RGBA8 data.
    pub fn from_data(data: Vec<u8>, width: u32, height: u32) -> (r: Image)
        requires
            fits(data@.len(), width, height),
        ensures
            r@.data == data@,
            r@.width == width,
            r@.height == height,
    {
        Image { data, width, height }
    }

    /// Takes the image apart: its data, its width and its height.
    pub fn into_parts(self) -> (r: (Vec<u8>, u32, u32))
        ensures
            r.0@ == self@.data,
            r.1 == self@.width,
            r.2 == self@.height,
            fits(r.0@.len(), r.1, r.2),
    {
        proof {
            use_type_invariant(&self);
        }
        (self.data, self.width, self.height)
    }

    /// A slice to the underlying data.
    pub fn data(&self) -> (r: &[u8])
        ensures
            r@ == self@.data,
            fits(r@.len(), self@.width, self@.height),
    {
        proof {
            use_type_invariant(self);
        }
        self.data.as_slice()
    }

    /// Width of the image in pixels.
    pub fn width(&self) -> (r: u32)
        ensures
            r == self@.width,
    {
        self.width
    }

    /// Height of the image in pixels.
    pub fn height(&self) -> (r: u32)
        ensures
            r == self@.height,
    {
        self.height
    }
}

} // verus!
