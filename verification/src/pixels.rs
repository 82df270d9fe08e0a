//! Decoded images: rows of texels of four 8-bit channels.

use vstd::prelude::*;

verus! {

/// An error of the image decoder.
#[verifier::external_type_specification]
#[verifier::external_body]
pub struct ExImageError(image::ImageError);

/// The kinds of faults for which bytes are not decoded into an image.
#[derive(Clone, Copy, Debug, PartialEq, Eq, Structural)]
pub enum DecodeErrorKind {
    /// The bytes are in no known format, or do not conform to theirs.
    Decoding,
    /// The image cannot be written in the format chosen.
    Encoding,
    /// An argument of an operation on the image was not acceptable.
    Parameter,
    /// Decoding would take more memory than is allowed.
    Limits,
    /// The format, or a feature of it that the bytes use, is not supported.
    Unsupported,
    /// The bytes could not be read.
    Io,
}

/// Why bytes were not decoded into an image.
#[derive(Debug)]
pub struct DecodeError {
    pub kind: DecodeErrorKind,
    pub message: String,
}

/// Decodes `bytes` with `image::load_from_memory`, which guesses their format, and
/// converts the image with `DynamicImage::to_rgba8` into texels of four 8-bit channels.
/// The conversion allocates a buffer of exactly four bytes per texel.
#[verifier::external_body]
fn load_rgba8(bytes: &[u8]) -> (r: Result<(u32, u32, Vec<u8>), image::ImageError>)
    ensures
        r is Ok ==> r->Ok_0.2@.len() == 4 * r->Ok_0.0 * r->Ok_0.1,
{
    let img = image::load_from_memory(bytes)?.to_rgba8();
    Ok((img.width(), img.height(), img.into_raw()))
}

/// The kind of the decoder's error `e`, and its text as `ImageError`'s `Display` gives it.
#[verifier::external_body]
fn describe_error(e: &image::ImageError) -> DecodeError {
    let kind = match e {
        image::ImageError::Decoding(_) => DecodeErrorKind::Decoding,
        image::ImageError::Encoding(_) => DecodeErrorKind::Encoding,
        image::ImageError::Parameter(_) => DecodeErrorKind::Parameter,
        image::ImageError::Limits(_) => DecodeErrorKind::Limits,
        image::ImageError::Unsupported(_) => DecodeErrorKind::Unsupported,
        image::ImageError::IoError(_) => DecodeErrorKind::Io,
    };
    DecodeError { kind, message: e.to_string() }
}

/// A decoded image: `height` rows of `width` texels, four bytes each.
pub struct Pixels {
    width: u32,
    height: u32,
    data: Vec<u8>,
}

impl Pixels {
    /// The image holds exactly the bytes of its texels.
    pub closed spec fn wf(&self) -> bool {
        self.data@.len() == 4 * self.width * self.height
    }

    #[verifier::type_invariant]
    spec fn inv(&self) -> bool {
        self.wf()
    }

    /// An image holds four bytes for each of its texels.
    pub proof fn lemma_holds_its_texels(&self)
        requires
            self.wf(),
        ensures
            self.spec_data().len() == 4 * self.spec_width() * self.spec_height(),
    {
    }

    /// The number of texels in a row.
    pub closed spec fn spec_width(&self) -> u32 {
        self.width
    }

    /// The number of rows.
    pub closed spec fn spec_height(&self) -> u32 {
        self.height
    }

    /// The bytes of the texels, row after row.
    pub closed spec fn spec_data(&self) -> Seq<u8> {
        self.data@
    }

    /// The image of `width` by `height` texels held in `data`, if `data` has four
    /// bytes for each of them and no more.
    pub fn new(width: u32, height: u32, data: Vec<u8>) -> (r: Option<Self>)
        ensures
            r is Some <==> data@.len() == 4 * width * height,
            r is Some ==> {
                &&& r->Some_0.wf()
                &&& r->Some_0.spec_width() == width
                &&& r->Some_0.spec_height() == height
                &&& r->Some_0.spec_data() == data@
            },
    {
        assert(width * height <= 0xffff_ffff * 0xffff_ffff) by (nonlinear_arith)
            requires
                0 <= width <= 0xffff_ffff,
                0 <= height <= 0xffff_ffff,
        ;
        let texels: u64 = (width as u64) * (height as u64);
        assert(4 * texels == 4 * width * height) by (nonlinear_arith)
            requires
                texels == width * height,
        ;
        let held: usize = data.len();
        if texels > u64::MAX / 4 {
            return None;
        }
        if held as u64 == 4 * texels {
            Some(Pixels { width, height, data })
        } else {
            None
        }
    }

    /// The image that `bytes` encode, as texels of four 8-bit channels, or the reason
    /// for which the decoder rejects them.
    pub fn decode(bytes: &[u8]) -> (r: Result<Self, DecodeError>)
        ensures
            r is Ok ==> r->Ok_0.wf(),
    {
        match load_rgba8(bytes) {
            Ok((width, height, data)) => Self::from_rgba8(width, height, data),
            Err(e) => Err(describe_error(&e)),
        }
    }

    /// The image of `width` by `height` texels that a decoder handed over in `data`, if
    /// `data` has four bytes for each of them and no more.  Otherwise what was handed
    /// over is no image, and the fault says so.  A decoder may give other texels for the
    /// same bytes on another machine: whatever it gives becomes an image here.
    pub fn from_rgba8(width: u32, height: u32, data: Vec<u8>) -> (r: Result<Self, DecodeError>)
        ensures
            r is Ok <==> data@.len() == 4 * width * height,
            r is Ok ==> {
                &&& r->Ok_0.wf()
                &&& r->Ok_0.spec_width() == width
                &&& r->Ok_0.spec_height() == height
                &&& r->Ok_0.spec_data() == data@
            },
            r is Err ==> {
                &&& r->Err_0.kind == DecodeErrorKind::Decoding
                &&& r->Err_0.message@ == "the decoded image does not hold four bytes for each texel"@
            },
    {
        match Self::new(width, height, data) {
            Some(pixels) => Ok(pixels),
            None => Err(
                DecodeError {
                    kind: DecodeErrorKind::Decoding,
                    message: "the decoded image does not hold four bytes for each texel".to_owned(),
                },
            ),
        }
    }

    /// Whether the rows of the image can be uploaded: whether the bytes of one row can
    /// be counted in 32 bits.
    pub fn fits_rows(&self) -> (ok: bool)
        ensures
            ok <==> self.spec_width() * 4 <= u32::MAX,
    {
        self.width <= u32::MAX / 4
    }

    /// The width and the height of the image.
    pub fn dimensions(&self) -> (d: (u32, u32))
        ensures
            d.0 == self.spec_width(),
            d.1 == self.spec_height(),
    {
        (self.width, self.height)
    }

    /// The bytes of the texels, row after row.
    pub fn data(&self) -> (data: &[u8])
        ensures
            data@ == self.spec_data(),
    {
        self.data.as_slice()
    }
}

} // verus!
