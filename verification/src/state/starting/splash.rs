//! The splash image and the frames drawn from it.

use vstd::arithmetic::div_mod::lemma_fundamental_div_mod_converse;
use vstd::prelude::*;

verus! {

/// `image::ImageError`, the reason why an image could not be decoded.
#[verifier::external_type_specification]
#[verifier::external_body]
pub struct ExImageError(image::ImageError);

/// Why bytes did not give a splash image.
#[derive(Clone, Copy, Debug, PartialEq, Eq, Structural)]
pub enum SplashError {
    /// The bytes are no PNG image.
    Undecodable,
    /// The pixel bytes are not four for each pixel of the stated size.
    PixelCount,
}

/// `image::DynamicImage`, a decoded image in whatever pixel layout its
/// file had. The library only hands it on to be turned into RGBA.
#[verifier::external_type_specification]
#[verifier::external_body]
pub struct ExDynamicImage(image::DynamicImage);

/// What `image::load_from_memory_with_format` with the format PNG makes of
/// bytes: the decoded image, or nothing where the bytes are no PNG image
/// that it decodes.
pub uninterp spec fn decoded_png(bytes: Seq<u8>) -> Option<image::DynamicImage>;

/// What `DynamicImage::to_rgba8` makes of a decoded image: the width, the
/// height and the bytes of its pixels as eight-bit RGBA, row after row.
pub uninterp spec fn rgba8_of(image: image::DynamicImage) -> (u32, u32, Seq<u8>);

/// Decodes a PNG image with `image::load_from_memory_with_format`, the
/// format fixed to `ImageFormat::Png`, so that nothing but the bytes
/// decides the outcome. The outcome is `decoded_png` of the bytes; nothing
/// more is claimed of it.
#[verifier::external_body]
fn decode_png(bytes: &[u8]) -> (decoded: Result<image::DynamicImage, image::ImageError>)
    ensures
        match decoded {
            Ok(image) => decoded_png(bytes@) == Some(image),
            Err(_) => decoded_png(bytes@) is None,
        },
{
    image::load_from_memory_with_format(bytes, image::ImageFormat::Png)
}

/// Turns a decoded image into eight-bit RGBA with `DynamicImage::to_rgba8`
/// and hands out its width, height and raw bytes. They are `rgba8_of` of
/// the image; nothing more is claimed of them.
#[verifier::external_body]
fn to_rgba8(image: &image::DynamicImage) -> (rgba: (u32, u32, Vec<u8>))
    ensures
        (rgba.0, rgba.1, rgba.2@) == rgba8_of(*image),
{
    let rgba = image.to_rgba8();
    (rgba.width(), rgba.height(), rgba.into_raw())
}

/// Packs four bytes into a word with `u32::from_ne_bytes`, in the byte
/// order of the machine: the word is the little-endian or the big-endian
/// reading of the bytes.
#[verifier::external_body]
fn word_from_ne_bytes(bytes: [u8; 4]) -> (word: u32)
    ensures
        is_native_word(word, bytes@),
{
    u32::from_ne_bytes(bytes)
}

/// The word whose least significant byte is the first of four bytes.
pub open spec fn le_word(bytes: Seq<u8>) -> int {
    bytes[0] + 0x100 * bytes[1] + 0x1_0000 * bytes[2] + 0x100_0000 * bytes[3]
}

/// The word whose most significant byte is the first of four bytes.
pub open spec fn be_word(bytes: Seq<u8>) -> int {
    bytes[3] + 0x100 * bytes[2] + 0x1_0000 * bytes[1] + 0x100_0000 * bytes[0]
}

/// Whether `word` is four bytes read in one of the two byte orders that a
/// machine may have.
pub open spec fn is_native_word(word: u32, bytes: Seq<u8>) -> bool {
    bytes.len() == 4 && (word == le_word(bytes) || word == be_word(bytes))
}

/// Whether `pixels` holds four bytes for each pixel of a `width` by
/// `height` image.
pub open spec fn pixel_count_fits(width: u32, height: u32, pixels: Seq<u8>) -> bool {
    pixels.len() == 4 * (width * height)
}

/// A decoded image: rows of RGBA pixels, four bytes each, top row first.
#[derive(Debug)]
pub struct SplashImage {
    width: u32,
    height: u32,
    pixels: Vec<u8>,
}

impl SplashImage {
    #[verifier::type_invariant]
    spec fn inv(self) -> bool {
        pixel_count_fits(self.width, self.height, self.pixels@)
    }

    /// The width in pixels.
    pub closed spec fn spec_width(&self) -> u32 {
        self.width
    }

    /// The height in pixels.
    pub closed spec fn spec_height(&self) -> u32 {
        self.height
    }

    /// The bytes of all pixels, row after row.
    pub closed spec fn bytes(&self) -> Seq<u8> {
        self.pixels@
    }

    /// The four bytes of the pixel in column `x` of row `y`.
    pub open spec fn rgba_at(&self, x: int, y: int) -> Seq<u8> {
        let start = 4 * (y * self.spec_width() + x);
        self.bytes().subrange(start, start + 4)
    }

    /// Whether the image has a pixel in column `x` of row `y`.
    pub open spec fn covers(&self, x: int, y: int) -> bool {
        0 <= x < self.spec_width() && 0 <= y < self.spec_height()
    }

    /// Whether the image has the given size and pixel bytes.
    pub open spec fn holds(&self, width: u32, height: u32, pixels: Seq<u8>) -> bool {
        self.spec_width() == width && self.spec_height() == height && self.bytes() == pixels
    }

    /// An image from its size and its RGBA bytes, which must be four for
    /// each pixel.
    pub fn from_rgba8(width: u32, height: u32, pixels: Vec<u8>) -> (made: Result<
        SplashImage,
        SplashError,
    >)
        ensures
            match made {
                Ok(image) => pixel_count_fits(width, height, pixels@) && image.holds(
                    width,
                    height,
                    pixels@,
                ),
                Err(error) => !pixel_count_fits(width, height, pixels@) && error
                    == SplashError::PixelCount,
            },
    {
        let len = pixels.len();
        assert(width * height <= 0xFFFF_FFFF * 0xFFFF_FFFF) by (nonlinear_arith)
            requires
                width <= 0xFFFF_FFFF,
                height <= 0xFFFF_FFFF,
        ;
        let area: u64 = (width as u64) * (height as u64);
        if len % 4 == 0 && (len / 4) as u64 == area {
            Ok(SplashImage { width, height, pixels })
        } else {
            Err(SplashError::PixelCount)
        }
    }

    /// Decodes a PNG image into RGBA. Bytes that do not decode are
    /// refused, and so is a decoded image whose bytes are not four for
    /// each pixel.
    pub fn decode(bytes: &[u8]) -> (made: Result<SplashImage, SplashError>)
        ensures
            match decoded_png(bytes@) {
                None => made == Err::<SplashImage, SplashError>(SplashError::Undecodable),
                Some(image) => {
                    let (width, height, pixels) = rgba8_of(image);
                    if pixel_count_fits(width, height, pixels) {
                        made is Ok && made->Ok_0.holds(width, height, pixels)
                    } else {
                        made == Err::<SplashImage, SplashError>(SplashError::PixelCount)
                    }
                },
            },
    {
        match decode_png(bytes) {
            Ok(image) => {
                let (width, height, pixels) = to_rgba8(&image);
                SplashImage::from_rgba8(width, height, pixels)
            },
            Err(_) => Err(SplashError::Undecodable),
        }
    }

    /// The width in pixels.
    #[verifier::when_used_as_spec(spec_width)]
    pub fn width(&self) -> (width: u32)
        ensures
            width == self.spec_width(),
    {
        self.width
    }

    /// The height in pixels.
    #[verifier::when_used_as_spec(spec_height)]
    pub fn height(&self) -> (height: u32)
        ensures
            height == self.spec_height(),
    {
        self.height
    }

    /// The bytes of all pixels, row after row.
    pub fn as_raw(&self) -> (pixels: &Vec<u8>)
        ensures
            pixels@ == self.bytes(),
            pixel_count_fits(self.spec_width(), self.spec_height(), self.bytes()),
    {
        proof {
            use_type_invariant(self);
        }
        &self.pixels
    }

    /// Whether `word` is what a frame shows in column `x` of row `y`: the
    /// image's pixel there, packed in the machine's byte order, or zero
    /// where the image has no pixel.
    pub open spec fn shows(&self, word: u32, x: int, y: int) -> bool {
        if self.covers(x, y) {
            is_native_word(word, self.rgba_at(x, y))
        } else {
            word == 0
        }
    }

    /// Whether `frame` is the image drawn on a surface of `width` by
    /// `height` pixels: one word for each pixel of the surface, row after
    /// row, each showing the image at its place.
    pub open spec fn draws(&self, frame: Frame, width: u32, height: u32) -> bool {
        &&& frame.width == width
        &&& frame.height == height
        &&& frame.pixels@.len() == width * height
        &&& forall|i: int|
            0 <= i < frame.pixels@.len() ==> self.shows(
                #[trigger] frame.pixels@[i],
                i % (width as int),
                i / (width as int),
            )
    }

    // The packed word of the pixel in column `x` of row `y`.
    fn word_at(&self, x: u32, y: u32) -> (word: u32)
        requires
            self.covers(x as int, y as int),
        ensures
            is_native_word(word, self.rgba_at(x as int, y as int)),
    {
        proof {
            use_type_invariant(self);
            assert(0 <= y * self.width && y * self.width + x < self.width * self.height)
                by (nonlinear_arith)
                requires
                    0 <= x < self.width,
                    0 <= y < self.height,
            ;
            assert(self.pixels@.len() == self.pixels.len());
        }
        let start: usize = 4 * ((y as usize) * (self.width as usize) + (x as usize));
        let bytes: [u8; 4] = [
            self.pixels[start],
            self.pixels[start + 1],
            self.pixels[start + 2],
            self.pixels[start + 3],
        ];
        word_from_ne_bytes(bytes)
    }

    /// Draws the image on a surface of `width` by `height` pixels.
    pub fn draw(&self, width: u32, height: u32) -> (frame: Frame)
        ensures
            self.draws(frame, width, height),
    {
        let mut pixels: Vec<u32> = Vec::new();
        if width == 0 {
            assert(width * height == 0) by (nonlinear_arith)
                requires
                    width == 0,
            ;
            return Frame { width, height, pixels };
        }
        let mut y: u32 = 0;
        while y < height
            invariant
                y <= height,
                pixels@.len() == y * width,
                forall|i: int|
                    0 <= i < pixels@.len() ==> self.shows(
                        #[trigger] pixels@[i],
                        i % (width as int),
                        i / (width as int),
                    ),
            decreases height - y,
        {
            let mut x: u32 = 0;
            while x < width
                invariant
                    x <= width,
                    pixels@.len() == y * width + x,
                    forall|i: int|
                        0 <= i < pixels@.len() ==> self.shows(
                            #[trigger] pixels@[i],
                            i % (width as int),
                            i / (width as int),
                        ),
                decreases width - x,
            {
                let word: u32 = if x < self.width && y < self.height {
                    self.word_at(x, y)
                } else {
                    0
                };
                proof {
                    lemma_fundamental_div_mod_converse(
                        y * width + x,
                        width as int,
                        y as int,
                        x as int,
                    );
                }
                pixels.push(word);
                x += 1;
            }
            assert(y * width + width == (y + 1) * width) by (nonlinear_arith);
            y += 1;
        }
        assert(height * width == width * height) by (nonlinear_arith);
        Frame { width, height, pixels }
    }
}

/// A frame for the software surface: one packed color word for each pixel,
/// row after row, top row first.
#[derive(Debug, PartialEq, Eq)]
pub struct Frame {
    pub width: u32,
    pub height: u32,
    pub pixels: Vec<u32>,
}

/// In a drawn frame the word of column `x` in row `y` stands `y` rows of
/// `width` words and `x` words from the start, and shows the image there.
pub proof fn lemma_drawn_pixel(
    image: &SplashImage,
    frame: Frame,
    width: u32,
    height: u32,
    x: int,
    y: int,
)
    requires
        image.draws(frame, width, height),
        0 <= x < width,
        0 <= y < height,
    ensures
        0 <= y * width + x < frame.pixels@.len(),
        image.shows(frame.pixels@[y * width + x], x, y),
{
    let i = y * width + x;
    assert(0 <= y * width && i < width * height) by (nonlinear_arith)
        requires
            i == y * width + x,
            0 <= x < width,
            0 <= y < height,
    ;
    lemma_fundamental_div_mod_converse(i, width as int, y, x);
}

} // verus!
