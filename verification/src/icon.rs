//! Icons: from the bitmap that the platform's shell renders for a file to
//! the data URI that is stored with the item.
//!
//! The host asks the shell; the library takes the raw bitmap, puts its
//! channels and rows in order, decides between the large rendering and the
//! small one, and has the `image` and `base64` crates encode the result.

use base64::Engine;
use vstd::prelude::*;

verus! {

/// What a PNG data URI begins with.
pub const DATA_URI_PREFIX: &'static str = "data:image/png;base64,";

/// What is said of a buffer that is too short for its image.
pub const BUFFER_TOO_SMALL: &'static str = "Failed to create image buffer";

/// What is said of an encoded image that is too long to be put in base64.
pub const ICON_TOO_LARGE: &'static str = "Failed to encode icon: too large";

/// An image of four bytes a pixel, row by row.
#[derive(Debug)]
pub struct IconImage {
    width: u32,
    height: u32,
    pixels: Vec<u8>,
}

/// The value of an [`IconImage`].
pub ghost struct Bitmap {
    pub width: nat,
    pub height: nat,
    pub pixels: Seq<u8>,
}

/// The bytes of a PNG file that holds an image of `width` by `height`
/// pixels with the RGBA bytes `rgba`, as the `image` crate writes it; `None`
/// where it writes none.
pub uninterp spec fn png_encoding(width: u32, height: u32, rgba: Seq<u8>) -> Option<Seq<u8>>;

/// The standard base64 text, with padding, of `bytes`, as the `base64`
/// crate writes it.
pub uninterp spec fn base64_encoding(bytes: Seq<u8>) -> Seq<char>;

/// `image::ImageBuffer::write_to` with `ImageFormat::Png`, on a buffer made
/// of the given bytes. The result is named, not described: the same image
/// always gives the same file, or none.
#[verifier::external_body]
fn encode_png(width: u32, height: u32, rgba: &Vec<u8>) -> (r: Result<Vec<u8>, String>)
    requires
        rgba.len() == 4 * (width * height),
    ensures
        match r {
            Ok(bytes) => png_encoding(width, height, rgba@) == Some(bytes@),
            Err(_) => png_encoding(width, height, rgba@) is None,
        },
{
    let image: image::ImageBuffer<image::Rgba<u8>, &[u8]> = image::ImageBuffer::from_raw(
        width,
        height,
        rgba.as_slice(),
    ).ok_or_else(String::new)?;
    let mut cursor = std::io::Cursor::new(Vec::new());
    image.write_to(&mut cursor, image::ImageFormat::Png).map_err(|e| e.to_string())?;
    Ok(cursor.into_inner())
}

/// `base64::Engine::encode` of the standard engine. The result is named,
/// not described. The call panics where the length of the text does not fit
/// in `usize`; the precondition keeps such input out.
#[verifier::external_body]
fn encode_base64(bytes: &Vec<u8>) -> (text: String)
    requires
        bytes.len() <= usize::MAX / 2,
    ensures
        text@ == base64_encoding(bytes@),
{
    base64::engine::general_purpose::STANDARD.encode(bytes)
}

/// The bytes of BGRA pixels in RGBA order: in every group of four bytes the
/// first and the third change places.
pub open spec fn red_blue_swapped(bytes: Seq<u8>) -> Seq<u8> {
    Seq::new(
        bytes.len(),
        |i: int|
            if i % 4 == 0 && i + 2 < bytes.len() {
                bytes[i + 2]
            } else if i % 4 == 2 {
                bytes[i - 2]
            } else {
                bytes[i]
            },
    )
}

/// How many of the first `n` pixels have an alpha of zero.
pub open spec fn transparent_pixels(pixels: Seq<u8>, n: nat) -> nat
    decreases n,
{
    if n == 0 {
        0
    } else {
        transparent_pixels(pixels, (n - 1) as nat) + if pixels[4 * (n - 1) + 3] == 0 {
            1nat
        } else {
            0nat
        }
    }
}

/// Whether an image is mostly transparent: it has pixels, and at least 85
/// in 100 of them have an alpha of zero.
pub open spec fn mostly_transparent(image: Bitmap) -> bool {
    let total = image.width * image.height;
    total > 0 && 100 * transparent_pixels(image.pixels, total) >= 85 * total
}

/// The first `rows` rows of `stride` bytes each, the last of them first.
pub open spec fn rows_reversed(pixels: Seq<u8>, stride: nat, rows: nat) -> Seq<u8>
    decreases rows,
{
    if rows == 0 {
        Seq::empty()
    } else {
        pixels.subrange((rows - 1) * stride, (rows * stride) as int) + rows_reversed(
            pixels,
            stride,
            (rows - 1) as nat,
        )
    }
}

/// The image upside down.
pub open spec fn flipped(image: Bitmap) -> Bitmap {
    Bitmap { pixels: rows_reversed(image.pixels, 4 * image.width, image.height), ..image }
}

/// The image that is encoded: the small rendering where the large one is
/// mostly transparent and a small one could be had, else the large one.
pub open spec fn chosen(large: Bitmap, small: Option<Bitmap>) -> Bitmap {
    match small {
        Some(s) => if mostly_transparent(large) {
            s
        } else {
            large
        },
        None => large,
    }
}

/// The data URI of an image that is stored bottom row first: the PNG
/// encoding of the image turned upright, in base64 behind the prefix. `None`
/// where the image cannot be encoded.
pub open spec fn data_uri_of(image: Bitmap) -> Option<Seq<char>> {
    match png_encoding(image.width as u32, image.height as u32, flipped(image).pixels) {
        Some(png) => if png.len() <= usize::MAX / 2 {
            Some(DATA_URI_PREFIX@ + base64_encoding(png))
        } else {
            None
        },
        None => None,
    }
}

proof fn lemma_row_bounds(stride: nat, y: nat, rows: nat)
    requires
        1 <= y <= rows,
    ensures
        (y - 1) * stride >= 0,
        (y - 1) * stride + stride == y * stride,
        y * stride <= rows * stride,
{
    assert((y - 1) * stride >= 0) by (nonlinear_arith)
        requires
            y >= 1,
    ;
    assert((y - 1) * stride + stride == y * stride) by (nonlinear_arith);
    assert(y * stride <= rows * stride) by (nonlinear_arith)
        requires
            y <= rows,
    ;
}

proof fn lemma_rows_reversed_len(pixels: Seq<u8>, stride: nat, rows: nat)
    requires
        rows * stride <= pixels.len(),
    ensures
        rows_reversed(pixels, stride, rows).len() == rows * stride,
    decreases rows,
{
    if rows > 0 {
        lemma_row_bounds(stride, rows, rows);
        lemma_rows_reversed_len(pixels, stride, (rows - 1) as nat);
    } else {
        assert(rows * stride == 0) by (nonlinear_arith)
            requires
                rows == 0,
        ;
    }
}

impl IconImage {
    #[verifier::type_invariant]
    spec fn well_formed(self) -> bool {
        self.pixels.len() == 4 * (self.width * self.height)
    }

    /// The image as a value: its sides and its bytes.
    pub closed spec fn view(&self) -> Bitmap {
        Bitmap { width: self.width as nat, height: self.height as nat, pixels: self.pixels@ }
    }

    /// Pixels in a row.
    pub fn width(&self) -> (w: u32)
        ensures
            w == self@.width,
    {
        self.width
    }

    /// Rows.
    pub fn height(&self) -> (h: u32)
        ensures
            h == self@.height,
    {
        self.height
    }

    /// The bytes of the image: four a pixel.
    pub fn pixels(&self) -> (p: &Vec<u8>)
        ensures
            p@ == self@.pixels,
            p.len() == 4 * (self@.width * self@.height),
    {
        proof {
            use_type_invariant(self);
        }
        &self.pixels
    }

    /// An image of `width` by `height` pixels from RGBA bytes. Bytes beyond
    /// the last pixel are dropped; a buffer that is too short is refused.
    pub fn from_rgba(width: u32, height: u32, bytes: Vec<u8>) -> (r: Result<IconImage, String>)
        ensures
            match r {
                Ok(image) => bytes.len() >= 4 * (width * height) && image@ == (Bitmap {
                    width: width as nat,
                    height: height as nat,
                    pixels: bytes@.take(4 * (width * height)),
                }),
                Err(e) => bytes.len() < 4 * (width * height) && e@ == BUFFER_TOO_SMALL@,
            },
    {
        assert((width as u128) * (height as u128) <= 0xffff_ffff_0000_0000u128)
            by (nonlinear_arith)
            requires
                width <= 0xffff_ffffu32,
                height <= 0xffff_ffffu32,
        ;
        let needed: u128 = 4 * ((width as u128) * (height as u128));
        if (bytes.len() as u128) < needed {
            return Err(String::from_str(BUFFER_TOO_SMALL));
        }
        let mut pixels = bytes;
        pixels.truncate(needed as usize);
        Ok(IconImage { width, height, pixels })
    }

    /// An image of `width` by `height` pixels from the BGRA bytes that the
    /// shell hands out, with red and blue put in their places.
    pub fn from_bgra(width: u32, height: u32, bytes: Vec<u8>) -> (r: Result<IconImage, String>)
        ensures
            match r {
                Ok(image) => bytes.len() >= 4 * (width * height) && image@ == (Bitmap {
                    width: width as nat,
                    height: height as nat,
                    pixels: red_blue_swapped(bytes@.take(4 * (width * height))),
                }),
                Err(e) => bytes.len() < 4 * (width * height) && e@ == BUFFER_TOO_SMALL@,
            },
    {
        let image = match IconImage::from_rgba(width, height, bytes) {
            Ok(image) => image,
            Err(e) => {
                return Err(e);
            },
        };
        proof {
            use_type_invariant(&image);
        }
        let IconImage { width, height, pixels } = image;
        let mut pixels = pixels;
        let ghost given = pixels@;
        let len = pixels.len();
        let mut i: usize = 0;
        while i + 3 < len
            invariant
                len == pixels.len(),
                len == given.len(),
                len % 4 == 0,
                i % 4 == 0,
                i <= len,
                forall|j: int| 0 <= j < i ==> pixels@[j] == red_blue_swapped(given)[j],
                forall|j: int| i <= j < len ==> pixels@[j] == given[j],
            decreases len - i,
        {
            let blue = pixels[i];
            let red = pixels[i + 2];
            pixels.set(i, red);
            pixels.set(i + 2, blue);
            i = i + 4;
        }
        assert(pixels@ =~= red_blue_swapped(given));
        Ok(IconImage { width, height, pixels })
    }

    /// Whether the image is mostly transparent, so that a smaller rendering
    /// is to be tried.
    pub fn is_mostly_transparent(&self) -> (r: bool)
        ensures
            r == mostly_transparent(self@),
    {
        proof {
            use_type_invariant(self);
        }
        let total: usize = self.pixels.len() / 4;
        let mut transparent: usize = 0;
        let mut i: usize = 0;
        while i < total
            invariant
                i <= total,
                total * 4 == self.pixels.len(),
                transparent == transparent_pixels(self.pixels@, i as nat),
                transparent <= i,
            decreases total - i,
        {
            if self.pixels[4 * i + 3] == 0 {
                transparent = transparent + 1;
            }
            i = i + 1;
        }
        total > 0 && 100 * (transparent as u128) >= 85 * (total as u128)
    }

    /// Turns the image upside down.
    pub fn flip_vertical(&self) -> (r: IconImage)
        ensures
            r@ == flipped(self@),
    {
        proof {
            use_type_invariant(self);
        }
        let mut out: Vec<u8> = Vec::new();
        if self.height == 0 {
            assert(self.width * self.height == 0) by (nonlinear_arith)
                requires
                    self.height == 0,
            ;
            return IconImage { width: self.width, height: self.height, pixels: out };
        }
        proof {
            assert(4 * self.width <= 4 * (self.width * self.height)) by (nonlinear_arith)
                requires
                    self.height >= 1,
            ;
            assert(self.height * (4 * self.width) == 4 * (self.width * self.height))
                by (nonlinear_arith);
        }
        let stride: usize = 4 * (self.width as usize);
        let mut y: usize = self.height as usize;
        while y > 0
            invariant
                y <= self.height,
                stride == 4 * self.width,
                self.height * stride == self.pixels.len(),
                out@ + rows_reversed(self.pixels@, stride as nat, y as nat) == rows_reversed(
                    self.pixels@,
                    stride as nat,
                    self.height as nat,
                ),
            decreases y,
        {
            proof {
                lemma_row_bounds(stride as nat, y as nat, self.height as nat);
            }
            let start = (y - 1) * stride;
            let ghost before = out@;
            let mut x: usize = 0;
            while x < stride
                invariant
                    x <= stride,
                    start + stride <= self.pixels.len(),
                    out@ == before + self.pixels@.subrange(start as int, start + x),
                decreases stride - x,
            {
                out.push(self.pixels[start + x]);
                assert(out@ =~= before + self.pixels@.subrange(start as int, start + x + 1));
                x = x + 1;
            }
            proof {
                let row = self.pixels@.subrange(start as int, start + stride);
                let rest = rows_reversed(self.pixels@, stride as nat, (y - 1) as nat);
                assert(rows_reversed(self.pixels@, stride as nat, y as nat) == row + rest);
                assert((before + row) + rest =~= before + (row + rest));
            }
            y = y - 1;
        }
        proof {
            lemma_rows_reversed_len(self.pixels@, stride as nat, self.height as nat);
            assert(out@ =~= rows_reversed(self.pixels@, stride as nat, self.height as nat));
        }
        IconImage { width: self.width, height: self.height, pixels: out }
    }
}

/// The bitmaps that the platform's shell rendered for a file, bottom row
/// first.
#[derive(Debug)]
pub struct ShellIcons {
    /// The rendering at 256 pixels.
    pub large: IconImage,
    /// The rendering at 48 pixels, where the large one is mostly transparent
    /// and the shell could render a small one.
    pub small: Option<IconImage>,
}

/// The value of an optional image.
pub open spec fn bitmap_of(image: Option<IconImage>) -> Option<Bitmap> {
    match image {
        Some(i) => Some(i@),
        None => None,
    }
}

/// Chooses between the two renderings of an icon: the small one where the
/// large one is mostly transparent, which is how a small icon looks when it
/// was drawn into a large frame.
pub fn choose_icon(icons: ShellIcons) -> (image: IconImage)
    ensures
        image@ == chosen(icons.large@, bitmap_of(icons.small)),
{
    let ShellIcons { large, small } = icons;
    match small {
        Some(s) => {
            if large.is_mostly_transparent() {
                s
            } else {
                large
            }
        },
        None => large,
    }
}

/// Puts base64 text behind the prefix of a PNG data URI.
pub fn data_uri(base64: &str) -> (uri: String)
    ensures
        uri@ == DATA_URI_PREFIX@ + base64@,
{
    String::from_str(DATA_URI_PREFIX).concat(base64)
}

/// The data URI of an image that is stored bottom row first, as the shell
/// hands it out: the image is turned upright, written as PNG and put in
/// base64 behind the prefix. Fails where the image cannot be encoded.
pub fn image_buffer_to_base64(image: &IconImage) -> (r: Result<String, String>)
    ensures
        match r {
            Ok(uri) => data_uri_of(image@) == Some(uri@),
            Err(_) => data_uri_of(image@) is None,
        },
{
    let upright = image.flip_vertical();
    let png = match encode_png(upright.width(), upright.height(), upright.pixels()) {
        Ok(png) => png,
        Err(e) => {
            return Err(e);
        },
    };
    if png.len() > usize::MAX / 2 {
        return Err(String::from_str(ICON_TOO_LARGE));
    }
    let text = encode_base64(&png);
    Ok(data_uri(text.as_str()))
}

/// The icon of a file as a data URI, from what the shell rendered for it.
/// On a platform whose shell renders no icons (`None`) the icon is empty,
/// and that is no failure. An image that cannot be encoded is one.
pub fn get_file_icon_base64(icons: Option<ShellIcons>) -> (r: Result<String, String>)
    ensures
        match icons {
            None => r matches Ok(uri) && uri@ == Seq::<char>::empty(),
            Some(rendered) => match r {
                Ok(uri) => data_uri_of(chosen(rendered.large@, bitmap_of(rendered.small)))
                    == Some(uri@),
                Err(_) => data_uri_of(chosen(rendered.large@, bitmap_of(rendered.small))) is None,
            },
        },
{
    match icons {
        None => Ok(String::new()),
        Some(rendered) => {
            let image = choose_icon(rendered);
            image_buffer_to_base64(&image)
        },
    }
}

} // verus!
