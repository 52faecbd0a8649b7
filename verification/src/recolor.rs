//! Recolouring of comic artwork, which is black ink on a white page, to the
//! foreground and background colours of the terminal.

use vstd::prelude::*;

verus! {

/// `image::DynamicImage`, an image in any of the pixel formats of the `image`
/// crate. What is known of one is its width, its height and its pixels.
#[verifier::external_type_specification]
#[verifier::external_body]
pub struct ExDynamicImage(image::DynamicImage);

/// A colour by its red, green and blue channels.
#[derive(Debug, Clone, Copy, PartialEq, Eq, Hash)]
pub struct Rgb {
    pub red: u8,
    pub green: u8,
    pub blue: u8,
}

/// The colours of the terminal that the artwork is mapped onto.
#[derive(Debug, Clone, Copy, PartialEq, Eq)]
pub struct ColorPair {
    pub foreground: Rgb,
    pub background: Rgb,
}

impl Rgb {
    /// The colour of the page.
    pub open spec fn white() -> Rgb {
        Rgb { red: 255, green: 255, blue: 255 }
    }

    /// The colour of the ink.
    pub open spec fn black() -> Rgb {
        Rgb { red: 0, green: 0, blue: 0 }
    }

    /// The gray of the given brightness.
    pub open spec fn gray(brightness: u8) -> Rgb {
        Rgb { red: brightness, green: brightness, blue: brightness }
    }

    /// Whether the three channels are equal.
    pub open spec fn grayscale(self) -> bool {
        self.red == self.green && self.red == self.blue
    }

    /// The brightness of the colour: the weighted mean of its channels, with the
    /// weights 0.2126, 0.7152 and 0.0722, rounded down.
    pub open spec fn luminance(self) -> int {
        (2126 * self.red + 7152 * self.green + 722 * self.blue) / 10000
    }
}

/// One channel of the blend of a foreground and a background colour for a pixel of
/// brightness `luma`: the point `luma / 255` of the way from `foreground` to
/// `background`, rounded down.
pub open spec fn blended_channel(foreground: int, background: int, luma: int) -> int {
    (background * luma + foreground * (255 - luma)) / 255
}

/// The blend of the two colours of `colors` for a pixel of brightness `luma`.
pub open spec fn blended(colors: ColorPair, luma: int) -> Rgb {
    Rgb {
        red: blended_channel(
            colors.foreground.red as int,
            colors.background.red as int,
            luma,
        ) as u8,
        green: blended_channel(
            colors.foreground.green as int,
            colors.background.green as int,
            luma,
        ) as u8,
        blue: blended_channel(
            colors.foreground.blue as int,
            colors.background.blue as int,
            luma,
        ) as u8,
    }
}

/// The colour that a pixel of the artwork gets. White becomes the background and
/// black the foreground, exactly. A gray pixel, and any other pixel unless colours
/// are kept, becomes the blend of the two for its brightness. A coloured pixel is
/// left as it is where colours are kept.
pub open spec fn recolored(pixel: Rgb, colors: ColorPair, keep_colors: bool) -> Rgb {
    if pixel == Rgb::white() {
        colors.background
    } else if pixel == Rgb::black() {
        colors.foreground
    } else if pixel.grayscale() || !keep_colors {
        blended(colors, pixel.luminance())
    } else {
        pixel
    }
}

/// The width of an image, in pixels.
pub uninterp spec fn image_width(image: image::DynamicImage) -> u32;

/// The height of an image, in pixels.
pub uninterp spec fn image_height(image: image::DynamicImage) -> u32;

/// The pixels of an image by column and row, each as the red, green and blue that
/// the image gives for it.
pub uninterp spec fn image_pixels(image: image::DynamicImage) -> Map<(int, int), Rgb>;

/// The pixel of `image` in column `x` of row `y`.
pub open spec fn pixel_at(image: image::DynamicImage, x: int, y: int) -> Rgb {
    image_pixels(image)[(x, y)]
}

/// The pixel in column `x` of row `y` in a buffer that holds rows of `width`
/// pixels one after the other, each pixel as three bytes: red, green, blue.
pub open spec fn raw_pixel(bytes: Seq<u8>, width: int, x: int, y: int) -> Rgb {
    let start = 3 * (y * width + x);
    Rgb { red: bytes[start], green: bytes[start + 1], blue: bytes[start + 2] }
}

/// Whether `result` is `source` with each pixel recoloured: the same width and
/// height, and at each place the colour that [`recolored`] gives for the pixel of
/// `source` there.
pub open spec fn is_recolored(
    source: image::DynamicImage,
    result: image::DynamicImage,
    colors: ColorPair,
    keep_colors: bool,
) -> bool {
    &&& image_width(result) == image_width(source)
    &&& image_height(result) == image_height(source)
    &&& forall|x: int, y: int|
        0 <= x < image_width(source) && 0 <= y < image_height(source) ==> #[trigger] pixel_at(
            result,
            x,
            y,
        ) == recolored(pixel_at(source, x, y), colors, keep_colors)
}

/// `image::GenericImageView::dimensions` of a `DynamicImage`: its width and height.
#[verifier::external_body]
fn image_dimensions(image: &image::DynamicImage) -> (dimensions: (u32, u32))
    ensures
        dimensions.0 == image_width(*image),
        dimensions.1 == image_height(*image),
{
    image::GenericImageView::dimensions(image)
}

/// `image::GenericImageView::get_pixel` of a `DynamicImage`, which panics outside
/// the image, with the alpha channel dropped by `image::Pixel::to_rgb`: the red,
/// green and blue of the pixel in column `x` of row `y`.
#[verifier::external_body]
fn image_pixel(image: &image::DynamicImage, x: u32, y: u32) -> (pixel: Rgb)
    requires
        x < image_width(*image),
        y < image_height(*image),
    ensures
        pixel == image_pixels(*image)[(x as int, y as int)],
{
    let rgb = image::Pixel::to_rgb(&image::GenericImageView::get_pixel(image, x, y));
    Rgb { red: rgb.0[0], green: rgb.0[1], blue: rgb.0[2] }
}

/// `image::ImageBuffer::from_raw` for pixels of three bytes, made a `DynamicImage`
/// by `From`. It gives an image where the buffer holds at least three bytes for
/// each pixel, and `None` otherwise. The image has the given width and height, and
/// its pixel in column `x` of row `y` is the three bytes that start at
/// `3 * (y * width + x)`.
#[verifier::external_body]
fn rgb_image(width: u32, height: u32, bytes: Vec<u8>) -> (image: Option<image::DynamicImage>)
    ensures
        image is Some <==> bytes@.len() >= 3 * width * height,
        image matches Some(image) ==> {
            &&& image_width(image) == width
            &&& image_height(image) == height
            &&& forall|x: int, y: int|
                0 <= x < width && 0 <= y < height ==> #[trigger] pixel_at(image, x, y)
                    == raw_pixel(bytes@, width as int, x, y)
        },
{
    image::RgbImage::from_raw(width, height, bytes).map(image::DynamicImage::from)
}

/// `image::Pixel::to_luma` of an `image::Rgb` of bytes: the brightness of the
/// colour, which is `(2126 * red + 7152 * green + 722 * blue) / 10000`.
#[verifier::external_body]
fn luma(color: Rgb) -> (brightness: u8)
    ensures
        brightness == color.luminance(),
{
    image::Pixel::to_luma(&image::Rgb([color.red, color.green, color.blue])).0[0]
}

/// Whether the three channels of a colour are equal.
pub fn is_grayscale(color: Rgb) -> (gray: bool)
    ensures
        gray == color.grayscale(),
{
    color.red == color.green && color.red == color.blue
}

/// The blend stays between the two colours it is made of.
pub proof fn lemma_blended_channel_between(foreground: int, background: int, luma: int)
    requires
        0 <= luma <= 255,
    ensures
        foreground <= background ==> foreground <= blended_channel(foreground, background, luma)
            <= background,
        background <= foreground ==> background <= blended_channel(foreground, background, luma)
            <= foreground,
{
    let sum = background * luma + foreground * (255 - luma);
    if foreground <= background {
        assert(foreground * 255 <= sum <= background * 255) by (nonlinear_arith)
            requires
                0 <= luma <= 255,
                foreground <= background,
                sum == background * luma + foreground * (255 - luma),
        ;
    }
    if background <= foreground {
        assert(background * 255 <= sum <= foreground * 255) by (nonlinear_arith)
            requires
                0 <= luma <= 255,
                background <= foreground,
                sum == background * luma + foreground * (255 - luma),
        ;
    }
}

fn blend_channel(foreground: u8, background: u8, luma: u8) -> (channel: u8)
    ensures
        channel == blended_channel(foreground as int, background as int, luma as int),
{
    proof {
        lemma_blended_channel_between(foreground as int, background as int, luma as int);
        assert(background * luma <= 255 * 255) by (nonlinear_arith)
            requires
                0 <= background <= 255,
                0 <= luma <= 255,
        ;
        assert(foreground * (255 - luma) <= 255 * 255) by (nonlinear_arith)
            requires
                0 <= foreground <= 255,
                0 <= luma <= 255,
        ;
        assert(0 <= background * luma && 0 <= foreground * (255 - luma)) by (nonlinear_arith)
            requires
                0 <= background,
                0 <= foreground,
                0 <= luma <= 255,
        ;
    }
    let luma: u32 = luma as u32;
    let sum: u32 = background as u32 * luma + foreground as u32 * (255 - luma);
    (sum / 255) as u8
}

/// Recolours artwork to the colours of the terminal.
#[derive(Debug, Clone, Copy, PartialEq, Eq)]
pub struct ImageProcessor {
    pub colors: ColorPair,
    pub keep_colors: bool,
}

impl ImageProcessor {
    pub fn new(foreground_color: Rgb, background_color: Rgb, keep_colors: bool) -> (processor:
        ImageProcessor)
        ensures
            processor.colors.foreground == foreground_color,
            processor.colors.background == background_color,
            processor.keep_colors == keep_colors,
    {
        ImageProcessor {
            colors: ColorPair { foreground: foreground_color, background: background_color },
            keep_colors,
        }
    }

    /// The blend of foreground and background for the brightness of the given
    /// colour.
    pub fn blend_color(&self, pixel: Rgb) -> (color: Rgb)
        ensures
            color == blended(self.colors, pixel.luminance()),
    {
        let brightness = luma(pixel);
        Rgb {
            red: blend_channel(self.colors.foreground.red, self.colors.background.red, brightness),
            green: blend_channel(
                self.colors.foreground.green,
                self.colors.background.green,
                brightness,
            ),
            blue: blend_channel(
                self.colors.foreground.blue,
                self.colors.background.blue,
                brightness,
            ),
        }
    }

    /// The colour that a pixel of the artwork gets.
    pub fn pixel_color(&self, pixel: Rgb) -> (color: Rgb)
        ensures
            color == recolored(pixel, self.colors, self.keep_colors),
    {
        if pixel.red == 255 && pixel.green == 255 && pixel.blue == 255 {
            self.colors.background
        } else if pixel.red == 0 && pixel.green == 0 && pixel.blue == 0 {
            self.colors.foreground
        } else if is_grayscale(pixel) || !self.keep_colors {
            self.blend_color(pixel)
        } else {
            pixel
        }
    }

    /// The artwork with each pixel recoloured, as an image of the same size.
    pub fn process_image(&self, image: &image::DynamicImage) -> (processed: image::DynamicImage)
        ensures
            is_recolored(*image, processed, self.colors, self.keep_colors),
    {
        let (width, height) = image_dimensions(image);
        let mut bytes: Vec<u8> = Vec::new();
        let mut y: u32 = 0;
        while y < height
            invariant
                y <= height,
                width == image_width(*image),
                height == image_height(*image),
                bytes@.len() == 3 * (y * width),
                forall|i: int, j: int|
                    0 <= i < width && 0 <= j < y ==> #[trigger] raw_pixel(
                        bytes@,
                        width as int,
                        i,
                        j,
                    ) == recolored(pixel_at(*image, i, j), self.colors, self.keep_colors),
            decreases height - y,
        {
            let mut x: u32 = 0;
            while x < width
                invariant
                    x <= width,
                    y < height,
                    width == image_width(*image),
                    height == image_height(*image),
                    bytes@.len() == 3 * (y * width + x),
                    forall|i: int, j: int|
                        0 <= i < width && 0 <= j < y ==> #[trigger] raw_pixel(
                            bytes@,
                            width as int,
                            i,
                            j,
                        ) == recolored(pixel_at(*image, i, j), self.colors, self.keep_colors),
                    forall|i: int|
                        0 <= i < x ==> #[trigger] raw_pixel(bytes@, width as int, i, y as int)
                            == recolored(
                            pixel_at(*image, i, y as int),
                            self.colors,
                            self.keep_colors,
                        ),
                decreases width - x,
            {
                let color = self.pixel_color(image_pixel(image, x, y));
                let ghost before = bytes@;
                bytes.push(color.red);
                bytes.push(color.green);
                bytes.push(color.blue);
                proof {
                    assert forall|i: int, j: int|
                        0 <= i < width && 0 <= j < y implies #[trigger] raw_pixel(
                        bytes@,
                        width as int,
                        i,
                        j,
                    ) == raw_pixel(before, width as int, i, j) by {
                        lemma_earlier_row(i, j, width as int, y as int);
                    }
                    assert forall|i: int| 0 <= i < x implies #[trigger] raw_pixel(
                        bytes@,
                        width as int,
                        i,
                        y as int,
                    ) == raw_pixel(before, width as int, i, y as int) by {
                        assert(3 * (y * width + i) + 2 < before.len());
                    }
                    assert(raw_pixel(bytes@, width as int, x as int, y as int) == color);
                }
                x = x + 1;
            }
            proof {
                assert(3 * (y * width + width) == 3 * ((y + 1) * width)) by (nonlinear_arith);
            }
            y = y + 1;
        }
        proof {
            assert(3 * (height * width) == 3 * width * height) by (nonlinear_arith);
        }
        rgb_image(width, height, bytes).unwrap()
    }
}

/// A pixel of an earlier row lies before every pixel of a later row.
proof fn lemma_earlier_row(x: int, y: int, width: int, row: int)
    requires
        0 <= x < width,
        0 <= y < row,
    ensures
        0 <= y * width + x,
        y * width + x + 1 <= row * width,
{
    assert(0 <= y * width) by (nonlinear_arith)
        requires
            0 <= y,
            0 <= width,
    ;
    assert((y + 1) * width <= row * width) by (nonlinear_arith)
        requires
            y + 1 <= row,
            0 <= width,
    ;
    assert((y + 1) * width == y * width + width) by (nonlinear_arith);
}

/// A gray is as bright as each of its channels.
pub proof fn lemma_gray_luminance(brightness: u8)
    ensures
        Rgb::gray(brightness).luminance() == brightness,
{
    assert(2126 * brightness + 7152 * brightness + 722 * brightness == 10000 * brightness);
}

/// A brighter pixel is blended closer to the background, channel by channel.
pub proof fn lemma_blended_channel_monotonic(
    foreground: int,
    background: int,
    darker: int,
    brighter: int,
)
    requires
        0 <= darker <= brighter <= 255,
    ensures
        foreground <= background ==> blended_channel(foreground, background, darker)
            <= blended_channel(foreground, background, brighter),
        background <= foreground ==> blended_channel(foreground, background, darker)
            >= blended_channel(foreground, background, brighter),
        blended_channel(foreground, background, 0) == foreground,
        blended_channel(foreground, background, 255) == background,
{
    let low = background * darker + foreground * (255 - darker);
    let high = background * brighter + foreground * (255 - brighter);
    if foreground <= background {
        assert(low <= high) by (nonlinear_arith)
            requires
                darker <= brighter,
                foreground <= background,
                low == background * darker + foreground * (255 - darker),
                high == background * brighter + foreground * (255 - brighter),
        ;
    }
    if background <= foreground {
        assert(low >= high) by (nonlinear_arith)
            requires
                darker <= brighter,
                background <= foreground,
                low == background * darker + foreground * (255 - darker),
                high == background * brighter + foreground * (255 - brighter),
        ;
    }
}

/// The two tones of the artwork are mapped exactly: a white pixel becomes the
/// background colour and a black pixel the foreground colour, whether colours are
/// kept or not.
pub proof fn law_reference_tones_exact(colors: ColorPair, keep_colors: bool)
    ensures
        recolored(Rgb::white(), colors, keep_colors) == colors.background,
        recolored(Rgb::black(), colors, keep_colors) == colors.foreground,
{
}

/// In a recoloured image every pixel that was white in the source is the
/// background colour, and every pixel that was black is the foreground colour.
pub proof fn law_recolored_image_maps_tones(
    source: image::DynamicImage,
    result: image::DynamicImage,
    colors: ColorPair,
    keep_colors: bool,
    x: int,
    y: int,
)
    requires
        is_recolored(source, result, colors, keep_colors),
        0 <= x < image_width(source),
        0 <= y < image_height(source),
    ensures
        pixel_at(source, x, y) == Rgb::white() ==> pixel_at(result, x, y) == colors.background,
        pixel_at(source, x, y) == Rgb::black() ==> pixel_at(result, x, y) == colors.foreground,
{
    assert(pixel_at(result, x, y) == recolored(pixel_at(source, x, y), colors, keep_colors));
}

/// A gray pixel is recoloured to the blend for its brightness, at the ends of the
/// scale too: black is the blend for brightness 0 and white the blend for 255.
pub proof fn law_gray_is_blended(colors: ColorPair, keep_colors: bool, brightness: u8)
    ensures
        recolored(Rgb::gray(brightness), colors, keep_colors) == blended(
            colors,
            brightness as int,
        ),
{
    lemma_gray_luminance(brightness);
    lemma_blended_channel_monotonic(
        colors.foreground.red as int,
        colors.background.red as int,
        0,
        255,
    );
    lemma_blended_channel_monotonic(
        colors.foreground.green as int,
        colors.background.green as int,
        0,
        255,
    );
    lemma_blended_channel_monotonic(
        colors.foreground.blue as int,
        colors.background.blue as int,
        0,
        255,
    );
}

/// Of two gray pixels the brighter one is recoloured closer to the background: in
/// each channel the result moves from the foreground towards the background as the
/// brightness grows, and never leaves the span between the two.
pub proof fn law_recolor_monotonic(colors: ColorPair, keep_colors: bool, darker: u8, brighter: u8)
    requires
        darker <= brighter,
    ensures
        ({
            let low = recolored(Rgb::gray(darker), colors, keep_colors);
            let high = recolored(Rgb::gray(brighter), colors, keep_colors);
            let from = colors.foreground;
            let to = colors.background;
            &&& from.red <= to.red ==> from.red <= low.red <= high.red <= to.red
            &&& from.red >= to.red ==> from.red >= low.red >= high.red >= to.red
            &&& from.green <= to.green ==> from.green <= low.green <= high.green <= to.green
            &&& from.green >= to.green ==> from.green >= low.green >= high.green >= to.green
            &&& from.blue <= to.blue ==> from.blue <= low.blue <= high.blue <= to.blue
            &&& from.blue >= to.blue ==> from.blue >= low.blue >= high.blue >= to.blue
        }),
{
    law_gray_is_blended(colors, keep_colors, darker);
    law_gray_is_blended(colors, keep_colors, brighter);
    let from = colors.foreground;
    let to = colors.background;
    lemma_blended_channel_monotonic(from.red as int, to.red as int, darker as int, brighter as int);
    lemma_blended_channel_between(from.red as int, to.red as int, darker as int);
    lemma_blended_channel_between(from.red as int, to.red as int, brighter as int);
    lemma_blended_channel_monotonic(
        from.green as int,
        to.green as int,
        darker as int,
        brighter as int,
    );
    lemma_blended_channel_between(from.green as int, to.green as int, darker as int);
    lemma_blended_channel_between(from.green as int, to.green as int, brighter as int);
    lemma_blended_channel_monotonic(
        from.blue as int,
        to.blue as int,
        darker as int,
        brighter as int,
    );
    lemma_blended_channel_between(from.blue as int, to.blue as int, darker as int);
    lemma_blended_channel_between(from.blue as int, to.blue as int, brighter as int);
}

} // verus!
