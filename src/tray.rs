//! Tray icon support: its error type and the pixel conversion of its image.
use vstd::prelude::*;

verus! {

#[derive(Debug, Clone)]
pub enum TrayError {
    Setup(String),
}

/// RGBA pixels from RGB ones: each group of three bytes (the last group may
/// be shorter) followed by an opaque alpha byte.
pub open spec fn rgba_of(rgb: Seq<u8>) -> Seq<u8>
    decreases rgb.len(),
{
    if rgb.len() == 0 {
        Seq::empty()
    } else if rgb.len() <= 3 {
        rgb.push(255)
    } else {
        rgb.subrange(0, 3).push(255) + rgba_of(rgb.subrange(3, rgb.len() as int))
    }
}

/// Adds an opaque alpha byte after every pixel of RGB data.
pub fn rgb_to_rgba(rgb: &Vec<u8>) -> (r: Vec<u8>)
    ensures
        r@ == rgba_of(rgb@),
{
    let n = rgb.len();
    let mut out: Vec<u8> = Vec::new();
    let mut i: usize = 0;
    proof {
        assert(rgb@.subrange(0, n as int) =~= rgb@);
        assert(out@ + rgba_of(rgb@) =~= rgba_of(rgb@));
    }
    while i < n
        invariant
            n == rgb@.len(),
            i <= n,
            out@ + rgba_of(rgb@.subrange(i as int, n as int)) == rgba_of(rgb@),
        decreases n - i,
    {
        let end: usize = if n - i > 3 { i + 3 } else { n };
        let ghost rest = rgb@.subrange(i as int, n as int);
        let ghost start_out = out@;
        let mut j: usize = i;
        while j < end
            invariant
                i <= j <= end <= n,
                n == rgb@.len(),
                out@ == start_out + rgb@.subrange(i as int, j as int),
            decreases end - j,
        {
            out.push(rgb[j]);
            proof {
                assert(rgb@.subrange(i as int, j + 1) =~= rgb@.subrange(i as int, j as int).push(rgb@[j as int]));
            }
            j = j + 1;
        }
        out.push(255);
        proof {
            if n - i > 3 {
                assert(rest.subrange(0, 3) =~= rgb@.subrange(i as int, end as int));
                assert(rest.subrange(3, rest.len() as int) =~= rgb@.subrange(end as int, n as int));
            } else {
                assert(rest =~= rgb@.subrange(i as int, end as int));
                assert(rgb@.subrange(n as int, n as int) =~= Seq::<u8>::empty());
            }
        }
        i = end;
    }
    proof {
        assert(rgb@.subrange(n as int, n as int) =~= Seq::<u8>::empty());
        assert(out@ + Seq::<u8>::empty() =~= out@);
    }
    out
}

/// The color layout of a decoded PNG frame.
#[derive(Debug, Clone, Copy, PartialEq, Eq, Structural)]
pub enum PngColor {
    Grayscale,
    Rgb,
    Indexed,
    GrayscaleAlpha,
    Rgba,
}

/// The first frame of a PNG file as the png crate decodes it: its bytes,
/// width, height and color layout; `None` when the file does not decode.
pub uninterp spec fn png_frame(data: Seq<u8>) -> Option<(Seq<u8>, u32, u32, PngColor)>;

/// Relies on png::Decoder (`read_info`, then `next_frame` into a buffer of
/// `output_buffer_size` bytes, cut to the frame's `buffer_size`): the
/// decoded first frame, a function of the file's bytes alone.
#[verifier::external_body]
fn decode_png(data: &[u8]) -> (r: Result<(Vec<u8>, u32, u32, PngColor), String>)
    ensures
        r is Ok <==> png_frame(data@) is Some,
        r matches Ok((px, w, h, c)) ==> png_frame(data@) == Some((px@, w, h, c)),
{
    let mut reader = png::Decoder::new(data).read_info().map_err(|e| e.to_string())?;
    let mut buf = vec![0; reader.output_buffer_size()];
    let info = reader.next_frame(&mut buf).map_err(|e| e.to_string())?;
    buf.truncate(info.buffer_size());
    let color = match info.color_type {
        png::ColorType::Grayscale => PngColor::Grayscale,
        png::ColorType::Rgb => PngColor::Rgb,
        png::ColorType::Indexed => PngColor::Indexed,
        png::ColorType::GrayscaleAlpha => PngColor::GrayscaleAlpha,
        png::ColorType::Rgba => PngColor::Rgba,
    };
    Ok((buf, info.width, info.height, color))
}

/// RGBA pixels of a decoded frame: RGBA as it is, RGB with an opaque alpha
/// byte added; other layouts are not supported.
pub fn icon_pixels(pixels: Vec<u8>, color: PngColor) -> (r: Result<Vec<u8>, String>)
    ensures
        (color == PngColor::Rgba || color == PngColor::Rgb) <==> r is Ok,
        color == PngColor::Rgba ==> (r matches Ok(p) && p@ == pixels@),
        color == PngColor::Rgb ==> (r matches Ok(p) && p@ == rgba_of(pixels@)),
{
    match color {
        PngColor::Rgba => Ok(pixels),
        PngColor::Rgb => Ok(rgb_to_rgba(&pixels)),
        _ => Err(String::from_str("unsupported color type")),
    }
}

/// The tray icon from PNG data: RGBA pixels, width and height.
pub fn load_icon_from_png(png_data: &[u8]) -> (r: Result<(Vec<u8>, u32, u32), String>)
    ensures
        match png_frame(png_data@) {
            None => r is Err,
            Some((px, w, h, c)) => if c == PngColor::Rgba || c == PngColor::Rgb {
                &&& r matches Ok((rgba, w2, h2))
                &&& w2 == w && h2 == h
                &&& rgba@ == if c == PngColor::Rgba { px } else { rgba_of(px) }
            } else {
                r is Err
            },
        },
{
    let (pixels, width, height, color) = decode_png(png_data)?;
    let rgba = icon_pixels(pixels, color)?;
    Ok((rgba, width, height))
}

} // verus!
