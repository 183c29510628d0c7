//! The compositor: pixel operations on images of four 8-bit channels, and
//! the procedures that make an icon file from the bytes of its resources.

use vstd::prelude::*;
use crate::icons::recipe::IconError;
use crate::text::{chars_of, ends_with, ends_with_spec, same_text};

verus! {

/// The error of the image library.
#[verifier::external_type_specification]
#[verifier::external_body]
pub struct ExImageError(image::ImageError);

/// An image as plain values.
pub struct RasterView {
    pub width: u32,
    pub height: u32,
    /// Red, green, blue and alpha of each pixel, row after row.
    pub pixels: Seq<u8>,
}

/// An image of four 8-bit channels: red, green, blue and alpha.
#[derive(Debug)]
pub struct Raster {
    pub width: u32,
    pub height: u32,
    /// Red, green, blue and alpha of each pixel, row after row.
    pub pixels: Vec<u8>,
}

impl View for Raster {
    type V = RasterView;

    open spec fn view(&self) -> RasterView {
        RasterView { width: self.width, height: self.height, pixels: self.pixels@ }
    }
}

/// The number of bytes of an image of four 8-bit channels.
fn byte_count(width: u32, height: u32) -> (n: u128)
    ensures
        n == 4 * width * height,
{
    assert(width * height <= 0xffff_ffff * 0xffff_ffff) by (nonlinear_arith)
        requires
            width <= 0xffff_ffff,
            height <= 0xffff_ffff,
    ;
    let area: u128 = (width as u128) * (height as u128);
    assert(4 * width * height == 4 * (width * height)) by (nonlinear_arith);
    4u128 * area
}

impl Raster {
    /// The image of the size `width` by `height` with the pixels `pixels`;
    /// nothing where `pixels` does not hold four bytes for each pixel.
    pub fn new(width: u32, height: u32, pixels: Vec<u8>) -> (r: Option<Raster>)
        ensures
            match r {
                Some(img) => well_formed(img@) && img@ == (RasterView {
                    width,
                    height,
                    pixels: pixels@,
                }),
                None => pixels@.len() != 4 * width * height,
            },
    {
        let expected = byte_count(width, height);
        if pixels.len() as u128 == expected {
            Some(Raster { width, height, pixels })
        } else {
            None
        }
    }

    /// Whether the image holds four bytes for each of its pixels.
    pub fn is_well_formed(&self) -> (b: bool)
        ensures
            b == well_formed(self@),
    {
        let expected = byte_count(self.width, self.height);
        self.pixels.len() as u128 == expected
    }
}

/// Whether an image holds four bytes for each of its pixels.
pub open spec fn well_formed(img: RasterView) -> bool {
    img.pixels.len() == 4 * img.width * img.height
}

/// What `image::load_from_memory` makes of `bytes`, taken as four 8-bit
/// channels: the width, the height and the pixels, or nothing where the
/// bytes are no image that the library reads.
pub uninterp spec fn decoded(bytes: Seq<u8>) -> Option<(u32, u32, Seq<u8>)>;

/// The pixels that `image::imageops::resize` with the Lanczos filter of
/// window 3 gives for the size `new_width` by `new_height`.
pub uninterp spec fn resized(
    width: u32,
    height: u32,
    pixels: Seq<u8>,
    new_width: u32,
    new_height: u32,
) -> Seq<u8>;

/// The pixels of the lower image after `image::imageops::overlay` has laid
/// the upper image over it with its corner at `x`, `y`.
pub uninterp spec fn overlaid(
    width: u32,
    height: u32,
    pixels: Seq<u8>,
    top_width: u32,
    top_height: u32,
    top_pixels: Seq<u8>,
    x: i64,
    y: i64,
) -> Seq<u8>;

/// The pixels of an image after `image_blend` has added the colours of an
/// image of the same size to it, leaving its alpha as it was.
pub uninterp spec fn blended(width: u32, height: u32, pixels: Seq<u8>, top_pixels: Seq<u8>) -> Seq<
    u8,
>;

/// The bytes that the image library writes for an image as PNG or, where
/// `jpeg` holds, as JPEG; nothing where it cannot write the image.
pub uninterp spec fn encoded(width: u32, height: u32, pixels: Seq<u8>, jpeg: bool) -> Option<
    Seq<u8>,
>;

/// `image::load_from_memory`: reads an image from bytes, guessing its format
/// from them. The image is handed on as four 8-bit channels.
#[verifier::external_body]
fn decode(bytes: &[u8]) -> (r: Result<Raster, image::ImageError>)
    ensures
        match r {
            Ok(img) => well_formed(img@) && decoded(bytes@) == Some(
                (img.width, img.height, img.pixels@),
            ),
            Err(_) => decoded(bytes@) is None,
        },
{
    let img = image::load_from_memory(bytes)?.into_rgba8();
    Ok(Raster { width: img.width(), height: img.height(), pixels: img.into_raw() })
}

/// `image::imageops::resize` with `FilterType::Lanczos3`: the image in the
/// size `width` by `height`, whatever its proportions were.
#[verifier::external_body]
fn resize(img: &Raster, width: u32, height: u32) -> (out: Raster)
    requires
        well_formed(img@),
        1 <= width <= 4096,
        1 <= height <= 4096,
    ensures
        well_formed(out@),
        out.width == width,
        out.height == height,
        out.pixels@ == resized(img.width, img.height, img.pixels@, width, height),
{
    let src = image::RgbaImage::from_raw(img.width, img.height, img.pixels.clone()).unwrap();
    let out = image::imageops::resize(&src, width, height, image::imageops::FilterType::Lanczos3);
    Raster { width, height, pixels: out.into_raw() }
}

/// `image::imageops::overlay`: lays `top` over `base` with its corner at
/// `x`, `y`, mixing by the alpha of `top`. The size of `base` stays.
#[verifier::external_body]
fn overlay(base: &mut Raster, top: &Raster, x: i64, y: i64)
    requires
        well_formed(old(base)@),
        well_formed(top@),
    ensures
        well_formed(final(base)@),
        final(base).width == old(base).width,
        final(base).height == old(base).height,
        final(base).pixels@ == overlaid(
            old(base).width,
            old(base).height,
            old(base).pixels@,
            top.width,
            top.height,
            top.pixels@,
            x,
            y,
        ),
{
    let pixels = std::mem::take(&mut base.pixels);
    let mut bottom = image::RgbaImage::from_raw(base.width, base.height, pixels).unwrap();
    let upper = image::RgbaImage::from_raw(top.width, top.height, top.pixels.clone()).unwrap();
    image::imageops::overlay(&mut bottom, &upper, x, y);
    base.pixels = bottom.into_raw();
}

/// `image_blend::BufferBlend::blend` with `pixel_add`, on the colours and
/// not on alpha: adds `top` to `base`. It refuses images of different sizes
/// and then leaves `base` as it was.
#[verifier::external_body]
fn blend_add(base: &mut Raster, top: &Raster) -> (done: bool)
    requires
        well_formed(old(base)@),
        well_formed(top@),
    ensures
        done == (old(base).width == top.width && old(base).height == top.height),
        well_formed(final(base)@),
        final(base).width == old(base).width,
        final(base).height == old(base).height,
        final(base).pixels@ == if done {
            blended(old(base).width, old(base).height, old(base).pixels@, top.pixels@)
        } else {
            old(base).pixels@
        },
{
    let pixels = std::mem::take(&mut base.pixels);
    let mut bottom = image::RgbaImage::from_raw(base.width, base.height, pixels).unwrap();
    let upper = image::RgbaImage::from_raw(top.width, top.height, top.pixels.clone()).unwrap();
    let done = image_blend::BufferBlend::blend(&mut bottom, &upper, image_blend::pixelops::pixel_add, true, false).is_ok();
    base.pixels = bottom.into_raw();
    done
}

/// `image::DynamicImage::write_to`: the bytes of the image as PNG or, where
/// `jpeg` holds, as JPEG.
#[verifier::external_body]
fn encode(img: &Raster, jpeg: bool) -> (r: Result<Vec<u8>, image::ImageError>)
    requires
        well_formed(img@),
    ensures
        match r {
            Ok(bytes) => encoded(img.width, img.height, img.pixels@, jpeg) == Some(bytes@),
            Err(_) => encoded(img.width, img.height, img.pixels@, jpeg) is None,
        },
{
    let src = image::RgbaImage::from_raw(img.width, img.height, img.pixels.clone()).unwrap();
    let format = if jpeg { image::ImageFormat::Jpeg } else { image::ImageFormat::Png };
    let mut out = std::io::Cursor::new(Vec::new());
    image::DynamicImage::ImageRgba8(src).write_to(&mut out, format)?;
    Ok(out.into_inner())
}

/// An image in another size.
pub open spec fn resize_spec(img: RasterView, width: u32, height: u32) -> RasterView {
    RasterView {
        width,
        height,
        pixels: resized(img.width, img.height, img.pixels, width, height),
    }
}

/// An image with another laid over it.
pub open spec fn overlay_spec(base: RasterView, top: RasterView, x: i64, y: i64) -> RasterView {
    RasterView {
        width: base.width,
        height: base.height,
        pixels: overlaid(
            base.width,
            base.height,
            base.pixels,
            top.width,
            top.height,
            top.pixels,
            x,
            y,
        ),
    }
}

/// An image with the colours of another added.
pub open spec fn blend_spec(base: RasterView, top: RasterView) -> RasterView {
    RasterView {
        width: base.width,
        height: base.height,
        pixels: blended(base.width, base.height, base.pixels, top.pixels),
    }
}

/// An icon with its tech-tier overlay: the icon in 64 by 64 pixels, the
/// overlay in 16 by 16 pixels laid over its upper left corner.
pub open spec fn tech_spec(icon: RasterView, tech: RasterView) -> RasterView {
    overlay_spec(resize_spec(icon, 64, 64), resize_spec(tech, 16, 16), 0, 0)
}

/// Whether the corner overlay fits the background: they have one size.
pub open spec fn fits(background: RasterView, corner: RasterView) -> bool {
    background.width == corner.width && background.height == corner.height
}

/// A blueprint icon: the icon in 64 by 64 pixels laid over the background,
/// the corner overlay added, and the tech-tier overlay, where there is one,
/// in 16 by 16 pixels laid over the upper left corner.
pub open spec fn blueprint_spec(
    background: RasterView,
    corner: RasterView,
    icon: RasterView,
    tech: Option<RasterView>,
) -> RasterView {
    let composed = blend_spec(overlay_spec(background, resize_spec(icon, 64, 64), 0, 0), corner);
    match tech {
        Some(t) => overlay_spec(composed, resize_spec(t, 16, 16), 0, 0),
        None => composed,
    }
}

/// The image in the size `width` by `height`.
pub fn resize_to(img: &Raster, width: u32, height: u32) -> (out: Raster)
    requires
        well_formed(img@),
        1 <= width <= 4096,
        1 <= height <= 4096,
    ensures
        well_formed(out@),
        out@ == resize_spec(img@, width, height),
{
    resize(img, width, height)
}

/// Lays `top` over `base` with its corner at `x`, `y`.
pub fn overlay_at(base: &mut Raster, top: &Raster, x: i64, y: i64)
    requires
        well_formed(old(base)@),
        well_formed(top@),
    ensures
        well_formed(final(base)@),
        final(base)@ == overlay_spec(old(base)@, top@, x, y),
{
    overlay(base, top, x, y);
}

/// Adds the colours of `top` to `base`, where they have one size; else
/// `base` stays as it is.
pub fn blend_additive(base: &mut Raster, top: &Raster) -> (done: bool)
    requires
        well_formed(old(base)@),
        well_formed(top@),
    ensures
        well_formed(final(base)@),
        done == fits(old(base)@, top@),
        final(base)@ == if done {
            blend_spec(old(base)@, top@)
        } else {
            old(base)@
        },
{
    blend_add(base, top)
}

/// The icon with its tech-tier overlay.
pub fn tech_composite(icon: &Raster, tech: &Raster) -> (out: Raster)
    requires
        well_formed(icon@),
        well_formed(tech@),
    ensures
        well_formed(out@),
        out@ == tech_spec(icon@, tech@),
{
    let mut out = resize_to(icon, 64, 64);
    let badge = resize_to(tech, 16, 16);
    overlay_at(&mut out, &badge, 0, 0);
    out
}

/// The blueprint icon, or nothing where the corner overlay does not fit the
/// background.
pub fn blueprint_composite(
    background: Raster,
    corner: &Raster,
    icon: &Raster,
    tech: Option<&Raster>,
) -> (r: Option<Raster>)
    requires
        well_formed(background@),
        well_formed(corner@),
        well_formed(icon@),
        tech is Some ==> well_formed(tech->0@),
    ensures
        match r {
            Some(out) => fits(background@, corner@) && well_formed(out@) && out@
                == blueprint_spec(
                background@,
                corner@,
                icon@,
                match tech {
                    Some(t) => Some(t@),
                    None => None,
                },
            ),
            None => !fits(background@, corner@),
        },
{
    let mut out = background;
    let scaled = resize_to(icon, 64, 64);
    overlay_at(&mut out, &scaled, 0, 0);
    if !blend_additive(&mut out, corner) {
        return None;
    }
    if let Some(t) = tech {
        let badge = resize_to(t, 16, 16);
        overlay_at(&mut out, &badge, 0, 0);
    }
    Some(out)
}

/// The image that bytes hold, where they hold one.
pub open spec fn image_of(bytes: Seq<u8>) -> Option<RasterView> {
    match decoded(bytes) {
        Some(d) => Some(RasterView { width: d.0, height: d.1, pixels: d.2 }),
        None => None,
    }
}

/// The bytes of an image as PNG or, where `jpeg` holds, as JPEG.
pub open spec fn file_of(img: RasterView, jpeg: bool) -> Option<Seq<u8>> {
    encoded(img.width, img.height, img.pixels, jpeg)
}

/// The PNG file of an icon with its tech-tier overlay, from the bytes of
/// both; nothing where one of them is no image or the result cannot be
/// written.
pub open spec fn tech_file(icon: Seq<u8>, tech: Seq<u8>) -> Option<Seq<u8>> {
    if image_of(icon) is Some && image_of(tech) is Some {
        file_of(tech_spec(image_of(icon)->0, image_of(tech)->0), false)
    } else {
        None
    }
}

/// Whether the three images of a blueprint can be read and the corner
/// overlay does not fit the background.
pub open spec fn misfit(background: Seq<u8>, corner: Seq<u8>, icon: Seq<u8>) -> bool {
    &&& image_of(background) is Some
    &&& image_of(icon) is Some
    &&& image_of(corner) is Some
    &&& !fits(image_of(background)->0, image_of(corner)->0)
}

/// The PNG file of a blueprint icon, from the bytes of its parts; nothing
/// where one of them is no image, the corner overlay does not fit the
/// background, or the result cannot be written.
pub open spec fn blueprint_file(
    background: Seq<u8>,
    corner: Seq<u8>,
    icon: Seq<u8>,
    tech: Option<Seq<u8>>,
) -> Option<Seq<u8>> {
    if image_of(background) is Some && image_of(icon) is Some && image_of(corner) is Some && fits(
        image_of(background)->0,
        image_of(corner)->0,
    ) && (tech is Some ==> image_of(tech->0) is Some) {
        file_of(
            blueprint_spec(
                image_of(background)->0,
                image_of(corner)->0,
                image_of(icon)->0,
                match tech {
                    Some(t) => image_of(t),
                    None => None,
                },
            ),
            false,
        )
    } else {
        None
    }
}

/// Whether a file can stand as it is: the key of its resource ends with the
/// extension that is wanted.
pub open spec fn copies(resource: Seq<char>, extension: Seq<char>) -> bool {
    ends_with_spec(resource, extension)
}

/// Whether an extension names JPEG.
pub open spec fn names_jpeg(extension: Seq<char>) -> bool {
    extension == ".jpg"@ || extension == ".jpeg"@
}

/// Whether an extension names a format that the compositor writes.
pub open spec fn known_extension(extension: Seq<char>) -> bool {
    extension == ".png"@ || names_jpeg(extension)
}

/// The file of a resource in the format of `extension`: its own bytes where
/// its key ends with the extension, else the image encoded anew; nothing
/// where the bytes are no image or the image cannot be written.
pub open spec fn converted_file(resource: Seq<char>, extension: Seq<char>, bytes: Seq<u8>) -> Option<
    Seq<u8>,
> {
    if copies(resource, extension) {
        Some(bytes)
    } else if image_of(bytes) is Some {
        file_of(image_of(bytes)->0, names_jpeg(extension))
    } else {
        None
    }
}

/// Reads an image.
pub fn read_image(bytes: &[u8]) -> (r: Result<Raster, IconError>)
    ensures
        match r {
            Ok(img) => well_formed(img@) && image_of(bytes@) == Some(img@),
            Err(IconError::Image(_)) => image_of(bytes@) is None,
            Err(_) => false,
        },
{
    match decode(bytes) {
        Ok(img) => Ok(img),
        Err(e) => Err(IconError::Image(e)),
    }
}

/// Writes an image as PNG or, where `jpeg` holds, as JPEG.
pub fn write_image(img: &Raster, jpeg: bool) -> (r: Result<Vec<u8>, IconError>)
    requires
        well_formed(img@),
    ensures
        match r {
            Ok(bytes) => file_of(img@, jpeg) == Some(bytes@),
            Err(IconError::Image(_)) => file_of(img@, jpeg) is None,
            Err(_) => false,
        },
{
    match encode(img, jpeg) {
        Ok(bytes) => Ok(bytes),
        Err(e) => Err(IconError::Image(e)),
    }
}

/// Makes the file of an icon with its tech-tier overlay: the icon in 64 by
/// 64 pixels, the overlay in 16 by 16 pixels over its upper left corner.
pub fn composite_tech(icon: &[u8], tech_icon: &[u8]) -> (r: Result<Vec<u8>, IconError>)
    ensures
        match r {
            Ok(out) => tech_file(icon@, tech_icon@) == Some(out@),
            Err(IconError::Image(_)) => tech_file(icon@, tech_icon@) is None,
            Err(_) => false,
        },
{
    let image = match read_image(icon) {
        Ok(img) => img,
        Err(e) => { return Err(e); },
    };
    let badge = match read_image(tech_icon) {
        Ok(img) => img,
        Err(e) => { return Err(e); },
    };
    let out = tech_composite(&image, &badge);
    write_image(&out, false)
}

/// Makes the file of a blueprint icon: the icon in 64 by 64 pixels over the
/// background, the corner overlay added to it, and the tech-tier overlay,
/// where there is one, in 16 by 16 pixels over the upper left corner.
///
/// Fails where a part is no image, where the corner overlay does not fit
/// the background, and where the result cannot be written.
pub fn composite_blueprint(background: &[u8], overlay: &[u8], icon: &[u8], tech_icon: Option<&[u8]>) -> (r:
    Result<Vec<u8>, IconError>)
    ensures
        match r {
            Ok(out) => blueprint_file(
                background@,
                overlay@,
                icon@,
                match tech_icon {
                    Some(t) => Some(t@),
                    None => None,
                },
            ) == Some(out@),
            Err(IconError::Dimensions) => misfit(background@, overlay@, icon@),
            Err(IconError::Image(_)) => !misfit(background@, overlay@, icon@) && blueprint_file(
                background@,
                overlay@,
                icon@,
                match tech_icon {
                    Some(t) => Some(t@),
                    None => None,
                },
            ) is None,
            Err(_) => false,
        },
{
    let mut out = match read_image(background) {
        Ok(img) => img,
        Err(e) => { return Err(e); },
    };
    let image = match read_image(icon) {
        Ok(img) => img,
        Err(e) => { return Err(e); },
    };
    let scaled = resize_to(&image, 64, 64);
    overlay_at(&mut out, &scaled, 0, 0);
    let corner = match read_image(overlay) {
        Ok(img) => img,
        Err(e) => { return Err(e); },
    };
    if !blend_additive(&mut out, &corner) {
        return Err(IconError::Dimensions);
    }
    if let Some(t) = tech_icon {
        let tier = match read_image(t) {
            Ok(img) => img,
            Err(e) => { return Err(e); },
        };
        let badge = resize_to(&tier, 16, 16);
        overlay_at(&mut out, &badge, 0, 0);
    }
    write_image(&out, false)
}

/// Makes the file of a resource that is used as it is: a copy of its bytes
/// where the key of the resource ends with `extension`, else the image
/// encoded anew in the format that `extension` names.
pub fn copy_or_convert(bytes: &[u8], resource: &str, extension: &str) -> (r: Result<
    Vec<u8>,
    IconError,
>)
    requires
        copies(resource@, extension@) || known_extension(extension@),
    ensures
        match r {
            Ok(out) => converted_file(resource@, extension@, bytes@) == Some(out@),
            Err(IconError::Image(_)) => converted_file(resource@, extension@, bytes@) is None,
            Err(_) => false,
        },
{
    let key = chars_of(resource);
    let ext = chars_of(extension);
    if ends_with(&key, &ext) {
        let out = vstd::slice::slice_to_vec(bytes);
        return Ok(out);
    }
    let jpeg = same_text(extension, ".jpg") || same_text(extension, ".jpeg");
    let image = match read_image(bytes) {
        Ok(img) => img,
        Err(e) => { return Err(e); },
    };
    write_image(&image, jpeg)
}

} // verus!
