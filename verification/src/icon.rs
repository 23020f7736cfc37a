//! The picture on the window.

use vstd::prelude::*;

verus! {

/// A picture: four bytes for each pixel, row by row.
#[derive(Clone, Debug, Eq, PartialEq)]
pub struct Icon {
    pub width: u32,
    pub height: u32,
    pub rgba: Vec<u8>,
}

impl Icon {
    /// There are four bytes for each pixel.
    pub open spec fn wf(self) -> bool {
        self.rgba@.len() == 4 * self.width * self.height
    }
}

/// Width, height and pixels that `image::load_from_memory_with_format` reads
/// out of a PNG file and `DynamicImage::into_rgba8` converts to four bytes for
/// each pixel; nothing where it refuses the file.
pub uninterp spec fn png_picture(file: Seq<u8>) -> Option<(u32, u32, Seq<u8>)>;

/// `image::load_from_memory_with_format` for PNG, followed by
/// `DynamicImage::into_rgba8`: what they give depends on the bytes of the file
/// alone, and there are four bytes for each pixel. Which files are refused and
/// which pixels come out is not stated.
#[verifier::external_body]
fn read_png(file: &[u8]) -> (picture: Option<(u32, u32, Vec<u8>)>)
    ensures
        match picture {
            Some((width, height, rgba)) => {
                &&& png_picture(file@) == Some((width, height, rgba@))
                &&& rgba@.len() == 4 * width * height
            },
            None => png_picture(file@) is None,
        },
{
    let picture = image::load_from_memory_with_format(file, image::ImageFormat::Png).ok()?;
    let pixels = picture.into_rgba8();
    Some((pixels.width(), pixels.height(), pixels.into_raw()))
}

/// The picture on the window, out of a PNG file, where the file holds one.
pub fn app_icon(file: &[u8]) -> (icon: Option<Icon>)
    ensures
        match icon {
            Some(icon) => {
                &&& png_picture(file@) == Some((icon.width, icon.height, icon.rgba@))
                &&& icon.wf()
            },
            None => png_picture(file@) is None,
        },
{
    match read_png(file) {
        Some((width, height, rgba)) => Some(Icon { width, height, rgba }),
        None => None,
    }
}

} // verus!
