//! A decoded raster image whose size the pipeline reads and bounds.
use vstd::prelude::*;
use crate::pipeline::{scaled_dimensions, scaled_dimensions_of};

verus! {

/// image's decoded raster type, carried through opaquely.
#[verifier::external_type_specification]
#[verifier::external_body]
pub struct ExDynamicImage(image::DynamicImage);

/// Relies on image's `DynamicImage::width` and `DynamicImage::height`.
#[verifier::external_body]
fn dimensions(im: &image::DynamicImage) -> (r: (u32, u32)) {
    (im.width(), im.height())
}

/// Relies on image's `DynamicImage::thumbnail_exact` (through
/// `imageops::thumbnail`, which allocates its output with exactly the
/// requested width and height); the dimensions returned are those of the result.
#[verifier::external_body]
fn thumbnail_exact(im: &image::DynamicImage, width: u32, height: u32) -> (r: (image::DynamicImage, u32, u32))
    ensures
        r.1 == width,
        r.2 == height,
{
    let t = im.thumbnail_exact(width, height);
    let (w, h) = (t.width(), t.height());
    (t, w, h)
}

/// A decoded image and its size.
pub struct Image {
    im: image::DynamicImage,
    width: u32,
    height: u32,
}

impl Image {
    /// The width and height.
    pub closed spec fn size(&self) -> (u32, u32) {
        (self.width, self.height)
    }

    /// Wraps a decoded image.
    pub fn new(im: image::DynamicImage) -> (r: Image) {
        let (width, height) = dimensions(&im);
        Image { im, width, height }
    }

    /// Scales the image, aspect ratio kept, so that its longer edge is
    /// exactly `px` and the other edge is scaled by the same factor and
    /// rounded (see `scaled_dimensions_of`); an empty image is left as it is.
    pub fn resize(&mut self, px: u32)
        requires
            px > 0,
        ensures
            old(self).size().0 > 0 && old(self).size().1 > 0 ==> final(self).size()
                == scaled_dimensions_of(old(self).size().0, old(self).size().1, px),
            old(self).size().0 == 0 || old(self).size().1 == 0 ==> final(self).size() == old(self).size(),
    {
        if self.width == 0 || self.height == 0 {
            return;
        }
        let (w, h) = scaled_dimensions(self.width, self.height, px);
        let (t, tw, th) = thumbnail_exact(&self.im, w, h);
        self.im = t;
        self.width = tw;
        self.height = th;
    }

    /// The width and height.
    pub fn get_size(&self) -> (r: (u32, u32))
        ensures
            r == self.size(),
    {
        (self.width, self.height)
    }

    /// The decoded image, for encoding and saving.
    pub fn as_dynamic(&self) -> (r: &image::DynamicImage) {
        &self.im
    }
}

} // verus!
