//! Pictures of red, green, blue and alpha bytes, and the boundary to the `image` crate.

use std::sync::Arc;
use vstd::prelude::*;

verus! {

/// A picture: rows of pixels, four bytes each, from the top left. Bytes behind the last row are
/// carried along.
#[derive(Debug)]
pub struct RgbaPicture {
    pub width: u32,
    pub height: u32,
    pub pixels: Vec<u8>,
}

/// The bytes that a picture of this size takes.
pub open spec fn rgba_len(width: u32, height: u32) -> nat {
    (4 * width * height) as nat
}

impl RgbaPicture {
    /// The pixels cover the size.
    pub open spec fn wf(self) -> bool {
        rgba_len(self.width, self.height) <= self.pixels@.len()
    }

    /// Moves the bytes, `pixels`, into a picture. `None` if there are too few of them.
    pub fn from_raw(width: u32, height: u32, pixels: Vec<u8>) -> (picture: Option<RgbaPicture>)
        ensures
            picture is Some <==> rgba_len(width, height) <= pixels@.len(),
            picture matches Some(p) ==> p == (RgbaPicture { width, height, pixels }),
    {
        image_from_raw(width, height, pixels)
    }

    /// Trades the first and the third byte of each pixel, in place: blue, green, red becomes
    /// red, green, blue. Bytes that do not fill a pixel stay as they are.
    pub fn swap_red_and_blue(&mut self)
        ensures
            final(self).width == old(self).width,
            final(self).height == old(self).height,
            final(self).pixels@ == red_and_blue_swapped(old(self).pixels@),
    {
        let len: usize = self.pixels.len();
        let mut i: usize = 0;
        while len - i >= 4
            invariant
                self.width == old(self).width,
                self.height == old(self).height,
                len == old(self).pixels@.len(),
                self.pixels@.len() == len,
                i <= len,
                i % 4 == 0,
                forall|k: int|
                    0 <= k < i ==> #[trigger] self.pixels@[k] == red_and_blue_swapped(
                        old(self).pixels@,
                    )[k],
                forall|k: int| i <= k < len ==> #[trigger] self.pixels@[k] == old(self).pixels@[k],
            decreases len - i,
        {
            let first: u8 = self.pixels[i];
            let third: u8 = self.pixels[i + 2];
            self.pixels.set(i, third);
            self.pixels.set(i + 2, first);
            i += 4;
        }
        assert(self.pixels@ =~= red_and_blue_swapped(old(self).pixels@));
    }
}

/// The bytes with the first and third of each full group of four traded.
pub open spec fn red_and_blue_swapped(bytes: Seq<u8>) -> Seq<u8> {
    Seq::new(
        bytes.len(),
        |k: int|
            if k / 4 * 4 + 4 > bytes.len() {
                bytes[k]
            } else if k % 4 == 0 {
                bytes[k + 2]
            } else if k % 4 == 2 {
                bytes[k - 2]
            } else {
                bytes[k]
            },
    )
}

/// Trading red and blue twice changes nothing.
pub proof fn swapping_twice_changes_nothing(bytes: Seq<u8>)
    ensures
        red_and_blue_swapped(red_and_blue_swapped(bytes)) == bytes,
{
    assert(red_and_blue_swapped(red_and_blue_swapped(bytes)) =~= bytes);
}

/// `image::RgbaImage::from_raw`, with `width`, `height` and `into_raw` on its result: an image
/// takes the bytes as they are, and there is one if and only if the bytes cover the size.
#[verifier::external_body]
fn image_from_raw(width: u32, height: u32, pixels: Vec<u8>) -> (picture: Option<RgbaPicture>)
    ensures
        picture is Some <==> rgba_len(width, height) <= pixels@.len(),
        picture matches Some(p) ==> p == (RgbaPicture { width, height, pixels }),
{
    image::RgbaImage::from_raw(width, height, pixels).map(
        |image| RgbaPicture {
            width: image.width(),
            height: image.height(),
            pixels: image.into_raw(),
        },
    )
}

/// The sizes for which the sums that `image` takes over the pixels do not overflow.
pub open spec fn can_be_shrunk(width: u32, height: u32) -> bool {
    &&& width < 0x4000_0000
    &&& height < 0x4000_0000
    &&& width * height < 0x40_0000_0000
}

/// The pixels that `image` computes when it shrinks or stretches a picture to a new size.
pub uninterp spec fn thumbnail_pixels(
    width: u32,
    height: u32,
    pixels: Seq<u8>,
    new_width: u32,
    new_height: u32,
) -> Seq<u8>;

/// `image::imageops::thumbnail` on an `RgbaImage`: a picture of exactly the new size, whose
/// pixels are a function of the arguments. The sums over the pixels behind one pixel of the
/// result are 32 bits wide, so at most 2^24 pixels may stand behind one. Below 2^38 pixels with
/// sides below 2^30, shrunk to 360 by 180 or more, there are at most 12 million.
#[verifier::external_body]
pub(crate) fn thumbnail(picture: RgbaPicture, new_width: u32, new_height: u32) -> (small:
    RgbaPicture)
    requires
        picture.wf(),
        can_be_shrunk(picture.width, picture.height),
        360 <= new_width <= 1024,
        180 <= new_height <= 1024,
    ensures
        small.width == new_width,
        small.height == new_height,
        small.pixels@ == thumbnail_pixels(
            picture.width,
            picture.height,
            picture.pixels@,
            new_width,
            new_height,
        ),
        small.pixels@.len() == rgba_len(new_width, new_height),
{
    let image = image::RgbaImage::from_raw(picture.width, picture.height, picture.pixels).unwrap();
    let small = image::imageops::thumbnail(&image, new_width, new_height);
    RgbaPicture { width: small.width(), height: small.height(), pixels: small.into_raw() }
}

/// `std::sync::Arc::<[u8]>::from` on a slice: the same bytes, shared.
#[verifier::external_body]
pub(crate) fn shared_bytes(bytes: &[u8]) -> (shared: Arc<[u8]>)
    ensures
        shared@ == bytes@,
{
    Arc::from(bytes)
}

/// Trading red and blue keeps every pixel in its place: its first and third byte change places, the
/// second and fourth stay, and so do bytes that do not fill a pixel.
pub proof fn red_and_blue_change_places(bytes: Seq<u8>, i: int)
    requires
        0 <= i,
    ensures
        red_and_blue_swapped(bytes).len() == bytes.len(),
        4 * i + 4 <= bytes.len() ==> {
            &&& red_and_blue_swapped(bytes)[4 * i] == bytes[4 * i + 2]
            &&& red_and_blue_swapped(bytes)[4 * i + 1] == bytes[4 * i + 1]
            &&& red_and_blue_swapped(bytes)[4 * i + 2] == bytes[4 * i]
            &&& red_and_blue_swapped(bytes)[4 * i + 3] == bytes[4 * i + 3]
        },
        bytes.len() - bytes.len() % 4 <= i < bytes.len() ==> red_and_blue_swapped(bytes)[i]
            == bytes[i],
{
}

/// A picture takes four bytes for each pixel, and is whole if it has as many.
pub proof fn pixels_are_four_bytes(picture: RgbaPicture)
    ensures
        rgba_len(picture.width, picture.height) == 4 * picture.width * picture.height,
        picture.wf() <==> 4 * picture.width * picture.height <= picture.pixels@.len(),
{
}

} // verus!
