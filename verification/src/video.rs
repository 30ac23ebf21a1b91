//! Screenshots of the last frame, and the pacing of frames.
use vstd::prelude::*;
use crate::av_info::PixelFormat;
use crate::error::ErrorHandle;

verus! {

/// An RGB image of the image crate: a width, a height and three bytes per pixel, row by
/// row. Verus sees nothing inside it; `rgb_frame_data` names what it holds.
#[verifier::external_body]
pub struct RgbFrame {
    pub image: image::RgbImage,
}

/// What an RGB image holds: its width, its height and its bytes.
pub uninterp spec fn rgb_frame_data(frame: RgbFrame) -> (u32, u32, Seq<u8>);

/// Wraps a buffer of RGB bytes as an image (`ImageBuffer::from_raw` of the image crate).
///
/// Trusted: the crate's source returns `None` exactly when three bytes per pixel for
/// `width` by `height` pixels overflow `usize` or exceed the buffer, and otherwise an image
/// of those dimensions over the buffer as it is.
#[verifier::external_body]
fn rgb_image_from_raw(width: u32, height: u32, buf: Vec<u8>) -> (r: Option<RgbFrame>)
    ensures
        r is Some <==> (3 * width <= usize::MAX && 3 * width * height <= usize::MAX && 3 * width * height
            <= buf@.len()),
        r matches Some(f) ==> rgb_frame_data(f) == (width, height, buf@),
{
    match image::ImageBuffer::from_raw(width, height, buf) {
        Some(image) => Some(RgbFrame { image }),
        None => None,
    }
}

/// Pixel `p` of an RGB buffer.
pub open spec fn rgb_pixel(s: Seq<u8>, p: int) -> (u8, u8, u8) {
    (s[3 * p], s[3 * p + 1], s[3 * p + 2])
}

/// Pixel `p` of an XRGB8888 buffer, as red, green, blue: bytes 2, 1 and 0 of its four.
pub open spec fn xrgb_pixel(s: Seq<u8>, p: int) -> (u8, u8, u8) {
    (s[4 * p + 2], s[4 * p + 1], s[4 * p])
}

/// Drops the unused byte of each XRGB8888 pixel and puts the other three in RGB order.
pub fn xrgb8888_to_rgb(buffer: &[u8]) -> (r: Vec<u8>)
    requires
        buffer@.len() % 4 == 0,
    ensures
        r@.len() == buffer@.len() / 4 * 3,
        forall|p: int| 0 <= p < buffer@.len() / 4 ==> #[trigger] rgb_pixel(r@, p) == xrgb_pixel(buffer@, p),
{
    let len = buffer.len();
    let n = len / 4;
    let mut out: Vec<u8> = Vec::new();
    let mut p: usize = 0;
    while p < n
        invariant
            len == buffer@.len(),
            n == buffer@.len() / 4,
            buffer@.len() % 4 == 0,
            p <= n,
            out@.len() == 3 * p,
            forall|q: int| 0 <= q < p ==> #[trigger] rgb_pixel(out@, q) == xrgb_pixel(buffer@, q),
        decreases n - p,
    {
        assert(4 * p + 3 < buffer@.len()) by (nonlinear_arith)
            requires
                p < n,
                n == buffer@.len() / 4,
        ;
        let ghost before = out@;
        out.push(buffer[4 * p + 2]);
        out.push(buffer[4 * p + 1]);
        out.push(buffer[4 * p]);
        proof {
            assert forall|q: int| 0 <= q < p + 1 implies #[trigger] rgb_pixel(out@, q) == xrgb_pixel(
                buffer@,
                q,
            ) by {
                if q < p {
                    assert(rgb_pixel(before, q) == xrgb_pixel(buffer@, q));
                    assert(3 * q + 2 < 3 * p);
                    assert(out@[3 * q] == before[3 * q]);
                    assert(out@[3 * q + 1] == before[3 * q + 1]);
                    assert(out@[3 * q + 2] == before[3 * q + 2]);
                }
            }
        }
        p = p + 1;
    }
    out
}

/// Screenshots of the last frame.
pub struct PrintScree {}

impl PrintScree {
    /// The image of a frame of `width` by `height` pixels in `buffer`. Only XRGB8888 frames
    /// can be taken, and only from a buffer of four bytes per pixel.
    pub fn take(pixel_format: PixelFormat, buffer: &[u8], width: u32, height: u32) -> (r: Result<
        RgbFrame,
        ErrorHandle,
    >)
        requires
            width * height <= u32::MAX,
            width * height * 4 <= usize::MAX,
            3 * width <= usize::MAX,
        ensures
            r is Ok <==> (pixel_format == PixelFormat::Xrgb8888 && buffer@.len() == width * height * 4),
            r matches Err(e) ==> e.message@ == (if pixel_format != PixelFormat::Xrgb8888 {
                "Formato de pixel desconhecido"@
            } else {
                "Tamanho do buffer video esta errado"@
            }),
            r matches Ok(img) ==> rgb_frame_data(img).0 == width && rgb_frame_data(img).1 == height
                && rgb_frame_data(img).2.len() == width * height * 3 && forall|p: int|
                0 <= p < width * height ==> #[trigger] rgb_pixel(rgb_frame_data(img).2, p) == xrgb_pixel(
                    buffer@,
                    p,
                ),
    {
        match pixel_format {
            PixelFormat::Xrgb8888 => {
                let pixels = width * height;
                let len = buffer.len();
                if len != pixels as usize * 4 {
                    return Err(ErrorHandle::new("Tamanho do buffer video esta errado"));
                }
                let rgb = xrgb8888_to_rgb(buffer);
                assert(buffer@.len() / 4 == width * height) by (nonlinear_arith)
                    requires
                        buffer@.len() == width * height * 4,
                ;
                assert(3 * width * height == width * height * 3) by (nonlinear_arith);
                assert(3 * width * height <= usize::MAX) by (nonlinear_arith)
                    requires
                        len == width * height * 4,
                        len <= usize::MAX,
                ;
                match rgb_image_from_raw(width, height, rgb) {
                    Some(img) => Ok(img),
                    None => {
                        assert(false);
                        Err(ErrorHandle::new("Tamanho do buffer video esta errado"))
                    },
                }
            },
            _ => Err(ErrorHandle::new("Formato de pixel desconhecido")),
        }
    }
}

/// Paces frames: a new frame is due once a frame's duration has passed since the last one.
pub struct RetroSync {
    pub last_time: Option<u64>,
}

impl RetroSync {
    /// No frame shown yet.
    pub fn default() -> (r: RetroSync)
        ensures
            r.last_time is None,
    {
        RetroSync { last_time: None }
    }

    /// Whether a frame is due at time `now`, given a frame's duration, both in the same
    /// unit; a due frame becomes the last one. The first frame is always due; the time
    /// since the last frame does not go below zero when `now` is earlier.
    pub fn sync(&mut self, now: u64, frame_duration: u64) -> (r: bool)
        ensures
            r == match old(self).last_time {
                None => true,
                Some(last) => (if now >= last { now - last } else { 0 }) >= frame_duration,
            },
            final(self).last_time == if r {
                Some(now)
            } else {
                old(self).last_time
            },
    {
        match self.last_time {
            None => {
                self.last_time = Some(now);
                true
            },
            Some(last) => {
                let lapse = now.saturating_sub(last);
                if lapse >= frame_duration {
                    self.last_time = Some(now);
                    true
                } else {
                    false
                }
            },
        }
    }
}

} // verus!
