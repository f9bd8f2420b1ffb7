//! The source loader: from the bytes of a GIF file to raw frames.
//!
//! Decoding is all or nothing: either every frame of the stream comes
//! out, in playback order, or an error does.

use crate::frame::{Delay, DelayView, FrameView, Raster, RasterView, RawFrame};
use image::codecs::gif::GifDecoder;
use image::AnimationDecoder;
use vstd::prelude::*;

verus! {

/// `image::ImageError`, the decoder's error. It is carried from the decoder
/// to where it becomes a `DecodeError`; nothing is read from it.
#[verifier::external_type_specification]
#[verifier::external_body]
pub struct ExImageError(image::ImageError);

/// Why an animation could not be loaded.
#[derive(Clone, Copy, Debug, PartialEq, Eq)]
pub enum DecodeError {
    /// The decoder rejected the stream: it is malformed or ends too early.
    Malformed,
    /// The decoder handed out a frame whose sample buffer does not match
    /// its size, or whose delay has no denominator.
    InvalidFrame,
}

/// A frame as the decoder hands it out, before anything is known of it.
pub struct DecodedFrame {
    pub width: u32,
    pub height: u32,
    pub samples: Vec<u8>,
    pub delay_numer: u32,
    pub delay_denom: u32,
}

impl View for DecodedFrame {
    type V = FrameView;

    open spec fn view(&self) -> FrameView {
        FrameView {
            image: RasterView {
                width: self.width as nat,
                height: self.height as nat,
                samples: self.samples@,
            },
            delay: DelayView { numer: self.delay_numer as nat, denom: self.delay_denom as nat },
        }
    }
}

/// The frames that the GIF decoder reads out of a byte stream, in playback
/// order, each composed onto the canvas; `None` where it reports an error.
pub uninterp spec fn gif_frames(bytes: Seq<u8>) -> Option<Seq<FrameView>>;

/// The views of a sequence of decoded frames.
pub open spec fn decoded_views(frames: Seq<DecodedFrame>) -> Seq<FrameView> {
    frames.map_values(|frame: DecodedFrame| frame@)
}

/// The views of a sequence of raw frames.
pub open spec fn raw_views(frames: Seq<RawFrame>) -> Seq<FrameView> {
    frames.map_values(|frame: RawFrame| frame@)
}

/// Every frame of the sequence is well formed.
pub open spec fn all_wf(frames: Seq<FrameView>) -> bool {
    forall|i: int| 0 <= i < frames.len() ==> (#[trigger] frames[i]).wf()
}

/// Runs `image::codecs::gif::GifDecoder` over the bytes and collects its
/// frames: `GifDecoder::new`, `into_frames`, `collect_frames`. Of each
/// frame it hands out the buffer's width, height and samples and the
/// numerator and denominator of the delay in milliseconds.
///
/// Believed of it: whether it succeeds, and with which frames, depends on
/// the bytes alone. Nothing is believed of the frames themselves.
#[verifier::external_body]
fn decode_gif(bytes: &[u8]) -> (decoded: Result<Vec<DecodedFrame>, image::ImageError>)
    ensures
        decoded matches Ok(frames) ==> gif_frames(bytes@) == Some(decoded_views(frames@)),
        decoded is Err ==> gif_frames(bytes@) is None,
{
    let frames = GifDecoder::new(bytes)?.into_frames().collect_frames()?;
    let decoded = frames.into_iter().map(|frame| {
        let (delay_numer, delay_denom) = frame.delay().numer_denom_ms();
        let buffer = frame.into_buffer();
        let (width, height) = buffer.dimensions();
        DecodedFrame { width, height, samples: buffer.into_raw(), delay_numer, delay_denom }
    });
    Ok(decoded.collect())
}

/// Checks one decoded frame and takes it over.
fn raw_frame(decoded: DecodedFrame) -> (frame: Option<RawFrame>)
    ensures
        frame is Some <==> decoded@.wf(),
        frame matches Some(frame) ==> frame@ == decoded@,
{
    let ghost view = decoded@;
    let delay = Delay::from_numer_denom_ms(decoded.delay_numer, decoded.delay_denom);
    let image = Raster::new(decoded.width, decoded.height, decoded.samples);
    match (image, delay) {
        (Some(image), Some(delay)) => {
            let frame = RawFrame { image, delay };
            assert(frame@ == view);
            Some(frame)
        },
        _ => None,
    }
}

/// Takes over the frames that the decoder handed out, provided that each
/// of them is well formed.
pub fn raw_frames(decoded: Vec<DecodedFrame>) -> (frames: Result<Vec<RawFrame>, DecodeError>)
    ensures
        frames is Ok <==> all_wf(decoded_views(decoded@)),
        frames matches Ok(frames) ==> raw_views(frames@) == decoded_views(decoded@),
        frames matches Err(error) ==> error == DecodeError::InvalidFrame,
{
    let ghost views = decoded_views(decoded@);
    let mut frames: Vec<RawFrame> = Vec::new();
    for item in it: decoded.into_iter()
        invariant
            views == decoded_views(it.seq()),
            frames@.len() == it.index(),
            forall|i: int| 0 <= i < frames@.len() ==> (#[trigger] frames@[i])@ == views[i] && views[i].wf(),
    {
        let ghost at = it.index();
        assert(views[at] == item@);
        match raw_frame(item) {
            Some(frame) => {
                frames.push(frame);
            },
            None => {
                assert(!views[at].wf());
                return Err(DecodeError::InvalidFrame);
            },
        }
    }
    assert(raw_views(frames@) =~= views);
    Ok(frames)
}

/// Decodes a GIF stream into its frames.
///
/// Succeeds exactly when the decoder accepts the stream and every frame
/// that it hands out is well formed; the frames then are the decoder's, in
/// its order.
pub fn load_frames(bytes: &[u8]) -> (loaded: Result<Vec<RawFrame>, DecodeError>)
    ensures
        loaded matches Ok(frames) ==> gif_frames(bytes@) == Some(raw_views(frames@)) && all_wf(
            raw_views(frames@),
        ),
        (loaded matches Err(DecodeError::Malformed)) <==> gif_frames(bytes@) is None,
        (loaded matches Err(DecodeError::InvalidFrame)) <==> (gif_frames(bytes@) matches Some(decoded)
            && !all_wf(decoded)),
{
    match decode_gif(bytes) {
        Ok(decoded) => raw_frames(decoded),
        Err(_) => Err(DecodeError::Malformed),
    }
}

/// The delay between any two frames of the animation: that of the first
/// frame, in nanoseconds, whatever the later frames say. An animation
/// without frames has none.
pub open spec fn cadence(frames: Seq<FrameView>) -> Option<nat> {
    if frames.len() == 0 {
        None
    } else {
        Some(frames[0].delay.nanos())
    }
}

/// The delay at which the animation is played.
pub fn playback_delay(frames: &Vec<RawFrame>) -> (delay: Option<u64>)
    ensures
        delay is Some <==> frames@.len() > 0,
        delay matches Some(nanos) ==> cadence(raw_views(frames@)) == Some(nanos as nat),
{
    if frames.len() == 0 {
        None
    } else {
        Some(frames[0].delay.as_nanos())
    }
}

} // verus!
