use image::codecs::gif::GifEncoder;
use image::{Frame, Rgba, RgbaImage};
use termgif::frame::{Delay, Raster, RawFrame};
use termgif::loader::{load_frames, playback_delay, raw_frames, DecodeError, DecodedFrame};

fn encoded(frames: Vec<Frame>) -> Vec<u8> {
    let mut bytes = Vec::new();
    {
        let mut encoder = GifEncoder::new(&mut bytes);
        encoder.encode_frames(frames).unwrap();
    }
    bytes
}

fn solid(width: u32, height: u32, colour: [u8; 4], delay_ms: u32) -> Frame {
    Frame::from_parts(
        RgbaImage::from_pixel(width, height, Rgba(colour)),
        0,
        0,
        image::Delay::from_numer_denom_ms(delay_ms, 1),
    )
}

fn two_frames() -> Vec<u8> {
    encoded(vec![solid(3, 2, [255, 0, 0, 255], 100), solid(3, 2, [0, 0, 255, 255], 250)])
}

fn raw(delay_numer: u32, delay_denom: u32) -> RawFrame {
    RawFrame {
        image: Raster::new(1, 1, vec![0, 0, 0, 255]).unwrap(),
        delay: Delay::from_numer_denom_ms(delay_numer, delay_denom).unwrap(),
    }
}

#[test]
fn frames_are_loaded_in_playback_order() {
    let frames = load_frames(&two_frames()).unwrap();
    assert_eq!(frames.len(), 2);
    for frame in &frames {
        assert_eq!(frame.image.width(), 3);
        assert_eq!(frame.image.height(), 2);
        assert_eq!(frame.image.samples().len(), 24);
    }
    assert_eq!(frames[0].image.samples()[..4], [255, 0, 0, 255]);
    assert_eq!(frames[1].image.samples()[..4], [0, 0, 255, 255]);
    assert_eq!(frames[0].delay.as_nanos(), 100_000_000);
    assert_eq!(frames[1].delay.as_nanos(), 250_000_000);
}

#[test]
fn loading_twice_gives_the_same_frames() {
    let bytes = two_frames();
    let first = load_frames(&bytes).unwrap();
    let second = load_frames(&bytes).unwrap();
    assert_eq!(first.len(), second.len());
    for (a, b) in first.iter().zip(&second) {
        assert_eq!(a.image.samples(), b.image.samples());
        assert_eq!(a.delay.as_nanos(), b.delay.as_nanos());
    }
}

#[test]
fn empty_stream_is_malformed() {
    assert!(matches!(load_frames(&[]), Err(DecodeError::Malformed)));
}

#[test]
fn stream_of_another_format_is_malformed() {
    assert!(matches!(load_frames(b"\x89PNG\r\n\x1a\nnot a gif at all"), Err(DecodeError::Malformed)));
}

#[test]
fn truncated_stream_is_malformed() {
    let bytes = two_frames();
    for keep in [1, 6, 12, bytes.len() / 2, bytes.len() - 8] {
        assert!(matches!(load_frames(&bytes[..keep]), Err(DecodeError::Malformed)), "kept {keep} bytes");
    }
}

#[test]
fn decoded_frames_are_taken_over_as_they_are() {
    let decoded = vec![
        DecodedFrame { width: 2, height: 1, samples: vec![1, 2, 3, 4, 5, 6, 7, 8], delay_numer: 70, delay_denom: 1 },
        DecodedFrame { width: 1, height: 1, samples: vec![9, 9, 9, 9], delay_numer: 1, delay_denom: 3 },
    ];
    let frames = raw_frames(decoded).unwrap();
    assert_eq!(frames.len(), 2);
    assert_eq!((frames[0].image.width(), frames[0].image.height()), (2, 1));
    assert_eq!(frames[0].image.samples(), &vec![1, 2, 3, 4, 5, 6, 7, 8]);
    assert_eq!(frames[0].delay.as_nanos(), 70_000_000);
    assert_eq!((frames[1].image.width(), frames[1].image.height()), (1, 1));
    assert_eq!(frames[1].image.samples(), &vec![9, 9, 9, 9]);
    assert_eq!(frames[1].delay.as_nanos(), 333_333);
}

#[test]
fn no_decoded_frames_are_no_raw_frames() {
    assert!(raw_frames(Vec::new()).unwrap().is_empty());
}

#[test]
fn frame_with_a_short_buffer_is_invalid() {
    let decoded = vec![
        DecodedFrame { width: 1, height: 1, samples: vec![9, 9, 9, 9], delay_numer: 1, delay_denom: 1 },
        DecodedFrame { width: 2, height: 2, samples: vec![0; 12], delay_numer: 1, delay_denom: 1 },
    ];
    assert!(matches!(raw_frames(decoded), Err(DecodeError::InvalidFrame)));
}

#[test]
fn frame_with_a_long_buffer_is_invalid() {
    let decoded =
        vec![DecodedFrame { width: 2, height: 2, samples: vec![0; 20], delay_numer: 1, delay_denom: 1 }];
    assert!(matches!(raw_frames(decoded), Err(DecodeError::InvalidFrame)));
}

#[test]
fn frame_with_a_delay_over_zero_is_invalid() {
    let decoded =
        vec![DecodedFrame { width: 1, height: 1, samples: vec![0; 4], delay_numer: 1, delay_denom: 0 }];
    assert!(matches!(raw_frames(decoded), Err(DecodeError::InvalidFrame)));
}

#[test]
fn delay_is_a_fraction_of_milliseconds() {
    assert!(Delay::from_numer_denom_ms(5, 0).is_none());
    assert_eq!(Delay::from_numer_denom_ms(0, 1).unwrap().as_nanos(), 0);
    assert_eq!(Delay::from_numer_denom_ms(10, 3).unwrap().as_nanos(), 3_333_333);
    assert_eq!(Delay::from_numer_denom_ms(1, 1_000_000).unwrap().as_nanos(), 1);
    assert_eq!(Delay::from_numer_denom_ms(1, 1_000_001).unwrap().as_nanos(), 0);
    assert_eq!(
        Delay::from_numer_denom_ms(u32::MAX, 1).unwrap().as_nanos(),
        u64::from(u32::MAX) * 1_000_000
    );
}

#[test]
fn delay_agrees_with_the_decoder_on_durations() {
    for (numer, denom) in [(100, 1), (10, 3), (7, 2), (1, 7), (0, 5), (u32::MAX, 9)] {
        let theirs = std::time::Duration::from(image::Delay::from_numer_denom_ms(numer, denom));
        let ours = Delay::from_numer_denom_ms(numer, denom).unwrap().as_nanos();
        assert_eq!(u128::from(ours), theirs.as_nanos());
    }
}

#[test]
fn playback_delay_is_that_of_the_first_frame() {
    assert_eq!(playback_delay(&vec![raw(100, 1), raw(20, 1), raw(5, 1)]), Some(100_000_000));
    assert_eq!(playback_delay(&vec![raw(1, 4)]), Some(250_000));
    let frames = load_frames(&two_frames()).unwrap();
    assert_eq!(playback_delay(&frames), Some(100_000_000));
}

#[test]
fn no_frames_have_no_playback_delay() {
    assert_eq!(playback_delay(&Vec::new()), None);
}
