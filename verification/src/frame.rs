//! Raw animation frames: a raster of RGBA samples and a display delay.

use vstd::prelude::*;

verus! {

/// What a raster holds: its size in pixels and its samples, row by row
/// from the top, four to a pixel.
pub struct RasterView {
    pub width: nat,
    pub height: nat,
    pub samples: Seq<u8>,
}

impl RasterView {
    /// There are exactly four samples for every pixel.
    pub open spec fn wf(self) -> bool {
        self.samples.len() == 4 * self.width * self.height
    }
}

/// An image of 8-bit RGBA pixels.
pub struct Raster {
    width: u32,
    height: u32,
    samples: Vec<u8>,
}

impl View for Raster {
    type V = RasterView;

    closed spec fn view(&self) -> RasterView {
        RasterView { width: self.width as nat, height: self.height as nat, samples: self.samples@ }
    }
}

impl Raster {
    #[verifier::type_invariant]
    spec fn inv(&self) -> bool {
        self@.wf()
    }

    /// Wraps a sample buffer, if it holds four samples for each of the
    /// `width * height` pixels and no more.
    pub fn new(width: u32, height: u32, samples: Vec<u8>) -> (made: Option<Raster>)
        ensures
            made is Some <==> samples@.len() == 4 * width * height,
            made matches Some(raster) ==> raster@ == (RasterView {
                width: width as nat,
                height: height as nat,
                samples: samples@,
            }),
    {
        let pixels: u64 = samples.len() as u64 / 4;
        assert(width * height <= 0xffff_ffff * 0xffff_ffff) by (nonlinear_arith)
            requires
                width <= 0xffff_ffff,
                height <= 0xffff_ffff,
        ;
        assert(4 * width * height == 4 * (width * height)) by (nonlinear_arith);
        if samples.len() % 4 == 0 && pixels == width as u64 * height as u64 {
            Some(Raster { width, height, samples })
        } else {
            None
        }
    }

    /// Width in pixels.
    pub fn width(&self) -> (width: u32)
        ensures
            width == self@.width,
    {
        self.width
    }

    /// Height in pixels.
    pub fn height(&self) -> (height: u32)
        ensures
            height == self@.height,
    {
        self.height
    }

    /// The samples, row by row.
    pub fn samples(&self) -> (samples: &Vec<u8>)
        ensures
            samples@ == self@.samples,
            self@.wf(),
    {
        proof {
            use_type_invariant(self);
        }
        &self.samples
    }
}

/// What a delay holds: a fraction of milliseconds.
pub struct DelayView {
    pub numer: nat,
    pub denom: nat,
}

impl DelayView {
    /// The delay in whole nanoseconds, rounded down.
    pub open spec fn nanos(self) -> nat {
        (self.numer * 1_000_000 / self.denom) as nat
    }
}

/// How long a frame is shown, as a fraction of milliseconds with a
/// denominator that is not zero.
#[derive(Clone, Copy, Debug)]
pub struct Delay {
    numer: u32,
    denom: u32,
}

impl View for Delay {
    type V = DelayView;

    closed spec fn view(&self) -> DelayView {
        DelayView { numer: self.numer as nat, denom: self.denom as nat }
    }
}

impl Delay {
    #[verifier::type_invariant]
    spec fn inv(&self) -> bool {
        self.denom > 0
    }

    /// The delay of `numer / denom` milliseconds, unless `denom` is zero.
    pub fn from_numer_denom_ms(numer: u32, denom: u32) -> (made: Option<Delay>)
        ensures
            made is Some <==> denom != 0,
            made matches Some(delay) ==> delay@ == (DelayView { numer: numer as nat, denom: denom as nat }),
    {
        if denom == 0 {
            None
        } else {
            Some(Delay { numer, denom })
        }
    }

    /// The delay in whole nanoseconds, rounded down.
    pub fn as_nanos(&self) -> (nanos: u64)
        ensures
            nanos == self@.nanos(),
            self@.denom > 0,
    {
        proof {
            use_type_invariant(self);
        }
        let scaled: u64 = self.numer as u64 * 1_000_000;
        scaled / self.denom as u64
    }
}

/// What a frame holds.
pub struct FrameView {
    pub image: RasterView,
    pub delay: DelayView,
}

impl FrameView {
    /// The image has its samples and the delay has a denominator.
    pub open spec fn wf(self) -> bool {
        self.image.wf() && self.delay.denom > 0
    }
}

/// One frame of the animation: the image and how long it stays.
pub struct RawFrame {
    pub image: Raster,
    pub delay: Delay,
}

impl View for RawFrame {
    type V = FrameView;

    open spec fn view(&self) -> FrameView {
        FrameView { image: self.image@, delay: self.delay@ }
    }
}

} // verus!
