//! Frame rates: a whole number of frames per second, and an exact rational one.
use vstd::prelude::*;

verus! {

/// A whole, strictly positive number of frames per second.
#[derive(Clone, Copy, Debug, PartialEq, Eq, Hash, PartialOrd, Ord)]
pub struct FramesPerSec(u32);

impl FramesPerSec {
    #[verifier::type_invariant]
    spec fn positive(self) -> bool {
        self.0 > 0
    }

    /// The number of frames per second.
    pub closed spec fn fps(self) -> u32 {
        self.0
    }

    /// The rate of `fps` frames per second; `None` where `fps` is zero.
    pub fn new(fps: u32) -> (r: Option<FramesPerSec>)
        ensures
            r is Some <==> fps > 0,
            r matches Some(f) ==> f.fps() == fps,
    {
        if fps == 0 {
            None
        } else {
            Some(FramesPerSec(fps))
        }
    }

    /// The number of frames per second, never zero.
    pub fn get(self) -> (r: u32)
        ensures
            r == self.fps(),
            r > 0,
    {
        proof {
            use_type_invariant(&self);
        }
        self.0
    }
}

/// An exact frame rate of `num / den` frames per second, both parts non-zero.
#[derive(Clone, Copy, Debug, PartialEq, Eq, Hash)]
pub struct FrameRate {
    num: u32,
    den: u32,
}

/// The least whole number of frames per second that is at least `num / den`.
pub open spec fn ceil_div(num: int, den: int) -> int {
    (num + den - 1) / den
}

impl FrameRate {
    #[verifier::type_invariant]
    spec fn well_formed(self) -> bool {
        self.num > 0 && self.den > 0
    }

    /// The numerator: frames per `den` seconds.
    pub closed spec fn numerator(self) -> u32 {
        self.num
    }

    /// The denominator, in seconds.
    pub closed spec fn denominator(self) -> u32 {
        self.den
    }

    /// What every value of the type satisfies: both parts are non-zero.
    pub open spec fn valid(self) -> bool {
        self.numerator() > 0 && self.denominator() > 0
    }

    /// The whole number of frames that a displayed timecode second holds.
    pub open spec fn nominal(self) -> int {
        ceil_div(self.numerator() as int, self.denominator() as int)
    }

    /// 24 frames per second, for film.
    pub fn film() -> (r: FrameRate)
        ensures
            r.numerator() == 24 && r.denominator() == 1,
    {
        FrameRate { num: 24, den: 1 }
    }

    /// 25 frames per second, for PAL television.
    pub fn pal() -> (r: FrameRate)
        ensures
            r.numerator() == 25 && r.denominator() == 1,
    {
        FrameRate { num: 25, den: 1 }
    }

    /// 30 frames per second.
    pub fn fps_30() -> (r: FrameRate)
        ensures
            r.numerator() == 30 && r.denominator() == 1,
    {
        FrameRate { num: 30, den: 1 }
    }

    /// 60 frames per second.
    pub fn fps_60() -> (r: FrameRate)
        ensures
            r.numerator() == 60 && r.denominator() == 1,
    {
        FrameRate { num: 60, den: 1 }
    }

    /// 24000/1001 (about 23.976) frames per second, film on NTSC television.
    pub fn film_ntsc() -> (r: FrameRate)
        ensures
            r.numerator() == 24000 && r.denominator() == 1001,
    {
        FrameRate { num: 24000, den: 1001 }
    }

    /// 30000/1001 (about 29.97) frames per second, NTSC television.
    pub fn ntsc() -> (r: FrameRate)
        ensures
            r.numerator() == 30000 && r.denominator() == 1001,
    {
        FrameRate { num: 30000, den: 1001 }
    }

    /// 60000/1001 (about 59.94) frames per second, NTSC at double rate.
    pub fn ntsc_60() -> (r: FrameRate)
        ensures
            r.numerator() == 60000 && r.denominator() == 1001,
    {
        FrameRate { num: 60000, den: 1001 }
    }

    /// The rate `num / den`; `None` where either part is zero.
    pub fn new(num: u32, den: u32) -> (r: Option<FrameRate>)
        ensures
            r is Some <==> (num > 0 && den > 0),
            r matches Some(rate) ==> rate.numerator() == num && rate.denominator() == den,
    {
        if num == 0 || den == 0 {
            None
        } else {
            Some(FrameRate { num, den })
        }
    }

    /// The whole rate `fps / 1`; `None` where `fps` is zero.
    pub fn from_int(fps: u32) -> (r: Option<FrameRate>)
        ensures
            r is Some <==> fps > 0,
            r matches Some(rate) ==> rate.numerator() == fps && rate.denominator() == 1,
    {
        FrameRate::new(fps, 1)
    }

    /// The numerator.
    pub fn num(&self) -> (r: u32)
        ensures
            r == self.numerator(),
            r > 0,
    {
        proof {
            use_type_invariant(self);
        }
        self.num
    }

    /// The denominator.
    pub fn den(&self) -> (r: u32)
        ensures
            r == self.denominator(),
            r > 0,
    {
        proof {
            use_type_invariant(self);
        }
        self.den
    }

    /// The nominal rate, `num / den` rounded up: the number of frames that a
    /// displayed timecode second counts (30 for NTSC's 29.97).
    pub fn nominal_fps(&self) -> (r: i64)
        ensures
            r == self.nominal(),
            1 <= r <= u32::MAX,
    {
        let num = self.num() as u64;
        let den = self.den() as u64;
        let n = (num + den - 1) / den;
        assert(1 <= n <= num) by (nonlinear_arith)
            requires
                n == (num + den - 1) / (den as int),
                num >= 1,
                den >= 1,
        ;
        n as i64
    }
}

impl From<FramesPerSec> for FrameRate {
    /// A whole rate becomes the fraction `fps / 1`.
    fn from(fps: FramesPerSec) -> (r: FrameRate)
        ensures
            r.numerator() == fps.fps() && r.denominator() == 1,
    {
        FrameRate { num: fps.get(), den: 1 }
    }
}

impl vstd::std_specs::convert::FromSpecImpl<FramesPerSec> for FrameRate {
    open spec fn obeys_from_spec() -> bool {
        true
    }

    closed spec fn from_spec(fps: FramesPerSec) -> FrameRate {
        FrameRate { num: fps.fps(), den: 1 }
    }
}

} // verus!
