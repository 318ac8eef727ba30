use vstd::prelude::*;

verus! {

/// `x` limited to the closed range from `lo` to `hi`.
pub open spec fn clamp(x: int, lo: int, hi: int) -> int {
    if x < lo {
        lo
    } else if x > hi {
        hi
    } else {
        x
    }
}

/// An amplitude value: samples are mixed by addition and scaled by a gain of
/// the same type.
pub trait Sample: Copy + Sized {
    /// The silent sample, which is also the gain that mutes.
    spec fn silence() -> Self;

    /// The gain that leaves a sample as it is.
    spec fn unity() -> Self;

    /// Two samples mixed into one.
    spec fn mixed(self, other: Self) -> Self;

    /// A sample multiplied by a gain.
    spec fn scaled(self, gain: Self) -> Self;

    /// The silent sample.
    fn zero() -> (r: Self)
        ensures
            r == Self::silence(),
    ;

    /// The unit gain.
    fn one() -> (r: Self)
        ensures
            r == Self::unity(),
    ;

    /// Mixes two samples.
    fn mix(self, other: Self) -> (r: Self)
        ensures
            r == self.mixed(other),
    ;

    /// Multiplies a sample by a gain.
    fn scale(self, gain: Self) -> (r: Self)
        ensures
            r == self.scaled(gain),
    ;

    /// A muting gain silences every sample.
    proof fn lemma_scaled_by_silence(s: Self)
        ensures
            s.scaled(Self::silence()) == Self::silence(),
    ;

    /// The unit gain changes no sample.
    proof fn lemma_scaled_by_unity(s: Self)
        ensures
            s.scaled(Self::unity()) == s,
    ;
}

/// 16-bit PCM: sums and products saturate at the ends of the range.
impl Sample for i16 {
    open spec fn silence() -> i16 {
        0
    }

    open spec fn unity() -> i16 {
        1
    }

    open spec fn mixed(self, other: i16) -> i16 {
        clamp(self + other, i16::MIN as int, i16::MAX as int) as i16
    }

    open spec fn scaled(self, gain: i16) -> i16 {
        clamp(self * gain, i16::MIN as int, i16::MAX as int) as i16
    }

    fn zero() -> (r: i16) {
        0
    }

    fn one() -> (r: i16) {
        1
    }

    fn mix(self, other: i16) -> (r: i16) {
        let wide: i32 = self as i32 + other as i32;
        if wide < i16::MIN as i32 {
            i16::MIN
        } else if wide > i16::MAX as i32 {
            i16::MAX
        } else {
            wide as i16
        }
    }

    fn scale(self, gain: i16) -> (r: i16) {
        proof {
            let (a, b) = (self as int, gain as int);
            assert(-0x4000_0000 <= a * b <= 0x4000_0000) by (nonlinear_arith)
                requires
                    -0x8000 <= a <= 0x7fff,
                    -0x8000 <= b <= 0x7fff,
            ;
        }
        let wide: i32 = self as i32 * gain as i32;
        if wide < i16::MIN as i32 {
            i16::MIN
        } else if wide > i16::MAX as i32 {
            i16::MAX
        } else {
            wide as i16
        }
    }

    proof fn lemma_scaled_by_silence(s: i16) {
    }

    proof fn lemma_scaled_by_unity(s: i16) {
    }
}

/// 32-bit PCM: sums and products saturate at the ends of the range.
impl Sample for i32 {
    open spec fn silence() -> i32 {
        0
    }

    open spec fn unity() -> i32 {
        1
    }

    open spec fn mixed(self, other: i32) -> i32 {
        clamp(self + other, i32::MIN as int, i32::MAX as int) as i32
    }

    open spec fn scaled(self, gain: i32) -> i32 {
        clamp(self * gain, i32::MIN as int, i32::MAX as int) as i32
    }

    fn zero() -> (r: i32) {
        0
    }

    fn one() -> (r: i32) {
        1
    }

    fn mix(self, other: i32) -> (r: i32) {
        let wide: i64 = self as i64 + other as i64;
        if wide < i32::MIN as i64 {
            i32::MIN
        } else if wide > i32::MAX as i64 {
            i32::MAX
        } else {
            wide as i32
        }
    }

    fn scale(self, gain: i32) -> (r: i32) {
        proof {
            let (a, b) = (self as int, gain as int);
            assert(-0x4000_0000_0000_0000 <= a * b <= 0x4000_0000_0000_0000) by (nonlinear_arith)
                requires
                    -0x8000_0000 <= a <= 0x7fff_ffff,
                    -0x8000_0000 <= b <= 0x7fff_ffff,
            ;
        }
        let wide: i64 = self as i64 * gain as i64;
        if wide < i32::MIN as i64 {
            i32::MIN
        } else if wide > i32::MAX as i64 {
            i32::MAX
        } else {
            wide as i32
        }
    }

    proof fn lemma_scaled_by_silence(s: i32) {
    }

    proof fn lemma_scaled_by_unity(s: i32) {
    }
}

} // verus!
