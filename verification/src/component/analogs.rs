//! A bank of eight plain analog axes.
use vstd::prelude::*;

verus! {

/// How many of the eight analog axes a device has.
#[derive(Copy, Clone, PartialEq, Eq, Structural)]
pub struct AnalogsInfo {
    pub analogs: u8,
}

impl Default for AnalogsInfo {
    /// No axis.
    fn default() -> (r: Self)
        ensures
            r.analogs == 0,
    {
        AnalogsInfo { analogs: 0 }
    }
}

/// For each axis, the raw range `[min, max]` that is stretched to `0..=255`.
#[derive(Copy, Clone)]
pub struct AnalogsConfig {
    pub ranges: [[u8; 2]; 8],
}

impl Default for AnalogsConfig {
    /// Every axis keeps its full range `[0, 255]`.
    fn default() -> (r: Self)
        ensures
            forall|i: int| 0 <= i < 8 ==> #[trigger] r.ranges[i]@ == seq![0u8, 255u8],
    {
        let r = AnalogsConfig { ranges: [[0, 255]; 8] };
        assert(forall|i: int| 0 <= i < 8 ==> #[trigger] r.ranges[i]@ =~= seq![0u8, 255u8]);
        r
    }
}

/// The values of the eight analog axes.
#[derive(Copy, Clone)]
pub struct Analogs {
    pub analogs: [u8; 8],
}

impl Analogs {
    /// Copies every axis of `from`.
    pub fn update(&mut self, from: &Self)
        ensures
            *final(self) == *from,
    {
        *self = *from;
    }
}

impl Default for Analogs {
    /// Every axis at 0.
    fn default() -> (r: Self)
        ensures
            forall|i: int| 0 <= i < 8 ==> #[trigger] r.analogs[i] == 0,
    {
        Analogs { analogs: [0; 8] }
    }
}

} // verus!
