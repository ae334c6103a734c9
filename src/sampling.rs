//! How a camera samples each pixel.
use vstd::prelude::*;

verus! {

/// The sampling settings of a camera: how many rays it averages for each pixel, at least
/// one, and how many times each ray may bounce off surfaces before it counts as black.
#[derive(Debug, Clone, Copy)]
pub struct Sampling {
    samples_per_px: u32,
    bounces: u32,
}

impl Sampling {
    #[verifier::type_invariant]
    spec fn at_least_one_sample(self) -> bool {
        self.samples_per_px >= 1
    }

    /// The number of rays averaged for each pixel.
    pub closed spec fn samples(&self) -> nat {
        self.samples_per_px as nat
    }

    /// The number of bounces allowed to each ray.
    pub closed spec fn budget(&self) -> nat {
        self.bounces as nat
    }

    /// One sample per pixel and one bounce per ray.
    pub fn new() -> (r: Self)
        ensures
            r.samples() == 1,
            r.budget() == 1,
    {
        Sampling { samples_per_px: 1, bounces: 1 }
    }

    /// Sets the number of samples per pixel; more than one enables supersampling.
    /// A number below one is taken as one.
    pub fn anti_aliasing(self, samples: u32) -> (r: Self)
        ensures
            r.samples() == if samples >= 1 { samples as nat } else { 1 },
            r.budget() == self.budget(),
    {
        let samples_per_px = if samples >= 1 { samples } else { 1 };
        Sampling { samples_per_px, bounces: self.bounces }
    }

    /// Sets how many times a ray can bounce until its color is determined.
    pub fn bounces(self, bounces: u32) -> (r: Self)
        ensures
            r.samples() == self.samples(),
            r.budget() == bounces,
    {
        proof {
            use_type_invariant(&self);
        }
        Sampling { samples_per_px: self.samples_per_px, bounces }
    }

    /// The number of rays averaged for each pixel.
    pub fn samples_per_px(&self) -> (r: u32)
        ensures
            r == self.samples(),
            r >= 1,
    {
        proof {
            use_type_invariant(self);
        }
        self.samples_per_px
    }

    /// The number of bounces allowed to each ray.
    pub fn max_bounces(&self) -> (r: u32)
        ensures
            r == self.budget(),
    {
        self.bounces
    }

    /// Whether each sample is jittered inside its pixel: only where more than one
    /// sample is taken; a single sample goes through the pixel's center.
    pub fn jitters(&self) -> (r: bool)
        ensures
            r == (self.samples() > 1),
    {
        self.samples_per_px > 1
    }
}

} // verus!
