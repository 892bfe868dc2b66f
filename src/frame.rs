use vstd::prelude::*;

verus! {

/// A window's size in physical pixels.
#[derive(Clone, Copy, Debug, PartialEq, Eq)]
pub struct WindowSize {
    pub width: u32,
    pub height: u32,
}

/// The size and sample count that the presentation surface is configured with.
#[derive(Clone, Copy, Debug, PartialEq, Eq)]
pub struct SurfaceConfig {
    pub width: u32,
    pub height: u32,
    pub msaa_samples: u32,
}

impl SurfaceConfig {
    pub open spec fn extent(self) -> WindowSize {
        WindowSize { width: self.width, height: self.height }
    }

    /// The same configuration at another size.
    pub open spec fn at_size(self, size: WindowSize) -> SurfaceConfig {
        SurfaceConfig { width: size.width, height: size.height, msaa_samples: self.msaa_samples }
    }

    pub fn resized(&self, size: WindowSize) -> (r: SurfaceConfig)
        ensures
            r == self.at_size(size),
    {
        SurfaceConfig { width: size.width, height: size.height, msaa_samples: self.msaa_samples }
    }
}

/// Time that passed since the previous redraw tick.
#[derive(Clone, Copy, Debug, PartialEq, Eq)]
pub enum FrameDelta {
    /// No earlier tick: the driver uses its fixed fallback of one sixtieth of a second.
    Default,
    /// Nanoseconds since the previous tick.
    Elapsed(u64),
}

/// The delta of a tick at time `now`, given the time of the previous tick, if any.
/// A clock that went backwards counts as no time at all.
pub open spec fn delta_between(last: Option<u64>, now: u64) -> FrameDelta {
    match last {
        None => FrameDelta::Default,
        Some(t) => FrameDelta::Elapsed(if now >= t { (now - t) as u64 } else { 0 }),
    }
}

pub fn frame_delta(last: Option<u64>, now: u64) -> (r: FrameDelta)
    ensures
        r == delta_between(last, now),
{
    match last {
        None => FrameDelta::Default,
        Some(t) => {
            if now >= t {
                FrameDelta::Elapsed(now - t)
            } else {
                FrameDelta::Elapsed(0)
            }
        },
    }
}

/// Where a frame's single render pass draws: into the offscreen multisampled
/// buffer, resolved into the surface texture, or straight into the surface
/// texture; `extent` is the size of the attachments it uses.
#[derive(Clone, Copy, Debug, PartialEq, Eq)]
pub struct PassTarget {
    pub resolve_from_offscreen: bool,
    pub extent: WindowSize,
}

/// The pass for a surface configuration whose render targets were made at `targets`.
pub open spec fn pass_for(config: SurfaceConfig, targets: WindowSize) -> PassTarget {
    PassTarget { resolve_from_offscreen: config.msaa_samples > 1, extent: targets }
}

pub fn pass_target(config: &SurfaceConfig, targets: WindowSize) -> (r: PassTarget)
    ensures
        r == pass_for(*config, targets),
{
    PassTarget { resolve_from_offscreen: config.msaa_samples > 1, extent: targets }
}

} // verus!
