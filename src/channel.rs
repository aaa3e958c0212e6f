use vstd::prelude::*;

verus! {

/// Largest channel count a panner accepts.
pub const MAX_PANNER_CHANNELS: usize = 2;

/// How the number of channels of a node input is determined.
#[derive(Clone, Copy, Debug, PartialEq, Eq, Structural)]
pub enum ChannelCountMode {
    Max,
    ClampedMax,
    Explicit,
}

/// How channels are mapped when up- or down-mixing.
#[derive(Clone, Copy, Debug, PartialEq, Eq, Structural)]
pub enum ChannelInterpretation {
    Speakers,
    Discrete,
}

/// Errors raised by the panner's configuration calls.
#[derive(Clone, Copy, Debug, PartialEq, Eq, Structural)]
pub enum PannerError {
    /// The requested channel count is greater than two.
    ChannelCountTooLarge,
    /// The channel count mode `Max` was requested.
    ChannelCountModeMax,
}

/// Channel configuration of a panner: at most two channels, never in `Max` mode.
#[derive(Clone, Copy, Debug, PartialEq, Eq, Structural)]
pub struct ChannelConfig {
    count: usize,
    mode: ChannelCountMode,
    interpretation: ChannelInterpretation,
}

impl ChannelConfig {
    pub open spec fn wf(&self) -> bool {
        self.spec_count() <= MAX_PANNER_CHANNELS && self.spec_mode() != ChannelCountMode::Max
    }

    pub closed spec fn spec_count(&self) -> usize {
        self.count
    }

    pub closed spec fn spec_mode(&self) -> ChannelCountMode {
        self.mode
    }

    pub closed spec fn spec_interpretation(&self) -> ChannelInterpretation {
        self.interpretation
    }

    pub closed spec fn spec_panner_default() -> Self {
        ChannelConfig {
            count: 2,
            mode: ChannelCountMode::ClampedMax,
            interpretation: ChannelInterpretation::Speakers,
        }
    }

    /// The configuration a panner starts with: two channels, clamped-max, speakers.
    pub fn panner_default() -> (r: Self)
        ensures
            r == Self::spec_panner_default(),
            r.wf(),
            r.spec_count() == 2,
            r.spec_mode() == ChannelCountMode::ClampedMax,
            r.spec_interpretation() == ChannelInterpretation::Speakers,
    {
        ChannelConfig {
            count: 2,
            mode: ChannelCountMode::ClampedMax,
            interpretation: ChannelInterpretation::Speakers,
        }
    }

    pub fn count(&self) -> (r: usize)
        ensures
            r == self.spec_count(),
    {
        self.count
    }

    pub fn count_mode(&self) -> (r: ChannelCountMode)
        ensures
            r == self.spec_mode(),
    {
        self.mode
    }

    pub fn interpretation(&self) -> (r: ChannelInterpretation)
        ensures
            r == self.spec_interpretation(),
    {
        self.interpretation
    }

    /// Sets the channel count; a count above two is refused and changes nothing.
    pub fn set_count(&mut self, v: usize) -> (r: Result<(), PannerError>)
        requires
            old(self).wf(),
        ensures
            final(self).wf(),
            r is Ok <==> v <= MAX_PANNER_CHANNELS,
            r is Err ==> r == Err::<(), PannerError>(PannerError::ChannelCountTooLarge),
            r is Ok ==> final(self).spec_count() == v,
            r is Err ==> *final(self) == *old(self),
            final(self).spec_mode() == old(self).spec_mode(),
            final(self).spec_interpretation() == old(self).spec_interpretation(),
    {
        if v > MAX_PANNER_CHANNELS {
            Err(PannerError::ChannelCountTooLarge)
        } else {
            self.count = v;
            Ok(())
        }
    }

    /// Sets the channel count mode; `Max` is refused and changes nothing.
    pub fn set_count_mode(&mut self, v: ChannelCountMode) -> (r: Result<(), PannerError>)
        requires
            old(self).wf(),
        ensures
            final(self).wf(),
            r is Ok <==> v != ChannelCountMode::Max,
            r is Err ==> r == Err::<(), PannerError>(PannerError::ChannelCountModeMax),
            r is Ok ==> final(self).spec_mode() == v,
            r is Err ==> *final(self) == *old(self),
            final(self).spec_count() == old(self).spec_count(),
            final(self).spec_interpretation() == old(self).spec_interpretation(),
    {
        if v == ChannelCountMode::Max {
            Err(PannerError::ChannelCountModeMax)
        } else {
            self.mode = v;
            Ok(())
        }
    }
}

} // verus!
