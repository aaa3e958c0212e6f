use vstd::prelude::*;

use crate::channel::{ChannelConfig, ChannelCountMode, ChannelInterpretation, PannerError};

verus! {

/// Number of listener scalars fed to every panner as auxiliary inputs:
/// position x, y, z; forward x, y, z; up x, y, z.
pub const LISTENER_INPUTS: usize = 9;

/// Spatialization algorithm used to position the audio in 3D space.
#[derive(Clone, Copy, Debug, PartialEq, Eq, Structural)]
pub enum PanningModelType {
    EqualPower,
    HRTF,
}

/// Algorithm to reduce the volume of a source as it moves away from the listener.
/// Only `Inverse` is rendered; the others are accepted as configuration.
#[derive(Clone, Copy, Debug, PartialEq, Eq, Structural)]
pub enum DistanceModelType {
    Linear,
    Inverse,
    Exponential,
}

/// Handle of an automatable parameter; the render side looks its per-block
/// value up by this id.
#[derive(Clone, Copy, Debug, PartialEq, Eq, Structural)]
pub struct AudioParam {
    pub id: usize,
}

impl AudioParam {
    pub fn new(id: usize) -> (r: Self)
        ensures
            r.id == id,
    {
        AudioParam { id }
    }

    pub fn id(&self) -> (r: usize)
        ensures
            r == self.id,
    {
        self.id
    }
}

/// Control-side panner: channel configuration, the fixed models, and the
/// handles of its position and orientation parameters.
#[derive(Clone, Copy, Debug)]
pub struct PannerNode {
    channel_config: ChannelConfig,
    panning_model: PanningModelType,
    distance_model: DistanceModelType,
    position: [AudioParam; 3],
    orientation: [AudioParam; 3],
}

impl PannerNode {
    pub closed spec fn spec_channel_config(&self) -> ChannelConfig {
        self.channel_config
    }

    pub closed spec fn spec_panning_model(&self) -> PanningModelType {
        self.panning_model
    }

    pub closed spec fn spec_distance_model(&self) -> DistanceModelType {
        self.distance_model
    }

    /// Handles of the position parameters, in the order x, y, z.
    pub closed spec fn spec_position(&self) -> Seq<AudioParam> {
        self.position@
    }

    /// Handles of the orientation parameters, in the order x, y, z.
    pub closed spec fn spec_orientation(&self) -> Seq<AudioParam> {
        self.orientation@
    }

    pub open spec fn wf(&self) -> bool {
        self.spec_channel_config().wf()
    }

    /// Builds a panner with the given models and parameter handles. The channel
    /// configuration starts at two channels, clamped-max, speakers.
    pub fn new(
        panning_model: PanningModelType,
        distance_model: DistanceModelType,
        position: [AudioParam; 3],
        orientation: [AudioParam; 3],
    ) -> (r: Self)
        ensures
            r.wf(),
            r.spec_channel_config() == ChannelConfig::spec_panner_default(),
            r.spec_channel_config().spec_count() == 2,
            r.spec_channel_config().spec_mode() == ChannelCountMode::ClampedMax,
            r.spec_channel_config().spec_interpretation() == ChannelInterpretation::Speakers,
            r.spec_panning_model() == panning_model,
            r.spec_distance_model() == distance_model,
            r.spec_position() == position@,
            r.spec_orientation() == orientation@,
    {
        PannerNode {
            channel_config: ChannelConfig::panner_default(),
            panning_model,
            distance_model,
            position,
            orientation,
        }
    }

    pub fn channel_config(&self) -> (r: &ChannelConfig)
        ensures
            *r == self.spec_channel_config(),
    {
        &self.channel_config
    }

    pub fn panning_model(&self) -> (r: PanningModelType)
        ensures
            r == self.spec_panning_model(),
    {
        self.panning_model
    }

    pub fn distance_model(&self) -> (r: DistanceModelType)
        ensures
            r == self.spec_distance_model(),
    {
        self.distance_model
    }

    /// One main audio input plus the listener's nine scalar inputs.
    pub fn number_of_inputs(&self) -> (r: usize)
        ensures
            r == 1 + LISTENER_INPUTS,
    {
        1 + LISTENER_INPUTS
    }

    pub fn number_of_outputs(&self) -> (r: usize)
        ensures
            r == 1,
    {
        1
    }

    /// Sets the channel count; a count above two fails and leaves the node unchanged.
    pub fn set_channel_count(&mut self, v: usize) -> (r: Result<(), PannerError>)
        requires
            old(self).wf(),
        ensures
            final(self).wf(),
            r is Ok <==> v <= 2,
            r is Err ==> r == Err::<(), PannerError>(PannerError::ChannelCountTooLarge),
            r is Ok ==> final(self).spec_channel_config().spec_count() == v,
            final(self).spec_channel_config().spec_mode() == old(self).spec_channel_config().spec_mode(),
            r is Err ==> *final(self) == *old(self),
            final(self).spec_panning_model() == old(self).spec_panning_model(),
            final(self).spec_distance_model() == old(self).spec_distance_model(),
            final(self).spec_position() == old(self).spec_position(),
            final(self).spec_orientation() == old(self).spec_orientation(),
    {
        self.channel_config.set_count(v)
    }

    /// Sets the channel count mode; `Max` fails and leaves the node unchanged.
    pub fn set_channel_count_mode(&mut self, v: ChannelCountMode) -> (r: Result<(), PannerError>)
        requires
            old(self).wf(),
        ensures
            final(self).wf(),
            r is Ok <==> v != ChannelCountMode::Max,
            r is Err ==> r == Err::<(), PannerError>(PannerError::ChannelCountModeMax),
            r is Ok ==> final(self).spec_channel_config().spec_mode() == v,
            final(self).spec_channel_config().spec_count() == old(self).spec_channel_config().spec_count(),
            r is Err ==> *final(self) == *old(self),
            final(self).spec_panning_model() == old(self).spec_panning_model(),
            final(self).spec_distance_model() == old(self).spec_distance_model(),
            final(self).spec_position() == old(self).spec_position(),
            final(self).spec_orientation() == old(self).spec_orientation(),
    {
        self.channel_config.set_count_mode(v)
    }

    pub fn position_x(&self) -> (r: &AudioParam)
        ensures
            *r == self.spec_position()[0],
    {
        &self.position[0]
    }

    pub fn position_y(&self) -> (r: &AudioParam)
        ensures
            *r == self.spec_position()[1],
    {
        &self.position[1]
    }

    pub fn position_z(&self) -> (r: &AudioParam)
        ensures
            *r == self.spec_position()[2],
    {
        &self.position[2]
    }

    pub fn orientation_x(&self) -> (r: &AudioParam)
        ensures
            *r == self.spec_orientation()[0],
    {
        &self.orientation[0]
    }

    pub fn orientation_y(&self) -> (r: &AudioParam)
        ensures
            *r == self.spec_orientation()[1],
    {
        &self.orientation[1]
    }

    pub fn orientation_z(&self) -> (r: &AudioParam)
        ensures
            *r == self.spec_orientation()[2],
    {
        &self.orientation[2]
    }
}

} // verus!
