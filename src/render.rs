use vstd::prelude::*;

use crate::node::{PanningModelType, LISTENER_INPUTS};

verus! {

/// One of the nine listener scalars a panner receives as auxiliary inputs.
#[derive(Clone, Copy, Debug, PartialEq, Eq, Structural)]
pub enum ListenerScalar {
    PositionX,
    PositionY,
    PositionZ,
    ForwardX,
    ForwardY,
    ForwardZ,
    UpX,
    UpY,
    UpZ,
}

/// Rank of a listener scalar in the fixed wiring order.
pub open spec fn listener_rank(s: ListenerScalar) -> nat {
    match s {
        ListenerScalar::PositionX => 0,
        ListenerScalar::PositionY => 1,
        ListenerScalar::PositionZ => 2,
        ListenerScalar::ForwardX => 3,
        ListenerScalar::ForwardY => 4,
        ListenerScalar::ForwardZ => 5,
        ListenerScalar::UpX => 6,
        ListenerScalar::UpY => 7,
        ListenerScalar::UpZ => 8,
    }
}

impl ListenerScalar {
    /// Index of the input port that carries this scalar. Port 0 is the audio
    /// input; the listener occupies ports 1 to 9 in the order position x, y, z,
    /// forward x, y, z, up x, y, z.
    pub fn input_index(self) -> (r: usize)
        ensures
            r == 1 + listener_rank(self),
            1 <= r <= LISTENER_INPUTS,
    {
        match self {
            ListenerScalar::PositionX => 1,
            ListenerScalar::PositionY => 2,
            ListenerScalar::PositionZ => 3,
            ListenerScalar::ForwardX => 4,
            ListenerScalar::ForwardY => 5,
            ListenerScalar::ForwardZ => 6,
            ListenerScalar::UpX => 7,
            ListenerScalar::UpY => 8,
            ListenerScalar::UpZ => 9,
        }
    }
}

/// Distinct listener scalars are wired to distinct input ports.
pub proof fn lemma_listener_ports_distinct(a: ListenerScalar, b: ListenerScalar)
    ensures
        a != b ==> listener_rank(a) != listener_rank(b),
{
}

/// Which part of a source's sound cone the listener is in.
#[derive(Clone, Copy, Debug, PartialEq, Eq, Structural)]
pub enum ConeRegion {
    /// Both cone angles cover the full circle: no attenuation at all.
    Disabled,
    /// Inside the inner cone: gain one.
    Inner,
    /// Between the inner and the outer cone: gain interpolated from one to the outer gain.
    Between,
    /// At or beyond the outer cone: the outer gain.
    Outer,
}

/// The cone rule. The disabled cone wins over every angle; inside the inner
/// cone wins over beyond the outer one.
pub open spec fn spec_cone_region(
    inner_covers_all: bool,
    outer_covers_all: bool,
    within_inner: bool,
    beyond_outer: bool,
) -> ConeRegion {
    if inner_covers_all && outer_covers_all {
        ConeRegion::Disabled
    } else if within_inner {
        ConeRegion::Inner
    } else if beyond_outer {
        ConeRegion::Outer
    } else {
        ConeRegion::Between
    }
}

/// Classifies the listener against the cone. `inner_covers_all` and
/// `outer_covers_all` say whether half the inner (outer) angle is at least
/// 180 degrees; `within_inner` whether the source-to-listener angle is below
/// half the inner angle; `beyond_outer` whether it is at least half the outer angle.
pub fn cone_region(
    inner_covers_all: bool,
    outer_covers_all: bool,
    within_inner: bool,
    beyond_outer: bool,
) -> (r: ConeRegion)
    ensures
        r == spec_cone_region(inner_covers_all, outer_covers_all, within_inner, beyond_outer),
{
    if inner_covers_all && outer_covers_all {
        ConeRegion::Disabled
    } else if within_inner {
        ConeRegion::Inner
    } else if beyond_outer {
        ConeRegion::Outer
    } else {
        ConeRegion::Between
    }
}

/// A cone whose two half-angles both reach 180 degrees attenuates nothing,
/// whatever the angle between the source's orientation and the listener.
pub proof fn lemma_full_cone_disabled(within_inner: bool, beyond_outer: bool)
    ensures
        spec_cone_region(true, true, within_inner, beyond_outer) == ConeRegion::Disabled,
{
}

/// What the renderer does with one block.
#[derive(Clone, Copy, Debug, PartialEq, Eq, Structural)]
pub enum RenderPath {
    /// Silent input: the mono pass-through is the output, no spatialization.
    Silent,
    /// Stereo equal-power panning.
    EqualPower,
    /// Binaural convolution.
    Hrtf,
}

/// The path a block takes: silence short-circuits, otherwise the node's model decides.
pub open spec fn spec_render_path(input_silent: bool, model: PanningModelType) -> RenderPath {
    if input_silent {
        RenderPath::Silent
    } else {
        match model {
            PanningModelType::EqualPower => RenderPath::EqualPower,
            PanningModelType::HRTF => RenderPath::Hrtf,
        }
    }
}

/// Plan for one render quantum: the path taken, and whether the node asks to
/// be pulled again when its input turns silent.
#[derive(Clone, Copy, Debug, PartialEq, Eq, Structural)]
pub struct RenderPlan {
    pub path: RenderPath,
    pub keep_alive: bool,
}

/// Decides the rendering of one block. The node never asks to be kept alive:
/// no convolution tail is rendered after the input falls silent, for either model.
pub fn plan_block(input_silent: bool, model: PanningModelType) -> (r: RenderPlan)
    ensures
        r.path == spec_render_path(input_silent, model),
        !r.keep_alive,
{
    let path = if input_silent {
        RenderPath::Silent
    } else {
        match model {
            PanningModelType::EqualPower => RenderPath::EqualPower,
            PanningModelType::HRTF => RenderPath::Hrtf,
        }
    };
    RenderPlan { path, keep_alive: false }
}

/// A silent block is passed through unspatialized, whichever panning model the node uses.
pub proof fn lemma_silence_short_circuits(model: PanningModelType)
    ensures
        spec_render_path(true, model) == RenderPath::Silent,
{
}

} // verus!
