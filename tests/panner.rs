use panner::channel::{ChannelCountMode, ChannelInterpretation, PannerError};
use panner::node::{AudioParam, DistanceModelType, PannerNode, PanningModelType};
use panner::render::{cone_region, plan_block, ConeRegion, ListenerScalar, RenderPath};

fn params(base: usize) -> [AudioParam; 3] {
    [AudioParam::new(base), AudioParam::new(base + 1), AudioParam::new(base + 2)]
}

fn node(model: PanningModelType) -> PannerNode {
    PannerNode::new(model, DistanceModelType::Inverse, params(10), params(20))
}

#[test]
fn new_node_has_default_channel_config() {
    let n = node(PanningModelType::EqualPower);
    assert_eq!(n.channel_config().count(), 2);
    assert_eq!(n.channel_config().count_mode(), ChannelCountMode::ClampedMax);
    assert_eq!(n.channel_config().interpretation(), ChannelInterpretation::Speakers);
    assert_eq!(n.panning_model(), PanningModelType::EqualPower);
    assert_eq!(n.distance_model(), DistanceModelType::Inverse);
}

#[test]
fn node_port_counts() {
    let n = node(PanningModelType::HRTF);
    assert_eq!(n.number_of_inputs(), 10);
    assert_eq!(n.number_of_outputs(), 1);
}

#[test]
fn param_getters_return_their_handles() {
    let n = node(PanningModelType::EqualPower);
    assert_eq!(n.position_x().id(), 10);
    assert_eq!(n.position_y().id(), 11);
    assert_eq!(n.position_z().id(), 12);
    assert_eq!(n.orientation_x().id(), 20);
    assert_eq!(n.orientation_y().id(), 21);
    assert_eq!(n.orientation_z().id(), 22);
}

#[test]
fn channel_count_three_is_refused_and_keeps_previous() {
    let mut n = node(PanningModelType::EqualPower);
    assert_eq!(n.set_channel_count(1), Ok(()));
    assert_eq!(n.set_channel_count(3), Err(PannerError::ChannelCountTooLarge));
    assert_eq!(n.channel_config().count(), 1);
}

#[test]
fn channel_count_up_to_two_is_accepted() {
    let mut n = node(PanningModelType::EqualPower);
    assert_eq!(n.set_channel_count(2), Ok(()));
    assert_eq!(n.channel_config().count(), 2);
    assert_eq!(n.set_channel_count(usize::MAX), Err(PannerError::ChannelCountTooLarge));
    assert_eq!(n.channel_config().count(), 2);
}

#[test]
fn channel_count_mode_max_is_refused_and_keeps_previous() {
    let mut n = node(PanningModelType::EqualPower);
    assert_eq!(n.set_channel_count_mode(ChannelCountMode::Explicit), Ok(()));
    assert_eq!(
        n.set_channel_count_mode(ChannelCountMode::Max),
        Err(PannerError::ChannelCountModeMax)
    );
    assert_eq!(n.channel_config().count_mode(), ChannelCountMode::Explicit);
    assert_eq!(n.channel_config().count(), 2);
}

#[test]
fn full_cone_is_disabled_for_every_angle() {
    for within in [false, true] {
        for beyond in [false, true] {
            assert_eq!(cone_region(true, true, within, beyond), ConeRegion::Disabled);
        }
    }
}

#[test]
fn cone_regions_follow_the_angle() {
    assert_eq!(cone_region(false, true, true, false), ConeRegion::Inner);
    assert_eq!(cone_region(false, false, false, true), ConeRegion::Outer);
    // an angle exactly at half the inner angle is no longer inside it
    assert_eq!(cone_region(false, false, false, false), ConeRegion::Between);
    assert_eq!(cone_region(true, false, false, false), ConeRegion::Between);
    // inside the inner cone wins when the angles are given the wrong way round
    assert_eq!(cone_region(false, false, true, true), ConeRegion::Inner);
}

#[test]
fn silent_block_short_circuits_without_keep_alive() {
    for model in [PanningModelType::EqualPower, PanningModelType::HRTF] {
        let plan = plan_block(true, model);
        assert_eq!(plan.path, RenderPath::Silent);
        assert!(!plan.keep_alive);
    }
}

#[test]
fn audible_block_follows_the_model() {
    let p = plan_block(false, PanningModelType::EqualPower);
    assert_eq!(p.path, RenderPath::EqualPower);
    assert!(!p.keep_alive);
    let p = plan_block(false, PanningModelType::HRTF);
    assert_eq!(p.path, RenderPath::Hrtf);
    assert!(!p.keep_alive);
}

#[test]
fn listener_ports_follow_the_fixed_order() {
    let order = [
        ListenerScalar::PositionX,
        ListenerScalar::PositionY,
        ListenerScalar::PositionZ,
        ListenerScalar::ForwardX,
        ListenerScalar::ForwardY,
        ListenerScalar::ForwardZ,
        ListenerScalar::UpX,
        ListenerScalar::UpY,
        ListenerScalar::UpZ,
    ];
    for (i, s) in order.iter().enumerate() {
        assert_eq!(s.input_index(), i + 1);
    }
}
