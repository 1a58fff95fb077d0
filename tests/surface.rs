use ferret_engine::surface::{frame_action, preferred_format, FrameAction, SurfaceExtent, SurfaceStatus};

#[test]
fn zero_size_is_floored_at_one() {
    let e = SurfaceExtent::new(0, 0);
    assert_eq!((e.width, e.height), (1, 1));
    let e = SurfaceExtent::new(1920, 0);
    assert_eq!((e.width, e.height), (1920, 1));
}

#[test]
fn resize_twice_to_the_same_size_changes_nothing_more() {
    let mut e = SurfaceExtent::new(1920, 1080);
    e.resize(800, 600);
    let once = e;
    e.resize(800, 600);
    assert_eq!(e, once);
    assert_eq!((e.width, e.height), (800, 600));
}

#[test]
fn resize_to_zero_width_keeps_one_column() {
    let mut e = SurfaceExtent::new(640, 480);
    e.resize(0, 480);
    assert_eq!((e.width, e.height), (1, 480));
}

#[test]
fn acquisition_outcomes_map_to_actions() {
    assert_eq!(frame_action(SurfaceStatus::Acquired), FrameAction::Draw);
    assert_eq!(frame_action(SurfaceStatus::Lost), FrameAction::ReconfigureAndSkip);
    assert_eq!(frame_action(SurfaceStatus::Outdated), FrameAction::ReconfigureAndSkip);
    assert_eq!(frame_action(SurfaceStatus::Timeout), FrameAction::Abort);
    assert_eq!(frame_action(SurfaceStatus::OutOfMemory), FrameAction::Abort);
    assert_eq!(frame_action(SurfaceStatus::Other), FrameAction::Abort);
}

#[test]
fn first_srgb_format_is_preferred() {
    assert_eq!(preferred_format(&vec![false, true, true]), Some(1));
    assert_eq!(preferred_format(&vec![false, false]), Some(0));
    assert_eq!(preferred_format(&vec![true]), Some(0));
    assert_eq!(preferred_format(&vec![]), None);
}
