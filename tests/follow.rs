use chat_assistant::follow::{
    follow_placement, placement_for, AttachProbe, FollowAction, FollowError, FollowTracker, Notification, Placement,
    Rect, EVENT_OBJECT_DESTROY, EVENT_OBJECT_HIDE, EVENT_SYSTEM_MOVESIZEEND, OBJID_WINDOW,
};

const RECT: Rect = Rect { left: 100, top: 50, right: 900, bottom: 650 };

fn probe(fg: bool, rect: Option<Rect>) -> AttachProbe {
    AttachProbe { target_found: true, is_foreground: fg, rect }
}

fn note(event: u32, visible: bool, rect: Option<Rect>) -> Notification {
    Notification { event, object_id: OBJID_WINDOW, child_id: 0, target_visible: visible, rect }
}

#[test]
fn attach_places_overlay_below_target() {
    let mut t = FollowTracker::new(1500);
    assert_eq!(t.begin_attach(), None);
    let p = t.plan_attach(&probe(true, Some(RECT))).unwrap();
    assert_eq!(p, Placement { x: 100, y: 650, width: 800, height: 306 });
    assert_eq!(t.hook_installed(7), None);
    assert!(t.is_attached());
    assert_eq!(t.finish_attach(true), (Ok(()), None));
    assert!(t.is_attached());
}

#[test]
fn overlay_height_scales() {
    assert_eq!(FollowTracker::new(1000).overlay_height(), 204);
    assert_eq!(FollowTracker::new(1250).overlay_height(), 255);
    assert_eq!(FollowTracker::new(1750).overlay_height(), 357);
    assert_eq!(FollowTracker::new(0).overlay_height(), 0);
    assert_eq!(FollowTracker::new(u32::MAX).overlay_height(), 876173328);
}

#[test]
fn not_foreground_refuses_and_changes_nothing() {
    let mut t = FollowTracker::new(1000);
    t.begin_attach();
    let r = t.plan_attach(&probe(false, Some(RECT)));
    assert_eq!(r, Err(FollowError::TargetNotForeground));
    assert!(!t.is_attached());
    let absent = AttachProbe { target_found: false, is_foreground: true, rect: Some(RECT) };
    assert_eq!(t.plan_attach(&absent), Err(FollowError::TargetNotForeground));
    assert_eq!(FollowError::TargetNotForeground.message(), "请确保微信窗口处于激活状态");
}

#[test]
fn degenerate_geometry_is_refused() {
    let t = FollowTracker::new(1000);
    assert_eq!(t.plan_attach(&probe(true, None)), Err(FollowError::TargetGeometryInvalid));
    let flat = Rect { left: 0, top: 10, right: 100, bottom: 10 };
    assert_eq!(t.plan_attach(&probe(true, Some(flat))), Err(FollowError::TargetGeometryInvalid));
    let narrow = Rect { left: 5, top: 0, right: 5, bottom: 10 };
    assert_eq!(t.plan_attach(&probe(true, Some(narrow))), Err(FollowError::TargetGeometryInvalid));
    assert_eq!(FollowError::TargetGeometryInvalid.message(), "未定位到微信窗口");
}

#[test]
fn placement_of_extreme_rect() {
    let r = Rect { left: i32::MIN, top: 0, right: i32::MAX, bottom: 1 };
    assert_eq!(placement_for(&r, 9), Some(Placement { x: i32::MIN, y: 1, width: u32::MAX, height: 9 }));
}

#[test]
fn second_attach_hands_back_the_first_hook() {
    let mut t = FollowTracker::new(1000);
    t.begin_attach();
    t.hook_installed(1);
    t.finish_attach(true);
    assert_eq!(t.begin_attach(), Some(1));
    assert!(!t.is_attached());
    assert_eq!(t.hook_installed(2), None);
    assert_eq!(t.hook_installed(3), Some(2));
    assert_eq!(t.hook_installed(3), None);
}

#[test]
fn failed_show_hands_back_the_hook() {
    let mut t = FollowTracker::new(1000);
    t.begin_attach();
    t.hook_installed(9);
    assert_eq!(t.finish_attach(false), (Err(FollowError::OverlayShowFailed), Some(9)));
    assert!(!t.is_attached());
    assert_eq!(FollowError::OverlayShowFailed.message(), "展示窗口失败，请稍后重试");
}

#[test]
fn notifications_detach_move_or_are_ignored() {
    let mut t = FollowTracker::new(1000);
    t.hook_installed(4);
    assert_eq!(t.on_notification(&note(EVENT_OBJECT_HIDE, true, None)), FollowAction::Ignore);
    assert_eq!(
        t.on_notification(&note(EVENT_SYSTEM_MOVESIZEEND, true, Some(RECT))),
        FollowAction::Place(Placement { x: 100, y: 650, width: 800, height: 204 })
    );
    assert_eq!(t.on_notification(&note(EVENT_SYSTEM_MOVESIZEEND, true, None)), FollowAction::Ignore);
    let thin = Rect { left: 10, top: 0, right: 10, bottom: 40 };
    assert_eq!(
        t.on_notification(&note(EVENT_SYSTEM_MOVESIZEEND, true, Some(thin))),
        FollowAction::Place(Placement { x: 10, y: 40, width: 0, height: 204 })
    );
    let inverted = Rect { left: 30, top: 50, right: 20, bottom: 10 };
    assert_eq!(
        t.on_notification(&note(EVENT_SYSTEM_MOVESIZEEND, true, Some(inverted))),
        FollowAction::Place(Placement { x: 30, y: 10, width: 0, height: 204 })
    );
    let mut child = note(EVENT_OBJECT_DESTROY, false, None);
    child.child_id = 3;
    assert_eq!(t.on_notification(&child), FollowAction::Ignore);
    assert_eq!(t.on_notification(&note(0x8002, false, None)), FollowAction::Ignore);
    assert!(t.is_attached());
    assert_eq!(t.on_notification(&note(EVENT_OBJECT_HIDE, false, None)), FollowAction::Detach(Some(4)));
    assert!(!t.is_attached());
    t.hook_installed(5);
    assert_eq!(t.on_notification(&note(EVENT_OBJECT_DESTROY, true, None)), FollowAction::Detach(Some(5)));
    assert_eq!(t.on_notification(&note(EVENT_OBJECT_DESTROY, true, None)), FollowAction::Detach(None));
}

#[test]
fn follow_placement_widths() {
    assert_eq!(follow_placement(&RECT, 7), Placement { x: 100, y: 650, width: 800, height: 7 });
    let r = Rect { left: i32::MIN, top: 0, right: i32::MAX, bottom: 0 };
    assert_eq!(follow_placement(&r, 1), Placement { x: i32::MIN, y: 0, width: u32::MAX, height: 1 });
}
