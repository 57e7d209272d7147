use vstd::prelude::*;

verus! {

/// Height of the overlay at a scale factor of one, in pixels.
pub const OVERLAY_BASE_HEIGHT: u32 = 204;

/// Scale factors are given in thousandths.
pub const SCALE_UNIT: u32 = 1000;

/// Window-event codes and object id of the notifications the tracker
/// subscribes to.
pub const EVENT_SYSTEM_MOVESIZEEND: u32 = 0x000B;

pub const EVENT_OBJECT_DESTROY: u32 = 0x8001;

pub const EVENT_OBJECT_HIDE: u32 = 0x8003;

pub const OBJID_WINDOW: i32 = 0;

/// A window's bounding rectangle in screen pixels.
#[derive(Clone, Copy, Debug, PartialEq, Eq)]
pub struct Rect {
    pub left: i32,
    pub top: i32,
    pub right: i32,
    pub bottom: i32,
}

/// Where the overlay goes: its top-left corner and its size.
#[derive(Clone, Copy, Debug, PartialEq, Eq)]
pub struct Placement {
    pub x: i32,
    pub y: i32,
    pub width: u32,
    pub height: u32,
}

#[derive(Clone, Copy, Debug, PartialEq, Eq)]
pub enum FollowError {
    TargetNotForeground,
    TargetGeometryInvalid,
    OverlayShowFailed,
}

impl FollowError {
    pub open spec fn message_spec(&self) -> Seq<char> {
        match self {
            FollowError::TargetNotForeground => "请确保微信窗口处于激活状态"@,
            FollowError::TargetGeometryInvalid => "未定位到微信窗口"@,
            FollowError::OverlayShowFailed => "展示窗口失败，请稍后重试"@,
        }
    }

    /// The fixed text shown to the user for this error.
    pub fn message(&self) -> (r: String)
        ensures
            r@ == self.message_spec(),
    {
        match self {
            FollowError::TargetNotForeground => String::from_str("请确保微信窗口处于激活状态"),
            FollowError::TargetGeometryInvalid => String::from_str("未定位到微信窗口"),
            FollowError::OverlayShowFailed => String::from_str("展示窗口失败，请稍后重试"),
        }
    }
}

/// What was observed of the target window when attaching.
#[derive(Clone, Copy, Debug, PartialEq, Eq)]
pub struct AttachProbe {
    /// A window of the target's class exists.
    pub target_found: bool,
    /// That window is the foreground window.
    pub is_foreground: bool,
    /// Its bounding rectangle, where it could be read.
    pub rect: Option<Rect>,
}

/// A window-event notification about the target, with what was read of the
/// target when it came.
#[derive(Clone, Copy, Debug, PartialEq, Eq)]
pub struct Notification {
    pub event: u32,
    pub object_id: i32,
    pub child_id: i32,
    /// Whether the target window is visible.
    pub target_visible: bool,
    /// The target's bounding rectangle, where it could be read.
    pub rect: Option<Rect>,
}

/// What to do about a notification.
#[derive(Clone, Copy, Debug, PartialEq, Eq)]
pub enum FollowAction {
    Ignore,
    /// Remove the given subscription, if any, and hide the overlay.
    Detach(Option<u64>),
    /// Move and resize the overlay.
    Place(Placement),
}

/// Keeps the overlay below the target window: holds the one event
/// subscription (by its handle) and the overlay's scale factor.
pub struct FollowTracker {
    hook: Option<u64>,
    scale_milli: u32,
}

pub struct FollowView {
    /// The live event subscription, while attached.
    pub hook: Option<u64>,
    /// The overlay's scale factor, in thousandths.
    pub scale_milli: u32,
}

impl View for FollowTracker {
    type V = FollowView;

    closed spec fn view(&self) -> FollowView {
        FollowView { hook: self.hook, scale_milli: self.scale_milli }
    }
}

pub open spec fn overlay_height_spec(scale_milli: u32) -> int {
    OVERLAY_BASE_HEIGHT * scale_milli / SCALE_UNIT as int
}

/// The overlay's place for a target rectangle: directly below the target's
/// bottom edge and as wide as the target. A rectangle without positive width
/// and height gives none.
pub open spec fn placement_spec(r: Rect, height: int) -> Option<Placement> {
    if r.right > r.left && r.bottom > r.top {
        Some(
            Placement { x: r.left, y: r.bottom, width: (r.right - r.left) as u32, height: height as u32 },
        )
    } else {
        None
    }
}

/// The overlay's place after the target moved or resized: the same anchoring
/// for every rectangle that could be read; a width that is not positive
/// gives an overlay of width zero.
pub open spec fn follow_spec(r: Rect, height: int) -> Placement {
    Placement {
        x: r.left,
        y: r.bottom,
        width: if r.right > r.left {
            (r.right - r.left) as u32
        } else {
            0
        },
        height: height as u32,
    }
}

pub open spec fn attach_plan_spec(p: AttachProbe, height: int) -> Result<Placement, FollowError> {
    if !p.target_found || !p.is_foreground {
        Err(FollowError::TargetNotForeground)
    } else {
        match p.rect {
            None => Err(FollowError::TargetGeometryInvalid),
            Some(r) => match placement_spec(r, height) {
                None => Err(FollowError::TargetGeometryInvalid),
                Some(pl) => Ok(pl),
            },
        }
    }
}

/// The notification ends the attachment: the target was destroyed, or was
/// hidden and is indeed not visible.
pub open spec fn ends_attachment(n: Notification) -> bool {
    n.object_id == OBJID_WINDOW && n.child_id == 0 && (n.event == EVENT_OBJECT_DESTROY || (n.event
        == EVENT_OBJECT_HIDE && !n.target_visible))
}

pub open spec fn notification_spec(t: FollowView, n: Notification) -> (FollowView, FollowAction) {
    if ends_attachment(n) {
        (FollowView { hook: None, ..t }, FollowAction::Detach(t.hook))
    } else if n.object_id == OBJID_WINDOW && n.child_id == 0 && n.event == EVENT_SYSTEM_MOVESIZEEND {
        match n.rect {
            Some(r) => (t, FollowAction::Place(follow_spec(r, overlay_height_spec(t.scale_milli)))),
            None => (t, FollowAction::Ignore),
        }
    } else {
        (t, FollowAction::Ignore)
    }
}

/// The subscription handed back when `h` is recorded: the one recorded
/// before, unless it is `h` itself.
pub open spec fn replaced_hook(t: FollowView, h: u64) -> Option<u64> {
    if t.hook == Some(h) {
        None
    } else {
        t.hook
    }
}

/// The overlay's place for a target rectangle, or none for a degenerate one.
pub fn placement_for(r: &Rect, height: u32) -> (p: Option<Placement>)
    ensures
        p == placement_spec(*r, height as int),
{
    if r.right > r.left && r.bottom > r.top {
        let width = (r.right as i64 - r.left as i64) as u32;
        Some(Placement { x: r.left, y: r.bottom, width, height })
    } else {
        None
    }
}

/// The overlay's place after the target moved or resized.
pub fn follow_placement(r: &Rect, height: u32) -> (p: Placement)
    ensures
        p == follow_spec(*r, height as int),
{
    let width = if r.right > r.left {
        (r.right as i64 - r.left as i64) as u32
    } else {
        0
    };
    Placement { x: r.left, y: r.bottom, width, height }
}

impl FollowTracker {
    /// A detached tracker for an overlay of the given scale factor.
    pub fn new(scale_milli: u32) -> (r: Self)
        ensures
            r@.hook is None,
            r@.scale_milli == scale_milli,
    {
        FollowTracker { hook: None, scale_milli }
    }

    pub fn is_attached(&self) -> (r: bool)
        ensures
            r == self@.hook is Some,
    {
        self.hook.is_some()
    }

    /// The overlay's height: the base height scaled by the scale factor.
    pub fn overlay_height(&self) -> (r: u32)
        ensures
            r == overlay_height_spec(self@.scale_milli),
    {
        let s = self.scale_milli as u64;
        assert(204 * s <= 204 * 0xFFFF_FFFFu64) by (nonlinear_arith)
            requires
                s <= 0xFFFF_FFFFu64,
        ;
        let prod = (OVERLAY_BASE_HEIGHT as u64) * s;
        let h = prod / (SCALE_UNIT as u64);
        assert(h <= 0xFFFF_FFFFu64) by (nonlinear_arith)
            requires
                h == prod / 1000,
                prod <= 204 * 0xFFFF_FFFFu64,
        ;
        h as u32
    }

    /// First step of attaching: the subscription held so far, if any, is
    /// handed back to be removed before anything else happens.
    pub fn begin_attach(&mut self) -> (r: Option<u64>)
        ensures
            r == old(self)@.hook,
            final(self)@ == (FollowView { hook: None, ..old(self)@ }),
    {
        self.hook.take()
    }

    /// Decides from what was observed of the target whether to attach, and
    /// where the overlay goes. Changes nothing.
    pub fn plan_attach(&self, p: &AttachProbe) -> (r: Result<Placement, FollowError>)
        ensures
            r == attach_plan_spec(*p, overlay_height_spec(self@.scale_milli)),
    {
        if !p.target_found || !p.is_foreground {
            return Err(FollowError::TargetNotForeground);
        }
        match p.rect {
            None => Err(FollowError::TargetGeometryInvalid),
            Some(r) => {
                let height = self.overlay_height();
                match placement_for(&r, height) {
                    None => Err(FollowError::TargetGeometryInvalid),
                    Some(pl) => Ok(pl),
                }
            },
        }
    }

    /// Records the subscription just installed. Any other one still recorded
    /// is handed back to be removed, so that one at most stays live.
    pub fn hook_installed(&mut self, h: u64) -> (r: Option<u64>)
        ensures
            r == replaced_hook(old(self)@, h),
            final(self)@ == (FollowView { hook: Some(h), ..old(self)@ }),
    {
        let prev = self.hook;
        self.hook = Some(h);
        match prev {
            Some(p) => if p == h {
                None
            } else {
                Some(p)
            },
            None => None,
        }
    }

    /// Last step of attaching, once the overlay was placed and shown (or not).
    /// When showing failed, the subscription is handed back to be removed.
    pub fn finish_attach(&mut self, shown: bool) -> (r: (Result<(), FollowError>, Option<u64>))
        ensures
            shown ==> r == (Ok::<(), FollowError>(()), None::<u64>) && final(self)@ == old(self)@,
            !shown ==> r == (Err::<(), FollowError>(FollowError::OverlayShowFailed), old(self)@.hook)
                && final(self)@ == (FollowView { hook: None, ..old(self)@ }),
    {
        if shown {
            (Ok(()), None)
        } else {
            (Err(FollowError::OverlayShowFailed), self.hook.take())
        }
    }

    /// Decides what a notification about the target calls for.
    pub fn on_notification(&mut self, n: &Notification) -> (r: FollowAction)
        ensures
            (final(self)@, r) == notification_spec(old(self)@, *n),
    {
        let for_window = n.object_id == OBJID_WINDOW && n.child_id == 0;
        if for_window && (n.event == EVENT_OBJECT_DESTROY || (n.event == EVENT_OBJECT_HIDE
            && !n.target_visible)) {
            FollowAction::Detach(self.hook.take())
        } else if for_window && n.event == EVENT_SYSTEM_MOVESIZEEND {
            match n.rect {
                Some(r) => FollowAction::Place(follow_placement(&r, self.overlay_height())),
                None => FollowAction::Ignore,
            }
        } else {
            FollowAction::Ignore
        }
    }
}

/// One call on the tracker, as the attach path and the notification path
/// make them.
#[derive(Clone, Copy, Debug)]
pub enum FollowOp {
    BeginAttach,
    HookInstalled(u64),
    FinishAttach(bool),
    Notify(Notification),
}

/// The subscriptions the tracker records.
pub open spec fn hook_set(t: FollowView) -> Set<u64> {
    match t.hook {
        Some(h) => set![h],
        None => Set::empty(),
    }
}

/// The live subscriptions once the one handed back, if any, is removed.
pub open spec fn release(o: Option<u64>, live: Set<u64>) -> Set<u64> {
    match o {
        Some(h) => live.remove(h),
        None => live,
    }
}

/// A call on the tracker, with its effect on the live subscriptions: an
/// installed one becomes live, one handed back is removed.
pub open spec fn op_spec(t: FollowView, live: Set<u64>, op: FollowOp) -> (FollowView, Set<u64>) {
    match op {
        FollowOp::BeginAttach => (FollowView { hook: None, ..t }, release(t.hook, live)),
        FollowOp::HookInstalled(h) => (
            FollowView { hook: Some(h), ..t },
            release(replaced_hook(t, h), live.insert(h)),
        ),
        FollowOp::FinishAttach(shown) => if shown {
            (t, live)
        } else {
            (FollowView { hook: None, ..t }, release(t.hook, live))
        },
        FollowOp::Notify(n) => {
            let (t2, a) = notification_spec(t, n);
            match a {
                FollowAction::Detach(o) => (t2, release(o, live)),
                _ => (t2, live),
            }
        },
    }
}

pub open spec fn run_ops(t: FollowView, live: Set<u64>, ops: Seq<FollowOp>) -> (FollowView, Set<u64>)
    decreases ops.len(),
{
    if ops.len() == 0 {
        (t, live)
    } else {
        let (t2, live2) = op_spec(t, live, ops[0]);
        run_ops(t2, live2, ops.drop_first())
    }
}

/// Attach exclusivity: whatever calls are made on the tracker (two attaches
/// in a row among them), the live subscriptions are exactly the one it
/// records, so never more than one.
pub proof fn at_most_one_subscription(t: FollowView, live: Set<u64>, ops: Seq<FollowOp>)
    requires
        live == hook_set(t),
    ensures
        run_ops(t, live, ops).1 == hook_set(run_ops(t, live, ops).0),
        run_ops(t, live, ops).1.len() <= 1,
    decreases ops.len(),
{
    if ops.len() == 0 {
        if let Some(h) = t.hook {
            assert(set![h].len() == 1) by {
                assert(set![h] == Set::<u64>::empty().insert(h));
            }
        }
    } else {
        let (t2, live2) = op_spec(t, live, ops[0]);
        match ops[0] {
            FollowOp::HookInstalled(h) => {
                assert(live2 =~= set![h]);
            },
            _ => {
                assert(live2 =~= hook_set(t2));
            },
        }
        at_most_one_subscription(t2, live2, ops.drop_first());
    }
}

} // verus!
