use vstd::prelude::*;

verus! {

/// What a search for the target window observed. The search itself runs
/// against the accessibility tree, outside this library; its findings are
/// handed over as plain values.
#[derive(Clone, Copy, Debug, PartialEq, Eq)]
pub struct WindowProbe {
    /// A window with the target's class name was found near the desktop root.
    pub found: bool,
    /// The element found could be read as a top-level window control.
    pub is_window: bool,
    /// The minimised state, where it could be read.
    pub minimized: Option<bool>,
}

/// The one error of the locator: the window is absent or cannot be used.
#[derive(Clone, Copy, Debug, PartialEq, Eq)]
pub enum LocateError {
    NotFound,
}

impl LocateError {
    pub open spec fn message_spec(&self) -> Seq<char> {
        "未定位到微信窗口"@
    }

    /// The fixed text shown to the user for this error.
    pub fn message(&self) -> (r: String)
        ensures
            r@ == self.message_spec(),
    {
        String::from_str("未定位到微信窗口")
    }
}

/// A window is usable when it was found, is a window control, and is not
/// known to be minimised. A minimised window counts as absent.
pub open spec fn window_usable(p: WindowProbe) -> bool {
    p.found && p.is_window && p.minimized != Some(true)
}

/// The locator's verdict on what a search observed.
pub open spec fn locate_spec(p: WindowProbe) -> Result<(), LocateError> {
    if window_usable(p) {
        Ok(())
    } else {
        Err(LocateError::NotFound)
    }
}

/// Decides whether the window a search observed may be automated.
pub fn locate_verdict(p: &WindowProbe) -> (r: Result<(), LocateError>)
    ensures
        r == locate_spec(*p),
{
    if p.found && p.is_window {
        match p.minimized {
            Some(true) => Err(LocateError::NotFound),
            _ => Ok(()),
        }
    } else {
        Err(LocateError::NotFound)
    }
}

/// Locating is a read-only query: two searches that observe the same target
/// state get the same verdict.
pub proof fn locate_is_repeatable(a: WindowProbe, b: WindowProbe)
    requires
        a == b,
    ensures
        locate_spec(a) == locate_spec(b),
{
}

} // verus!
