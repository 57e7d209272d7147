use vstd::prelude::*;

verus! {

#[derive(Clone, Copy, Debug, PartialEq, Eq)]
pub enum InjectError {
    SendControlNotFound,
    InputBoxNotFound,
    FocusFailed,
    ClipboardWriteFailed,
}

impl InjectError {
    pub open spec fn message_spec(&self) -> Seq<char> {
        match self {
            InjectError::SendControlNotFound => "无法定位到发送按钮，请稍后重试"@,
            InjectError::InputBoxNotFound => "无法定位到消息框，请稍后重试"@,
            InjectError::FocusFailed => "点击消息窗口失败，请检查微信窗口是否可见"@,
            InjectError::ClipboardWriteFailed => "无法复制消息，请稍后重试"@,
        }
    }

    /// The fixed text shown to the user for this error.
    pub fn message(&self) -> (r: String)
        ensures
            r@ == self.message_spec(),
    {
        match self {
            InjectError::SendControlNotFound => String::from_str("无法定位到发送按钮，请稍后重试"),
            InjectError::InputBoxNotFound => String::from_str("无法定位到消息框，请稍后重试"),
            InjectError::FocusFailed => String::from_str("点击消息窗口失败，请检查微信窗口是否可见"),
            InjectError::ClipboardWriteFailed => String::from_str("无法复制消息，请稍后重试"),
        }
    }
}

/// Where an injection stands: each phase but the last waits for the outcome
/// of one piece of outside work.
#[derive(Clone, Copy, Debug)]
pub enum InjectPhase {
    FindSendControl,
    FindInputBox,
    CheckFocus,
    ClickInputBox,
    ReadClipboard,
    WriteClipboard,
    Paste,
    RestoreClipboard,
    ClickSend,
    Finished(Result<(), InjectError>),
}

/// The outcome of the outside work that an injection asked for.
#[derive(Debug)]
pub enum InjectEvent {
    /// Whether the send button was found within the search depth.
    SendControlFound(bool),
    /// Whether an edit control was found below the send button's third ancestor.
    InputBoxFound(bool),
    /// Whether the input box holds the keyboard focus.
    FocusChecked(bool),
    /// Whether clicking the input box succeeded.
    InputBoxClicked(bool),
    /// The clipboard's content, where it could be read.
    ClipboardRead(Option<String>),
    /// Whether the clipboard took the text.
    ClipboardWritten(bool),
    /// Whether the paste keys were delivered to the input box.
    Pasted(bool),
    /// The clipboard restore was attempted; its outcome does not matter.
    Restored,
    /// The send button was clicked; its outcome does not matter.
    SendClicked,
}

/// The outside work an injection asks for next, or its result.
#[derive(Debug)]
pub enum InjectAction {
    FindSendControl,
    FindInputBox,
    CheckFocus,
    ClickInputBox,
    ReadClipboard,
    WriteClipboard(String),
    Paste,
    RestoreClipboard(String),
    ClickSend,
    Done(Result<(), InjectError>),
}

pub enum InjectActionView {
    FindSendControl,
    FindInputBox,
    CheckFocus,
    ClickInputBox,
    ReadClipboard,
    WriteClipboard(Seq<char>),
    Paste,
    RestoreClipboard(Seq<char>),
    ClickSend,
    Done(Result<(), InjectError>),
}

impl View for InjectAction {
    type V = InjectActionView;

    open spec fn view(&self) -> InjectActionView {
        match self {
            InjectAction::FindSendControl => InjectActionView::FindSendControl,
            InjectAction::FindInputBox => InjectActionView::FindInputBox,
            InjectAction::CheckFocus => InjectActionView::CheckFocus,
            InjectAction::ClickInputBox => InjectActionView::ClickInputBox,
            InjectAction::ReadClipboard => InjectActionView::ReadClipboard,
            InjectAction::WriteClipboard(t) => InjectActionView::WriteClipboard(t@),
            InjectAction::Paste => InjectActionView::Paste,
            InjectAction::RestoreClipboard(t) => InjectActionView::RestoreClipboard(t@),
            InjectAction::ClickSend => InjectActionView::ClickSend,
            InjectAction::Done(r) => InjectActionView::Done(*r),
        }
    }
}

/// Pastes a text into the chat application's input box through the
/// clipboard, and optionally sends it. The clipboard's content is saved
/// before and put back after the paste.
pub struct Injector {
    phase: InjectPhase,
    text: String,
    commit: bool,
    backup: String,
    backup_read: bool,
}

pub struct InjectorView {
    pub phase: InjectPhase,
    /// The text to paste.
    pub text: Seq<char>,
    /// Whether the send button is clicked after the paste.
    pub commit: bool,
    /// The clipboard content saved before the paste (empty if unreadable).
    pub backup: Seq<char>,
    /// Whether the clipboard could be read before the paste.
    pub backup_read: bool,
}

impl View for Injector {
    type V = InjectorView;

    closed spec fn view(&self) -> InjectorView {
        InjectorView {
            phase: self.phase,
            text: self.text@,
            commit: self.commit,
            backup: self.backup@,
            backup_read: self.backup_read,
        }
    }
}

pub open spec fn start_spec(text: Seq<char>, commit: bool) -> InjectorView {
    InjectorView {
        phase: InjectPhase::FindSendControl,
        text,
        commit,
        backup: Seq::empty(),
        backup_read: false,
    }
}

pub open spec fn with_phase(s: InjectorView, p: InjectPhase) -> InjectorView {
    InjectorView { phase: p, ..s }
}

pub open spec fn fail_with(s: InjectorView, e: InjectError) -> InjectorView {
    with_phase(s, InjectPhase::Finished(Err(e)))
}

/// The injection protocol: one step per reported outcome. An outcome that
/// does not answer the pending work leaves the injection as it was.
pub open spec fn next_spec(s: InjectorView, ev: InjectEvent) -> InjectorView {
    match (s.phase, ev) {
        (InjectPhase::FindSendControl, InjectEvent::SendControlFound(found)) => {
            if found {
                with_phase(s, InjectPhase::FindInputBox)
            } else {
                fail_with(s, InjectError::SendControlNotFound)
            }
        },
        (InjectPhase::FindInputBox, InjectEvent::InputBoxFound(found)) => {
            if found {
                with_phase(s, InjectPhase::CheckFocus)
            } else {
                fail_with(s, InjectError::InputBoxNotFound)
            }
        },
        (InjectPhase::CheckFocus, InjectEvent::FocusChecked(focused)) => {
            if focused {
                with_phase(s, InjectPhase::ReadClipboard)
            } else {
                with_phase(s, InjectPhase::ClickInputBox)
            }
        },
        (InjectPhase::ClickInputBox, InjectEvent::InputBoxClicked(ok)) => {
            if ok {
                with_phase(s, InjectPhase::ReadClipboard)
            } else {
                fail_with(s, InjectError::FocusFailed)
            }
        },
        (InjectPhase::ReadClipboard, InjectEvent::ClipboardRead(content)) => {
            match content {
                Some(c) => InjectorView {
                    phase: InjectPhase::WriteClipboard,
                    backup: c@,
                    backup_read: true,
                    ..s
                },
                None => InjectorView {
                    phase: InjectPhase::WriteClipboard,
                    backup: Seq::empty(),
                    backup_read: false,
                    ..s
                },
            }
        },
        (InjectPhase::WriteClipboard, InjectEvent::ClipboardWritten(ok)) => {
            if ok {
                with_phase(s, InjectPhase::Paste)
            } else {
                fail_with(s, InjectError::ClipboardWriteFailed)
            }
        },
        (InjectPhase::Paste, InjectEvent::Pasted(ok)) => {
            if ok {
                with_phase(s, InjectPhase::RestoreClipboard)
            } else {
                fail_with(s, InjectError::ClipboardWriteFailed)
            }
        },
        (InjectPhase::RestoreClipboard, InjectEvent::Restored) => {
            if s.commit {
                with_phase(s, InjectPhase::ClickSend)
            } else {
                with_phase(s, InjectPhase::Finished(Ok(())))
            }
        },
        (InjectPhase::ClickSend, InjectEvent::SendClicked) => with_phase(
            s,
            InjectPhase::Finished(Ok(())),
        ),
        _ => s,
    }
}

/// The work that an injection in state `s` waits for.
pub open spec fn pending_spec(s: InjectorView) -> InjectActionView {
    match s.phase {
        InjectPhase::FindSendControl => InjectActionView::FindSendControl,
        InjectPhase::FindInputBox => InjectActionView::FindInputBox,
        InjectPhase::CheckFocus => InjectActionView::CheckFocus,
        InjectPhase::ClickInputBox => InjectActionView::ClickInputBox,
        InjectPhase::ReadClipboard => InjectActionView::ReadClipboard,
        InjectPhase::WriteClipboard => InjectActionView::WriteClipboard(s.text),
        InjectPhase::Paste => InjectActionView::Paste,
        InjectPhase::RestoreClipboard => InjectActionView::RestoreClipboard(s.backup),
        InjectPhase::ClickSend => InjectActionView::ClickSend,
        InjectPhase::Finished(r) => InjectActionView::Done(r),
    }
}

impl Injector {
    /// An injection of `text`, which clicks the send button at the end when
    /// `commit` holds.
    pub fn new(text: String, commit: bool) -> (r: Self)
        ensures
            r@ == start_spec(text@, commit),
    {
        Injector {
            phase: InjectPhase::FindSendControl,
            text,
            commit,
            backup: String::new(),
            backup_read: false,
        }
    }

    /// The work this injection waits for, or its result once finished.
    pub fn pending(&self) -> (r: InjectAction)
        ensures
            r@ == pending_spec(self@),
    {
        match self.phase {
            InjectPhase::FindSendControl => InjectAction::FindSendControl,
            InjectPhase::FindInputBox => InjectAction::FindInputBox,
            InjectPhase::CheckFocus => InjectAction::CheckFocus,
            InjectPhase::ClickInputBox => InjectAction::ClickInputBox,
            InjectPhase::ReadClipboard => InjectAction::ReadClipboard,
            InjectPhase::WriteClipboard => InjectAction::WriteClipboard(self.text.clone()),
            InjectPhase::Paste => InjectAction::Paste,
            InjectPhase::RestoreClipboard => InjectAction::RestoreClipboard(self.backup.clone()),
            InjectPhase::ClickSend => InjectAction::ClickSend,
            InjectPhase::Finished(r) => InjectAction::Done(r),
        }
    }

    /// Takes the outcome of the pending work and says what comes next.
    pub fn step(&mut self, ev: InjectEvent) -> (r: InjectAction)
        ensures
            final(self)@ == next_spec(old(self)@, ev),
            r@ == pending_spec(final(self)@),
    {
        let ghost ev0 = ev;
        match self.phase {
            InjectPhase::FindSendControl => {
                if let InjectEvent::SendControlFound(found) = ev {
                    self.phase = if found {
                        InjectPhase::FindInputBox
                    } else {
                        InjectPhase::Finished(Err(InjectError::SendControlNotFound))
                    };
                }
            },
            InjectPhase::FindInputBox => {
                if let InjectEvent::InputBoxFound(found) = ev {
                    self.phase = if found {
                        InjectPhase::CheckFocus
                    } else {
                        InjectPhase::Finished(Err(InjectError::InputBoxNotFound))
                    };
                }
            },
            InjectPhase::CheckFocus => {
                if let InjectEvent::FocusChecked(focused) = ev {
                    self.phase = if focused {
                        InjectPhase::ReadClipboard
                    } else {
                        InjectPhase::ClickInputBox
                    };
                }
            },
            InjectPhase::ClickInputBox => {
                if let InjectEvent::InputBoxClicked(ok) = ev {
                    self.phase = if ok {
                        InjectPhase::ReadClipboard
                    } else {
                        InjectPhase::Finished(Err(InjectError::FocusFailed))
                    };
                }
            },
            InjectPhase::ReadClipboard => {
                if let InjectEvent::ClipboardRead(content) = ev {
                    match content {
                        Some(c) => {
                            self.backup = c;
                            self.backup_read = true;
                        },
                        None => {
                            self.backup = String::new();
                            self.backup_read = false;
                        },
                    }
                    self.phase = InjectPhase::WriteClipboard;
                }
            },
            InjectPhase::WriteClipboard => {
                if let InjectEvent::ClipboardWritten(ok) = ev {
                    self.phase = if ok {
                        InjectPhase::Paste
                    } else {
                        InjectPhase::Finished(Err(InjectError::ClipboardWriteFailed))
                    };
                }
            },
            InjectPhase::Paste => {
                if let InjectEvent::Pasted(ok) = ev {
                    self.phase = if ok {
                        InjectPhase::RestoreClipboard
                    } else {
                        InjectPhase::Finished(Err(InjectError::ClipboardWriteFailed))
                    };
                }
            },
            InjectPhase::RestoreClipboard => {
                if let InjectEvent::Restored = ev {
                    self.phase = if self.commit {
                        InjectPhase::ClickSend
                    } else {
                        InjectPhase::Finished(Ok(()))
                    };
                }
            },
            InjectPhase::ClickSend => {
                if let InjectEvent::SendClicked = ev {
                    self.phase = InjectPhase::Finished(Ok(()));
                }
            },
            InjectPhase::Finished(_) => {},
        }
        proof {
            assert(self@ == next_spec(old(self)@, ev0));
        }
        self.pending()
    }
}

/// The clipboard after the work `a` is carried out: the injection writes to
/// it only to put the text there and to restore the saved content.
pub open spec fn clipboard_after(clip: Seq<char>, a: InjectActionView) -> Seq<char> {
    match a {
        InjectActionView::WriteClipboard(t) => t,
        InjectActionView::RestoreClipboard(t) => t,
        _ => clip,
    }
}

/// An injection fed the outcomes `evs` in turn, each piece of work it asks
/// for being carried out: its final state and the clipboard's final content.
pub open spec fn run(s: InjectorView, clip: Seq<char>, evs: Seq<InjectEvent>) -> (
    InjectorView,
    Seq<char>,
)
    decreases evs.len(),
{
    if evs.len() == 0 {
        (s, clip)
    } else {
        let s2 = next_spec(s, evs[0]);
        run(s2, clipboard_after(clip, pending_spec(s2)), evs.drop_first())
    }
}

/// Every clipboard read reports `c0`, the content before the injection.
pub open spec fn reads_report(evs: Seq<InjectEvent>, c0: Seq<char>) -> bool {
    forall|i: int|
        0 <= i < evs.len() ==> match #[trigger] evs[i] {
            InjectEvent::ClipboardRead(Some(x)) => x@ == c0,
            _ => true,
        }
}

/// The injection has not touched the clipboard yet.
pub open spec fn before_clipboard(p: InjectPhase) -> bool {
    match p {
        InjectPhase::FindSendControl | InjectPhase::FindInputBox | InjectPhase::CheckFocus
        | InjectPhase::ClickInputBox | InjectPhase::ReadClipboard => true,
        InjectPhase::Finished(Err(e)) => e != InjectError::ClipboardWriteFailed,
        _ => false,
    }
}

spec fn clipboard_inv(s: InjectorView, clip: Seq<char>, c0: Seq<char>) -> bool {
    &&& before_clipboard(s.phase) ==> clip == c0 && !s.backup_read
    &&& s.backup_read ==> s.backup == c0
    &&& (s.phase is RestoreClipboard || s.phase is ClickSend || s.phase == InjectPhase::Finished(
        Ok(()),
    )) ==> clip == s.backup
}

proof fn lemma_run_keeps_inv(s: InjectorView, clip: Seq<char>, c0: Seq<char>, evs: Seq<InjectEvent>)
    requires
        clipboard_inv(s, clip, c0),
        reads_report(evs, c0),
    ensures
        clipboard_inv(run(s, clip, evs).0, run(s, clip, evs).1, c0),
    decreases evs.len(),
{
    if evs.len() > 0 {
        let s2 = next_spec(s, evs[0]);
        let clip2 = clipboard_after(clip, pending_spec(s2));
        assert(match evs[0] {
            InjectEvent::ClipboardRead(Some(x)) => x@ == c0,
            _ => true,
        });
        assert(clipboard_inv(s2, clip2, c0));
        let rest = evs.drop_first();
        assert forall|i: int| 0 <= i < rest.len() implies match #[trigger] rest[i] {
            InjectEvent::ClipboardRead(Some(x)) => x@ == c0,
            _ => true,
        } by {
            assert(rest[i] == evs[i + 1]);
        }
        lemma_run_keeps_inv(s2, clip2, c0, rest);
    }
}

/// Clipboard round trip: whatever outcomes an injection is fed, when it
/// succeeds after reading the clipboard, the clipboard ends holding what it
/// held before; when it fails before writing (no send button, no input box,
/// no focus), the clipboard is never touched.
pub proof fn injection_restores_clipboard(
    text: Seq<char>,
    commit: bool,
    c0: Seq<char>,
    evs: Seq<InjectEvent>,
)
    requires
        reads_report(evs, c0),
    ensures
        ({
            let (s, clip) = run(start_spec(text, commit), c0, evs);
            &&& s.phase == InjectPhase::Finished(Ok(())) && s.backup_read ==> clip == c0
            &&& before_clipboard(s.phase) ==> clip == c0
        }),
{
    lemma_run_keeps_inv(start_spec(text, commit), c0, c0, evs);
}

} // verus!
