//! Window-procedure hook lifecycle.
//!
//! The monitor intercepts a window's message procedure to observe clipboard
//! update notifications. This module decides, from plain values, which hook
//! steps to take when monitoring starts and stops, how an incoming window
//! message is dispatched, and what teardown must run on shutdown so that the
//! hooked window is always handed back in its original state. The caller
//! performs each returned [`HookAction`] through the operating system.

use vstd::prelude::*;

verus! {

/// Window message number announcing that the clipboard contents changed.
pub const WM_CLIPBOARDUPDATE: u32 = 0x031D;

/// Clipboard format number for ANSI text.
pub const CF_TEXT: u32 = 1;

/// Clipboard format number for UTF-16 text.
pub const CF_UNICODETEXT: u32 = 13;

/// One step of hook installation or teardown, to be performed by the caller
/// through the operating system.
#[derive(Clone, Copy, Debug, PartialEq, Eq, Structural)]
pub enum HookAction {
    /// Write `value` into the window's user-data slot.
    StoreUserData { hwnd: usize, value: isize },
    /// Replace the window procedure of `hwnd` with the monitor's hook.
    InstallHookProc { hwnd: usize },
    /// Put the window procedure `proc_ptr` back in place on `hwnd`.
    RestoreProc { hwnd: usize, proc_ptr: isize },
    /// Register `hwnd` for clipboard-change notifications.
    AddListener { hwnd: usize },
    /// Unregister `hwnd` from clipboard-change notifications.
    RemoveListener { hwnd: usize },
    /// Terminate every other running instance of this executable.
    KillOtherInstances,
    /// End the current process.
    ExitProcess,
}

/// What the monitor remembers about the window it has hooked.
#[derive(Clone, Copy, Debug, PartialEq, Eq)]
pub struct MonitorState {
    /// Whether a UI window is attached as the event sink.
    pub window_attached: bool,
    /// Raw handle of the hooked window, once monitoring has started.
    pub target_hwnd: Option<usize>,
    /// Window procedure that was in place before the hook was installed.
    pub original_proc: Option<isize>,
}

impl MonitorState {
    /// The state before any window is attached or hooked.
    pub fn idle() -> (s: MonitorState)
        ensures
            s == (MonitorState { window_attached: false, target_hwnd: None, original_proc: None }),
    {
        MonitorState { window_attached: false, target_hwnd: None, original_proc: None }
    }

    /// Record that a UI window is now attached as the event sink.
    pub fn attach_window(&mut self)
        ensures
            *final(self) == (MonitorState { window_attached: true, ..*old(self) }),
    {
        self.window_attached = true;
    }

    /// Record that no UI window is attached any more.
    pub fn detach_window(&mut self)
        ensures
            *final(self) == (MonitorState { window_attached: false, ..*old(self) }),
    {
        self.window_attached = false;
    }

    /// Start monitoring the window `hwnd`, whose current window procedure is
    /// `original_proc`: remember both, and have the caller stash the original
    /// procedure in the window's user-data slot, install the hook procedure,
    /// and register the clipboard listener, in that order.
    pub fn begin_monitoring(&mut self, hwnd: usize, original_proc: isize) -> (actions: Vec<
        HookAction,
    >)
        ensures
            *final(self) == (MonitorState {
                window_attached: old(self).window_attached,
                target_hwnd: Some(hwnd),
                original_proc: Some(original_proc),
            }),
            actions@ =~= seq![
                HookAction::StoreUserData { hwnd, value: original_proc },
                HookAction::InstallHookProc { hwnd },
                HookAction::AddListener { hwnd },
            ],
    {
        self.target_hwnd = Some(hwnd);
        self.original_proc = Some(original_proc);
        let actions: Vec<HookAction> = vec![
            HookAction::StoreUserData { hwnd, value: original_proc },
            HookAction::InstallHookProc { hwnd },
            HookAction::AddListener { hwnd },
        ];
        actions
    }

    /// Full teardown: revert the hooked window if one is recorded, forget all
    /// monitor state, terminate duplicate instances, and end the process.
    pub fn cleanup_plan(&mut self) -> (actions: Vec<HookAction>)
        ensures
            *final(self) == (MonitorState {
                window_attached: false,
                target_hwnd: None,
                original_proc: None,
            }),
            match (old(self).target_hwnd, old(self).original_proc) {
                (Some(h), Some(p)) => actions@ =~= seq![
                    HookAction::RestoreProc { hwnd: h, proc_ptr: p },
                    HookAction::StoreUserData { hwnd: h, value: 0 },
                    HookAction::RemoveListener { hwnd: h },
                    HookAction::KillOtherInstances,
                    HookAction::ExitProcess,
                ],
                _ => actions@ =~= seq![HookAction::KillOtherInstances, HookAction::ExitProcess],
            },
    {
        let mut actions: Vec<HookAction> = Vec::new();
        match (self.target_hwnd, self.original_proc) {
            (Some(h), Some(p)) => {
                actions.push(HookAction::RestoreProc { hwnd: h, proc_ptr: p });
                actions.push(HookAction::StoreUserData { hwnd: h, value: 0 });
                actions.push(HookAction::RemoveListener { hwnd: h });
            },
            _ => {},
        }
        actions.push(HookAction::KillOtherInstances);
        actions.push(HookAction::ExitProcess);
        self.window_attached = false;
        self.target_hwnd = None;
        self.original_proc = None;
        actions
    }

    /// Emergency teardown for an exit handler: unhook the window if one is
    /// recorded, touching nothing else. The listener is removed before the
    /// procedure is restored, so no further update message can reach a hook
    /// that is about to disappear.
    pub fn emergency_plan(&self) -> (actions: Vec<HookAction>)
        ensures
            match (self.target_hwnd, self.original_proc) {
                (Some(h), Some(p)) => actions@ =~= seq![
                    HookAction::RemoveListener { hwnd: h },
                    HookAction::RestoreProc { hwnd: h, proc_ptr: p },
                ],
                _ => actions@.len() == 0,
            },
    {
        let mut actions: Vec<HookAction> = Vec::new();
        match (self.target_hwnd, self.original_proc) {
            (Some(h), Some(p)) => {
                actions.push(HookAction::RemoveListener { hwnd: h });
                actions.push(HookAction::RestoreProc { hwnd: h, proc_ptr: p });
            },
            _ => {},
        }
        actions
    }
}

/// Stop monitoring the window `hwnd`. `stored_user_data` is the value the
/// caller read back from the window's user-data slot; a non-zero value is the
/// original window procedure stashed there when monitoring began, and is put
/// back in place.
pub fn end_monitoring(hwnd: usize, stored_user_data: isize) -> (actions: Vec<HookAction>)
    ensures
        stored_user_data != 0 ==> actions@ =~= seq![
            HookAction::RemoveListener { hwnd },
            HookAction::RestoreProc { hwnd, proc_ptr: stored_user_data },
            HookAction::StoreUserData { hwnd, value: 0 },
        ],
        stored_user_data == 0 ==> actions@ =~= seq![HookAction::RemoveListener { hwnd }],
{
    let mut actions: Vec<HookAction> = Vec::new();
    actions.push(HookAction::RemoveListener { hwnd });
    if stored_user_data != 0 {
        actions.push(HookAction::RestoreProc { hwnd, proc_ptr: stored_user_data });
        actions.push(HookAction::StoreUserData { hwnd, value: 0 });
    }
    actions
}

/// How the hook procedure answers one window message.
#[derive(Clone, Copy, Debug, PartialEq, Eq, Structural)]
pub enum ProcDecision {
    /// The message is a clipboard update: handle it and answer zero.
    HandleUpdate,
    /// Forward the message to the original window procedure `proc_ptr`.
    CallOriginal { proc_ptr: isize },
    /// No original procedure is known: forward to the default procedure.
    CallDefault,
}

/// Dispatch one window message inside the hook procedure: a clipboard-update
/// message is handled by the monitor, every other message is forwarded to the
/// original window procedure when one is known, else to the default one.
pub fn dispatch_message(msg: u32, original_proc: Option<isize>) -> (d: ProcDecision)
    ensures
        msg == WM_CLIPBOARDUPDATE ==> d == ProcDecision::HandleUpdate,
        msg != WM_CLIPBOARDUPDATE ==> match original_proc {
            Some(p) => d == (ProcDecision::CallOriginal { proc_ptr: p }),
            None => d == ProcDecision::CallDefault,
        },
{
    if msg == WM_CLIPBOARDUPDATE {
        ProcDecision::HandleUpdate
    } else {
        match original_proc {
            Some(p) => ProcDecision::CallOriginal { proc_ptr: p },
            None => ProcDecision::CallDefault,
        }
    }
}

} // verus!
