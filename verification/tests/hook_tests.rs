use snippet_ai::hook::{
    dispatch_message, end_monitoring, HookAction, MonitorState, ProcDecision, CF_TEXT,
    CF_UNICODETEXT, WM_CLIPBOARDUPDATE,
};

#[test]
fn format_numbers_match_the_platform() {
    assert_eq!(CF_TEXT, 1);
    assert_eq!(CF_UNICODETEXT, 13);
    assert_eq!(WM_CLIPBOARDUPDATE, 0x031D);
}

#[test]
fn idle_state_is_empty() {
    let s = MonitorState::idle();
    assert!(!s.window_attached);
    assert_eq!(s.target_hwnd, None);
    assert_eq!(s.original_proc, None);
}

#[test]
fn attach_and_detach_window() {
    let mut s = MonitorState::idle();
    s.attach_window();
    assert!(s.window_attached);
    s.detach_window();
    assert!(!s.window_attached);
}

#[test]
fn begin_monitoring_hooks_in_order() {
    let mut s = MonitorState::idle();
    let actions = s.begin_monitoring(0x1000, 0x2000);
    assert_eq!(
        actions,
        vec![
            HookAction::StoreUserData { hwnd: 0x1000, value: 0x2000 },
            HookAction::InstallHookProc { hwnd: 0x1000 },
            HookAction::AddListener { hwnd: 0x1000 },
        ]
    );
    assert_eq!(s.target_hwnd, Some(0x1000));
    assert_eq!(s.original_proc, Some(0x2000));
}

#[test]
fn end_monitoring_restores_stashed_proc() {
    let actions = end_monitoring(0x1000, 0x2000);
    assert_eq!(
        actions,
        vec![
            HookAction::RemoveListener { hwnd: 0x1000 },
            HookAction::RestoreProc { hwnd: 0x1000, proc_ptr: 0x2000 },
            HookAction::StoreUserData { hwnd: 0x1000, value: 0 },
        ]
    );
}

#[test]
fn end_monitoring_without_stash_only_unlistens() {
    let actions = end_monitoring(0x1000, 0);
    assert_eq!(actions, vec![HookAction::RemoveListener { hwnd: 0x1000 }]);
}

#[test]
fn cleanup_reverts_hook_and_exits() {
    let mut s = MonitorState::idle();
    s.attach_window();
    let _ = s.begin_monitoring(0x1000, 0x2000);
    let actions = s.cleanup_plan();
    assert_eq!(
        actions,
        vec![
            HookAction::RestoreProc { hwnd: 0x1000, proc_ptr: 0x2000 },
            HookAction::StoreUserData { hwnd: 0x1000, value: 0 },
            HookAction::RemoveListener { hwnd: 0x1000 },
            HookAction::KillOtherInstances,
            HookAction::ExitProcess,
        ]
    );
    assert_eq!(s, MonitorState::idle());
}

#[test]
fn cleanup_without_hook_still_exits() {
    let mut s = MonitorState::idle();
    let actions = s.cleanup_plan();
    assert_eq!(actions, vec![HookAction::KillOtherInstances, HookAction::ExitProcess]);
    assert_eq!(s, MonitorState::idle());
}

#[test]
fn emergency_plan_unhooks_only() {
    let mut s = MonitorState::idle();
    let _ = s.begin_monitoring(0x1000, 0x2000);
    let actions = s.emergency_plan();
    assert_eq!(
        actions,
        vec![
            HookAction::RemoveListener { hwnd: 0x1000 },
            HookAction::RestoreProc { hwnd: 0x1000, proc_ptr: 0x2000 },
        ]
    );
    // The emergency path leaves the recorded state alone.
    assert_eq!(s.target_hwnd, Some(0x1000));
}

#[test]
fn emergency_plan_idle_does_nothing() {
    let s = MonitorState::idle();
    assert_eq!(s.emergency_plan(), Vec::<HookAction>::new());
}

#[test]
fn clipboard_update_message_is_handled() {
    assert_eq!(dispatch_message(WM_CLIPBOARDUPDATE, Some(0x2000)), ProcDecision::HandleUpdate);
    assert_eq!(dispatch_message(WM_CLIPBOARDUPDATE, None), ProcDecision::HandleUpdate);
}

#[test]
fn other_messages_are_forwarded() {
    assert_eq!(
        dispatch_message(0x0001, Some(0x2000)),
        ProcDecision::CallOriginal { proc_ptr: 0x2000 }
    );
    assert_eq!(dispatch_message(0x0001, None), ProcDecision::CallDefault);
}
