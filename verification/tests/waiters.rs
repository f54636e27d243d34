use vnidrop_share::focus::FocusPhase;
use vnidrop_share::waiters::{begin_focus_wait, WaiterRegistry};
use vnidrop_share::Error;

#[test]
fn begin_wait_while_pending_is_busy_and_first_still_resolves() {
    let mut reg = WaiterRegistry::new();
    let label = String::from("main");

    let first = begin_focus_wait(&mut reg, &label).unwrap();
    assert!(first.install_listener);

    let second = begin_focus_wait(&mut reg, &label);
    assert!(matches!(second, Err(Error::Busy)));

    // The first wait still resolves normally on a later loss and regain.
    reg.handle_focus_event(&label, false);
    assert_eq!(reg.entries[0].state.phase, FocusPhase::WaitingForRegain);
    reg.handle_focus_event(&label, true);
    assert_eq!(reg.entries[0].state.phase, FocusPhase::Completed);
    assert!(reg.entries[0].pending.is_none());

    // The signal was sent, so the blocking wait returns at once.
    let window = first.wait();
    assert_eq!(window, label);
    reg.finish_wait(&window);
    assert!(reg.entries[0].pending.is_none());
}

#[test]
fn begin_wait_installs_listener_once_per_window() {
    let mut reg = WaiterRegistry::new();
    let label = String::from("main");

    let first = begin_focus_wait(&mut reg, &label).unwrap();
    assert!(first.install_listener);
    let window = first.wait_with_timeout_ms(10);
    reg.finish_wait(&window);

    let again = begin_focus_wait(&mut reg, &label).unwrap();
    assert!(!again.install_listener);
    again.cancel(&mut reg);
}

#[test]
fn wait_returns_without_any_signal() {
    let mut reg = WaiterRegistry::new();
    let label = String::from("main");

    let handle = begin_focus_wait(&mut reg, &label).unwrap();
    // No focus event and no grace timer ever fires: the wait still returns
    // once its timeout elapses.
    let window = handle.wait_with_timeout_ms(50);
    assert_eq!(window, label);
    reg.finish_wait(&window);
    assert!(reg.entries[0].pending.is_none());
    assert_eq!(reg.entries[0].state.phase, FocusPhase::Completed);
}

#[test]
fn cancel_clears_pending_and_frees_the_window() {
    let mut reg = WaiterRegistry::new();
    let label = String::from("main");

    let handle = begin_focus_wait(&mut reg, &label).unwrap();
    handle.cancel(&mut reg);
    assert!(reg.entries[0].pending.is_none());
    assert_eq!(reg.entries[0].state.phase, FocusPhase::Completed);

    // A fresh wait can begin right away.
    let handle = begin_focus_wait(&mut reg, &label).unwrap();
    handle.cancel(&mut reg);
}

#[test]
fn destroyed_window_completes_and_leaves_the_registry() {
    let mut reg = WaiterRegistry::new();
    let label = String::from("doomed");

    let handle = begin_focus_wait(&mut reg, &label).unwrap();
    assert_eq!(reg.entries.len(), 1);
    reg.handle_destroyed(&label);
    assert_eq!(reg.entries.len(), 0);

    // The completion signal was sent before the waiter was dropped.
    let window = handle.wait();
    assert_eq!(window, label);
    reg.finish_wait(&window);
}

#[test]
fn grace_completes_only_before_focus_loss() {
    let mut reg = WaiterRegistry::new();
    let label = String::from("main");

    // Grace elapsing with no focus loss force-completes the wait.
    let handle = begin_focus_wait(&mut reg, &label).unwrap();
    reg.handle_grace_elapsed(&label);
    assert_eq!(reg.entries[0].state.phase, FocusPhase::Completed);
    assert!(reg.entries[0].pending.is_none());
    let window = handle.wait();
    reg.finish_wait(&window);

    // After a focus loss, grace elapsing changes nothing.
    let handle = begin_focus_wait(&mut reg, &label).unwrap();
    reg.handle_focus_event(&label, false);
    reg.handle_grace_elapsed(&label);
    assert_eq!(reg.entries[0].state.phase, FocusPhase::WaitingForRegain);
    assert!(reg.entries[0].pending.is_some());
    handle.cancel(&mut reg);
}

#[test]
fn registries_keep_one_waiter_per_window() {
    let mut reg = WaiterRegistry::new();
    let a = String::from("a");
    let b = String::from("b");

    let ha = begin_focus_wait(&mut reg, &a).unwrap();
    let hb = begin_focus_wait(&mut reg, &b).unwrap();
    assert_eq!(reg.entries.len(), 2);

    // Completing one window's wait leaves the other pending.
    reg.handle_focus_event(&a, false);
    reg.handle_focus_event(&a, true);
    assert!(reg.entries[0].pending.is_none());
    assert!(reg.entries[1].pending.is_some());

    let wa = ha.wait();
    reg.finish_wait(&wa);
    hb.cancel(&mut reg);
}

#[test]
fn events_for_unknown_windows_are_no_ops() {
    let mut reg = WaiterRegistry::new();
    let label = String::from("absent");
    reg.handle_focus_event(&label, false);
    reg.handle_grace_elapsed(&label);
    reg.handle_destroyed(&label);
    reg.finish_wait(&label);
    assert_eq!(reg.entries.len(), 0);
}

#[test]
fn remove_focus_waiter_prunes_the_entry() {
    let mut reg = WaiterRegistry::new();
    let label = String::from("main");
    let handle = begin_focus_wait(&mut reg, &label).unwrap();
    handle.cancel(&mut reg);
    assert_eq!(reg.entries.len(), 1);
    reg.remove_focus_waiter(&label);
    assert_eq!(reg.entries.len(), 0);
}
