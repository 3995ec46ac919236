use elegant_departure::registry::{Registry, WaitStep};
use elegant_departure::signal::Signal;
use elegant_departure::{get_shutdown_guard, shutdown, wait_for_shutdown_complete};

#[test]
fn signal_raises_once_and_cancels_its_token() {
    let mut s = Signal::new();
    let handle = s.handle();
    assert!(!s.is_set());
    assert!(!handle.is_cancelled());
    s.set();
    assert!(s.is_set());
    assert!(handle.is_cancelled());
    s.set();
    assert!(s.is_set());
    assert!(!Signal::default().is_set());
    assert_eq!(s.debug_text(), "Signal { is_set: true }");
    assert_eq!(Signal::new().debug_text(), "Signal { is_set: false }");
}

#[test]
fn shutdown_waits_for_live_guards_only() {
    let mut r = Registry::new();
    let g1 = get_shutdown_guard(&mut r);
    let mut g2 = get_shutdown_guard(&mut r);
    g2.cancel(&mut r);
    let mut waiter = wait_for_shutdown_complete(&r);
    assert!(matches!(r.wait_step(&mut waiter), WaitStep::Shutdown));
    assert!(!r.is_complete());

    let mut waiter2 = shutdown(&mut r);
    assert!(r.is_shutdown());
    assert!(r.shutdown_handle().is_cancelled());
    assert!(matches!(r.wait_step(&mut waiter), WaitStep::Departure(0)));
    assert!(matches!(r.wait_step(&mut waiter2), WaitStep::Departure(0)));
    assert!(!r.is_complete());

    let handle = r.departure_handle(g1.id());
    assert!(!handle.is_cancelled());
    g1.release(&mut r);
    assert!(handle.is_cancelled());
    assert!(r.is_complete());
    assert!(matches!(r.wait_step(&mut waiter), WaitStep::Complete));
    assert_eq!(waiter.current(), 2);
    assert!(matches!(r.wait_step(&mut waiter2), WaitStep::Complete));
}

#[test]
fn guard_created_while_waiting_is_waited_for() {
    let mut r = Registry::new();
    let mut waiter = shutdown(&mut r);
    assert!(matches!(r.wait_step(&mut waiter), WaitStep::Complete));
    assert!(r.is_complete());
    let g = r.create_guard();
    assert_eq!(g.id(), 0);
    assert!(!r.is_complete());
    assert!(matches!(r.wait_step(&mut waiter), WaitStep::Departure(0)));
    g.release(&mut r);
    assert!(matches!(r.wait_step(&mut waiter), WaitStep::Complete));
}

#[test]
fn cancelled_guard_does_not_initiate_shutdown() {
    let mut r = Registry::new();
    let mut g = get_shutdown_guard(&mut r).shutdown_on_drop();
    assert!(g.is_shutdown_on_drop());
    g.cancel(&mut r);
    assert!(!g.is_shutdown_on_drop());
    assert!(r.has_departed(0));
    assert!(g.is_cancelled());
    g.cancel(&mut r);
    let g = g.shutdown_on_drop();
    assert!(!g.is_shutdown_on_drop());
    g.release(&mut r);
    assert!(!r.is_shutdown());
    assert!(!r.is_complete());
}

#[test]
fn guard_belongs_to_its_registry_only() {
    let mut a = Registry::new();
    let mut b = Registry::new();
    let g = get_shutdown_guard(&mut a);
    let h = get_shutdown_guard(&mut b);
    assert!(g.belongs_to(&a));
    assert!(!g.belongs_to(&b));
    assert!(h.belongs_to(&b));
    let earlier = a.reset();
    assert!(!g.belongs_to(&a));
    assert!(g.belongs_to(&earlier));
    h.release(&mut b);
}

#[test]
fn guard_wait_handle_is_the_shutdown_token() {
    let mut r = Registry::new();
    let g = get_shutdown_guard(&mut r);
    let t = g.wait_handle();
    assert!(!t.is_cancelled());
    let _ = shutdown(&mut r);
    assert!(t.is_cancelled());
    assert_eq!(
        g.debug_text(&r),
        "ShutdownGuard { in_shutdown: true, cancelled: false }"
    );
    let mut g = g;
    g.cancel(&mut r);
    assert_eq!(
        g.debug_text(&r),
        "ShutdownGuard { in_shutdown: true, cancelled: true }"
    );
}

#[test]
fn guard_count_never_shrinks() {
    let mut r = Registry::new();
    let g0 = get_shutdown_guard(&mut r);
    let mut g1 = get_shutdown_guard(&mut r);
    g0.release(&mut r);
    g1.cancel(&mut r);
    let _ = shutdown(&mut r);
    assert_eq!(r.guard_count(), 2);
    let _g2 = get_shutdown_guard(&mut r);
    assert_eq!(r.guard_count(), 3);
}

#[test]
fn marked_guard_initiates_shutdown_on_release() {
    let mut r = Registry::new();
    let g = get_shutdown_guard(&mut r).shutdown_on_drop();
    let other = get_shutdown_guard(&mut r);
    g.release(&mut r);
    assert!(r.is_shutdown());
    assert!(!r.is_complete());
    assert!(!r.has_departed(1));
    other.release(&mut r);
    assert!(r.is_complete());
}

#[test]
fn plain_guard_release_does_not_initiate_shutdown() {
    let mut r = Registry::new();
    let g = get_shutdown_guard(&mut r);
    g.release(&mut r);
    assert!(!r.is_shutdown());
    assert!(r.has_departed(0));
}

#[test]
fn reset_forgets_everything() {
    let mut r = Registry::new();
    let _g = get_shutdown_guard(&mut r);
    let _ = shutdown(&mut r);
    let earlier = r.reset();
    assert!(!r.is_shutdown());
    assert_eq!(r.guard_count(), 0);
    assert!(earlier.is_shutdown());
    assert_eq!(earlier.guard_count(), 1);
}

#[test]
fn waiters_and_guards_follow_the_state_they_were_made_in() {
    let mut r = Registry::new();
    let g = get_shutdown_guard(&mut r);
    let mut waiter = wait_for_shutdown_complete(&r);
    let mut earlier = r.reset();
    assert!(!waiter.belongs_to(&r));
    assert!(waiter.belongs_to(&earlier));
    assert!(!g.belongs_to(&r));
    // a shutdown of the fresh registry does not reach the earlier guard or waiter
    let _ = shutdown(&mut r);
    assert!(r.is_complete());
    assert!(!g.wait_handle().is_cancelled());
    assert!(matches!(earlier.wait_step(&mut waiter), WaitStep::Shutdown));
    // the earlier state goes on: its shutdown waits for the held guard
    let _ = shutdown(&mut earlier);
    assert!(g.wait_handle().is_cancelled());
    assert!(matches!(earlier.wait_step(&mut waiter), WaitStep::Departure(0)));
    g.release(&mut earlier);
    assert!(matches!(earlier.wait_step(&mut waiter), WaitStep::Complete));
}
