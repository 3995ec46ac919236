use elegant_departure::tokio::{depart, Condition, Departure, SignalKind};

fn is_send<T: Send>(_: T) {}

#[test]
fn ensure_send() {
    is_send(depart())
}

fn conditions(d: &Departure) -> Vec<Condition> {
    d.conditions().clone()
}

#[test]
fn fresh_departure_waits_only_for_shutdown_completion() {
    let d = depart();
    assert_eq!(conditions(&d), vec![Condition::ShutdownComplete]);
    assert!(!d.can_depart());
}

#[test]
fn on_termination_adds_ctrl_c_and_sigterm() {
    let d = depart().on_termination();
    assert_eq!(
        conditions(&d),
        vec![
            Condition::ShutdownComplete,
            Condition::CtrlC,
            Condition::Signal(SignalKind::from_raw(15)),
        ]
    );
    assert!(d.can_depart());
    let e = depart().on_ctrl_c().on_sigterm();
    assert_eq!(conditions(&d), conditions(&e));
}

#[test]
fn builders_append_in_order() {
    let d = depart()
        .on_ctrl_c()
        .on_sigint()
        .on_signal(SignalKind::from_raw(10))
        .on_completion()
        .on_sigterm();
    assert_eq!(
        d.into_conditions(),
        vec![
            Condition::ShutdownComplete,
            Condition::CtrlC,
            Condition::Signal(SignalKind::from_raw(2)),
            Condition::Signal(SignalKind::from_raw(10)),
            Condition::Completion,
            Condition::Signal(SignalKind::from_raw(15)),
        ]
    );
}

#[test]
fn each_builder_alone_arms_the_departure() {
    assert!(depart().on_ctrl_c().can_depart());
    assert!(depart().on_sigint().can_depart());
    assert!(depart().on_sigterm().can_depart());
    assert!(depart().on_completion().can_depart());
    assert!(depart().on_signal(SignalKind::interrupt()).can_depart());
}

#[test]
fn named_signals_match_tokio() {
    assert_eq!(
        SignalKind::interrupt().as_raw_value(),
        tokio::signal::unix::SignalKind::interrupt().as_raw_value()
    );
    assert_eq!(
        SignalKind::terminate().as_raw_value(),
        tokio::signal::unix::SignalKind::terminate().as_raw_value()
    );
    assert_eq!(SignalKind::interrupt().as_raw_value(), 2);
    assert_eq!(SignalKind::terminate().as_raw_value(), 15);
    assert_eq!(
        conditions(&depart().on_sigint()),
        conditions(&depart().on_signal(SignalKind::interrupt()))
    );
}
