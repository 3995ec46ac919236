//! The conditions on which a shutdown is initiated automatically.
//!
//! [`depart`] starts a [`Departure`] builder; each builder method adds a condition. A
//! departure completes as soon as one of its conditions is met, and then initiates the
//! shutdown and waits for its completion. Every departure also holds the condition that
//! a shutdown initiated elsewhere has completed.

use vstd::prelude::*;

verus! {

/// `tokio::signal::unix::SignalKind::interrupt`, read back as its signal number. The
/// contract states the value that libc defines for `SIGINT` (2).
#[verifier::external_body]
fn interrupt_signum() -> (signum: i32)
    ensures
        signum == 2,
{
    ::tokio::signal::unix::SignalKind::interrupt().as_raw_value()
}

/// `tokio::signal::unix::SignalKind::terminate`, read back as its signal number. The
/// contract states the value that libc defines for `SIGTERM` (15).
#[verifier::external_body]
fn terminate_signum() -> (signum: i32)
    ensures
        signum == 15,
{
    ::tokio::signal::unix::SignalKind::terminate().as_raw_value()
}

/// A unix signal, by its number.
#[derive(Clone, Copy, Debug, PartialEq, Eq)]
pub struct SignalKind {
    signum: i32,
}

impl SignalKind {
    /// The signal with number `signum`.
    pub closed spec fn of(signum: i32) -> SignalKind {
        SignalKind { signum }
    }

    /// The signal's number.
    pub closed spec fn number(self) -> i32 {
        self.signum
    }

    /// A signal is its number: `of` and `number` undo each other.
    pub proof fn lemma_number(signum: i32, k: SignalKind)
        ensures
            SignalKind::of(signum).number() == signum,
            SignalKind::of(k.number()) == k,
    {
    }

    /// The signal with number `signum`.
    pub fn from_raw(signum: i32) -> (k: SignalKind)
        ensures
            k == SignalKind::of(signum),
            k.number() == signum,
    {
        SignalKind { signum }
    }

    /// The signal's number.
    pub fn as_raw_value(&self) -> (signum: i32)
        ensures
            signum == self.number(),
    {
        self.signum
    }

    /// `SIGINT`.
    pub fn interrupt() -> (k: SignalKind)
        ensures
            k == SignalKind::of(2),
            k.number() == 2,
    {
        SignalKind { signum: interrupt_signum() }
    }

    /// `SIGTERM`.
    pub fn terminate() -> (k: SignalKind)
        ensures
            k == SignalKind::of(15),
            k.number() == 15,
    {
        SignalKind { signum: terminate_signum() }
    }
}

/// One condition on which a departure completes.
#[derive(Clone, Copy, Debug, PartialEq, Eq)]
pub enum Condition {
    /// A shutdown, initiated by anyone, has completed.
    ShutdownComplete,
    /// `Ctrl+C` was pressed.
    CtrlC,
    /// The process received this signal.
    Signal(SignalKind),
    /// A future given by the caller completed; the `n`-th such condition stands for the
    /// `n`-th future given.
    Completion,
}

/// The conditions of a fresh departure.
pub open spec fn initial_conditions() -> Seq<Condition> {
    seq![Condition::ShutdownComplete]
}

/// The conditions after `on_ctrl_c`.
pub open spec fn with_ctrl_c(c: Seq<Condition>) -> Seq<Condition> {
    c.push(Condition::CtrlC)
}

/// The conditions after `on_signal(signal)`.
pub open spec fn with_signal(c: Seq<Condition>, signal: SignalKind) -> Seq<Condition> {
    c.push(Condition::Signal(signal))
}

/// The conditions after `on_sigint`.
pub open spec fn with_sigint(c: Seq<Condition>) -> Seq<Condition> {
    c.push(Condition::Signal(SignalKind::of(2)))
}

/// The conditions after `on_sigterm`.
pub open spec fn with_sigterm(c: Seq<Condition>) -> Seq<Condition> {
    c.push(Condition::Signal(SignalKind::of(15)))
}

/// The conditions after `on_termination`: `Ctrl+C` and `SIGTERM`.
pub open spec fn with_termination(c: Seq<Condition>) -> Seq<Condition> {
    c.push(Condition::CtrlC).push(Condition::Signal(SignalKind::of(15)))
}

/// The conditions after `on_completion`.
pub open spec fn with_completion(c: Seq<Condition>) -> Seq<Condition> {
    c.push(Condition::Completion)
}

/// A departure may be awaited: a condition was added beyond the initial one.
pub open spec fn can_depart(c: Seq<Condition>) -> bool {
    c.len() > 1
}

/// `on_termination` adds the same conditions as `on_ctrl_c` followed by `on_sigterm`.
pub proof fn lemma_termination_is_ctrl_c_then_sigterm(c: Seq<Condition>)
    ensures
        with_termination(c) == with_sigterm(with_ctrl_c(c)),
{
}

/// `on_sigint` and `on_sigterm` add what `on_signal` adds for `SIGINT` and `SIGTERM`.
pub proof fn lemma_named_signals_are_signals(c: Seq<Condition>)
    ensures
        with_sigint(c) == with_signal(c, SignalKind::of(2)),
        with_sigterm(c) == with_signal(c, SignalKind::of(15)),
{
}

/// A fresh departure may not be awaited; after any builder method it may, and the
/// builder methods keep the conditions already added, in order, in front.
pub proof fn lemma_builders_arm_and_keep(c: Seq<Condition>, signal: SignalKind)
    requires
        c.len() >= 1,
    ensures
        !can_depart(initial_conditions()),
        can_depart(with_ctrl_c(c)) && with_ctrl_c(c).take(c.len() as int) == c,
        can_depart(with_signal(c, signal)) && with_signal(c, signal).take(c.len() as int) == c,
        can_depart(with_sigint(c)) && with_sigint(c).take(c.len() as int) == c,
        can_depart(with_sigterm(c)) && with_sigterm(c).take(c.len() as int) == c,
        can_depart(with_termination(c)) && with_termination(c).take(c.len() as int) == c,
        can_depart(with_completion(c)) && with_completion(c).take(c.len() as int) == c,
{
    assert(with_ctrl_c(c).take(c.len() as int) =~= c);
    assert(with_signal(c, signal).take(c.len() as int) =~= c);
    assert(with_sigint(c).take(c.len() as int) =~= c);
    assert(with_sigterm(c).take(c.len() as int) =~= c);
    assert(with_termination(c).take(c.len() as int) =~= c);
    assert(with_completion(c).take(c.len() as int) =~= c);
}

/// What each builder method adds: exactly its conditions, at the end, after the
/// conditions already there. `on_signal` adds the very signal it is given;
/// `on_sigint` adds signal number 2 and `on_sigterm` signal number 15;
/// `on_termination` adds `Ctrl+C` and then signal number 15.
pub proof fn lemma_builders_add_their_conditions(c: Seq<Condition>, signal: SignalKind)
    ensures
        with_ctrl_c(c).len() == c.len() + 1 && with_ctrl_c(c).take(c.len() as int) == c
            && with_ctrl_c(c).last() == Condition::CtrlC,
        with_signal(c, signal).len() == c.len() + 1 && with_signal(c, signal).take(
            c.len() as int,
        ) == c && with_signal(c, signal).last() == Condition::Signal(signal),
        with_signal(c, signal).last() matches Condition::Signal(k) && k.number()
            == signal.number(),
        with_sigint(c).len() == c.len() + 1 && with_sigint(c).take(c.len() as int) == c,
        with_sigint(c).last() matches Condition::Signal(k) && k.number() == 2,
        with_sigterm(c).len() == c.len() + 1 && with_sigterm(c).take(c.len() as int) == c,
        with_sigterm(c).last() matches Condition::Signal(k) && k.number() == 15,
        with_termination(c).len() == c.len() + 2 && with_termination(c).take(c.len() as int)
            == c && with_termination(c)[c.len() as int] == Condition::CtrlC,
        with_termination(c).last() matches Condition::Signal(k) && k.number() == 15,
        with_completion(c).len() == c.len() + 1 && with_completion(c).take(c.len() as int)
            == c && with_completion(c).last() == Condition::Completion,
        initial_conditions().len() == 1 && initial_conditions()[0]
            == Condition::ShutdownComplete,
{
    SignalKind::lemma_number(2, signal);
    SignalKind::lemma_number(15, signal);
    assert(with_ctrl_c(c).take(c.len() as int) =~= c);
    assert(with_signal(c, signal).take(c.len() as int) =~= c);
    assert(with_sigint(c).take(c.len() as int) =~= c);
    assert(with_sigterm(c).take(c.len() as int) =~= c);
    assert(with_termination(c).take(c.len() as int) =~= c);
    assert(with_completion(c).take(c.len() as int) =~= c);
}

struct Inner {
    conditions: Vec<Condition>,
}

impl Inner {
    fn new() -> (i: Self)
        ensures
            i.conditions@ == initial_conditions(),
    {
        let mut conditions: Vec<Condition> = Vec::new();
        conditions.push(Condition::ShutdownComplete);
        Inner { conditions }
    }

    fn on_termination(&mut self)
        ensures
            final(self).conditions@ == with_termination(old(self).conditions@),
    {
        self.on_ctrl_c();
        self.on_signal(SignalKind::terminate());
    }

    fn on_ctrl_c(&mut self)
        ensures
            final(self).conditions@ == with_ctrl_c(old(self).conditions@),
    {
        self.conditions.push(Condition::CtrlC);
    }

    fn on_sigint(&mut self)
        ensures
            final(self).conditions@ == with_sigint(old(self).conditions@),
    {
        self.on_signal(SignalKind::interrupt());
    }

    fn on_sigterm(&mut self)
        ensures
            final(self).conditions@ == with_sigterm(old(self).conditions@),
    {
        self.on_signal(SignalKind::terminate());
    }

    fn on_signal(&mut self, signal: SignalKind)
        ensures
            final(self).conditions@ == with_signal(old(self).conditions@, signal),
    {
        self.conditions.push(Condition::Signal(signal));
    }

    fn on_completion(&mut self)
        ensures
            final(self).conditions@ == with_completion(old(self).conditions@),
    {
        self.conditions.push(Condition::Completion);
    }

    fn into_conditions(self) -> (c: Vec<Condition>)
        requires
            can_depart(self.conditions@),
        ensures
            c@ == self.conditions@,
    {
        self.conditions
    }
}

/// Builder of the conditions on which a shutdown is initiated.
///
/// Awaiting a departure that holds no condition beyond the initial one is a misuse;
/// [`Departure::into_conditions`] requires at least one.
pub struct Departure {
    inner: Inner,
}

impl View for Departure {
    type V = Seq<Condition>;

    closed spec fn view(&self) -> Seq<Condition> {
        self.inner.conditions@
    }
}

/// Starts a departure, which holds only the condition that a shutdown has completed.
pub fn depart() -> (d: Departure)
    ensures
        d@ == initial_conditions(),
{
    Departure { inner: Inner::new() }
}

impl Departure {
    /// Adds `Ctrl+C`.
    pub fn on_ctrl_c(self) -> (d: Self)
        ensures
            d@ == with_ctrl_c(self@),
    {
        let mut inner = self.inner;
        inner.on_ctrl_c();
        Departure { inner }
    }

    /// Adds `Ctrl+C` and `SIGTERM`.
    pub fn on_termination(self) -> (d: Self)
        ensures
            d@ == with_termination(self@),
    {
        let mut inner = self.inner;
        inner.on_termination();
        Departure { inner }
    }

    /// Adds `SIGINT`.
    pub fn on_sigint(self) -> (d: Self)
        ensures
            d@ == with_sigint(self@),
    {
        let mut inner = self.inner;
        inner.on_sigint();
        Departure { inner }
    }

    /// Adds `SIGTERM`.
    pub fn on_sigterm(self) -> (d: Self)
        ensures
            d@ == with_sigterm(self@),
    {
        let mut inner = self.inner;
        inner.on_sigterm();
        Departure { inner }
    }

    /// Adds `signal`.
    pub fn on_signal(self, signal: SignalKind) -> (d: Self)
        ensures
            d@ == with_signal(self@, signal),
    {
        let mut inner = self.inner;
        inner.on_signal(signal);
        Departure { inner }
    }

    /// Adds the completion of the next future that the caller supplies.
    pub fn on_completion(self) -> (d: Self)
        ensures
            d@ == with_completion(self@),
    {
        let mut inner = self.inner;
        inner.on_completion();
        Departure { inner }
    }

    /// Whether the departure may be awaited: some condition was added.
    pub fn can_depart(&self) -> (b: bool)
        ensures
            b == can_depart(self@),
    {
        self.inner.conditions.len() > 1
    }

    /// The conditions, in the order they were added.
    pub fn conditions(&self) -> (c: &Vec<Condition>)
        ensures
            c@ == self@,
    {
        &self.inner.conditions
    }

    /// The conditions, once the departure is set up to be awaited.
    pub fn into_conditions(self) -> (c: Vec<Condition>)
        requires
            can_depart(self@),
        ensures
            c@ == self@,
    {
        self.inner.into_conditions()
    }
}

} // verus!
