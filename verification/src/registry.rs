//! The shutdown registry: one shutdown signal, and one departure signal per guard.

use crate::deplist::{DepList, DepListIter};
use crate::signal::Signal;
use crate::wake::same_token;
use tokio_util::sync::CancellationToken;
use vstd::prelude::*;

verus! {

/// What a registry records: whether a shutdown was initiated, and for each guard, in
/// the order they were created, whether it has departed (was cancelled or released).
pub struct RegistryView {
    pub shutdown: bool,
    pub departed: Seq<bool>,
}

impl RegistryView {
    /// A registry with no guards and no shutdown.
    pub open spec fn fresh() -> RegistryView {
        RegistryView { shutdown: false, departed: Seq::empty() }
    }

    /// The shutdown is complete: it was initiated and every guard has departed.
    pub open spec fn complete(self) -> bool {
        self.shutdown && forall|i: int| 0 <= i < self.departed.len() ==> #[trigger] self.departed[i]
    }

    /// After a new guard was created.
    pub open spec fn with_guard(self) -> RegistryView {
        RegistryView { departed: self.departed.push(false), ..self }
    }

    /// After the shutdown was initiated.
    pub open spec fn initiated(self) -> RegistryView {
        RegistryView { shutdown: true, ..self }
    }

    /// After guard `id` was cancelled.
    pub open spec fn cancelled(self, id: int) -> RegistryView {
        RegistryView { departed: self.departed.update(id, true), ..self }
    }

    /// After guard `id` was released (dropped); it initiates the shutdown if it was
    /// marked to do so.
    pub open spec fn released(self, id: int, shutdown_on_drop: bool) -> RegistryView {
        RegistryView {
            shutdown: self.shutdown || shutdown_on_drop,
            departed: self.departed.update(id, true),
        }
    }

    /// The first guard from `pos` on that has not departed, or the number of guards
    /// when there is none.
    pub open spec fn first_live(self, pos: nat) -> nat
        decreases self.departed.len() - pos,
    {
        if pos < self.departed.len() && self.departed[pos as int] {
            self.first_live(pos + 1)
        } else {
            pos
        }
    }

    /// Where a waiter's cursor stands after it asked what to wait for, from `pos`.
    pub open spec fn next_position(self, pos: nat) -> nat {
        if self.shutdown {
            self.first_live(pos)
        } else {
            pos
        }
    }

    /// Whether a waiter with its cursor at `pos` is told that the shutdown is complete.
    pub open spec fn poll_completes(self, pos: nat) -> bool {
        self.shutdown && self.first_live(pos) >= self.departed.len()
    }

    /// A waiter whose cursor stands at `pos` has seen every guard before `pos` depart.
    pub open spec fn waited_past(self, pos: nat) -> bool {
        &&& pos <= self.departed.len()
        &&& forall|j: int| 0 <= j < pos ==> #[trigger] self.departed[j]
    }
}

/// The first guard from `pos` on that has not departed: every guard in between has
/// departed, and it has not (unless it is the end).
pub proof fn lemma_first_live(v: RegistryView, pos: nat)
    requires
        pos <= v.departed.len(),
    ensures
        pos <= v.first_live(pos) <= v.departed.len(),
        forall|j: int| pos <= j < v.first_live(pos) ==> #[trigger] v.departed[j],
        v.first_live(pos) < v.departed.len() ==> !v.departed[v.first_live(pos) as int],
    decreases v.departed.len() - pos,
{
    if pos < v.departed.len() && v.departed[pos as int] {
        lemma_first_live(v, pos + 1);
    }
}

/// Once initiated, a shutdown stays initiated, whatever happens to the registry.
pub proof fn lemma_shutdown_is_permanent(v: RegistryView, id: int, shutdown_on_drop: bool)
    requires
        v.shutdown,
    ensures
        v.with_guard().shutdown,
        v.initiated().shutdown,
        v.cancelled(id).shutdown,
        v.released(id, shutdown_on_drop).shutdown,
{
}

/// Once a guard has departed it stays departed, whatever happens to the registry.
pub proof fn lemma_departure_is_permanent(
    v: RegistryView,
    i: int,
    id: int,
    shutdown_on_drop: bool,
)
    requires
        0 <= i < v.departed.len(),
        0 <= id < v.departed.len(),
        v.departed[i],
    ensures
        v.with_guard().departed[i],
        v.initiated().departed[i],
        v.cancelled(id).departed[i],
        v.released(id, shutdown_on_drop).departed[i],
{
}

/// Initiating a shutdown twice, or cancelling a guard twice, is the same as doing it once.
pub proof fn lemma_repeats_change_nothing(v: RegistryView, id: int)
    requires
        0 <= id < v.departed.len(),
    ensures
        v.initiated().initiated() == v.initiated(),
        v.cancelled(id).cancelled(id) == v.cancelled(id),
{
    assert(v.cancelled(id).cancelled(id).departed =~= v.cancelled(id).departed);
}

/// Releasing a cancelled guard (whose mark to initiate the shutdown was taken away by
/// the cancel) changes nothing: in particular it does not initiate a shutdown.
pub proof fn lemma_cancelled_guard_release_is_inert(v: RegistryView, id: int)
    requires
        0 <= id < v.departed.len(),
    ensures
        v.cancelled(id).released(id, false) == v.cancelled(id),
{
    assert(v.cancelled(id).released(id, false).departed =~= v.cancelled(id).departed);
}

/// Releasing a guard marked to initiate the shutdown initiates it.
pub proof fn lemma_marked_guard_initiates(v: RegistryView, id: int)
    ensures
        v.released(id, true).shutdown,
{
}

/// While a guard has not departed, the shutdown is not complete; in particular a guard
/// created at any moment, even after completion, delays completion until it departs.
pub proof fn lemma_live_guard_blocks_completion(v: RegistryView, id: int)
    requires
        0 <= id < v.departed.len(),
        !v.departed[id],
    ensures
        !v.complete(),
        !v.with_guard().complete(),
{
    assert(!v.with_guard().departed[v.departed.len() as int]);
}

/// The shutdown is complete once it is initiated and the last guard departs.
pub proof fn lemma_last_departure_completes(v: RegistryView, id: int, shutdown_on_drop: bool)
    requires
        0 <= id < v.departed.len(),
        v.shutdown,
        forall|j: int| 0 <= j < v.departed.len() && j != id ==> #[trigger] v.departed[j],
    ensures
        v.cancelled(id).complete(),
        v.released(id, shutdown_on_drop).complete(),
{
}

/// What a waiter has seen stays true, whatever happens to the registry.
pub proof fn lemma_waited_past_is_kept(
    v: RegistryView,
    pos: nat,
    id: int,
    shutdown_on_drop: bool,
)
    requires
        v.waited_past(pos),
        0 <= id < v.departed.len(),
    ensures
        v.with_guard().waited_past(pos),
        v.initiated().waited_past(pos),
        v.cancelled(id).waited_past(pos),
        v.released(id, shutdown_on_drop).waited_past(pos),
{
    assert forall|j: int| 0 <= j < pos implies #[trigger] v.with_guard().departed[j] by {
        assert(v.departed[j]);
    }
}

/// For a waiter at `pos`, the shutdown is complete exactly when it is initiated and
/// every guard from `pos` on has departed.
pub proof fn lemma_waiter_sees_completion(v: RegistryView, pos: nat)
    requires
        v.waited_past(pos),
    ensures
        v.complete() <==> (v.shutdown && forall|j: int|
            pos <= j < v.departed.len() ==> #[trigger] v.departed[j]),
{
    if v.shutdown && forall|j: int| pos <= j < v.departed.len() ==> #[trigger] v.departed[j] {
        assert forall|i: int| 0 <= i < v.departed.len() implies #[trigger] v.departed[i] by {
            assert(v.departed[i]);
        }
    }
}

/// After a reset, the guards and waiters made before belong to the registry handed back
/// and not to the fresh one: a later shutdown of the fresh registry is not theirs, and
/// they cannot be cancelled, released or polled there.
pub proof fn lemma_reset_detaches(
    g: ShutdownGuard,
    w: Waiter,
    earlier: Registry,
    fresh: Registry,
)
    requires
        g.made_by(&earlier),
        w.made_for(&earlier),
        fresh.shutdown_token() != earlier.shutdown_token(),
    ensures
        !g.made_by(&fresh),
        !w.made_for(&fresh),
        g.registry_token() != fresh.shutdown_token(),
{
}

/// What creating a guard does: one more guard, at the end and not departed; the guards
/// before it and the shutdown stay as they were. Creating a guard never initiates a
/// shutdown.
pub proof fn lemma_create_guard_effect(v: RegistryView)
    ensures
        v.with_guard().shutdown == v.shutdown,
        v.with_guard().departed.len() == v.departed.len() + 1,
        !v.with_guard().departed[v.departed.len() as int],
        forall|j: int|
            0 <= j < v.departed.len() ==> #[trigger] v.with_guard().departed[j] == v.departed[j],
{
}

/// What initiating the shutdown does: the shutdown is initiated; no guard changes.
pub proof fn lemma_initiate_effect(v: RegistryView)
    ensures
        v.initiated().shutdown,
        v.initiated().departed == v.departed,
{
}

/// What cancelling guard `id` does: that guard has departed; the other guards and the
/// shutdown stay as they were. Cancelling never initiates a shutdown.
pub proof fn lemma_cancel_effect(v: RegistryView, id: int)
    requires
        0 <= id < v.departed.len(),
    ensures
        v.cancelled(id).shutdown == v.shutdown,
        v.cancelled(id).departed.len() == v.departed.len(),
        v.cancelled(id).departed[id],
        forall|j: int|
            0 <= j < v.departed.len() && j != id ==> #[trigger] v.cancelled(id).departed[j]
                == v.departed[j],
{
}

/// What releasing guard `id` does: that guard has departed and the other guards stay as
/// they were; the shutdown is initiated afterwards exactly when it was before or the
/// guard was marked to initiate it. Releasing an unmarked guard never initiates it.
pub proof fn lemma_release_effect(v: RegistryView, id: int, marked: bool)
    requires
        0 <= id < v.departed.len(),
    ensures
        v.released(id, marked).shutdown == (v.shutdown || marked),
        !marked ==> v.released(id, marked).shutdown == v.shutdown,
        v.released(id, marked).departed.len() == v.departed.len(),
        v.released(id, marked).departed[id],
        forall|j: int|
            0 <= j < v.departed.len() && j != id ==> #[trigger] v.released(id, marked).departed[j]
                == v.departed[j],
{
}

/// Each guard has a signal of its own: the signal at index `i` is the one whose flag
/// records guard `i`'s departure, the token handed out for guard `i` is that signal's
/// token, and the record of its cancellation is that signal's. While the registry wakes
/// its waiters, the token for guard `i` has been asked to cancel exactly when guard `i`
/// departed, whatever other guards did; likewise for the shutdown token.
pub proof fn lemma_tokens_belong_to_their_signals(r: Registry, i: int)
    requires
        0 <= i < r@.departed.len(),
    ensures
        r.departure_signal(i)@ == r@.departed[i],
        r.departure_token(i) == r.departure_signal(i).token(),
        r.departure_woken(i) == r.departure_signal(i).cancel_requested(),
        r.shutdown_signal()@ == r@.shutdown,
        r.shutdown_token() == r.shutdown_signal().token(),
        r.shutdown_woken() == r.shutdown_signal().cancel_requested(),
        r.wakes_waiters() ==> (r.departure_woken(i) <==> r@.departed[i]),
        r.wakes_waiters() ==> (r.shutdown_woken() <==> r@.shutdown),
{
}

/// Guards and waiters stay bound to their registry through every operation that keeps
/// its tokens and guards (all operations but `reset`): what was made by `earlier` may
/// still be cancelled, released or polled in `later`, and a guard's wait handle is still
/// the shutdown token of `later`.
pub proof fn lemma_bindings_are_kept(g: ShutdownGuard, w: Waiter, earlier: Registry, later: Registry)
    requires
        later.keeps_tokens_of(&earlier),
        earlier@.departed.len() <= later@.departed.len(),
    ensures
        g.made_by(&earlier) ==> g.made_by(&later),
        w.made_for(&earlier) ==> w.made_for(&later),
        g.made_by(&earlier) ==> g.registry_token() == later.shutdown_token(),
        forall|i: int|
            0 <= i < earlier@.departed.len() ==> #[trigger] later.departure_token(i)
                == earlier.departure_token(i),
{
}

/// What a waiter for the shutdown's completion has to do next.
pub enum WaitStep {
    /// Wait until the shutdown is initiated.
    Shutdown,
    /// Wait until the guard with this index departs.
    Departure(usize),
    /// Nothing: the shutdown is complete.
    Complete,
}

/// The registry of all shutdown guards.
pub struct Registry {
    departures: DepList<Signal>,
    shutdown: Signal,
}

impl View for Registry {
    type V = RegistryView;

    closed spec fn view(&self) -> RegistryView {
        RegistryView {
            shutdown: self.shutdown@,
            departed: self.departures@.map_values(|s: Signal| s@),
        }
    }
}

impl Registry {
    /// The token that initiating the shutdown cancels.
    pub closed spec fn shutdown_token(&self) -> CancellationToken {
        self.shutdown.token()
    }

    /// The token that the departure of guard `id` cancels.
    pub closed spec fn departure_token(&self, id: int) -> CancellationToken {
        self.departures@[id].token()
    }

    /// Whether the cancellation of the shutdown token was requested.
    pub closed spec fn shutdown_woken(&self) -> bool {
        self.shutdown.cancel_requested()
    }

    /// Whether the cancellation of the departure token of guard `id` was requested.
    pub closed spec fn departure_woken(&self, id: int) -> bool {
        self.departures@[id].cancel_requested()
    }

    /// The signal that records whether the shutdown was initiated.
    pub closed spec fn shutdown_signal(&self) -> Signal {
        self.shutdown
    }

    /// The signal that records the departure of guard `id`.
    pub closed spec fn departure_signal(&self, id: int) -> Signal {
        self.departures@[id]
    }

    /// A token's cancellation is requested exactly when what it stands for happened:
    /// the shutdown token once the shutdown is initiated, and a guard's departure token
    /// once that guard departed. Waiters are woken for what happened and only for it.
    pub open spec fn wakes_waiters(&self) -> bool {
        &&& self@.shutdown <==> self.shutdown_woken()
        &&& forall|i: int|
            0 <= i < self@.departed.len() ==> (#[trigger] self@.departed[i]
                <==> self.departure_woken(i))
    }

    /// `self` holds the tokens of `earlier`, and every cancellation that `earlier`
    /// requested: handles taken from `earlier` stay the ones to wait on.
    pub open spec fn keeps_tokens_of(&self, earlier: &Registry) -> bool {
        &&& self.shutdown_token() == earlier.shutdown_token()
        &&& earlier.shutdown_woken() ==> self.shutdown_woken()
        &&& forall|i: int|
            0 <= i < earlier@.departed.len() ==> self.departure_token(i)
                == earlier.departure_token(i) && (earlier.departure_woken(i)
                ==> self.departure_woken(i))
    }
}

/// A handle for one guard of a [`Registry`].
pub struct ShutdownGuard {
    id: usize,
    shutdown_on_drop: bool,
    cancelled: bool,
    shutdown: CancellationToken,
}

/// The text `ShutdownGuard { in_shutdown: .., cancelled: .. }`.
pub open spec fn guard_debug_text(in_shutdown: bool, cancelled: bool) -> Seq<char> {
    if in_shutdown {
        if cancelled {
            "ShutdownGuard { in_shutdown: true, cancelled: true }"@
        } else {
            "ShutdownGuard { in_shutdown: true, cancelled: false }"@
        }
    } else {
        if cancelled {
            "ShutdownGuard { in_shutdown: false, cancelled: true }"@
        } else {
            "ShutdownGuard { in_shutdown: false, cancelled: false }"@
        }
    }
}

impl ShutdownGuard {
    /// The index of this guard among the registry's guards.
    pub closed spec fn index(&self) -> nat {
        self.id as nat
    }

    /// Whether releasing this guard initiates the shutdown.
    pub closed spec fn initiates_on_drop(&self) -> bool {
        self.shutdown_on_drop
    }

    /// Whether this guard was cancelled.
    pub closed spec fn was_cancelled(&self) -> bool {
        self.cancelled
    }

    /// The shutdown token of the registry that made this guard; it identifies the
    /// registry.
    pub closed spec fn registry_token(&self) -> CancellationToken {
        self.shutdown
    }

    /// This guard was made by `registry`.
    pub open spec fn made_by(&self, registry: &Registry) -> bool {
        &&& self.index() < registry@.departed.len()
        &&& self.registry_token() == registry.shutdown_token()
    }

    /// The index of this guard among the registry's guards.
    pub fn id(&self) -> (i: usize)
        ensures
            i == self.index(),
    {
        self.id
    }

    /// Whether releasing this guard initiates the shutdown.
    pub fn is_shutdown_on_drop(&self) -> (b: bool)
        ensures
            b == self.initiates_on_drop(),
    {
        self.shutdown_on_drop
    }

    /// Whether this guard was cancelled.
    pub fn is_cancelled(&self) -> (b: bool)
        ensures
            b == self.was_cancelled(),
    {
        self.cancelled
    }

    /// Whether this guard was made by `registry`, so that it may be cancelled or released
    /// there.
    pub fn belongs_to(&self, registry: &Registry) -> (b: bool)
        ensures
            b == self.made_by(registry),
    {
        self.id < registry.guard_count() && same_token(&self.shutdown, &registry.shutdown.handle())
    }

    /// A token that is cancelled when the shutdown of the guard's registry is initiated.
    pub fn wait_handle(&self) -> (t: CancellationToken)
        ensures
            t == self.registry_token(),
    {
        self.shutdown.clone()
    }

    /// Marks the guard to initiate the shutdown when it is released, unless it was
    /// cancelled: a cancelled guard never initiates a shutdown.
    pub fn shutdown_on_drop(self) -> (g: Self)
        ensures
            g.index() == self.index(),
            g.registry_token() == self.registry_token(),
            g.was_cancelled() == self.was_cancelled(),
            g.initiates_on_drop() == !self.was_cancelled(),
    {
        ShutdownGuard {
            id: self.id,
            shutdown_on_drop: !self.cancelled,
            cancelled: self.cancelled,
            shutdown: self.shutdown,
        }
    }

    /// Cancels the guard: the shutdown no longer waits for it, and the guard never
    /// initiates a shutdown. Cancelling again changes nothing; it cannot be undone.
    pub fn cancel(&mut self, registry: &mut Registry)
        requires
            old(self).made_by(old(registry)),
        ensures
            final(self).index() == old(self).index(),
            final(self).registry_token() == old(self).registry_token(),
            final(self).was_cancelled(),
            !final(self).initiates_on_drop(),
            final(registry)@ == old(registry)@.cancelled(old(self).index() as int),
            final(registry).departure_woken(old(self).index() as int),
            final(registry).keeps_tokens_of(old(registry)),
            old(registry).wakes_waiters() ==> final(registry).wakes_waiters(),
    {
        registry.depart(self.id);
        self.shutdown_on_drop = false;
        self.cancelled = true;
    }

    /// Releases (drops) the guard: the shutdown no longer waits for it, and if it was
    /// marked with [`ShutdownGuard::shutdown_on_drop`] the shutdown is initiated.
    pub fn release(self, registry: &mut Registry)
        requires
            self.made_by(old(registry)),
        ensures
            final(registry)@ == old(registry)@.released(
                self.index() as int,
                self.initiates_on_drop(),
            ),
            final(registry).departure_woken(self.index() as int),
            self.initiates_on_drop() ==> final(registry).shutdown_woken(),
            final(registry).keeps_tokens_of(old(registry)),
            old(registry).wakes_waiters() ==> final(registry).wakes_waiters(),
    {
        registry.depart(self.id);
        if self.shutdown_on_drop {
            registry.shutdown();
        }
    }

    /// The text that `Debug` shows for the guard.
    pub fn debug_text(&self, registry: &Registry) -> (s: String)
        requires
            self.made_by(registry),
        ensures
            s@ == guard_debug_text(registry@.shutdown, registry@.departed[self.index() as int]),
    {
        proof {
            reveal_strlit("ShutdownGuard { in_shutdown: true, cancelled: true }");
            reveal_strlit("ShutdownGuard { in_shutdown: true, cancelled: false }");
            reveal_strlit("ShutdownGuard { in_shutdown: false, cancelled: true }");
            reveal_strlit("ShutdownGuard { in_shutdown: false, cancelled: false }");
        }
        let in_shutdown = registry.is_shutdown();
        let cancelled = registry.has_departed(self.id);
        if in_shutdown {
            if cancelled {
                "ShutdownGuard { in_shutdown: true, cancelled: true }".to_owned()
            } else {
                "ShutdownGuard { in_shutdown: true, cancelled: false }".to_owned()
            }
        } else {
            if cancelled {
                "ShutdownGuard { in_shutdown: false, cancelled: true }".to_owned()
            } else {
                "ShutdownGuard { in_shutdown: false, cancelled: false }".to_owned()
            }
        }
    }
}

/// A waiter for the completion of one registry's shutdown: a cursor over its guards,
/// and the registry's shutdown token, which identifies the registry.
pub struct Waiter {
    cursor: DepListIter<Signal>,
    registry: CancellationToken,
}

impl Waiter {
    /// The index of the first guard that this waiter has not seen depart.
    pub closed spec fn position(&self) -> nat {
        self.cursor.position()
    }

    /// The shutdown token of the registry that this waiter waits on.
    pub closed spec fn registry_token(&self) -> CancellationToken {
        self.registry
    }

    /// This waiter waits on `registry`.
    pub open spec fn made_for(&self, registry: &Registry) -> bool {
        &&& self.position() <= registry@.departed.len()
        &&& self.registry_token() == registry.shutdown_token()
    }

    /// The index of the first guard that this waiter has not seen depart.
    pub fn current(&self) -> (i: usize)
        ensures
            i == self.position(),
    {
        self.cursor.current()
    }

    /// Whether this waiter waits on `registry`, so that it may ask it what to wait for.
    pub fn belongs_to(&self, registry: &Registry) -> (b: bool)
        ensures
            b == self.made_for(registry),
    {
        self.cursor.current() <= registry.guard_count() && same_token(
            &self.registry,
            &registry.shutdown.handle(),
        )
    }
}

impl Registry {
    /// A registry with no guards, not shut down.
    pub fn new() -> (r: Self)
        ensures
            r@ == RegistryView::fresh(),
            r.wakes_waiters(),
    {
        let r = Registry { departures: DepList::new(), shutdown: Signal::new() };
        assert(r@.departed =~= Seq::<bool>::empty());
        r
    }

    /// Creates a guard; the shutdown waits for it until it departs.
    pub fn create_guard(&mut self) -> (g: ShutdownGuard)
        ensures
            final(self)@ == old(self)@.with_guard(),
            g.index() == old(self)@.departed.len(),
            g.made_by(final(self)),
            !g.initiates_on_drop(),
            !g.was_cancelled(),
            final(self).keeps_tokens_of(old(self)),
            old(self).wakes_waiters() ==> final(self).wakes_waiters(),
    {
        let id = self.departures.len();
        let done = Signal::new();
        let ghost done_spec = done;
        self.departures.push(done);
        proof {
            assert(self@.departed =~= old(self)@.departed.push(false));
            assert forall|i: int| 0 <= i < old(self)@.departed.len() implies self.departure_token(i)
                == old(self).departure_token(i) && (old(self).departure_woken(i)
                ==> self.departure_woken(i)) by {
                assert(self.departures@[i] == old(self).departures@[i]);
            }
            if old(self).wakes_waiters() {
                assert forall|i: int| 0 <= i < self@.departed.len() implies (#[trigger] self@.departed[i]
                    <==> self.departure_woken(i)) by {
                    if i < old(self)@.departed.len() {
                        assert(self.departures@[i] == old(self).departures@[i]);
                        assert(old(self)@.departed[i] <==> old(self).departure_woken(i));
                    } else {
                        assert(self.departures@[i] == done_spec);
                    }
                }
            }
        }
        ShutdownGuard { id, shutdown_on_drop: false, cancelled: false, shutdown: self.shutdown.handle() }
    }

    /// Initiates the shutdown, cancelling the shutdown token; initiating it again changes
    /// nothing.
    pub fn shutdown(&mut self)
        ensures
            final(self)@ == old(self)@.initiated(),
            final(self).shutdown_woken(),
            final(self).keeps_tokens_of(old(self)),
            old(self).wakes_waiters() ==> final(self).wakes_waiters(),
    {
        self.shutdown.set();
    }

    fn depart(&mut self, id: usize)
        requires
            id < old(self)@.departed.len(),
        ensures
            final(self)@ == old(self)@.cancelled(id as int),
            final(self).departure_woken(id as int),
            final(self).keeps_tokens_of(old(self)),
            old(self).wakes_waiters() ==> final(self).wakes_waiters(),
    {
        self.departures.get_mut(id).set();
        proof {
            assert(self@.departed =~= old(self)@.departed.update(id as int, true));
            assert forall|i: int| 0 <= i < old(self)@.departed.len() implies self.departure_token(i)
                == old(self).departure_token(i) && (old(self).departure_woken(i)
                ==> self.departure_woken(i)) by {
                if i != id {
                    assert(self.departures@[i] == old(self).departures@[i]);
                }
            }
            if old(self).wakes_waiters() {
                assert forall|i: int| 0 <= i < self@.departed.len() implies (#[trigger] self@.departed[i]
                    <==> self.departure_woken(i)) by {
                    if i != id {
                        assert(self.departures@[i] == old(self).departures@[i]);
                        assert(old(self)@.departed[i] <==> old(self).departure_woken(i));
                    }
                }
            }
        }
    }

    /// Whether the shutdown was initiated.
    pub fn is_shutdown(&self) -> (b: bool)
        ensures
            b == self@.shutdown,
    {
        self.shutdown.is_set()
    }

    /// The number of guards created so far.
    pub fn guard_count(&self) -> (n: usize)
        ensures
            n == self@.departed.len(),
    {
        self.departures.len()
    }

    /// Whether guard `id` has departed (was cancelled or released).
    pub fn has_departed(&self, id: usize) -> (b: bool)
        requires
            id < self@.departed.len(),
        ensures
            b == self@.departed[id as int],
    {
        self.departures.get(id).is_set()
    }

    /// Whether the shutdown is complete.
    pub fn is_complete(&self) -> (b: bool)
        ensures
            b == self@.complete(),
    {
        if !self.shutdown.is_set() {
            return false;
        }
        let n = self.departures.len();
        let mut i: usize = 0;
        while i < n
            invariant
                n == self@.departed.len(),
                self@.shutdown,
                i <= n,
                forall|j: int| 0 <= j < i ==> #[trigger] self@.departed[j],
            decreases n - i,
        {
            let departed = self.departures.get(i).is_set();
            assert(departed == self@.departed[i as int]);
            if !departed {
                return false;
            }
            i = i + 1;
        }
        true
    }

    /// A waiter of the shutdown's completion, at the first guard.
    ///
    /// The waiter calls [`Registry::wait_step`] until it answers
    /// [`WaitStep::Complete`]; guards created while it waits are waited for too.
    pub fn wait_for_shutdown_complete(&self) -> (w: Waiter)
        ensures
            w.position() == 0,
            w.made_for(self),
            self@.waited_past(w.position()),
    {
        Waiter { cursor: self.departures.iter(), registry: self.shutdown.handle() }
    }

    /// The next thing that `waiter` has to wait for.
    ///
    /// Before the shutdown is initiated, that is the shutdown itself. After it, the
    /// cursor moves past the guards that have departed, and the answer is the first
    /// guard that has not, or completion when there is none.
    pub fn wait_step(&self, waiter: &mut Waiter) -> (step: WaitStep)
        requires
            old(waiter).made_for(self),
        ensures
            final(waiter).made_for(self),
            final(waiter).registry_token() == old(waiter).registry_token(),
            final(waiter).position() == self@.next_position(old(waiter).position()),
            !self@.shutdown ==> step is Shutdown,
            self@.shutdown ==> {
                &&& old(waiter).position() <= final(waiter).position() <= self@.departed.len()
                &&& forall|j: int|
                    old(waiter).position() <= j < final(waiter).position()
                        ==> #[trigger] self@.departed[j]
                &&& final(waiter).position() < self@.departed.len() ==> {
                    &&& step == WaitStep::Departure(final(waiter).position() as usize)
                    &&& !self@.departed[final(waiter).position() as int]
                }
                &&& final(waiter).position() == self@.departed.len() ==> step is Complete
            },
            step is Complete <==> self@.poll_completes(old(waiter).position()),
            step is Complete <==> (self@.shutdown && forall|j: int|
                old(waiter).position() <= j < self@.departed.len()
                    ==> #[trigger] self@.departed[j]),
            self@.waited_past(old(waiter).position()) ==> self@.waited_past(
                final(waiter).position(),
            ),
            self@.waited_past(old(waiter).position()) ==> (step is Complete
                <==> self@.complete()),
    {
        proof {
            lemma_first_live(self@, old(waiter).position());
            if self@.waited_past(old(waiter).position()) {
                lemma_waiter_sees_completion(self@, old(waiter).position());
            }
        }
        if !self.shutdown.is_set() {
            return WaitStep::Shutdown;
        }
        let n = self.departures.len();
        while waiter.cursor.current() < n
            invariant
                n == self@.departed.len(),
                self@.shutdown,
                waiter.registry == old(waiter).registry,
                old(waiter).made_for(self),
                old(waiter).position() <= waiter.position() <= n,
                self@.first_live(waiter.position()) == self@.first_live(
                    old(waiter).position(),
                ),
                forall|j: int|
                    old(waiter).position() <= j < waiter.position()
                        ==> #[trigger] self@.departed[j],
            decreases n - waiter.position(),
        {
            let i = waiter.cursor.current();
            let departed = self.departures.get(i).is_set();
            assert(departed == self@.departed[i as int]);
            if !departed {
                return WaitStep::Departure(i);
            }
            waiter.cursor.advance();
        }
        WaitStep::Complete
    }

    /// A token that is cancelled when the shutdown is initiated.
    pub fn shutdown_handle(&self) -> (t: CancellationToken)
        ensures
            t == self.shutdown_token(),
    {
        self.shutdown.handle()
    }

    /// A token that is cancelled when guard `id` departs.
    pub fn departure_handle(&self, id: usize) -> (t: CancellationToken)
        requires
            id < self@.departed.len(),
        ensures
            t == self.departure_token(id as int),
    {
        self.departures.get(id).handle()
    }

    /// Starts over with no guards and no shutdown, under a fresh shutdown token, and
    /// hands back the registry as it was.
    ///
    /// Guards and waiters made before belong to the registry handed back, not to this
    /// one: they follow the state they were made in.
    pub fn reset(&mut self) -> (earlier: Registry)
        ensures
            final(self)@ == RegistryView::fresh(),
            final(self).wakes_waiters(),
            earlier == *old(self),
            final(self).shutdown_token() != earlier.shutdown_token(),
    {
        let mut fresh = Registry {
            departures: DepList::new(),
            shutdown: Signal::new_unlike(&self.shutdown),
        };
        assert(fresh@.departed =~= Seq::<bool>::empty());
        std::mem::swap(self, &mut fresh);
        fresh
    }
}

} // verus!
