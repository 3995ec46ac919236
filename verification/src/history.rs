//! Laws over whole histories of a registry and of the waiters on its shutdown.
//!
//! A history is what happens to one registry value. [`crate::registry::Registry::reset`]
//! does not happen to that value: it hands it back, with every guard and waiter made in
//! it, and starts a fresh registry in its place.

use crate::registry::RegistryView;
use vstd::prelude::*;

verus! {

/// Something that happens to a registry.
pub enum Event {
    /// A guard is created.
    Create,
    /// The shutdown is initiated.
    Shutdown,
    /// The guard with this index is cancelled.
    Cancel(nat),
    /// The guard with this index is released; the flag tells whether it was marked to
    /// initiate the shutdown.
    Release(nat, bool),
}

/// A registry event, or a waiter asking what to wait for next.
pub enum Action {
    Happen(Event),
    Poll,
}

impl RegistryView {
    /// The registry after `e`; cancelling or releasing a guard that does not exist changes
    /// nothing (the operations require that it exists).
    pub open spec fn after(self, e: Event) -> RegistryView {
        match e {
            Event::Create => self.with_guard(),
            Event::Shutdown => self.initiated(),
            Event::Cancel(id) => if id < self.departed.len() {
                self.cancelled(id as int)
            } else {
                self
            },
            Event::Release(id, shutdown_on_drop) => if id < self.departed.len() {
                self.released(id as int, shutdown_on_drop)
            } else {
                self
            },
        }
    }

    /// The registry after all of `es`, in order.
    pub open spec fn after_all(self, es: Seq<Event>) -> RegistryView
        decreases es.len(),
    {
        if es.len() == 0 {
            self
        } else {
            self.after(es[0]).after_all(es.drop_first())
        }
    }
}

/// The number of guard creations in `es`.
pub open spec fn creations(es: Seq<Event>) -> nat
    decreases es.len(),
{
    if es.len() == 0 {
        0
    } else {
        match es[0] {
            Event::Create => 1 + creations(es.drop_first()),
            _ => creations(es.drop_first()),
        }
    }
}

/// Every guard stays recorded, even after it is cancelled or released: the registry
/// holds one entry per guard ever created in it.
pub proof fn lemma_guards_are_never_freed(v: RegistryView, es: Seq<Event>)
    ensures
        v.after_all(es).departed.len() == v.departed.len() + creations(es),
    decreases es.len(),
{
    if es.len() > 0 {
        lemma_guards_are_never_freed(v.after(es[0]), es.drop_first());
    }
}

/// What each poll of a waiter with its cursor at `pos` answers along `acts`: `true`
/// where it is told that the shutdown is complete.
pub open spec fn poll_answers(v: RegistryView, pos: nat, acts: Seq<Action>) -> Seq<bool>
    decreases acts.len(),
{
    if acts.len() == 0 {
        Seq::empty()
    } else {
        match acts[0] {
            Action::Happen(e) => poll_answers(v.after(e), pos, acts.drop_first()),
            Action::Poll => seq![v.poll_completes(pos)] + poll_answers(
                v,
                v.next_position(pos),
                acts.drop_first(),
            ),
        }
    }
}

/// Whether the shutdown is complete at each poll along `acts`.
pub open spec fn completeness_at_polls(v: RegistryView, acts: Seq<Action>) -> Seq<bool>
    decreases acts.len(),
{
    if acts.len() == 0 {
        Seq::empty()
    } else {
        match acts[0] {
            Action::Happen(e) => completeness_at_polls(v.after(e), acts.drop_first()),
            Action::Poll => seq![v.complete()] + completeness_at_polls(v, acts.drop_first()),
        }
    }
}

/// `acts` neither cancels nor releases guard `id`.
pub open spec fn keeps_guard(acts: Seq<Action>, id: nat) -> bool {
    forall|i: int|
        0 <= i < acts.len() ==> acts[i] != Action::Happen(Event::Cancel(id)) && !(
        #[trigger] acts[i] matches Action::Happen(Event::Release(j, _)) && j == id)
}

proof fn lemma_waited_past_after(v: RegistryView, pos: nat, e: Event)
    requires
        v.waited_past(pos),
    ensures
        v.after(e).waited_past(pos),
{
    match e {
        Event::Create => {
            assert forall|j: int| 0 <= j < pos implies #[trigger] v.with_guard().departed[j] by {
                assert(v.departed[j]);
            }
        },
        _ => {},
    }
}

proof fn lemma_waited_past_polled(v: RegistryView, pos: nat)
    requires
        v.waited_past(pos),
    ensures
        v.waited_past(v.next_position(pos)),
        v.poll_completes(pos) == v.complete(),
{
    crate::registry::lemma_first_live(v, pos);
    crate::registry::lemma_waiter_sees_completion(v, pos);
    if v.shutdown {
        assert forall|j: int| 0 <= j < v.first_live(pos) implies #[trigger] v.departed[j] by {
            if j >= pos {
                assert(pos <= j < v.first_live(pos));
            }
        }
        if v.first_live(pos) >= v.departed.len() {
            assert forall|j: int| pos <= j < v.departed.len() implies #[trigger] v.departed[j] by {
                assert(pos <= j < v.first_live(pos));
            }
        } else {
            assert(!v.departed[v.first_live(pos) as int]);
        }
    }
}

/// A waiter that has seen every guard before its cursor depart is told, at every poll,
/// exactly whether the shutdown is complete at that moment: it finishes only once a
/// shutdown was initiated and every guard, those created while it waits included, has
/// departed, and it finishes at the first poll after that.
pub proof fn lemma_waiter_answers_completeness(v: RegistryView, pos: nat, acts: Seq<Action>)
    requires
        v.waited_past(pos),
    ensures
        poll_answers(v, pos, acts) == completeness_at_polls(v, acts),
    decreases acts.len(),
{
    if acts.len() > 0 {
        let rest = acts.drop_first();
        match acts[0] {
            Action::Happen(e) => {
                lemma_waited_past_after(v, pos, e);
                lemma_waiter_answers_completeness(v.after(e), pos, rest);
            },
            Action::Poll => {
                lemma_waited_past_polled(v, pos);
                lemma_waiter_answers_completeness(v, v.next_position(pos), rest);
            },
        }
    }
}

/// Two waiters, one made by `wait_for_shutdown_complete` and one returned by `shutdown`
/// for instance, are told the same at every poll, wherever their cursors stand.
pub proof fn lemma_waiters_agree(v: RegistryView, p1: nat, p2: nat, acts: Seq<Action>)
    requires
        v.waited_past(p1),
        v.waited_past(p2),
    ensures
        poll_answers(v, p1, acts) == poll_answers(v, p2, acts),
{
    lemma_waiter_answers_completeness(v, p1, acts);
    lemma_waiter_answers_completeness(v, p2, acts);
}

/// While a guard is held (neither cancelled nor released), no poll of any waiter is told
/// that the shutdown is complete: waiting for the shutdown while holding a guard waits
/// forever.
pub proof fn lemma_held_guard_blocks_waiters(
    v: RegistryView,
    pos: nat,
    id: nat,
    acts: Seq<Action>,
)
    requires
        v.waited_past(pos),
        id < v.departed.len(),
        !v.departed[id as int],
        keeps_guard(acts, id),
    ensures
        forall|k: int|
            0 <= k < poll_answers(v, pos, acts).len() ==> !#[trigger] poll_answers(
                v,
                pos,
                acts,
            )[k],
{
    lemma_waiter_answers_completeness(v, pos, acts);
    lemma_held_guard_keeps_incomplete(v, id, acts);
}

proof fn lemma_held_guard_keeps_incomplete(v: RegistryView, id: nat, acts: Seq<Action>)
    requires
        id < v.departed.len(),
        !v.departed[id as int],
        keeps_guard(acts, id),
    ensures
        forall|k: int|
            0 <= k < completeness_at_polls(v, acts).len() ==> !#[trigger] completeness_at_polls(
                v,
                acts,
            )[k],
    decreases acts.len(),
{
    if acts.len() > 0 {
        let rest = acts.drop_first();
        assert(keeps_guard(rest, id)) by {
            assert forall|i: int| 0 <= i < rest.len() implies rest[i] != Action::Happen(
                Event::Cancel(id),
            ) && !(#[trigger] rest[i] matches Action::Happen(Event::Release(j, _)) && j == id) by {
                assert(rest[i] == acts[i + 1]);
            }
        }
        assert(acts[0] != Action::Happen(Event::Cancel(id)));
        assert(!(acts[0] matches Action::Happen(Event::Release(j, _)) && j == id));
        match acts[0] {
            Action::Happen(e) => {
                let w = v.after(e);
                assert(id < w.departed.len() && !w.departed[id as int]);
                lemma_held_guard_keeps_incomplete(w, id, rest);
                assert(completeness_at_polls(v, acts) == completeness_at_polls(w, rest));
            },
            Action::Poll => {
                crate::registry::lemma_live_guard_blocks_completion(v, id as int);
                lemma_held_guard_keeps_incomplete(v, id, rest);
                let tail = completeness_at_polls(v, rest);
                let all = completeness_at_polls(v, acts);
                assert(all == seq![v.complete()] + tail);
                assert forall|k: int| 0 <= k < all.len() implies !#[trigger] all[k] by {
                    if k > 0 {
                        assert(all[k] == tail[k - 1]);
                    }
                }
            },
        }
    }
}

} // verus!
