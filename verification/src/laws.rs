//! What holds of the configuration cell over a whole run of a session.
//!
//! A run is a sequence of turns. Each turn records what the watcher's
//! channel delivered and what the loader answers when it is asked in that
//! turn; the session reacts to the delivery and the reaction is carried out
//! on the cell.

use crate::cell::cell_after;
use crate::classify::reload_worthy;
use crate::session::{after_acquire, reaction, wants_reload, Phase};
use vstd::prelude::*;

verus! {

/// One turn of a session.
pub struct Turn<C, E> {
    /// What the watcher's channel delivered.
    pub received: Result<Result<notify::Event, notify::Error>, crossbeam_channel::RecvError>,
    /// What the loader answers if it is asked in this turn.
    pub answer: Result<C, E>,
}

impl<C, E> Turn<C, E> {
    /// Whether the turn reloads: the delivery calls for the loader and the
    /// loader answers with a configuration.
    pub open spec fn reloads(self) -> bool {
        wants_reload(self.received) && self.answer is Ok
    }
}

/// The value that a cell holds after the given turns, when it held `initial`
/// before the first of them.
pub open spec fn cell_after_turns<C, E>(initial: C, turns: Seq<Turn<C, E>>) -> C
    decreases turns.len(),
{
    if turns.len() == 0 {
        initial
    } else {
        cell_after(
            cell_after_turns(initial, turns.drop_last()),
            reaction(turns.last().received, turns.last().answer),
        )
    }
}

/// Carrying out the reaction to one more delivery extends the run by one
/// turn.
pub proof fn turn_extends_run<C, E>(initial: C, turns: Seq<Turn<C, E>>, turn: Turn<C, E>)
    ensures
        cell_after_turns(initial, turns.push(turn)) == cell_after(
            cell_after_turns(initial, turns),
            reaction(turn.received, turn.answer),
        ),
{
    assert(turns.push(turn).drop_last() =~= turns);
    assert(turns.push(turn).last() == turn);
}

/// While no turn has reloaded, the cell holds the caller's initial value.
pub proof fn cell_keeps_initial_without_reload<C, E>(initial: C, turns: Seq<Turn<C, E>>)
    requires
        forall|i: int| 0 <= i < turns.len() ==> !(#[trigger] turns[i]).reloads(),
    ensures
        cell_after_turns(initial, turns) == initial,
    decreases turns.len(),
{
    if turns.len() > 0 {
        let earlier = turns.drop_last();
        assert forall|i: int| 0 <= i < earlier.len() implies !(#[trigger] earlier[i]).reloads() by {
            assert(earlier[i] == turns[i]);
        }
        cell_keeps_initial_without_reload(initial, earlier);
        assert(!turns[turns.len() - 1].reloads());
    }
}

/// The cell holds the caller's initial value for as long as no reload-worthy
/// event has been delivered.
pub proof fn initial_value_preserved<C, E>(initial: C, turns: Seq<Turn<C, E>>)
    requires
        forall|i: int| 0 <= i < turns.len() ==> !wants_reload(#[trigger] turns[i].received),
    ensures
        cell_after_turns(initial, turns) == initial,
{
    assert forall|i: int| 0 <= i < turns.len() implies !(#[trigger] turns[i]).reloads() by {
        assert(!wants_reload(turns[i].received));
    }
    cell_keeps_initial_without_reload(initial, turns);
}

/// An event that reports access to the watched entry, such as opening or
/// closing it, is never worth a reload.
pub proof fn access_is_noise(event: notify::Event)
    requires
        event.kind is Access,
    ensures
        !reload_worthy(event.kind),
        !wants_reload(Ok(Ok(event))),
{
}

/// Deliveries that only report access leave the cell with its initial value,
/// whatever the loader would have answered.
pub proof fn access_never_reloads<C, E>(initial: C, turns: Seq<Turn<C, E>>)
    requires
        forall|i: int|
            0 <= i < turns.len() ==> (#[trigger] turns[i].received matches Ok(Ok(event))
                && event.kind is Access),
    ensures
        cell_after_turns(initial, turns) == initial,
{
    assert forall|i: int| 0 <= i < turns.len() implies !wants_reload(
        #[trigger] turns[i].received,
    ) by {
        assert(turns[i].received matches Ok(Ok(event)) && event.kind is Access);
    }
    initial_value_preserved(initial, turns);
}

/// A turn that does not reload leaves the cell with the value it held: a
/// failed load, noise, an error in place of an event and a failed receive
/// all retain.
pub proof fn unsuccessful_turn_retains<C, E>(initial: C, turns: Seq<Turn<C, E>>, turn: Turn<C, E>)
    requires
        !turn.reloads(),
    ensures
        cell_after_turns(initial, turns.push(turn)) == cell_after_turns(initial, turns),
{
    turn_extends_run(initial, turns, turn);
}

/// If the loader fails when a change is delivered, the cell still holds the
/// previous value.
pub proof fn failed_load_retains<C, E>(initial: C, turns: Seq<Turn<C, E>>, turn: Turn<C, E>)
    requires
        turn.answer is Err,
    ensures
        cell_after_turns(initial, turns.push(turn)) == cell_after_turns(initial, turns),
{
    unsuccessful_turn_retains(initial, turns, turn);
}

/// A reload-worthy event whose load succeeds leaves the cell holding the
/// loaded configuration, whatever it held before.
pub proof fn successful_reload_publishes<C, E>(
    initial: C,
    turns: Seq<Turn<C, E>>,
    turn: Turn<C, E>,
    config: C,
)
    requires
        wants_reload(turn.received),
        turn.answer == Ok::<C, E>(config),
    ensures
        cell_after_turns(initial, turns.push(turn)) == config,
{
    turn_extends_run(initial, turns, turn);
}

/// The cell always holds the most recent successfully loaded configuration:
/// if turn `latest` reloaded and no later turn did, the cell holds what the
/// loader answered in that turn.
pub proof fn cell_holds_latest_success<C, E>(initial: C, turns: Seq<Turn<C, E>>, latest: int)
    requires
        0 <= latest < turns.len(),
        turns[latest].reloads(),
        forall|j: int| latest < j < turns.len() ==> !(#[trigger] turns[j]).reloads(),
    ensures
        turns[latest].answer == Ok::<C, E>(cell_after_turns(initial, turns)),
    decreases turns.len(),
{
    if latest < turns.len() - 1 {
        let earlier = turns.drop_last();
        assert(earlier[latest] == turns[latest]);
        assert forall|j: int| latest < j < earlier.len() implies !(#[trigger] earlier[j]).reloads() by {
            assert(earlier[j] == turns[j]);
        }
        cell_holds_latest_success(initial, earlier, latest);
        assert(!turns[turns.len() - 1].reloads());
    }
}

/// The cell never holds anything but a value that was handed over whole:
/// the caller's initial value, or a configuration that the loader returned
/// in a turn that reloaded.
pub proof fn cell_holds_a_supplied_value<C, E>(initial: C, turns: Seq<Turn<C, E>>)
    ensures
        cell_after_turns(initial, turns) == initial || exists|i: int|
            0 <= i < turns.len() && (#[trigger] turns[i]).reloads() && turns[i].answer == Ok::<
                C,
                E,
            >(cell_after_turns(initial, turns)),
    decreases turns.len(),
{
    if turns.len() > 0 {
        let earlier = turns.drop_last();
        let last = turns.len() - 1;
        if turns[last].reloads() {
            assert(turns[last].answer == Ok::<C, E>(cell_after_turns(initial, turns)));
        } else {
            cell_holds_a_supplied_value(initial, earlier);
            if cell_after_turns(initial, earlier) != initial {
                let i = choose|i: int|
                    0 <= i < earlier.len() && (#[trigger] earlier[i]).reloads() && earlier[i].answer
                        == Ok::<C, E>(cell_after_turns(initial, earlier));
                assert(turns[i] == earlier[i]);
            }
        }
    }
}

/// A session degrades only when a watcher cannot be acquired, and a degraded
/// session never leaves that phase.
pub proof fn only_failed_acquisition_degrades(phase: Phase, acquired: bool)
    ensures
        after_acquire(Phase::Degraded, acquired) is Degraded,
        !(phase is Degraded) ==> (after_acquire(phase, acquired) is Degraded <==> !acquired),
        !(phase is Degraded) && acquired ==> after_acquire(phase, acquired) is Waiting,
{
}

} // verus!
