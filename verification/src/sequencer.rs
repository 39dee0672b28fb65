//! The macro sequencer: one craft cycle as a fixed, ordered script.
//!
//! A cycle opens the in-game crafting action with a confirm handshake,
//! renews due consumables (closing and re-opening the crafting action
//! around each renewal), activates the configured macros in order, counts
//! the completed cycle, and clears both run-state flags once the target is
//! reached. The ordering is fixed; only the presence of the optional slots
//! is configurable. Every step that performs a visible action or decision
//! emits exactly one progress event before performing it, carrying the
//! state as of immediately before the action.

use vstd::prelude::*;

use crate::events::{Action, ProgressEvent, SlotId, Status};
use crate::keys::KeyId;
use crate::profile::{KeySlot, MacroSlot, Profile, POTION_INTERVAL_SECS};
use crate::state::RunState;
use crate::timer::{renewal_due, spec_renewal_due};

verus! {

/// Delay after each key press, in milliseconds.
pub const KEY_DELAY_MILLIS: u64 = 500;

/// Settle delay after each action group, in seconds.
pub const ACTION_DELAY_SECS: u64 = 2;

/// The progress snapshot taken immediately before an action.
pub open spec fn spec_event(run: RunState, status: Status) -> ProgressEvent {
    ProgressEvent {
        completed: run.completed,
        food_count: run.food_count,
        potion_count: run.potion_count,
        status,
    }
}

/// Takes the snapshot [`spec_event`] describes.
pub fn progress_event(run: &RunState, status: Status) -> (ev: ProgressEvent)
    ensures
        ev == spec_event(*run, status),
{
    ProgressEvent {
        completed: run.completed,
        food_count: run.food_count,
        potion_count: run.potion_count,
        status,
    }
}

/// One press-and-release followed by the fixed inter-press delay.
pub open spec fn spec_press(k: KeyId) -> Seq<Action> {
    seq![Action::Press(k), Action::DelayMillis(KEY_DELAY_MILLIS)]
}

/// A press of an optional key slot: pressed when configured and resolved,
/// otherwise skipped with the failure surfaced as a progress event.
pub open spec fn spec_slot_press(slot: KeySlot, run: RunState, id: SlotId) -> Seq<Action> {
    match slot {
        KeySlot::Key(k) => spec_press(k),
        _ => seq![Action::Emit(spec_event(run, Status::SkippedKey(id)))],
    }
}

/// The start-craft handshake: three confirm presses, then a settle delay.
/// This opens the in-game crafting action.
pub open spec fn spec_start_craft(p: Profile, run: RunState) -> Seq<Action> {
    seq![Action::Emit(spec_event(run, Status::StartingCraft))] + spec_press(p.confirm)
        + spec_press(p.confirm) + spec_press(p.confirm) + seq![Action::DelaySecs(ACTION_DELAY_SECS)]
}

/// The stop-craft handshake: confirm, cancel, confirm, then a settle
/// delay. This closes the in-game crafting action before a renewal.
pub open spec fn spec_stop_craft(p: Profile, run: RunState) -> Seq<Action> {
    seq![Action::Emit(spec_event(run, Status::StoppingCraft))] + spec_press(p.confirm)
        + spec_slot_press(p.cancel, run, SlotId::Cancel) + spec_press(p.confirm)
        + seq![Action::DelaySecs(ACTION_DELAY_SECS)]
}

/// Emits the start-craft event, then the handshake that opens the crafting
/// action.
pub fn start_craft(p: &Profile, run: &RunState) -> (acts: Vec<Action>)
    ensures
        acts@ == spec_start_craft(*p, *run),
{
    let mut acts: Vec<Action> = Vec::new();
    acts.push(Action::Emit(progress_event(run, Status::StartingCraft)));
    acts.push(Action::Press(p.confirm));
    acts.push(Action::DelayMillis(KEY_DELAY_MILLIS));
    acts.push(Action::Press(p.confirm));
    acts.push(Action::DelayMillis(KEY_DELAY_MILLIS));
    acts.push(Action::Press(p.confirm));
    acts.push(Action::DelayMillis(KEY_DELAY_MILLIS));
    acts.push(Action::DelaySecs(ACTION_DELAY_SECS));
    proof {
        assert(acts@ =~= spec_start_craft(*p, *run));
    }
    acts
}

/// Emits the stop-craft event, then the handshake that closes the crafting
/// action.
pub fn stop_craft(p: &Profile, run: &RunState) -> (acts: Vec<Action>)
    ensures
        acts@ == spec_stop_craft(*p, *run),
{
    let mut acts: Vec<Action> = Vec::new();
    acts.push(Action::Emit(progress_event(run, Status::StoppingCraft)));
    acts.push(Action::Press(p.confirm));
    acts.push(Action::DelayMillis(KEY_DELAY_MILLIS));
    match p.cancel {
        KeySlot::Key(k) => {
            acts.push(Action::Press(k));
            acts.push(Action::DelayMillis(KEY_DELAY_MILLIS));
        },
        _ => {
            acts.push(Action::Emit(progress_event(run, Status::SkippedKey(SlotId::Cancel))));
        },
    }
    acts.push(Action::Press(p.confirm));
    acts.push(Action::DelayMillis(KEY_DELAY_MILLIS));
    acts.push(Action::DelaySecs(ACTION_DELAY_SECS));
    proof {
        assert(acts@ =~= spec_stop_craft(*p, *run));
    }
    acts
}

/// The renew-food script: close the crafting action, consume the food,
/// record the renewal, re-open the crafting action.
pub open spec fn spec_consume_food(p: Profile, run: RunState, now: u64) -> (Seq<Action>, RunState) {
    let run2 = RunState {
        food_count: (run.food_count + 1) as i32,
        food_last: Some(now),
        ..run
    };
    let key_acts = match p.food {
        KeySlot::Key(k) => spec_press(k),
        _ => Seq::<Action>::empty(),
    };
    (
        spec_stop_craft(p, run) + seq![Action::Emit(spec_event(run, Status::ConsumingFood))]
            + key_acts + seq![Action::DelaySecs(ACTION_DELAY_SECS)] + spec_start_craft(p, run2),
        run2,
    )
}

/// Renews the food effect: stop-craft, consume, count the renewal at clock
/// value `now`, start-craft again.
pub fn consume_food(p: &Profile, run: &mut RunState, now: u64) -> (acts: Vec<Action>)
    requires
        old(run).food_count < i32::MAX,
        p.food is Key,
    ensures
        acts@ == spec_consume_food(*p, *old(run), now).0,
        *final(run) == spec_consume_food(*p, *old(run), now).1,
{
    let mut acts = stop_craft(p, run);
    acts.push(Action::Emit(progress_event(run, Status::ConsumingFood)));
    match p.food {
        KeySlot::Key(k) => {
            acts.push(Action::Press(k));
            acts.push(Action::DelayMillis(KEY_DELAY_MILLIS));
        },
        _ => {
            proof {
                assert(false);
            }
        },
    }
    acts.push(Action::DelaySecs(ACTION_DELAY_SECS));
    run.increment_food(now);
    let mut tail = start_craft(p, run);
    acts.append(&mut tail);
    proof {
        assert(acts@ =~= spec_consume_food(*p, *old(run), now).0);
    }
    acts
}

/// The food decision: nothing when no food is configured; a surfaced skip
/// when the configured key does not resolve; otherwise a check event and,
/// when the renewal is due, the renew-food script.
pub open spec fn spec_check_food(p: Profile, run: RunState, now: u64) -> (Seq<Action>, RunState) {
    match p.food {
        KeySlot::Absent => (Seq::<Action>::empty(), run),
        KeySlot::Unresolvable => (
            seq![
                Action::Emit(spec_event(run, Status::CheckingFood)),
                Action::Emit(spec_event(run, Status::SkippedKey(SlotId::Food))),
            ],
            run,
        ),
        KeySlot::Key(k) => {
            let pre = seq![Action::Emit(spec_event(run, Status::CheckingFood))];
            if spec_renewal_due(run.food_last, p.food_interval, now) {
                (pre + spec_consume_food(p, run, now).0, spec_consume_food(p, run, now).1)
            } else {
                (pre, run)
            }
        },
    }
}

/// Checks whether the food effect needs renewal and renews it when due.
pub fn check_food(p: &Profile, run: &mut RunState, now: u64) -> (acts: Vec<Action>)
    requires
        old(run).food_count < i32::MAX,
    ensures
        acts@ == spec_check_food(*p, *old(run), now).0,
        *final(run) == spec_check_food(*p, *old(run), now).1,
{
    let mut acts: Vec<Action> = Vec::new();
    match p.food {
        KeySlot::Absent => {},
        KeySlot::Unresolvable => {
            acts.push(Action::Emit(progress_event(run, Status::CheckingFood)));
            acts.push(Action::Emit(progress_event(run, Status::SkippedKey(SlotId::Food))));
            proof {
                assert(acts@ =~= spec_check_food(*p, *old(run), now).0);
            }
        },
        KeySlot::Key(_) => {
            acts.push(Action::Emit(progress_event(run, Status::CheckingFood)));
            if renewal_due(run.food_last, p.food_interval, now) {
                let mut tail = consume_food(p, run, now);
                acts.append(&mut tail);
            }
            proof {
                assert(acts@ =~= spec_check_food(*p, *old(run), now).0);
            }
        },
    }
    acts
}

/// The renew-potion script, symmetric to the food one.
pub open spec fn spec_consume_potion(p: Profile, run: RunState, now: u64) -> (
    Seq<Action>,
    RunState,
) {
    let run2 = RunState {
        potion_count: (run.potion_count + 1) as i32,
        potion_last: Some(now),
        ..run
    };
    let key_acts = match p.potion {
        KeySlot::Key(k) => spec_press(k),
        _ => Seq::<Action>::empty(),
    };
    (
        spec_stop_craft(p, run) + seq![Action::Emit(spec_event(run, Status::ConsumingPotion))]
            + key_acts + seq![Action::DelaySecs(ACTION_DELAY_SECS)] + spec_start_craft(p, run2),
        run2,
    )
}

/// Renews the potion effect: stop-craft, consume, count the renewal at
/// clock value `now`, start-craft again.
pub fn consume_potion(p: &Profile, run: &mut RunState, now: u64) -> (acts: Vec<Action>)
    requires
        old(run).potion_count < i32::MAX,
        p.potion is Key,
    ensures
        acts@ == spec_consume_potion(*p, *old(run), now).0,
        *final(run) == spec_consume_potion(*p, *old(run), now).1,
{
    let mut acts = stop_craft(p, run);
    acts.push(Action::Emit(progress_event(run, Status::ConsumingPotion)));
    match p.potion {
        KeySlot::Key(k) => {
            acts.push(Action::Press(k));
            acts.push(Action::DelayMillis(KEY_DELAY_MILLIS));
        },
        _ => {
            proof {
                assert(false);
            }
        },
    }
    acts.push(Action::DelaySecs(ACTION_DELAY_SECS));
    run.increment_potion(now);
    let mut tail = start_craft(p, run);
    acts.append(&mut tail);
    proof {
        assert(acts@ =~= spec_consume_potion(*p, *old(run), now).0);
    }
    acts
}

/// The potion decision, gated on the potion key being configured and using
/// the potion's own last-renewed timestamp against the fixed interval.
pub open spec fn spec_check_potion(p: Profile, run: RunState, now: u64) -> (Seq<Action>, RunState) {
    match p.potion {
        KeySlot::Absent => (Seq::<Action>::empty(), run),
        KeySlot::Unresolvable => (
            seq![
                Action::Emit(spec_event(run, Status::CheckingPotion)),
                Action::Emit(spec_event(run, Status::SkippedKey(SlotId::Potion))),
            ],
            run,
        ),
        KeySlot::Key(k) => {
            let pre = seq![Action::Emit(spec_event(run, Status::CheckingPotion))];
            if spec_renewal_due(run.potion_last, POTION_INTERVAL_SECS, now) {
                (pre + spec_consume_potion(p, run, now).0, spec_consume_potion(p, run, now).1)
            } else {
                (pre, run)
            }
        },
    }
}

/// Checks whether the potion effect needs renewal and renews it when due.
pub fn check_potion(p: &Profile, run: &mut RunState, now: u64) -> (acts: Vec<Action>)
    requires
        old(run).potion_count < i32::MAX,
    ensures
        acts@ == spec_check_potion(*p, *old(run), now).0,
        *final(run) == spec_check_potion(*p, *old(run), now).1,
{
    let mut acts: Vec<Action> = Vec::new();
    match p.potion {
        KeySlot::Absent => {},
        KeySlot::Unresolvable => {
            acts.push(Action::Emit(progress_event(run, Status::CheckingPotion)));
            acts.push(Action::Emit(progress_event(run, Status::SkippedKey(SlotId::Potion))));
            proof {
                assert(acts@ =~= spec_check_potion(*p, *old(run), now).0);
            }
        },
        KeySlot::Key(_) => {
            acts.push(Action::Emit(progress_event(run, Status::CheckingPotion)));
            if renewal_due(run.potion_last, POTION_INTERVAL_SECS, now) {
                let mut tail = consume_potion(p, run, now);
                acts.append(&mut tail);
            }
            proof {
                assert(acts@ =~= spec_check_potion(*p, *old(run), now).0);
            }
        },
    }
    acts
}

/// One macro activation: event, press, inter-press delay, then the
/// configured hold that stands in for the in-game action's own completion
/// time. A mandatory slot that is absent is surfaced as skipped; an
/// optional absent slot is silently not part of the script.
pub open spec fn spec_activate_macro(
    m: MacroSlot,
    run: RunState,
    activating: Status,
    skipped: Status,
    mandatory: bool,
) -> Seq<Action> {
    match m.slot {
        KeySlot::Key(k) => seq![
            Action::Emit(spec_event(run, activating)),
            Action::Press(k),
            Action::DelayMillis(KEY_DELAY_MILLIS),
            Action::DelaySecs(m.hold_secs),
        ],
        KeySlot::Unresolvable => seq![Action::Emit(spec_event(run, skipped))],
        KeySlot::Absent => {
            if mandatory {
                seq![Action::Emit(spec_event(run, skipped))]
            } else {
                Seq::<Action>::empty()
            }
        },
    }
}

/// Activates one macro slot as [`spec_activate_macro`] describes.
pub fn activate_macro(
    m: &MacroSlot,
    run: &RunState,
    activating: Status,
    skipped: Status,
    mandatory: bool,
) -> (acts: Vec<Action>)
    ensures
        acts@ == spec_activate_macro(*m, *run, activating, skipped, mandatory),
{
    let mut acts: Vec<Action> = Vec::new();
    match m.slot {
        KeySlot::Key(k) => {
            acts.push(Action::Emit(progress_event(run, activating)));
            acts.push(Action::Press(k));
            acts.push(Action::DelayMillis(KEY_DELAY_MILLIS));
            acts.push(Action::DelaySecs(m.hold_secs));
        },
        KeySlot::Unresolvable => {
            acts.push(Action::Emit(progress_event(run, skipped)));
        },
        KeySlot::Absent => {
            if mandatory {
                acts.push(Action::Emit(progress_event(run, skipped)));
            }
        },
    }
    proof {
        assert(acts@ =~= spec_activate_macro(*m, *run, activating, skipped, mandatory));
    }
    acts
}

/// One full craft cycle: the action script and the run state after it.
pub open spec fn spec_cycle(p: Profile, run: RunState, now: u64) -> (Seq<Action>, RunState) {
    let food = spec_check_food(p, run, now);
    let potion = spec_check_potion(p, food.1, now);
    let r3 = potion.1;
    let r4 = RunState { completed: (r3.completed + 1) as i32, ..r3 };
    let stop_acts: Seq<Action> = if r4.completed >= p.target {
        seq![Action::SetActive(false), Action::SetCrafting(false)]
    } else {
        Seq::<Action>::empty()
    };
    (
        spec_start_craft(p, run) + food.0 + potion.0 + spec_activate_macro(
            p.macro1,
            r3,
            Status::ActivatingMacro1,
            Status::SkippedKey(SlotId::Macro1),
            true,
        ) + spec_activate_macro(
            p.macro2,
            r3,
            Status::ActivatingMacro2,
            Status::SkippedKey(SlotId::Macro2),
            false,
        ) + spec_activate_macro(
            p.macro3,
            r3,
            Status::ActivatingMacro3,
            Status::SkippedKey(SlotId::Macro3),
            false,
        ) + stop_acts + seq![Action::DelaySecs(ACTION_DELAY_SECS)],
        r4,
    )
}

/// Runs one craft cycle. The returned flag says whether the cycle reached
/// the target and therefore asked for both run-state flags to be cleared:
/// the auto-stop on completion, the only point where the orchestrator
/// itself clears the flags.
pub fn run_cycle(p: &Profile, run: &mut RunState, now: u64) -> (res: (Vec<Action>, bool))
    requires
        p.wf(),
        old(run).wf(),
        old(run).completed < p.target,
    ensures
        res.0@ == spec_cycle(*p, *old(run), now).0,
        *final(run) == spec_cycle(*p, *old(run), now).1,
        res.1 == (final(run).completed >= p.target),
        final(run).wf(),
        final(run).completed == old(run).completed + 1,
        final(run).food_count >= old(run).food_count,
        final(run).potion_count >= old(run).potion_count,
{
    let mut acts = start_craft(p, run);
    let mut food_acts = check_food(p, run, now);
    acts.append(&mut food_acts);
    let mut potion_acts = check_potion(p, run, now);
    acts.append(&mut potion_acts);
    let mut m1 = activate_macro(
        &p.macro1,
        run,
        Status::ActivatingMacro1,
        Status::SkippedKey(SlotId::Macro1),
        true,
    );
    acts.append(&mut m1);
    let mut m2 = activate_macro(
        &p.macro2,
        run,
        Status::ActivatingMacro2,
        Status::SkippedKey(SlotId::Macro2),
        false,
    );
    acts.append(&mut m2);
    let mut m3 = activate_macro(
        &p.macro3,
        run,
        Status::ActivatingMacro3,
        Status::SkippedKey(SlotId::Macro3),
        false,
    );
    acts.append(&mut m3);
    run.increment_amount();
    let stopped = run.completed >= p.target;
    if stopped {
        acts.push(Action::SetActive(false));
        acts.push(Action::SetCrafting(false));
    }
    acts.push(Action::DelaySecs(ACTION_DELAY_SECS));
    proof {
        assert(acts@ =~= spec_cycle(*p, *old(run), now).0);
    }
    (acts, stopped)
}

/// The countdown before a cycle spell begins: one event per second, from
/// five down to zero, giving the operator time to focus the target
/// application.
pub open spec fn spec_countdown(run: RunState) -> Seq<Action> {
    seq![
        Action::Emit(spec_event(run, Status::StartingIn(5))),
        Action::DelaySecs(1),
        Action::Emit(spec_event(run, Status::StartingIn(4))),
        Action::DelaySecs(1),
        Action::Emit(spec_event(run, Status::StartingIn(3))),
        Action::DelaySecs(1),
        Action::Emit(spec_event(run, Status::StartingIn(2))),
        Action::DelaySecs(1),
        Action::Emit(spec_event(run, Status::StartingIn(1))),
        Action::DelaySecs(1),
        Action::Emit(spec_event(run, Status::StartingIn(0))),
    ]
}

/// Emits the countdown script.
pub fn countdown(run: &RunState) -> (acts: Vec<Action>)
    ensures
        acts@ == spec_countdown(*run),
{
    let mut acts: Vec<Action> = Vec::new();
    acts.push(Action::Emit(progress_event(run, Status::StartingIn(5))));
    acts.push(Action::DelaySecs(1));
    acts.push(Action::Emit(progress_event(run, Status::StartingIn(4))));
    acts.push(Action::DelaySecs(1));
    acts.push(Action::Emit(progress_event(run, Status::StartingIn(3))));
    acts.push(Action::DelaySecs(1));
    acts.push(Action::Emit(progress_event(run, Status::StartingIn(2))));
    acts.push(Action::DelaySecs(1));
    acts.push(Action::Emit(progress_event(run, Status::StartingIn(1))));
    acts.push(Action::DelaySecs(1));
    acts.push(Action::Emit(progress_event(run, Status::StartingIn(0))));
    proof {
        assert(acts@ =~= spec_countdown(*run));
    }
    acts
}

} // verus!
