//! The orchestrator loop, one observable step at a time.
//!
//! The loop of the background thread is a state machine with a single
//! polling point: each step reads both run-state flags and the clock once,
//! and returns the script of actions to perform before the next poll. The
//! binary runs the loop — performing presses, sleeps, event sends and flag
//! writes, and handing a freshly loaded profile over whenever the machine
//! asks for one.
//!
//! A session runs from one profile load to the point `active` is observed
//! false. Pausing (clearing `crafting`) keeps every counter; stopping
//! (clearing `active`) ends the session, and the next one starts from a
//! fresh profile with all counters at zero.

use vstd::prelude::*;

use crate::events::{Action, SlotId, Status};
use crate::profile::Profile;
use crate::sequencer::{
    countdown, run_cycle, spec_activate_macro, spec_check_food, spec_check_potion, spec_countdown,
    spec_cycle, spec_event, spec_start_craft, ACTION_DELAY_SECS,
};
use crate::state::RunState;

verus! {

/// Where the orchestrator stands between two polls.
#[derive(Clone, Copy, PartialEq, Eq, Structural, Debug)]
pub enum Phase {
    /// A fresh session must begin: the binary loads the configuration and
    /// calls [`Session::begin_session`]. Counters reset at that moment.
    NeedProfile,
    /// Mid-session reload after leaving crafting: the binary reloads the
    /// configuration and calls [`Session::reload`], so that operator edits
    /// take effect without a restart. Counters are kept.
    NeedReload,
    /// The session is live; [`Session::step`] decides what happens.
    Active,
}

/// The orchestrator's whole state between two polls.
#[derive(Clone, Copy, Debug)]
pub struct Session {
    pub phase: Phase,
    /// Whether the session has been paused since it last crafted; set when
    /// crafting is observed clear, cleared again by the resume countdown.
    pub paused: bool,
    /// Whether a countdown must run before the next cycle: once at session
    /// start, and once after every pause.
    pub countdown_pending: bool,
    /// The profile of the current session; present in every phase but
    /// [`Phase::NeedProfile`].
    pub profile: Option<Profile>,
    /// The counters and renewal timestamps of the current session.
    pub run: RunState,
}

impl Session {
    /// Validity between steps.
    pub open spec fn wf(self) -> bool {
        &&& self.run.wf()
        &&& !(self.phase is NeedProfile) ==> self.profile is Some && self.profile.unwrap().wf()
    }

    /// The state a fresh orchestrator starts in: no session yet.
    pub open spec fn spec_new() -> Session {
        Session {
            phase: Phase::NeedProfile,
            paused: false,
            countdown_pending: true,
            profile: None,
            run: RunState::spec_initial(),
        }
    }

    /// A fresh orchestrator, waiting for its first profile.
    pub fn new() -> (s: Session)
        ensures
            s == Session::spec_new(),
            s.wf(),
    {
        Session {
            phase: Phase::NeedProfile,
            paused: false,
            countdown_pending: true,
            profile: None,
            run: RunState::new(),
        }
    }

    /// The state a new session begins in: the given profile, every counter
    /// at zero, a countdown owed before the first cycle.
    pub open spec fn spec_begin(p: Profile) -> Session {
        Session {
            phase: Phase::Active,
            paused: false,
            countdown_pending: true,
            profile: Some(p),
            run: RunState::spec_initial(),
        }
    }

    /// Begins a new session on a freshly loaded profile, discarding
    /// whatever a previous session had accumulated.
    pub fn begin_session(&mut self, p: Profile)
        requires
            p.wf(),
        ensures
            *final(self) == Session::spec_begin(p),
            final(self).wf(),
    {
        self.phase = Phase::Active;
        self.paused = false;
        self.countdown_pending = true;
        self.profile = Some(p);
        self.run = RunState::new();
    }

    /// The state after a mid-session reload: only the profile changes.
    pub open spec fn spec_reload(s: Session, p: Profile) -> Session {
        Session { phase: Phase::Active, profile: Some(p), ..s }
    }

    /// Installs a freshly reloaded profile mid-session, keeping every
    /// counter and timestamp: a pause is not a stop.
    pub fn reload(&mut self, p: Profile)
        requires
            old(self).wf(),
            old(self).phase is NeedReload,
            p.wf(),
        ensures
            *final(self) == Session::spec_reload(*old(self), p),
            final(self).wf(),
    {
        self.phase = Phase::Active;
        self.profile = Some(p);
    }

    /// What one poll does: the state after it and the script it returns.
    ///
    /// With `active` observed false the session ends. While crafting, a
    /// pending countdown runs first; then each poll runs one full cycle,
    /// until the target is reached and both flags are cleared. While
    /// paused, the first poll emits the waiting event and asks for a
    /// reload; later polls do nothing.
    pub open spec fn spec_step(s: Session, active: bool, crafting: bool, now: u64) -> (
        Session,
        Seq<Action>,
    ) {
        match s.phase {
            Phase::NeedProfile => (s, Seq::<Action>::empty()),
            Phase::NeedReload => (s, Seq::<Action>::empty()),
            Phase::Active => {
                if !active {
                    (Session { phase: Phase::NeedProfile, ..s }, Seq::<Action>::empty())
                } else if crafting {
                    if s.countdown_pending {
                        (
                            Session { countdown_pending: false, paused: false, ..s },
                            spec_countdown(s.run),
                        )
                    } else if s.run.completed < s.profile.unwrap().target {
                        let c = spec_cycle(s.profile.unwrap(), s.run, now);
                        (Session { run: c.1, ..s }, c.0)
                    } else {
                        (s, seq![Action::SetActive(false), Action::SetCrafting(false)])
                    }
                } else {
                    if !s.paused {
                        (
                            Session {
                                paused: true,
                                countdown_pending: true,
                                phase: Phase::NeedReload,
                                ..s
                            },
                            seq![Action::Emit(spec_event(s.run, Status::Waiting))],
                        )
                    } else {
                        (s, Seq::<Action>::empty())
                    }
                }
            },
        }
    }

    /// One poll of the orchestrator loop: observes both flags and the
    /// clock once, steps the machine, and returns the script to perform.
    /// Counters never decrease across a step; only
    /// [`Session::begin_session`] resets them.
    pub fn step(&mut self, active: bool, crafting: bool, now: u64) -> (acts: Vec<Action>)
        requires
            old(self).wf(),
        ensures
            *final(self) == Session::spec_step(*old(self), active, crafting, now).0,
            acts@ == Session::spec_step(*old(self), active, crafting, now).1,
            final(self).wf(),
            final(self).profile == old(self).profile,
            final(self).run.completed >= old(self).run.completed,
            final(self).run.food_count >= old(self).run.food_count,
            final(self).run.potion_count >= old(self).run.potion_count,
    {
        match self.phase {
            Phase::NeedProfile => Vec::new(),
            Phase::NeedReload => Vec::new(),
            Phase::Active => {
                if !active {
                    self.phase = Phase::NeedProfile;
                    Vec::new()
                } else if crafting {
                    if self.countdown_pending {
                        self.countdown_pending = false;
                        self.paused = false;
                        countdown(&self.run)
                    } else {
                        let p = self.profile.unwrap();
                        if self.run.completed < p.target {
                            let (acts, _stopped) = run_cycle(&p, &mut self.run, now);
                            acts
                        } else {
                            let mut acts: Vec<Action> = Vec::new();
                            acts.push(Action::SetActive(false));
                            acts.push(Action::SetCrafting(false));
                            proof {
                                assert(acts@ =~= Session::spec_step(
                                    *old(self),
                                    active,
                                    crafting,
                                    now,
                                ).1);
                            }
                            acts
                        }
                    }
                } else {
                    if !self.paused {
                        self.paused = true;
                        self.countdown_pending = true;
                        self.phase = Phase::NeedReload;
                        let mut acts: Vec<Action> = Vec::new();
                        acts.push(
                            Action::Emit(
                                crate::sequencer::progress_event(&self.run, Status::Waiting),
                            ),
                        );
                        proof {
                            assert(acts@ =~= Session::spec_step(*old(self), active, crafting, now).1);
                        }
                        acts
                    } else {
                        Vec::new()
                    }
                }
            },
        }
    }
}

/// Facts one cycle guarantees of the run state, at the specification
/// level: exactly one more completed cycle, no counter lowered, validity
/// kept.
pub proof fn lemma_cycle_state(p: Profile, run: RunState, now: u64)
    requires
        p.wf(),
        run.wf(),
        run.completed < p.target,
    ensures
        spec_cycle(p, run, now).1.wf(),
        spec_cycle(p, run, now).1.completed == run.completed + 1,
        spec_cycle(p, run, now).1.food_count >= run.food_count,
        spec_cycle(p, run, now).1.potion_count >= run.potion_count,
{
}

/// The session after consecutive crafting polls, both flags held set, one
/// cycle per clock reading.
pub open spec fn spec_run_cycles(s: Session, nows: Seq<u64>) -> Session
    decreases nows.len(),
{
    if nows.len() == 0 {
        s
    } else {
        spec_run_cycles(Session::spec_step(s, true, true, nows[0]).0, nows.drop_first())
    }
}

/// Completion monotonicity: after N successful cycles with no pause and
/// no stop, the completed count has risen by exactly N — one per poll —
/// and by the ensures of [`Session::step`] no step ever lowers a counter
/// within a session.
pub proof fn lemma_completion_monotonic(s: Session, nows: Seq<u64>)
    requires
        s.wf(),
        s.phase is Active,
        !s.countdown_pending,
        s.run.completed + nows.len() <= s.profile.unwrap().target,
    ensures
        spec_run_cycles(s, nows).run.completed == s.run.completed + nows.len(),
    decreases nows.len(),
{
    if nows.len() > 0 {
        let p = s.profile.unwrap();
        lemma_cycle_state(p, s.run, nows[0]);
        let s1 = Session::spec_step(s, true, true, nows[0]).0;
        lemma_completion_monotonic(s1, nows.drop_first());
    }
}

/// Auto-stop on completion: the cycle that reaches the target asks, at
/// the end of its own script and before the inter-cycle delay, for both
/// flags to be cleared; and a poll that then observes `active` clear
/// performs nothing and keeps every counter — no further cycle starts
/// before a new session begins.
pub proof fn lemma_auto_stop(s: Session, now: u64, crafting2: bool, now2: u64)
    requires
        s.wf(),
        s.phase is Active,
        !s.countdown_pending,
        s.run.completed + 1 == s.profile.unwrap().target,
    ensures
        ({
            let acts = Session::spec_step(s, true, true, now).1;
            &&& acts.len() >= 3
            &&& acts[acts.len() - 3] == Action::SetActive(false)
            &&& acts[acts.len() - 2] == Action::SetCrafting(false)
            &&& acts[acts.len() - 1] == Action::DelaySecs(ACTION_DELAY_SECS)
        }),
        Session::spec_step(s, true, true, now).0.run.completed == s.profile.unwrap().target,
        ({
            let s1 = Session::spec_step(s, true, true, now).0;
            let after = Session::spec_step(s1, false, crafting2, now2);
            after.1 == Seq::<Action>::empty() && after.0.run == s1.run
        }),
{
    let p = s.profile.unwrap();
    lemma_cycle_state(p, s.run, now);
    let c = spec_cycle(p, s.run, now);
    let food = spec_check_food(p, s.run, now);
    let potion = spec_check_potion(p, food.1, now);
    let body = spec_start_craft(p, s.run) + food.0 + potion.0 + spec_activate_macro(
        p.macro1,
        potion.1,
        Status::ActivatingMacro1,
        Status::SkippedKey(SlotId::Macro1),
        true,
    ) + spec_activate_macro(
        p.macro2,
        potion.1,
        Status::ActivatingMacro2,
        Status::SkippedKey(SlotId::Macro2),
        false,
    ) + spec_activate_macro(
        p.macro3,
        potion.1,
        Status::ActivatingMacro3,
        Status::SkippedKey(SlotId::Macro3),
        false,
    );
    let tail = seq![Action::SetActive(false), Action::SetCrafting(false)];
    let delay = seq![Action::DelaySecs(ACTION_DELAY_SECS)];
    assert(c.0 == body + tail + delay);
    assert(c.0.len() == body.len() + 3);
    assert(c.0[c.0.len() - 3] == Action::SetActive(false));
    assert(c.0[c.0.len() - 2] == Action::SetCrafting(false));
    assert(c.0[c.0.len() - 1] == Action::DelaySecs(ACTION_DELAY_SECS));
}

/// Pause preserves state: the poll that observes `crafting` clear emits
/// one waiting event and keeps every counter; after the mid-session
/// reload, the resume poll runs exactly one countdown — counters still
/// kept — and the poll after that starts the next cycle directly, with no
/// second countdown.
pub proof fn lemma_pause_resume(s: Session, p: Profile, n1: u64, n2: u64, n3: u64)
    requires
        s.wf(),
        s.phase is Active,
        !s.paused,
        p.wf(),
        s.run.completed < p.target,
    ensures
        ({
            let pause = Session::spec_step(s, true, false, n1);
            &&& pause.1 == seq![Action::Emit(spec_event(s.run, Status::Waiting))]
            &&& pause.0.run == s.run
            &&& pause.0.phase is NeedReload
        }),
        ({
            let s1 = Session::spec_step(s, true, false, n1).0;
            let s2 = Session::spec_reload(s1, p);
            let resume = Session::spec_step(s2, true, true, n2);
            &&& s2.run == s.run
            &&& resume.1 == spec_countdown(s.run)
            &&& resume.0.run == s.run
            &&& !resume.0.countdown_pending
            &&& Session::spec_step(resume.0, true, true, n3).1 == spec_cycle(p, s.run, n3).0
        }),
{
}

/// Stop resets state: a poll that observes `active` clear performs
/// nothing and ends the session; the next session, begun on a freshly
/// loaded profile, starts with every counter at zero, no renewal
/// recorded, and the countdown owed again.
pub proof fn lemma_stop_resets(s: Session, crafting: bool, now: u64, p: Profile)
    requires
        s.wf(),
        s.phase is Active,
    ensures
        Session::spec_step(s, false, crafting, now).1 == Seq::<Action>::empty(),
        Session::spec_step(s, false, crafting, now).0.phase is NeedProfile,
        Session::spec_step(s, false, crafting, now).0.run == s.run,
        Session::spec_begin(p).run == RunState::spec_initial(),
        Session::spec_begin(p).profile == Some(p),
        Session::spec_begin(p).countdown_pending,
{
}

} // verus!
