//! The validated per-session profile the orchestrator works from.
//!
//! A raw [`Config`](crate::config::Config) record names keys by strings and
//! marks optional entries with empty strings. Building a [`Profile`] makes
//! each slot's state explicit: configured with a resolved key, configured
//! with a name that does not resolve, or absent. A missing target count or
//! an unresolvable confirm key is fatal: no cycle can run at all, so the
//! build fails and the session must not start.

use vstd::prelude::*;

use crate::config::Config;
use crate::keys::{spec_resolve, resolve_key, KeyId};

verus! {

/// Renewal interval of the potion effect, in seconds; fixed and shared by
/// all profiles.
pub const POTION_INTERVAL_SECS: u64 = 900;

/// The state of one configured key slot.
#[derive(Clone, Copy, PartialEq, Eq, Structural, Debug)]
pub enum KeySlot {
    /// Not configured (the config record left the name empty).
    Absent,
    /// Configured, but the name resolves to no key; the affected action is
    /// skipped and the failure surfaced as a progress event.
    Unresolvable,
    /// Configured with a resolved key.
    Key(KeyId),
}

/// One macro definition: a key to press and how long the in-game action it
/// starts takes to finish, in seconds.
#[derive(Clone, Copy, PartialEq, Eq, Structural, Debug)]
pub struct MacroSlot {
    pub slot: KeySlot,
    pub hold_secs: u64,
}

/// A configuration failure that prevents any cycle from starting.
#[derive(Clone, Copy, PartialEq, Eq, Structural, Debug)]
pub enum ConfigError {
    /// The target repeat count is missing (not at least one).
    MissingTarget,
    /// The confirm key name resolves to no key.
    UnresolvableConfirm,
}

/// The validated profile, immutable for the duration of one cycle.
#[derive(Clone, Copy, PartialEq, Eq, Structural, Debug)]
pub struct Profile {
    /// How many cycles to complete before stopping; at least one.
    pub target: i32,
    /// The confirm key; resolving it is a precondition of any session.
    pub confirm: KeyId,
    /// The cancel key, used by the stop-craft handshake.
    pub cancel: KeySlot,
    /// The food key, if a food consumable is configured.
    pub food: KeySlot,
    /// Renewal interval of the food effect, in seconds.
    pub food_interval: u64,
    /// The potion key, if a potion consumable is configured; its renewal
    /// interval is the fixed [`POTION_INTERVAL_SECS`].
    pub potion: KeySlot,
    /// The first macro; every cycle activates it.
    pub macro1: MacroSlot,
    /// The second macro, independently optional.
    pub macro2: MacroSlot,
    /// The third macro, independently optional.
    pub macro3: MacroSlot,
}

impl Profile {
    /// Validity: the target count is at least one.
    pub open spec fn wf(self) -> bool {
        self.target >= 1
    }
}

/// The slot a raw key name maps to: empty means absent, otherwise the name
/// either resolves or is marked unresolvable.
pub open spec fn spec_slot(name: Seq<char>) -> KeySlot {
    if name.len() == 0 {
        KeySlot::Absent
    } else {
        match spec_resolve(name) {
            Some(k) => KeySlot::Key(k),
            None => KeySlot::Unresolvable,
        }
    }
}

fn slot_of(name: &str) -> (r: KeySlot)
    ensures
        r == spec_slot(name@),
{
    if name.is_empty() {
        KeySlot::Absent
    } else {
        match resolve_key(name) {
            Some(k) => KeySlot::Key(k),
            None => KeySlot::Unresolvable,
        }
    }
}

/// A negative configured food interval is treated as zero: due on every
/// check.
pub open spec fn spec_food_interval(d: i64) -> u64 {
    if d < 0 {
        0
    } else {
        d as u64
    }
}

/// The profile a config record builds to, or the fatal error that stops it.
pub open spec fn spec_build_profile(c: Config) -> Result<Profile, ConfigError> {
    if c.amount < 1 {
        Err(ConfigError::MissingTarget)
    } else {
        match spec_resolve(c.confirm@) {
            None => Err(ConfigError::UnresolvableConfirm),
            Some(confirm) => Ok(
                Profile {
                    target: c.amount,
                    confirm,
                    cancel: spec_slot(c.cancel@),
                    food: spec_slot(c.food@),
                    food_interval: spec_food_interval(c.food_duration),
                    potion: spec_slot(c.potion@),
                    macro1: MacroSlot { slot: spec_slot(c.macro1@), hold_secs: c.macro1_duration },
                    macro2: MacroSlot { slot: spec_slot(c.macro2@), hold_secs: c.macro2_duration },
                    macro3: MacroSlot { slot: spec_slot(c.macro3@), hold_secs: c.macro3_duration },
                },
            ),
        }
    }
}

/// Validates a config record into a profile. Fails exactly when the target
/// count is missing or the confirm key does not resolve; every other
/// configuration problem is kept as an `Unresolvable` slot and surfaced
/// when the affected action would run.
pub fn build_profile(c: &Config) -> (r: Result<Profile, ConfigError>)
    ensures
        r == spec_build_profile(*c),
        r matches Ok(p) ==> p.wf(),
{
    if c.amount < 1 {
        return Err(ConfigError::MissingTarget);
    }
    let confirm = match resolve_key(c.confirm.as_str()) {
        None => {
            return Err(ConfigError::UnresolvableConfirm);
        },
        Some(k) => k,
    };
    let food_interval: u64 = if c.food_duration < 0 {
        0
    } else {
        c.food_duration as u64
    };
    Ok(
        Profile {
            target: c.amount,
            confirm,
            cancel: slot_of(c.cancel.as_str()),
            food: slot_of(c.food.as_str()),
            food_interval,
            potion: slot_of(c.potion.as_str()),
            macro1: MacroSlot { slot: slot_of(c.macro1.as_str()), hold_secs: c.macro1_duration },
            macro2: MacroSlot { slot: slot_of(c.macro2.as_str()), hold_secs: c.macro2_duration },
            macro3: MacroSlot { slot: slot_of(c.macro3.as_str()), hold_secs: c.macro3_duration },
        },
    )
}

impl ConfigError {
    /// What a description of this error says.
    pub open spec fn spec_describe(self) -> Seq<char> {
        match self {
            ConfigError::MissingTarget => "No target amount is configured"@,
            ConfigError::UnresolvableConfirm => "The confirm key is not a known key"@,
        }
    }

    /// A short human-readable description for the control surface.
    pub fn describe(&self) -> (r: &'static str)
        ensures
            r@ == self.spec_describe(),
    {
        match self {
            ConfigError::MissingTarget => "No target amount is configured",
            ConfigError::UnresolvableConfirm => "The confirm key is not a known key",
        }
    }
}

} // verus!
