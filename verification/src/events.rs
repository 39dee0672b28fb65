//! Progress events and the actions an orchestrator step asks for.
//!
//! The orchestrator never performs work itself: each step returns an
//! ordered script of actions. The binary performs them in order — pressing
//! a key, sleeping, forwarding a progress event to the control surface,
//! writing a run-state flag.

use vstd::prelude::*;

use crate::keys::KeyId;
use crate::profile::ConfigError;

verus! {

/// Which configured slot a skipped action belongs to.
#[derive(Clone, Copy, PartialEq, Eq, Structural, Debug)]
pub enum SlotId {
    Food,
    Potion,
    Cancel,
    Macro1,
    Macro2,
    Macro3,
}

/// What the orchestrator is about to do, as shown to the operator.
#[derive(Clone, Copy, PartialEq, Eq, Structural, Debug)]
pub enum Status {
    StartingCraft,
    StoppingCraft,
    CheckingFood,
    ConsumingFood,
    CheckingPotion,
    ConsumingPotion,
    ActivatingMacro1,
    ActivatingMacro2,
    ActivatingMacro3,
    /// Idle between crafting spells.
    Waiting,
    /// Countdown before the first cycle: the seconds left.
    StartingIn(u8),
    /// A configured action was skipped because its key slot is absent or
    /// does not resolve.
    SkippedKey(SlotId),
    /// The configuration cannot start any cycle at all; the session is
    /// halted.
    ConfigFailure(ConfigError),
}

/// A snapshot of progress, sent to the control surface before each visible
/// action or decision, carrying the state as of immediately before it.
#[derive(Clone, Copy, PartialEq, Eq, Structural, Debug)]
pub struct ProgressEvent {
    pub completed: i32,
    pub food_count: i32,
    pub potion_count: i32,
    pub status: Status,
}

/// One unit of outside work the binary performs on the orchestrator's
/// behalf, in script order.
#[derive(Clone, Copy, PartialEq, Eq, Structural, Debug)]
pub enum Action {
    /// Forward a progress event to the control surface.
    Emit(ProgressEvent),
    /// Simulate one press-and-release of a key.
    Press(KeyId),
    /// Sleep for the given number of milliseconds.
    DelayMillis(u64),
    /// Sleep for the given number of seconds.
    DelaySecs(u64),
    /// Write the `active` run-state flag.
    SetActive(bool),
    /// Write the `crafting` run-state flag.
    SetCrafting(bool),
}

/// The text a status is displayed as.
pub open spec fn spec_status_text(s: Status) -> Seq<char> {
    match s {
        Status::StartingCraft => "Starting craft..."@,
        Status::StoppingCraft => "Stopping craft..."@,
        Status::CheckingFood => "Checking food..."@,
        Status::ConsumingFood => "Consuming food..."@,
        Status::CheckingPotion => "Checking potion..."@,
        Status::ConsumingPotion => "Consuming potion..."@,
        Status::ActivatingMacro1 => "Activating Macro 1..."@,
        Status::ActivatingMacro2 => "Activating Macro 2..."@,
        Status::ActivatingMacro3 => "Activating Macro 3..."@,
        Status::Waiting => "Waiting..."@,
        Status::StartingIn(k) => match k {
            5u8 => "Starting in 5..."@,
            4u8 => "Starting in 4..."@,
            3u8 => "Starting in 3..."@,
            2u8 => "Starting in 2..."@,
            1u8 => "Starting in 1..."@,
            0u8 => "Starting in 0..."@,
            _ => "Starting..."@,
        },
        Status::SkippedKey(slot) => match slot {
            SlotId::Food => "Skipping food: key not configured..."@,
            SlotId::Potion => "Skipping potion: key not configured..."@,
            SlotId::Cancel => "Skipping cancel: key not configured..."@,
            SlotId::Macro1 => "Skipping Macro 1: key not configured..."@,
            SlotId::Macro2 => "Skipping Macro 2: key not configured..."@,
            SlotId::Macro3 => "Skipping Macro 3: key not configured..."@,
        },
        Status::ConfigFailure(e) => match e {
            ConfigError::MissingTarget => "No target amount is configured"@,
            ConfigError::UnresolvableConfirm => "The confirm key is not a known key"@,
        },
    }
}

impl Status {
    /// The display text of this status.
    pub fn text(&self) -> (r: &'static str)
        ensures
            r@ == spec_status_text(*self),
    {
        match self {
            Status::StartingCraft => "Starting craft...",
            Status::StoppingCraft => "Stopping craft...",
            Status::CheckingFood => "Checking food...",
            Status::ConsumingFood => "Consuming food...",
            Status::CheckingPotion => "Checking potion...",
            Status::ConsumingPotion => "Consuming potion...",
            Status::ActivatingMacro1 => "Activating Macro 1...",
            Status::ActivatingMacro2 => "Activating Macro 2...",
            Status::ActivatingMacro3 => "Activating Macro 3...",
            Status::Waiting => "Waiting...",
            Status::StartingIn(k) => match k {
                5u8 => "Starting in 5...",
                4u8 => "Starting in 4...",
                3u8 => "Starting in 3...",
                2u8 => "Starting in 2...",
                1u8 => "Starting in 1...",
                0u8 => "Starting in 0...",
                _ => "Starting...",
            },
            Status::SkippedKey(slot) => match slot {
                SlotId::Food => "Skipping food: key not configured...",
                SlotId::Potion => "Skipping potion: key not configured...",
                SlotId::Cancel => "Skipping cancel: key not configured...",
                SlotId::Macro1 => "Skipping Macro 1: key not configured...",
                SlotId::Macro2 => "Skipping Macro 2: key not configured...",
                SlotId::Macro3 => "Skipping Macro 3: key not configured...",
            },
            Status::ConfigFailure(e) => match e {
                ConfigError::MissingTarget => "No target amount is configured",
                ConfigError::UnresolvableConfirm => "The confirm key is not a known key",
            },
        }
    }
}

} // verus!
