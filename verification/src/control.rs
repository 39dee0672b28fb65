//! The control surface's own state and decisions.
//!
//! The foreground thread owns the display state: the tab strip, the
//! settings read from the configuration, and the progress counters as last
//! reported. Its decisions — which tab to show, which flag writes a
//! pressed key asks for — are pure; polling the keyboard and drawing the
//! terminal stay in the binary.

use vstd::prelude::*;

use crate::config::{find_last_used, Config};
use crate::events::ProgressEvent;
use crate::keys::KeyId;

verus! {

/// The display state of the control surface.
#[derive(Clone, Debug)]
pub struct App {
    pub tabs: Vec<String>,
    pub index: usize,
    // Settings
    pub name: String,
    pub last_used: i32,
    // Program settings
    pub current_amount: i32,
    pub max_amount: i32,
    pub start_pause: String,
    pub stop: String,
    // Consumables
    pub food: String,
    pub food_count: i32,
    pub food_duration: i64,
    pub potion: String,
    pub potion_count: i32,
    // In-game hotkeys
    pub confirm: String,
    pub cancel: String,
    pub macro1: String,
    pub macro1_duration: u64,
    pub macro2: String,
    pub macro2_duration: u64,
    pub macro3: String,
    pub macro3_duration: u64,
}

/// The display state with one config record's settings applied; the
/// progress counters and the tab strip are untouched.
pub open spec fn spec_applied(a: App, c: Config) -> App {
    App {
        name: c.name,
        last_used: c.id,
        max_amount: c.amount,
        start_pause: c.start_pause,
        stop: c.stop,
        food: c.food,
        food_duration: c.food_duration,
        potion: c.potion,
        macro1: c.macro1,
        macro1_duration: c.macro1_duration,
        macro2: c.macro2,
        macro2_duration: c.macro2_duration,
        macro3: c.macro3,
        macro3_duration: c.macro3_duration,
        confirm: c.confirm,
        cancel: c.cancel,
        ..a
    }
}

impl App {
    /// The fresh display state, set up from the first stored config
    /// record: two tabs, the first selected, every counter at zero.
    pub fn new(c: &Config) -> (a: App)
        ensures
            a.tabs@.len() == 2,
            a.tabs@[0]@ == "Home"@,
            a.tabs@[1]@ == "Config"@,
            a.index == 0,
            a.current_amount == 0,
            a.food_count == 0,
            a.potion_count == 0,
            a.name == c.name,
            a.last_used == c.id,
            a.max_amount == c.amount,
            a.start_pause == c.start_pause,
            a.stop == c.stop,
            a.food == c.food,
            a.food_duration == c.food_duration,
            a.potion == c.potion,
            a.confirm == c.confirm,
            a.cancel == c.cancel,
            a.macro1 == c.macro1,
            a.macro1_duration == c.macro1_duration,
            a.macro2 == c.macro2,
            a.macro2_duration == c.macro2_duration,
            a.macro3 == c.macro3,
            a.macro3_duration == c.macro3_duration,
    {
        let mut tabs: Vec<String> = Vec::new();
        tabs.push(String::from_str("Home"));
        tabs.push(String::from_str("Config"));
        App {
            tabs,
            index: 0,
            name: c.name.clone(),
            last_used: c.id,
            current_amount: 0,
            max_amount: c.amount,
            start_pause: c.start_pause.clone(),
            stop: c.stop.clone(),
            food: c.food.clone(),
            food_count: 0,
            food_duration: c.food_duration,
            potion: c.potion.clone(),
            potion_count: 0,
            confirm: c.confirm.clone(),
            cancel: c.cancel.clone(),
            macro1: c.macro1.clone(),
            macro1_duration: c.macro1_duration,
            macro2: c.macro2.clone(),
            macro2_duration: c.macro2_duration,
            macro3: c.macro3.clone(),
            macro3_duration: c.macro3_duration,
        }
    }

    /// Selects the next tab, wrapping around.
    pub fn next(&mut self)
        requires
            old(self).index < old(self).tabs@.len(),
        ensures
            *final(self) == (App {
                index: (((old(self).index + 1) as int % old(self).tabs@.len() as int) as usize),
                ..*old(self)
            }),
    {
        let n = self.tabs.len();
        self.index = (self.index + 1) % n;
    }

    /// Selects the previous tab, wrapping around.
    pub fn previous(&mut self)
        requires
            old(self).index < old(self).tabs@.len(),
        ensures
            *final(self) == (App {
                index: (if old(self).index > 0 {
                    (old(self).index - 1) as usize
                } else {
                    (old(self).tabs@.len() - 1) as usize
                }),
                ..*old(self)
            }),
    {
        if self.index > 0 {
            self.index = self.index - 1;
        } else {
            self.index = self.tabs.len() - 1;
        }
    }

    /// Counts one more completed cycle on the display.
    pub fn increment_amount(&mut self)
        requires
            old(self).current_amount < i32::MAX,
        ensures
            *final(self) == (App {
                current_amount: (old(self).current_amount + 1) as i32,
                ..*old(self)
            }),
    {
        self.current_amount = self.current_amount + 1;
    }

    /// Changes the display state's settings to match the config records:
    /// the first record marked last used wins; when none is marked,
    /// nothing changes.
    pub fn update(&mut self, configs: &Vec<Config>)
        ensures
            (forall|k: int| 0 <= k < configs@.len() ==> !configs@[k].last_used) ==> *final(self)
                == *old(self),
            (exists|k: int| 0 <= k < configs@.len() && configs@[k].last_used) ==> exists|i: int|
                {
                    &&& 0 <= i < configs@.len()
                    &&& configs@[i].last_used
                    &&& (forall|k: int| 0 <= k < i ==> !configs@[k].last_used)
                    &&& *final(self) == spec_applied(*old(self), configs@[i])
                },
    {
        match find_last_used(configs) {
            None => {},
            Some(i) => {
                let c = &configs[i];
                self.name = c.name.clone();
                self.last_used = c.id;
                self.max_amount = c.amount;
                self.start_pause = c.start_pause.clone();
                self.stop = c.stop.clone();
                self.food = c.food.clone();
                self.food_duration = c.food_duration;
                self.potion = c.potion.clone();
                self.macro1 = c.macro1.clone();
                self.macro1_duration = c.macro1_duration;
                self.macro2 = c.macro2.clone();
                self.macro2_duration = c.macro2_duration;
                self.macro3 = c.macro3.clone();
                self.macro3_duration = c.macro3_duration;
                self.confirm = c.confirm.clone();
                self.cancel = c.cancel.clone();
                proof {
                    assert(*self == spec_applied(*old(self), configs@[i as int]));
                }
            },
        }
    }

    /// Applies one received progress event to the displayed counters.
    pub fn apply_event(&mut self, ev: &ProgressEvent)
        ensures
            *final(self) == (App {
                current_amount: ev.completed,
                food_count: ev.food_count,
                potion_count: ev.potion_count,
                ..*old(self)
            }),
    {
        self.current_amount = ev.completed;
        self.food_count = ev.food_count;
        self.potion_count = ev.potion_count;
    }
}

/// A key event as the control surface classifies it.
#[derive(Clone, Copy, PartialEq, Eq, Structural, Debug)]
pub enum UiKey {
    /// A key that has a key identifier: a character or a named key.
    Pressed(KeyId),
    /// The key bound to switching to the next tab.
    NextTab,
    /// The key bound to switching to the previous tab.
    PrevTab,
    /// Any other key.
    Other,
}

/// What a key press asks of the run-state flags and of the process.
#[derive(Clone, Copy, PartialEq, Eq, Structural, Debug)]
pub struct ControlEffect {
    /// Leave the program.
    pub quit: bool,
    /// Write this value to the `active` flag, if any.
    pub set_active: Option<bool>,
    /// Write this value to the `crafting` flag, if any.
    pub set_crafting: Option<bool>,
}

/// The flag writes a pressed key asks for. The quit key always wins and
/// clears both flags; the start/pause hotkey keeps the session alive and
/// toggles crafting against its current value; the stop hotkey clears
/// both flags. Every other key asks nothing of the flags.
pub open spec fn spec_control_effect(
    key: UiKey,
    start_pause: KeyId,
    stop: KeyId,
    crafting: bool,
) -> ControlEffect {
    match key {
        UiKey::Pressed(k) => {
            if k == KeyId::Char('q') {
                ControlEffect { quit: true, set_active: Some(false), set_crafting: Some(false) }
            } else if k == start_pause {
                ControlEffect { quit: false, set_active: Some(true), set_crafting: Some(!crafting) }
            } else if k == stop {
                ControlEffect { quit: false, set_active: Some(false), set_crafting: Some(false) }
            } else {
                ControlEffect { quit: false, set_active: None, set_crafting: None }
            }
        },
        _ => ControlEffect { quit: false, set_active: None, set_crafting: None },
    }
}

/// The display state after a key: the arrow keys move the tab selection,
/// nothing else touches the display.
pub open spec fn spec_after_key(a: App, key: UiKey) -> App {
    match key {
        UiKey::NextTab => App { index: (((a.index + 1) as int % a.tabs@.len() as int) as usize), ..a },
        UiKey::PrevTab => App {
            index: (if a.index > 0 {
                (a.index - 1) as usize
            } else {
                (a.tabs@.len() - 1) as usize
            }),
            ..a
        },
        _ => a,
    }
}

/// One key press on the control surface: moves the tab selection and
/// returns the flag writes to perform, as [`spec_control_effect`] and
/// [`spec_after_key`] describe.
pub fn control_step(
    app: &mut App,
    key: UiKey,
    start_pause: KeyId,
    stop: KeyId,
    crafting: bool,
) -> (eff: ControlEffect)
    requires
        old(app).index < old(app).tabs@.len(),
    ensures
        eff == spec_control_effect(key, start_pause, stop, crafting),
        *final(app) == spec_after_key(*old(app), key),
{
    match key {
        UiKey::Pressed(k) => {
            if k == KeyId::Char('q') {
                ControlEffect { quit: true, set_active: Some(false), set_crafting: Some(false) }
            } else if k == start_pause {
                ControlEffect { quit: false, set_active: Some(true), set_crafting: Some(!crafting) }
            } else if k == stop {
                ControlEffect { quit: false, set_active: Some(false), set_crafting: Some(false) }
            } else {
                ControlEffect { quit: false, set_active: None, set_crafting: None }
            }
        },
        UiKey::NextTab => {
            app.next();
            ControlEffect { quit: false, set_active: None, set_crafting: None }
        },
        UiKey::PrevTab => {
            app.previous();
            ControlEffect { quit: false, set_active: None, set_crafting: None }
        },
        UiKey::Other => {
            ControlEffect { quit: false, set_active: None, set_crafting: None }
        },
    }
}

} // verus!
