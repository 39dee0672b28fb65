use xivcrafter::config::{find_last_used, Config};
use xivcrafter::control::{control_step, App, ControlEffect, UiKey};
use xivcrafter::events::{ProgressEvent, SlotId, Status};
use xivcrafter::keys::{resolve_key, KeyId};
use xivcrafter::profile::{build_profile, ConfigError, KeySlot, Profile, POTION_INTERVAL_SECS};
use xivcrafter::reporter::Reporter;
use xivcrafter::timer::{is_due, renewal_due};

fn sample_config() -> Config {
    Config {
        id: 0,
        last_used: true,
        name: String::from("Test"),
        amount: 3,
        food: String::from("4"),
        food_duration: 1800,
        potion: String::from("5"),
        macro1: String::from("1"),
        macro1_duration: 90,
        macro2: String::from("2"),
        macro2_duration: 60,
        macro3: String::from(""),
        macro3_duration: 0,
        start_pause: String::from("F1"),
        stop: String::from("F2"),
        confirm: String::from("0"),
        cancel: String::from("9"),
    }
}

#[test]
fn never_renewed_is_always_due() {
    assert!(is_due(0, 0, 0));
    assert!(is_due(0, 0, 7));
    assert!(is_due(0, 1800, 0));
    assert!(is_due(0, 1800, u64::MAX));
}

#[test]
fn due_exactly_after_interval_elapses() {
    // renewed at t, not due at t + interval, due one second later
    assert!(!is_due(100, 30, 130));
    assert!(is_due(100, 30, 131));
    // an interval of zero is due on every later check
    assert!(!is_due(100, 0, 100));
    assert!(is_due(100, 0, 101));
}

#[test]
fn not_due_when_clock_reads_earlier() {
    assert!(!is_due(100, 30, 99));
    assert!(!renewal_due(Some(100), 30, 99));
}

#[test]
fn renewal_due_treats_zero_timestamp_as_real() {
    // a renewal recorded at clock value zero is still a renewal
    assert!(renewal_due(None, 10, 0));
    assert!(!renewal_due(Some(0), 10, 3));
    assert!(!renewal_due(Some(0), 10, 10));
    assert!(renewal_due(Some(0), 10, 11));
}

#[test]
fn resolve_single_characters() {
    assert_eq!(resolve_key("a"), Some(KeyId::Char('a')));
    assert_eq!(resolve_key("A"), Some(KeyId::Char('a')));
    assert_eq!(resolve_key("7"), Some(KeyId::Char('7')));
}

#[test]
fn resolve_named_keys_case_insensitively() {
    assert_eq!(resolve_key("home"), Some(KeyId::Home));
    assert_eq!(resolve_key("Home"), Some(KeyId::Home));
    assert_eq!(resolve_key("END"), Some(KeyId::End));
    assert_eq!(resolve_key("PageUp"), Some(KeyId::PageUp));
    assert_eq!(resolve_key("pagedown"), Some(KeyId::PageDown));
    assert_eq!(resolve_key("Delete"), Some(KeyId::Delete));
}

#[test]
fn resolve_rejects_unknown_names() {
    assert_eq!(resolve_key(""), None);
    assert_eq!(resolve_key("zz"), None);
    assert_eq!(resolve_key("enter"), None);
}

#[test]
fn find_last_used_picks_first_marked() {
    let mut a = sample_config();
    a.last_used = false;
    let mut b = sample_config();
    b.id = 1;
    let mut c = sample_config();
    c.id = 2;
    let configs = vec![a, b, c];
    assert_eq!(find_last_used(&configs), Some(1));
}

#[test]
fn find_last_used_none_when_unmarked() {
    let mut a = sample_config();
    a.last_used = false;
    let configs = vec![a];
    assert_eq!(find_last_used(&configs), None);
}

#[test]
fn build_profile_resolves_every_slot() {
    let p = build_profile(&sample_config()).unwrap();
    assert_eq!(
        p,
        Profile {
            target: 3,
            confirm: KeyId::Char('0'),
            cancel: KeySlot::Key(KeyId::Char('9')),
            food: KeySlot::Key(KeyId::Char('4')),
            food_interval: 1800,
            potion: KeySlot::Key(KeyId::Char('5')),
            macro1: xivcrafter::profile::MacroSlot {
                slot: KeySlot::Key(KeyId::Char('1')),
                hold_secs: 90,
            },
            macro2: xivcrafter::profile::MacroSlot {
                slot: KeySlot::Key(KeyId::Char('2')),
                hold_secs: 60,
            },
            macro3: xivcrafter::profile::MacroSlot { slot: KeySlot::Absent, hold_secs: 0 },
        },
    );
}

#[test]
fn build_profile_missing_target_is_fatal() {
    let mut c = sample_config();
    c.amount = 0;
    assert_eq!(build_profile(&c), Err(ConfigError::MissingTarget));
    c.amount = -4;
    assert_eq!(build_profile(&c), Err(ConfigError::MissingTarget));
}

#[test]
fn build_profile_bad_confirm_is_fatal() {
    let mut c = sample_config();
    c.confirm = String::from("");
    assert_eq!(build_profile(&c), Err(ConfigError::UnresolvableConfirm));
    c.confirm = String::from("nosuchkey");
    assert_eq!(build_profile(&c), Err(ConfigError::UnresolvableConfirm));
}

#[test]
fn build_profile_marks_unresolvable_slots() {
    let mut c = sample_config();
    c.food = String::from("nosuchkey");
    c.cancel = String::from("");
    let p = build_profile(&c).unwrap();
    assert_eq!(p.food, KeySlot::Unresolvable);
    assert_eq!(p.cancel, KeySlot::Absent);
}

#[test]
fn build_profile_clamps_negative_food_interval() {
    let mut c = sample_config();
    c.food_duration = -5;
    let p = build_profile(&c).unwrap();
    assert_eq!(p.food_interval, 0);
}

#[test]
fn potion_interval_is_fixed() {
    assert_eq!(POTION_INTERVAL_SECS, 900);
}

#[test]
fn status_text_values() {
    assert_eq!(Status::StartingCraft.text(), "Starting craft...");
    assert_eq!(Status::Waiting.text(), "Waiting...");
    assert_eq!(Status::StartingIn(5).text(), "Starting in 5...");
    assert_eq!(Status::StartingIn(0).text(), "Starting in 0...");
    assert_eq!(Status::SkippedKey(SlotId::Food).text(), "Skipping food: key not configured...");
    assert_eq!(
        Status::ConfigFailure(ConfigError::MissingTarget).text(),
        "No target amount is configured",
    );
}

fn ev(n: i32) -> ProgressEvent {
    ProgressEvent { completed: n, food_count: 0, potion_count: 0, status: Status::Waiting }
}

#[test]
fn reporter_delivers_in_emission_order() {
    let mut r = Reporter::new();
    assert_eq!(r.poll(), None);
    r.emit(ev(1));
    r.emit(ev(2));
    r.emit(ev(3));
    assert_eq!(r.poll(), Some(ev(1)));
    assert_eq!(r.poll(), Some(ev(2)));
    r.emit(ev(4));
    assert_eq!(r.poll(), Some(ev(3)));
    assert_eq!(r.poll(), Some(ev(4)));
    assert_eq!(r.poll(), None);
    assert_eq!(r.poll(), None);
}

#[test]
fn app_new_reads_config_and_zeroes_counters() {
    let c = sample_config();
    let a = App::new(&c);
    assert_eq!(a.tabs, vec![String::from("Home"), String::from("Config")]);
    assert_eq!(a.index, 0);
    assert_eq!(a.current_amount, 0);
    assert_eq!(a.food_count, 0);
    assert_eq!(a.potion_count, 0);
    assert_eq!(a.name, "Test");
    assert_eq!(a.max_amount, 3);
    assert_eq!(a.confirm, "0");
}

#[test]
fn app_update_applies_first_marked_config() {
    let mut a = App::new(&sample_config());
    a.current_amount = 2;
    let mut first = sample_config();
    first.last_used = false;
    let mut second = sample_config();
    second.id = 1;
    second.name = String::from("Other");
    second.amount = 9;
    a.update(&vec![first, second]);
    assert_eq!(a.name, "Other");
    assert_eq!(a.last_used, 1);
    assert_eq!(a.max_amount, 9);
    // counters survive a reload
    assert_eq!(a.current_amount, 2);
}

#[test]
fn app_update_without_marked_config_changes_nothing() {
    let mut a = App::new(&sample_config());
    let mut c = sample_config();
    c.last_used = false;
    c.name = String::from("Ignored");
    a.update(&vec![c]);
    assert_eq!(a.name, "Test");
}

#[test]
fn app_tab_navigation_wraps() {
    let mut a = App::new(&sample_config());
    assert_eq!(a.index, 0);
    a.next();
    assert_eq!(a.index, 1);
    a.next();
    assert_eq!(a.index, 0);
    a.previous();
    assert_eq!(a.index, 1);
    a.previous();
    assert_eq!(a.index, 0);
}

#[test]
fn app_apply_event_updates_counters() {
    let mut a = App::new(&sample_config());
    let e = ProgressEvent {
        completed: 4,
        food_count: 1,
        potion_count: 2,
        status: Status::StartingCraft,
    };
    a.apply_event(&e);
    assert_eq!(a.current_amount, 4);
    assert_eq!(a.food_count, 1);
    assert_eq!(a.potion_count, 2);
}

#[test]
fn config_error_descriptions() {
    assert_eq!(ConfigError::MissingTarget.describe(), "No target amount is configured");
    assert_eq!(
        ConfigError::UnresolvableConfirm.describe(),
        "The confirm key is not a known key",
    );
}

#[test]
fn app_increment_amount_counts_up() {
    let mut a = App::new(&sample_config());
    a.increment_amount();
    a.increment_amount();
    assert_eq!(a.current_amount, 2);
}

#[test]
fn run_state_increments_record_renewals() {
    let mut r = xivcrafter::state::RunState::new();
    assert_eq!(r.completed, 0);
    assert_eq!(r.food_last, None);
    r.increment_amount();
    r.increment_food(42);
    r.increment_potion(43);
    assert_eq!(r.completed, 1);
    assert_eq!(r.food_count, 1);
    assert_eq!(r.food_last, Some(42));
    assert_eq!(r.potion_count, 1);
    assert_eq!(r.potion_last, Some(43));
}

#[test]
fn quit_key_clears_both_flags() {
    let mut a = App::new(&sample_config());
    let eff = control_step(
        &mut a,
        UiKey::Pressed(KeyId::Char('q')),
        KeyId::Char('p'),
        KeyId::Char('s'),
        true,
    );
    assert_eq!(
        eff,
        ControlEffect { quit: true, set_active: Some(false), set_crafting: Some(false) },
    );
}

#[test]
fn start_pause_key_toggles_crafting() {
    let mut a = App::new(&sample_config());
    let eff = control_step(
        &mut a,
        UiKey::Pressed(KeyId::Char('p')),
        KeyId::Char('p'),
        KeyId::Char('s'),
        false,
    );
    assert_eq!(
        eff,
        ControlEffect { quit: false, set_active: Some(true), set_crafting: Some(true) },
    );
    let eff2 = control_step(
        &mut a,
        UiKey::Pressed(KeyId::Char('p')),
        KeyId::Char('p'),
        KeyId::Char('s'),
        true,
    );
    assert_eq!(
        eff2,
        ControlEffect { quit: false, set_active: Some(true), set_crafting: Some(false) },
    );
}

#[test]
fn stop_key_clears_both_flags() {
    let mut a = App::new(&sample_config());
    let eff = control_step(
        &mut a,
        UiKey::Pressed(KeyId::Char('s')),
        KeyId::Char('p'),
        KeyId::Char('s'),
        true,
    );
    assert_eq!(
        eff,
        ControlEffect { quit: false, set_active: Some(false), set_crafting: Some(false) },
    );
}

#[test]
fn other_keys_ask_nothing() {
    let mut a = App::new(&sample_config());
    let eff = control_step(
        &mut a,
        UiKey::Pressed(KeyId::Char('x')),
        KeyId::Char('p'),
        KeyId::Char('s'),
        false,
    );
    assert_eq!(eff, ControlEffect { quit: false, set_active: None, set_crafting: None });
    let eff2 = control_step(&mut a, UiKey::Other, KeyId::Char('p'), KeyId::Char('s'), false);
    assert_eq!(eff2, ControlEffect { quit: false, set_active: None, set_crafting: None });
}

#[test]
fn arrow_keys_move_tabs() {
    let mut a = App::new(&sample_config());
    let eff = control_step(&mut a, UiKey::NextTab, KeyId::Char('p'), KeyId::Char('s'), false);
    assert_eq!(eff, ControlEffect { quit: false, set_active: None, set_crafting: None });
    assert_eq!(a.index, 1);
    control_step(&mut a, UiKey::PrevTab, KeyId::Char('p'), KeyId::Char('s'), false);
    assert_eq!(a.index, 0);
}
