use extended_commands::back::{
    clear_back_location_for_player, get_back_location_for_player, BackLocationCache,
    BackLocationHandler,
};
use extended_commands::cooldown::{CooldownTracker, MIN_INTERVAL_MS};
use extended_commands::error::ErrorKind;
use extended_commands::homes::HomeRegistry;
use extended_commands::location::Location;
use extended_commands::player::PlayerId;
use extended_commands::requests::{RequestBroker, RequestKind, TeleportRequest};
use extended_commands::toggles::{get_fly_state, set_fly_state, ToggleStateCache};
use extended_commands::Plugin;

fn at(x: f64, y: f64, z: f64) -> Location {
    Location {
        x: x.to_bits(),
        y: y.to_bits(),
        z: z.to_bits(),
        yaw: 0.0f32.to_bits(),
        pitch: 0.0f32.to_bits(),
        world: "overworld".to_string(),
    }
}

fn full(x: f64, y: f64, z: f64, yaw: f32, pitch: f32) -> Location {
    Location {
        x: x.to_bits(),
        y: y.to_bits(),
        z: z.to_bits(),
        yaw: yaw.to_bits(),
        pitch: pitch.to_bits(),
        world: "overworld".to_string(),
    }
}

const A: PlayerId = PlayerId(0xa);
const B: PlayerId = PlayerId(0xb);
const C: PlayerId = PlayerId(0xc);

#[test]
fn validator_rejects_nan_and_accepts_finite() {
    assert!(!full(f64::NAN, 0.0, 0.0, 0.0, 0.0).is_valid());
    assert!(full(1.0, 64.0, -3.5, 90.0, 0.0).is_valid());
}

#[test]
fn validator_rejects_every_non_finite_field() {
    assert!(!full(0.0, f64::INFINITY, 0.0, 0.0, 0.0).is_valid());
    assert!(!full(0.0, 0.0, f64::NEG_INFINITY, 0.0, 0.0).is_valid());
    assert!(!full(0.0, 0.0, 0.0, f32::NAN, 0.0).is_valid());
    assert!(!full(0.0, 0.0, 0.0, 0.0, f32::INFINITY).is_valid());
    assert!(full(f64::MAX, f64::MIN, -0.0, f32::MAX, f32::MIN_POSITIVE).is_valid());
    assert!(full(5e-324, 0.0, 0.0, 1e-45, 0.0).is_valid());
}

#[test]
fn duplicate_is_equal() {
    let l = full(1.5, 2.5, 3.5, 45.0, -10.0);
    assert_eq!(l.duplicate(), l);
}

#[test]
fn cooldown_window_is_half_a_second() {
    let mut c = CooldownTracker::new();
    assert_eq!(MIN_INTERVAL_MS, 500);
    assert!(c.try_consume(A, 10_000));
    assert_eq!(c.last_teleport(A), Some(10_000));
    assert!(!c.try_consume(A, 10_000));
    assert!(!c.try_consume(A, 10_499));
    assert_eq!(c.last_teleport(A), Some(10_000));
    assert!(c.try_consume(A, 10_500));
    assert_eq!(c.last_teleport(A), Some(10_500));
    assert!(c.try_consume(A, 20_000));
}

#[test]
fn cooldown_is_per_player() {
    let mut c = CooldownTracker::new();
    assert!(c.try_consume(A, 1_000));
    assert!(c.try_consume(B, 1_001));
    assert!(!c.try_consume(A, 1_002));
    assert_eq!(c.last_teleport(C), None);
}

#[test]
fn cooldown_clock_behind_record_is_refused() {
    let mut c = CooldownTracker::new();
    assert!(c.try_consume(A, 5_000));
    assert!(!c.try_consume(A, 0));
    assert_eq!(c.last_teleport(A), Some(5_000));
}

#[test]
fn rename_onto_existing_keeps_both() {
    let mut h = HomeRegistry::new();
    let l1 = at(1.0, 2.0, 3.0);
    let l2 = at(4.0, 5.0, 6.0);
    assert_eq!(h.set(A, "a".to_string(), l1.clone()), Ok(()));
    assert_eq!(h.set(A, "b".to_string(), l2.clone()), Ok(()));
    assert_eq!(h.rename(A, &"a".to_string(), "b".to_string()), Err(ErrorKind::AlreadyExists));
    assert_eq!(h.get(A, &"a".to_string()), Some(l1));
    assert_eq!(h.get(A, &"b".to_string()), Some(l2));
}

#[test]
fn rename_moves_the_location() {
    let mut h = HomeRegistry::new();
    let l1 = at(1.0, 2.0, 3.0);
    h.set(A, "a".to_string(), l1.clone()).unwrap();
    assert_eq!(h.rename(A, &"a".to_string(), "c".to_string()), Ok(()));
    assert_eq!(h.get(A, &"a".to_string()), None);
    assert_eq!(h.get(A, &"c".to_string()), Some(l1));
}

#[test]
fn rename_missing_and_same_name() {
    let mut h = HomeRegistry::new();
    assert_eq!(h.rename(A, &"x".to_string(), "y".to_string()), Err(ErrorKind::NotFound));
    h.set(A, "x".to_string(), at(0.0, 0.0, 0.0)).unwrap();
    assert_eq!(h.rename(A, &"x".to_string(), "x".to_string()), Err(ErrorKind::SameName));
    assert_eq!(h.rename(A, &"nope".to_string(), "y".to_string()), Err(ErrorKind::NotFound));
    assert_eq!(h.get(A, &"x".to_string()), Some(at(0.0, 0.0, 0.0)));
}

#[test]
fn set_overwrites_and_rejects_invalid() {
    let mut h = HomeRegistry::new();
    h.set(A, "home".to_string(), at(1.0, 1.0, 1.0)).unwrap();
    h.set(A, "home".to_string(), at(2.0, 2.0, 2.0)).unwrap();
    assert_eq!(h.get(A, &"home".to_string()), Some(at(2.0, 2.0, 2.0)));
    assert_eq!(
        h.set(A, "home".to_string(), at(f64::NAN, 0.0, 0.0)),
        Err(ErrorKind::InvalidLocation)
    );
    assert_eq!(h.get(A, &"home".to_string()), Some(at(2.0, 2.0, 2.0)));
}

#[test]
fn names_are_case_sensitive_and_may_be_blank() {
    let mut h = HomeRegistry::new();
    h.set(A, "Base".to_string(), at(1.0, 0.0, 0.0)).unwrap();
    h.set(A, "".to_string(), at(2.0, 0.0, 0.0)).unwrap();
    h.set(A, "  ".to_string(), at(3.0, 0.0, 0.0)).unwrap();
    assert_eq!(h.get(A, &"base".to_string()), None);
    assert_eq!(h.get(A, &"Base".to_string()), Some(at(1.0, 0.0, 0.0)));
    assert_eq!(h.get(A, &"".to_string()), Some(at(2.0, 0.0, 0.0)));
    assert_eq!(h.get(A, &"  ".to_string()), Some(at(3.0, 0.0, 0.0)));
}

#[test]
fn delete_reports_removal() {
    let mut h = HomeRegistry::new();
    assert!(!h.has_homes(A));
    assert!(!h.delete(A, &"home".to_string()));
    h.set(A, "home".to_string(), at(1.0, 1.0, 1.0)).unwrap();
    h.set(A, "mine".to_string(), at(2.0, 2.0, 2.0)).unwrap();
    assert!(h.has_homes(A));
    assert!(!h.has_homes(B));
    assert!(h.delete(A, &"home".to_string()));
    assert!(!h.delete(A, &"home".to_string()));
    assert_eq!(h.get(A, &"home".to_string()), None);
    assert_eq!(h.get(A, &"mine".to_string()), Some(at(2.0, 2.0, 2.0)));
    assert!(h.delete(A, &"mine".to_string()));
    assert!(!h.has_homes(A));
}

#[test]
fn homes_are_per_player() {
    let mut h = HomeRegistry::new();
    h.set(A, "home".to_string(), at(1.0, 1.0, 1.0)).unwrap();
    assert_eq!(h.get(B, &"home".to_string()), None);
    h.set(B, "home".to_string(), at(9.0, 9.0, 9.0)).unwrap();
    assert_eq!(h.get(A, &"home".to_string()), Some(at(1.0, 1.0, 1.0)));
    assert_eq!(h.get(B, &"home".to_string()), Some(at(9.0, 9.0, 9.0)));
}

#[test]
fn request_replaces_instead_of_queueing() {
    let mut b = RequestBroker::new();
    assert_eq!(b.request(A, C, RequestKind::Pull), Ok(()));
    assert_eq!(b.request(B, C, RequestKind::Push), Ok(()));
    assert_eq!(
        b.accept(C),
        Some(TeleportRequest { requester: B, kind: RequestKind::Push })
    );
    assert_eq!(b.accept(C), None);
    assert_eq!(b.deny(C), None);
}

#[test]
fn accept_then_deny_delivers_once() {
    let mut b = RequestBroker::new();
    b.request(A, B, RequestKind::Pull).unwrap();
    assert!(b.accept(B).is_some());
    assert_eq!(b.deny(B), None);

    b.request(A, B, RequestKind::Push).unwrap();
    assert_eq!(b.deny(B), Some(A));
    assert_eq!(b.accept(B), None);
}

#[test]
fn request_to_self_is_refused() {
    let mut b = RequestBroker::new();
    assert_eq!(b.request(A, A, RequestKind::Pull), Err(ErrorKind::SelfTarget));
    assert_eq!(b.pending(A), None);
}

#[test]
fn requests_to_two_recipients_stay_pending() {
    let mut b = RequestBroker::new();
    b.request(A, B, RequestKind::Pull).unwrap();
    b.request(A, C, RequestKind::Pull).unwrap();
    let expected = TeleportRequest { requester: A, kind: RequestKind::Pull };
    assert_eq!(b.pending(B), Some(expected));
    assert_eq!(b.pending(C), Some(expected));
    assert_eq!(b.accept(B), Some(expected));
    assert_eq!(b.pending(C), Some(expected));
}

#[test]
fn back_location_overwrites_and_survives_recall() {
    let mut cache = BackLocationCache::new();
    assert_eq!(cache.recall(A), None);
    assert!(cache.record(A, at(1.0, 2.0, 3.0)));
    assert!(cache.record(A, at(4.0, 5.0, 6.0)));
    assert_eq!(cache.recall(A), Some(at(4.0, 5.0, 6.0)));
    assert_eq!(cache.recall(A), Some(at(4.0, 5.0, 6.0)));
    assert!(!cache.record(A, at(f64::INFINITY, 0.0, 0.0)));
    assert_eq!(get_back_location_for_player(&cache, A), Some(at(4.0, 5.0, 6.0)));
    clear_back_location_for_player(&mut cache, A);
    assert_eq!(cache.recall(A), None);
}

#[test]
fn handler_records_the_place_left() {
    let mut cache = BackLocationCache::new();
    let handler = BackLocationHandler;
    assert!(handler.handle_teleport(&mut cache, B, at(7.0, 8.0, 9.0)));
    assert_eq!(cache.recall(B), Some(at(7.0, 8.0, 9.0)));
    assert_eq!(cache.recall(A), None);
}

#[test]
fn fly_state_defaults_off_and_toggles() {
    let mut states = ToggleStateCache::new();
    assert!(!get_fly_state(&states, A));
    assert!(states.toggle(A));
    assert!(get_fly_state(&states, A));
    assert!(!states.toggle(A));
    assert!(!states.get(A));
    set_fly_state(&mut states, B, true);
    assert!(states.get(B));
    states.set(B, false);
    assert!(!get_fly_state(&states, B));
}

#[test]
fn plugin_starts_empty() {
    let p = Plugin::new();
    assert_eq!(p.back.recall(A), None);
    assert_eq!(p.requests.pending(A), None);
    assert!(!p.homes.has_homes(A));
    assert!(!p.fly.get(A));
    assert_eq!(p.cooldowns.last_teleport(A), None);
    let d = Plugin::default();
    assert!(!d.homes.has_homes(B));
}
