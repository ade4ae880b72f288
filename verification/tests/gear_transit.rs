use ursa_minor_ffb::gear::{accented_beat, doors_locked, GearFlags};

#[test]
fn counts_moving_struts() {
    assert_eq!(GearFlags::new(false, false, false).count(), 0);
    assert_eq!(GearFlags::new(true, false, false).count(), 1);
    assert_eq!(GearFlags::new(false, true, true).count(), 2);
    assert_eq!(GearFlags::new(true, true, true).count(), 3);
    assert!(GearFlags::new(true, true, true).all());
    assert!(!GearFlags::new(true, false, true).all());
    assert!(GearFlags::new(false, false, true).any());
    assert!(!GearFlags::new(false, false, false).any());
}

#[test]
fn doors_slam_when_last_strut_retracts() {
    let all = GearFlags::new(true, true, true);
    let none = GearFlags::new(false, false, false);
    // All up now, the right strut was still out in the previous frame.
    assert!(doors_locked(all, GearFlags::new(false, false, true), none, all));
    // All up now and already up before: nothing happens.
    assert!(!doors_locked(all, none, none, all));
    // Still moving: neither end reached by all struts.
    assert!(!doors_locked(GearFlags::new(true, false, true), all, none, all));
}

#[test]
fn doors_slam_when_last_strut_extends() {
    let all = GearFlags::new(true, true, true);
    let none = GearFlags::new(false, false, false);
    assert!(doors_locked(none, all, all, GearFlags::new(true, false, false)));
    assert!(!doors_locked(none, all, all, none));
    assert!(!doors_locked(none, all, GearFlags::new(true, true, false), all));
}

#[test]
fn every_third_beat_is_accented() {
    assert!(accented_beat(0));
    assert!(!accented_beat(1));
    assert!(!accented_beat(2));
    assert!(accented_beat(3));
    assert!(accented_beat(300));
    assert!(!accented_beat(301));
    assert!(accented_beat(-3));
    assert!(!accented_beat(-1));
    assert!(!accented_beat(-2));
    for b in -20i64..20 {
        let n = [accented_beat(b), accented_beat(b + 1), accented_beat(b + 2)]
            .iter()
            .filter(|x| **x)
            .count();
        assert_eq!(n, 1);
    }
}
