use sonic_colors_autosplitter::watcher::{Pair, Watcher};

#[test]
fn new_watcher_offers_no_pair() {
    let watcher: Watcher<u8> = Watcher::new();
    assert_eq!(watcher, Watcher::Empty);
    assert_eq!(watcher.pair(), None);
    let other: Watcher<u8> = Watcher::default();
    assert_eq!(other, Watcher::Empty);
}

#[test]
fn pair_is_unavailable_after_one_update() {
    let mut watcher: Watcher<u8> = Watcher::new();
    watcher.update(35);
    assert_eq!(watcher.pair(), None);
    assert_eq!(watcher, Watcher::Single(35));
}

#[test]
fn pair_is_available_after_two_updates() {
    let mut watcher: Watcher<u8> = Watcher::new();
    watcher.update(35);
    watcher.update(110);
    assert_eq!(watcher.pair(), Some(Pair { old: 35, current: 110 }));
}

#[test]
fn pair_follows_the_last_two_samples() {
    let mut watcher: Watcher<i64> = Watcher::new();
    let samples: [i64; 6] = [0, 1200, 1800, 0, 0, 250];
    for (count, sample) in samples.iter().enumerate() {
        watcher.update(*sample);
        if count == 0 {
            assert_eq!(watcher.pair(), None);
        } else {
            assert_eq!(
                watcher.pair(),
                Some(Pair { old: samples[count - 1], current: samples[count] })
            );
        }
    }
}

#[test]
fn equal_samples_still_make_a_pair() {
    let mut watcher: Watcher<bool> = Watcher::new();
    watcher.update(false);
    watcher.update(false);
    assert_eq!(watcher.pair(), Some(Pair { old: false, current: false }));
    watcher.update(true);
    assert_eq!(watcher.pair(), Some(Pair { old: false, current: true }));
    watcher.update(false);
    assert_eq!(watcher.pair(), Some(Pair { old: true, current: false }));
}
