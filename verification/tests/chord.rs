use keyboard_chords::chord::EmptyRange;
use keyboard_chords::key::Code;
use keyboard_chords::timeline::expand;
use keyboard_chords::timeline::schedule;
use keyboard_chords::timeline::Action;
use keyboard_chords::timeline::Batch;
use keyboard_chords::timeline::TimedEvent;
use keyboard_chords::Chord;
use keyboard_chords::Press;
use keyboard_chords::VirtualKey;
use std::time::Duration;

fn down(code: Code, at: u128) -> TimedEvent {
    TimedEvent { code, action: Action::KeyDown, at }
}

fn up(code: Code, at: u128) -> TimedEvent {
    TimedEvent { code, action: Action::KeyUp, at }
}

const MS: u128 = 1_000_000;

#[test]
fn new_chord_is_empty() {
    assert!(Chord::new().keys.is_empty());
    assert!(Chord::default().keys.is_empty());
    assert!(Chord::new().timeline().is_empty());
}

#[test]
fn push_appends_in_order() {
    let mut chord = Chord::new();
    chord.push(Press::new(1));
    chord.push(Press::new(2).as_virtual());
    assert_eq!(chord.keys, vec![Press::new(1), Press::new(2).as_virtual()]);
}

#[test]
fn push_n_appends_equal_copies() {
    let p = Press::from(VirtualKey::Backspace).with_delay(Duration::from_millis(3));
    let mut chord = Chord::new();
    chord.push(Press::new(9));
    chord.push_n(p, 3);
    assert_eq!(chord.keys, vec![Press::new(9), p, p, p]);
}

#[test]
fn push_n_zero_appends_nothing() {
    let mut chord = Chord::new();
    chord.push(Press::new(9));
    chord.push_n(Press::new(4), 0);
    assert_eq!(chord.keys, vec![Press::new(9)]);
}

#[test]
fn push_str_appends_one_press_per_unit() {
    let mut chord = Chord::new();
    chord.push(Press::new(1));
    chord.push_str("Hi");
    assert_eq!(chord.keys, vec![Press::new(1), Press::new(0x48), Press::new(0x69)]);
}

#[test]
fn push_str_splits_into_surrogates() {
    let mut chord = Chord::new();
    chord.push_str("a\u{1F600}\u{20AC}");
    assert_eq!(
        chord.keys,
        vec![Press::new(0x61), Press::new(0xD83D), Press::new(0xDE00), Press::new(0x20AC)]
    );
}

#[test]
fn push_str_of_nothing() {
    let mut chord = Chord::new();
    chord.push_str("");
    assert!(chord.keys.is_empty());
}

#[test]
fn typewriter_keeps_explicit_delays() {
    let mut chord = Chord::new();
    let preset = Press::new(0x21).with_delay(Duration::from_millis(500));
    chord.push(preset);
    chord.push(Press::new(0x41));
    assert_eq!(chord.typewriter(25..175), Ok(()));
    assert_eq!(chord.keys.len(), 2);
    assert_eq!(chord.keys[0], preset);
    assert_eq!(chord.keys[1].code, Code::UnicodeKey(0x41));
    assert_eq!(chord.keys[1].duration, None);
    let d = chord.keys[1].delay.unwrap();
    assert!(d >= Duration::from_millis(25) && d < Duration::from_millis(175));
    assert_eq!(d.as_nanos() % MS, 0);
}

#[test]
fn typewriter_draws_from_the_range() {
    let mut chord = Chord::new();
    chord.push_n(Press::new(0x41).with_duration(Duration::from_millis(1)), 200);
    assert_eq!(chord.typewriter(7..9), Ok(()));
    for p in chord.keys.iter() {
        let d = p.delay.unwrap();
        assert!(d == Duration::from_millis(7) || d == Duration::from_millis(8));
        assert_eq!(p.duration, Some(Duration::from_millis(1)));
    }
}

#[test]
fn typewriter_with_one_value_in_range() {
    let mut chord = Chord::new();
    chord.push_str("ab");
    assert_eq!(chord.typewriter(40..41), Ok(()));
    assert_eq!(chord.keys[0], Press::new(0x61).with_delay(Duration::from_millis(40)));
    assert_eq!(chord.keys[1], Press::new(0x62).with_delay(Duration::from_millis(40)));
}

#[test]
fn typewriter_refuses_an_empty_range() {
    let mut chord = Chord::new();
    chord.push_str("ab");
    assert_eq!(chord.typewriter(5..5), Err(EmptyRange { start: 5, end: 5 }));
    assert_eq!(chord.keys, vec![Press::new(0x61), Press::new(0x62)]);
}

#[test]
fn typewriter_refuses_an_inverted_range() {
    let mut chord = Chord::new();
    chord.push(Press::new(1).with_delay(Duration::from_millis(2)));
    assert_eq!(chord.typewriter(9..3), Err(EmptyRange { start: 9, end: 3 }));
    assert_eq!(chord.keys, vec![Press::new(1).with_delay(Duration::from_millis(2))]);
}

#[test]
fn expansion_gives_down_then_up_for_each_press() {
    let a = Press::new(1).with_delay(Duration::from_millis(2));
    let b = Press::new(2).as_virtual().with_duration(Duration::from_millis(3));
    let events = expand(&vec![a, b]);
    assert_eq!(
        events,
        vec![
            down(Code::UnicodeKey(1), 2 * MS),
            up(Code::UnicodeKey(1), 2 * MS),
            down(Code::VirtualKey(2), 0),
            up(Code::VirtualKey(2), 3 * MS),
        ]
    );
}

#[test]
fn press_without_hold_is_one_pair_in_one_batch() {
    let mut chord = Chord::new();
    chord.push(Press::new(0x41).with_delay(Duration::from_millis(10)));
    let c = Code::UnicodeKey(0x41);
    assert_eq!(
        chord.timeline(),
        vec![Batch { at: 10 * MS, events: vec![down(c, 10 * MS), up(c, 10 * MS)] }]
    );
}

#[test]
fn pair_is_not_split_by_events_of_the_same_instant() {
    let mut chord = Chord::new();
    chord.push(Press::new(1).with_duration(Duration::from_millis(10)));
    chord.push(Press::new(2).with_delay(Duration::from_millis(10)));
    chord.push(Press::new(3).with_delay(Duration::from_millis(10)).with_duration(Duration::ZERO));
    chord.push(Press::new(4).with_delay(Duration::from_millis(4)).with_duration(Duration::from_millis(6)));
    let t = chord.timeline();
    assert_eq!(t.len(), 3);
    assert_eq!(
        t[2],
        Batch {
            at: 10 * MS,
            events: vec![
                up(Code::UnicodeKey(1), 10 * MS),
                down(Code::UnicodeKey(2), 10 * MS),
                up(Code::UnicodeKey(2), 10 * MS),
                down(Code::UnicodeKey(3), 10 * MS),
                up(Code::UnicodeKey(3), 10 * MS),
                up(Code::UnicodeKey(4), 10 * MS),
            ]
        }
    );
}

#[test]
fn independent_timing_of_two_held_keys() {
    let mut chord = Chord::new();
    chord.push(
        Press::from(VirtualKey::Up).with_delay(Duration::ZERO).with_duration(Duration::from_millis(3000)),
    );
    chord.push(
        Press::from(VirtualKey::Right).with_delay(Duration::ZERO).with_duration(Duration::from_millis(500)),
    );
    let key_up = Code::VirtualKey(0x26);
    let key_right = Code::VirtualKey(0x27);
    assert_eq!(
        chord.timeline(),
        vec![
            Batch { at: 0, events: vec![down(key_up, 0), down(key_right, 0)] },
            Batch { at: 500 * MS, events: vec![up(key_right, 500 * MS)] },
            Batch { at: 3000 * MS, events: vec![up(key_up, 3000 * MS)] },
        ]
    );
}

#[test]
fn events_of_one_instant_share_a_batch() {
    let mut chord = Chord::new();
    chord.push(Press::new(1).with_delay(Duration::from_millis(20)));
    chord.push(Press::new(2).with_duration(Duration::from_millis(20)));
    chord.push(Press::new(3).with_delay(Duration::from_millis(5)).with_duration(Duration::from_millis(15)));
    let t = chord.timeline();
    assert_eq!(t.len(), 3);
    assert_eq!(t[0], Batch { at: 0, events: vec![down(Code::UnicodeKey(2), 0)] });
    assert_eq!(t[1], Batch { at: 5 * MS, events: vec![down(Code::UnicodeKey(3), 5 * MS)] });
    assert_eq!(
        t[2],
        Batch {
            at: 20 * MS,
            events: vec![
                down(Code::UnicodeKey(1), 20 * MS),
                up(Code::UnicodeKey(1), 20 * MS),
                up(Code::UnicodeKey(2), 20 * MS),
                up(Code::UnicodeKey(3), 20 * MS),
            ]
        }
    );
}

#[test]
fn batches_ascend_in_time() {
    let mut chord = Chord::new();
    for ms in [90u64, 10, 50, 10, 70, 0, 30, 90] {
        chord.push(Press::new(ms as u16).with_delay(Duration::from_millis(ms)));
    }
    let t = chord.timeline();
    let times: Vec<u128> = t.iter().map(|b| b.at).collect();
    assert_eq!(times, vec![0, 10 * MS, 30 * MS, 50 * MS, 70 * MS, 90 * MS]);
    assert_eq!(t[1].events.len(), 4);
    assert_eq!(t[1].events[0], down(Code::UnicodeKey(10), 10 * MS));
}

#[test]
fn text_is_one_batch_at_zero() {
    let mut chord = Chord::new();
    chord.push_str("Hi");
    let h = Code::UnicodeKey(0x48);
    let i = Code::UnicodeKey(0x69);
    assert_eq!(
        chord.timeline(),
        vec![Batch { at: 0, events: vec![down(h, 0), up(h, 0), down(i, 0), up(i, 0)] }]
    );
}

#[test]
fn schedule_of_no_events() {
    assert_eq!(schedule(&Vec::new()), Vec::<Batch>::new());
}

#[test]
fn schedule_orders_and_groups() {
    let c = Code::UnicodeKey(1);
    let events = vec![down(c, 7), up(c, 9), down(c, 3), up(c, 7), down(c, 9)];
    assert_eq!(
        schedule(&events),
        vec![
            Batch { at: 3, events: vec![down(c, 3)] },
            Batch { at: 7, events: vec![down(c, 7), up(c, 7)] },
            Batch { at: 9, events: vec![up(c, 9), down(c, 9)] },
        ]
    );
}
