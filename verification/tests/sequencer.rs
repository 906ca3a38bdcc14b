use std::cell::RefCell;
use toysynth::sequencer::{Beat, Resolution, Sequencer, MAX_BPM, MAX_TIME};
use toysynth::theory::Duration;

const SECOND: u64 = 1_000_000;

fn fire(seq: &mut Sequencer, now: u64) -> Vec<(u64, usize, usize)> {
    let fired = RefCell::new(Vec::new());
    seq.tick(now, |time, page, step| {
        fired.borrow_mut().push((time, page, step));
        Ok::<(), String>(())
    })
    .unwrap();
    fired.into_inner()
}

#[test]
fn test_tick_quarter() {
    let mut current_time = 0;
    let mut seq = Sequencer::new(60, 2, Resolution::Quarter, current_time, 100);

    for i in 0..2 {
        for j in 0..4 {
            seq.tick(current_time, |time, page, step| {
                assert_eq!(time, current_time + SECOND / 10);
                assert_eq!(page, i);
                assert_eq!(step, j);
                Ok::<(), String>(())
            })
            .unwrap();
            current_time += SECOND;
        }
    }
}

#[test]
fn test_tick_eighth() {
    let mut current_time = 0;
    let mut seq = Sequencer::new(60, 2, Resolution::Eighth, current_time, 100);

    for i in 0..2 {
        for j in 0..8 {
            seq.tick(current_time, |time, page, step| {
                assert_eq!(time, current_time + SECOND / 10);
                assert_eq!(page, i);
                assert_eq!(step, j);
                Ok::<(), String>(())
            })
            .unwrap();
            current_time += SECOND / 2;
        }
    }
}

#[test]
fn test_seconds_per_beat_60_4() {
    let seq = Sequencer::new(60, 1, Resolution::Quarter, 0, 100);
    assert_eq!(seq.seconds_per_beat(), SECOND);
    assert_eq!(seq.seconds_per_beat() as f64 / SECOND as f64, 1.0);
}

#[test]
fn test_seconds_per_beat_60_8() {
    let seq = Sequencer::new(60, 1, Resolution::Eighth, 0, 100);
    assert_eq!(seq.seconds_per_beat(), SECOND / 2);
    assert_eq!(seq.seconds_per_beat() as f64 / SECOND as f64, 0.5);
}

#[test]
fn test_seconds_per_beat_120_4() {
    let seq = Sequencer::new(120, 1, Resolution::Quarter, 0, 100);
    assert_eq!(seq.seconds_per_beat(), SECOND / 2);
    assert_eq!(seq.seconds_per_beat() as f64 / SECOND as f64, 0.5);
}

#[test]
fn test_seconds_per_beat_120_8() {
    let seq = Sequencer::new(120, 1, Resolution::Eighth, 0, 100);
    assert_eq!(seq.seconds_per_beat(), SECOND / 4);
    assert_eq!(seq.seconds_per_beat() as f64 / SECOND as f64, 0.25);
}

#[test]
fn a_tick_each_second_fires_one_beat_each() {
    let mut seq = Sequencer::new(60, 2, Resolution::Quarter, 0, 100);
    for k in 0..8u64 {
        let fired = fire(&mut seq, k * SECOND);
        assert_eq!(fired.len(), 1);
        assert_eq!(fired[0].0, k * SECOND + SECOND / 10);
    }
}

#[test]
fn a_late_tick_catches_up_on_every_beat() {
    let mut seq = Sequencer::new(120, 2, Resolution::Quarter, 3 * SECOND, 100);
    // Beats are due at 3.0 s, 3.5 s, ...; at 5.0 s those up to 5.0 s lie
    // within the window of 0.1 s.
    let fired = fire(&mut seq, 5 * SECOND);
    assert_eq!(
        fired,
        vec![
            (3_100_000, 0, 0),
            (3_600_000, 0, 1),
            (4_100_000, 0, 2),
            (4_600_000, 0, 3),
            (5_100_000, 1, 0),
        ]
    );
    // Nothing is due twice.
    assert_eq!(fire(&mut seq, 5 * SECOND), vec![]);
    assert_eq!(fire(&mut seq, 5 * SECOND + 399_999), vec![]);
    assert_eq!(fire(&mut seq, 5 * SECOND + 400_000), vec![]);
    assert_eq!(fire(&mut seq, 5 * SECOND + 400_001), vec![(5_600_000, 1, 1)]);
}

#[test]
fn beats_are_fired_once_each_whatever_the_pace_of_the_ticks() {
    let start = 7 * SECOND;
    let length = 250_000;
    let lookahead = 100_000;
    let ticks = [
        0u64, 1, 99_999, 150_000, 150_001, 900_000, 900_000, 2_000_000, 2_000_001, 9_999_999,
    ];
    let mut seq = Sequencer::new(120, 3, Resolution::Eighth, start, 100);
    assert_eq!(seq.seconds_per_beat(), length);
    let mut all = Vec::new();
    for offset in ticks {
        let now = start + offset;
        all.extend(fire(&mut seq, now));
        // As many beats as are due by now, no more and no fewer.
        let due = (offset + lookahead + length - 1) / length;
        assert_eq!(all.len() as u64, due);
    }
    for (k, (time, page, step)) in all.iter().enumerate() {
        assert_eq!(*time, start + k as u64 * length + lookahead);
        assert_eq!(*step, k % 8);
        assert_eq!(*page, (k / 8) % 3);
    }
}

#[test]
fn steps_and_pages_wrap_around() {
    let mut seq = Sequencer::new(60, 2, Resolution::Quarter, 0, 100);
    let fired = fire(&mut seq, 15 * SECOND);
    let places: Vec<(usize, usize)> = fired.iter().map(|(_, page, step)| (*page, *step)).collect();
    let measure = vec![
        (0, 0),
        (0, 1),
        (0, 2),
        (0, 3),
        (1, 0),
        (1, 1),
        (1, 2),
        (1, 3),
    ];
    assert_eq!(places.len(), 16);
    assert_eq!(places[..8], measure[..]);
    assert_eq!(places[8..], measure[..]);
}

#[test]
fn a_tick_before_the_first_beat_fires_nothing() {
    let mut seq = Sequencer::new(60, 1, Resolution::Quarter, 10 * SECOND, 100);
    assert_eq!(fire(&mut seq, 0), vec![]);
    assert_eq!(fire(&mut seq, 9_900_000), vec![]);
    assert_eq!(fire(&mut seq, 9_900_001), vec![(10_100_000, 0, 0)]);
    // Time going back fires nothing either.
    assert_eq!(fire(&mut seq, 0), vec![]);
}

#[test]
fn a_failing_callback_stops_the_tick_and_keeps_the_beat() {
    let mut seq = Sequencer::new(60, 1, Resolution::Quarter, 0, 100);
    let seen = RefCell::new(Vec::new());
    let result = seq.tick(3 * SECOND, |time, page, step| {
        seen.borrow_mut().push((time, page, step));
        if step == 2 {
            Err("no sound")
        } else {
            Ok(())
        }
    });
    assert_eq!(result, Err("no sound"));
    assert_eq!(
        seen.into_inner(),
        vec![(100_000, 0, 0), (1_100_000, 0, 1), (2_100_000, 0, 2)]
    );
    // The beats before stay fired; the one that failed is the next one.
    assert_eq!(
        fire(&mut seq, 3 * SECOND),
        vec![(2_100_000, 0, 2), (3_100_000, 0, 3)]
    );
}

#[test]
fn a_new_tempo_holds_from_the_next_beat_on() {
    let mut seq = Sequencer::new(60, 1, Resolution::Quarter, 0, 0);
    assert_eq!(fire(&mut seq, 1), vec![(0, 0, 0)]);
    seq.set_bpm(120);
    assert_eq!(seq.seconds_per_beat(), SECOND / 2);
    // The beat that was due at 1 s stays due then; the next follows half a
    // second later.
    assert_eq!(
        fire(&mut seq, 2 * SECOND),
        vec![(1_000_000, 0, 1), (1_500_000, 0, 2)]
    );
}

#[test]
fn beat_length_drops_the_fraction_of_a_microsecond() {
    let seq = Sequencer::new(74, 8, Resolution::Eighth, 0, 100);
    assert_eq!(seq.seconds_per_beat(), 405_405);
    let fastest = Sequencer::new(MAX_BPM, 1, Resolution::Eighth, 0, 100);
    assert_eq!(fastest.seconds_per_beat(), 1);
    let slowest = Sequencer::new(1, 1, Resolution::Quarter, 0, 100);
    assert_eq!(slowest.seconds_per_beat(), 60 * SECOND);
}

#[test]
fn due_and_advance_step_through_the_beats() {
    let mut seq = Sequencer::new(60, 2, Resolution::Quarter, 0, 100);
    assert_eq!(seq.due(0), Some(Beat { time: 100_000, page: 0, step: 0 }));
    assert_eq!(seq.due(0), Some(Beat { time: 100_000, page: 0, step: 0 }));
    assert_eq!(seq.advance(0), Some(Beat { time: 100_000, page: 0, step: 0 }));
    assert_eq!(seq.due(0), None);
    assert_eq!(seq.advance(0), None);
    assert_eq!(seq.due(SECOND), Some(Beat { time: 1_100_000, page: 0, step: 1 }));
}

#[test]
fn the_latest_time_is_taken() {
    let mut seq = Sequencer::new(1, 1, Resolution::Quarter, MAX_TIME, u32::MAX);
    let fired = fire(&mut seq, MAX_TIME);
    let lookahead = u32::MAX as u64 * 1000;
    assert_eq!(fired.len() as u64, (lookahead + 60 * SECOND - 1) / (60 * SECOND));
    assert_eq!(fired[0], (MAX_TIME + lookahead, 0, 0));
}

#[test]
fn resolutions_and_durations() {
    assert_eq!(Resolution::Eighth.duration(), Duration::Eighth);
    assert_eq!(Resolution::Quarter.duration(), Duration::Quarter);
    assert_eq!(
        Sequencer::new(60, 1, Resolution::Eighth, 0, 100).resolution(),
        Resolution::Eighth
    );
    assert_eq!(Duration::ThirtySecond.beats_per_measure(), 32);
    assert_eq!(Duration::Sixteenth.beats_per_measure(), 16);
    assert_eq!(Duration::Eighth.beats_per_measure(), 8);
    assert_eq!(Duration::Quarter.beats_per_measure(), 4);
    assert_eq!(Duration::Half.beats_per_measure(), 2);
    assert_eq!(Duration::Whole.beats_per_measure(), 1);
}
