use toysynth::sampler::MelodicSampler;
use toysynth::theory::Note;

fn sampler_of(notes: &[Note]) -> MelodicSampler {
    let mut sampler = MelodicSampler::new();
    for note in notes {
        sampler.insert(*note);
    }
    sampler
}

fn rate(shift: i8) -> f32 {
    (2.0_f32).powf(shift as f32 / 12.0)
}

#[test]
fn find_closest_note_in_samples_0() {
    let sampler = sampler_of(&[]);
    assert_eq!(sampler.find_closest_note_in_samples(&Note::A2), None);
}

#[test]
fn find_closest_note_in_samples_1_contains() {
    let sampler = sampler_of(&[Note::A2]);
    assert_eq!(
        sampler.find_closest_note_in_samples(&Note::A2),
        Some(Note::A2)
    );
}

#[test]
fn find_closest_note_in_samples_1_not_contains() {
    let sampler = sampler_of(&[Note::A2]);
    assert_eq!(
        sampler.find_closest_note_in_samples(&Note::C2),
        Some(Note::A2)
    );
}

#[test]
fn find_closest_note_in_samples_2_contains() {
    let sampler = sampler_of(&[Note::A2, Note::A3]);
    assert_eq!(
        sampler.find_closest_note_in_samples(&Note::A2),
        Some(Note::A2)
    );
    assert_eq!(
        sampler.find_closest_note_in_samples(&Note::A3),
        Some(Note::A3)
    );
}

#[test]
fn find_closest_note_in_samples_2_not_contains() {
    let sampler = sampler_of(&[Note::A2, Note::A3]);
    assert_eq!(
        sampler.find_closest_note_in_samples(&Note::C2),
        Some(Note::A2)
    );
    assert_eq!(
        sampler.find_closest_note_in_samples(&Note::C3),
        Some(Note::A2)
    );
    assert_eq!(
        sampler.find_closest_note_in_samples(&Note::C4),
        Some(Note::A3)
    );
}

#[test]
fn calc_note_and_playback_rate_0() {
    let sampler = sampler_of(&[]);
    assert_eq!(sampler.calc_note_and_playback_rate(&Note::A2), None);
}

#[test]
fn calc_note_and_playback_rate_contains() {
    let sampler = sampler_of(&[Note::A2, Note::A3]);
    assert_eq!(
        sampler.calc_note_and_playback_rate(&Note::A2),
        Some((Note::A2, 0))
    );
    assert_eq!(
        sampler.calc_note_and_playback_rate(&Note::A3),
        Some((Note::A3, 0))
    );
    assert_eq!(rate(0), 1.0);
}

#[test]
fn calc_note_and_playback_rate_not_contains() {
    let sampler = sampler_of(&[Note::A2, Note::A3]);
    assert_eq!(
        sampler.calc_note_and_playback_rate(&Note::C2),
        Some((Note::A2, -9))
    );
    assert_eq!(
        sampler.calc_note_and_playback_rate(&Note::C3),
        Some((Note::A2, 3))
    );
    assert_eq!(
        sampler.calc_note_and_playback_rate(&Note::C4),
        Some((Note::A3, 3))
    );
    assert!((rate(-9) - 0.59460354).abs() < 1e-6);
    assert!((rate(3) - 1.1892071).abs() < 1e-6);
}

#[test]
fn of_two_samples_equally_close_the_first_is_taken() {
    // D#3 lies a tritone from both A2 and A3.
    assert_eq!(
        sampler_of(&[Note::A2, Note::A3]).calc_note_and_playback_rate(&Note::Dsharp3),
        Some((Note::A2, 6))
    );
    assert_eq!(
        sampler_of(&[Note::A3, Note::A2]).calc_note_and_playback_rate(&Note::Dsharp3),
        Some((Note::A3, -6))
    );
}

#[test]
fn samples_are_kept_once_each() {
    let mut sampler = MelodicSampler::new();
    assert!(sampler.is_empty());
    assert!(!sampler.contains(&Note::A2));
    assert!(sampler.insert(Note::A2));
    assert!(!sampler.insert(Note::A2));
    assert!(sampler.insert(Note::A0));
    assert!(!sampler.is_empty());
    assert!(sampler.contains(&Note::A2));
    assert!(sampler.contains(&Note::A0));
    assert!(!sampler.contains(&Note::A1));
}

#[test]
fn the_widest_shifts_fit() {
    assert_eq!(
        sampler_of(&[Note::C0]).calc_note_and_playback_rate(&Note::B5),
        Some((Note::C0, 71))
    );
    assert_eq!(
        sampler_of(&[Note::B5]).calc_note_and_playback_rate(&Note::C0),
        Some((Note::B5, -71))
    );
}
