//! The step sequencer: it turns ticks of an outside timer, which come when
//! they come, into beats that are due at evenly spaced times.
//!
//! All times are whole microseconds on the caller's clock.

use vstd::prelude::*;
use vstd::arithmetic::div_mod::{
    lemma_div_is_ordered,
    lemma_div_is_ordered_by_denominator,
    lemma_div_non_zero,
    lemma_div_plus_one,
    lemma_fundamental_div_mod,
    lemma_fundamental_div_mod_converse,
    lemma_mod_bound,
};
use vstd::arithmetic::mul::lemma_mul_is_distributive_add_other_way;
use crate::theory::duration::Duration;

verus! {

/// The latest time that a sequencer can be started at or ticked with: two to
/// the power of 62 microseconds, far more than a hundred thousand years.
pub const MAX_TIME: u64 = 0x4000_0000_0000_0000;

/// The fastest tempo that a sequencer takes, in beats per minute: up to
/// here a beat of either resolution lasts at least one microsecond.
pub const MAX_BPM: u32 = 30_000_000;

/// The length of a whole note at one beat per minute, in microseconds: sixty
/// seconds for each of its four quarter notes.
pub const WHOLE_NOTE: u64 = 240_000_000;

/// The note length that one step of the sequencer stands for.
#[derive(Debug, Clone, Copy, PartialEq, Eq, PartialOrd, Ord, Structural)]
pub enum Resolution {
    Eighth,
    Quarter,
}

impl Resolution {
    /// The note length of one step.
    pub open spec fn spec_duration(&self) -> Duration {
        match self {
            Resolution::Eighth => Duration::Eighth,
            Resolution::Quarter => Duration::Quarter,
        }
    }

    /// The note length of one step.
    #[verifier::when_used_as_spec(spec_duration)]
    pub fn duration(&self) -> (duration: Duration)
        ensures
            duration == self.spec_duration(),
        no_unwind
    {
        match self {
            Resolution::Eighth => Duration::Eighth,
            Resolution::Quarter => Duration::Quarter,
        }
    }
}

/// One beat that has come due: when to sound it, and where in the loop it
/// stands.
#[derive(Debug, Clone, Copy, PartialEq, Eq, Structural)]
pub struct Beat {
    /// The time at which the beat is to sound.
    pub time: u64,
    /// The measure of the loop, counted from 0.
    pub page: usize,
    /// The step within the measure, counted from 0.
    pub step: usize,
}

/// What a sequencer is, to its caller.
pub struct SequencerState {
    /// The tempo in beats per minute, a beat being a quarter note.
    pub bpm: nat,
    /// The number of measures in the loop.
    pub pages: nat,
    /// The note length of one step.
    pub resolution: Resolution,
    /// How far ahead of the current time beats are scheduled.
    pub lookahead: nat,
    /// The step of the next beat within its measure.
    pub step: nat,
    /// The measure of the next beat within the loop.
    pub page: nat,
    /// The time at which the next beat comes due.
    pub beat_time: nat,
}

impl SequencerState {
    /// The number of steps in a measure.
    pub open spec fn beats_per_measure(self) -> nat {
        self.resolution.spec_duration().spec_beats_per_measure() as nat
    }

    /// The time from one beat to the next: a minute divided by the tempo,
    /// for the part of a quarter note that a step is, in whole microseconds.
    pub open spec fn beat_length(self) -> nat {
        (WHOLE_NOTE as int / (self.bpm * self.beats_per_measure()) as int) as nat
    }

    /// The tempo is positive and not too fast, the loop has a measure, and
    /// step and page lie within measure and loop.
    pub open spec fn valid(self) -> bool {
        &&& 0 < self.bpm <= MAX_BPM
        &&& 0 < self.pages
        &&& self.step < self.beats_per_measure()
        &&& self.page < self.pages
    }

    /// Whether the next beat is due at time `now`: it is once it lies
    /// within the lookahead window.
    pub open spec fn is_due(self, now: nat) -> bool {
        self.beat_time < now + self.lookahead
    }

    /// The time at which the next beat is to sound: one lookahead window
    /// after it comes due.
    pub open spec fn scheduled_time(self) -> nat {
        self.beat_time + self.lookahead
    }

    /// The next beat, as it is handed to the callback of a tick.
    pub open spec fn beat(self) -> (u64, usize, usize) {
        (self.scheduled_time() as u64, self.page as usize, self.step as usize)
    }

    /// The sequencer one beat later: the next beat is due one beat length
    /// on, the step moves on within the measure, and the page moves on
    /// within the loop whenever the step comes round to 0.
    pub open spec fn advance(self) -> SequencerState {
        let step = (self.step as int + 1) % (self.beats_per_measure() as int);
        SequencerState {
            step: step as nat,
            page: if step == 0 {
                ((self.page as int + 1) % (self.pages as int)) as nat
            } else {
                self.page
            },
            beat_time: self.beat_time + self.beat_length(),
            ..self
        }
    }

    /// The sequencer `beats` beats later.
    pub open spec fn advanced(self, beats: nat) -> SequencerState
        decreases beats,
    {
        if beats == 0 {
            self
        } else {
            self.advanced((beats - 1) as nat).advance()
        }
    }

    /// How many beats are due at time `now`: the beats from the next one on
    /// that lie within the lookahead window.
    pub open spec fn due_count(self, now: nat) -> nat {
        if self.is_due(now) {
            ((now + self.lookahead - self.beat_time + self.beat_length() - 1)
                / self.beat_length() as int) as nat
        } else {
            0
        }
    }

    /// The sequencer after a tick at time `now` whose callback never fails:
    /// every beat that was due has been fired.
    pub open spec fn caught_up(self, now: nat) -> SequencerState {
        self.advanced(self.due_count(now))
    }

    /// The sequencer after one tick at each of the given times, in order.
    pub open spec fn after_ticks(self, times: Seq<nat>) -> SequencerState
        decreases times.len(),
    {
        if times.len() == 0 {
            self
        } else {
            self.after_ticks(times.drop_last()).caught_up(times.last())
        }
    }

    /// How many beats the ticks at the given times fire, all together.
    pub open spec fn fired_by(self, times: Seq<nat>) -> nat
        decreases times.len(),
    {
        if times.len() == 0 {
            0
        } else {
            self.fired_by(times.drop_last()) + self.after_ticks(times.drop_last()).due_count(
                times.last(),
            )
        }
    }
}

/// A step sequencer with a tempo, a resolution and a loop of pages.
///
/// It keeps the time at which its next beat comes due. A tick at some time
/// fires, in order, every beat that is due by then, so that ticks may come
/// at any pace without a beat being lost or fired twice.
pub struct Sequencer {
    bpm: u32,
    pages: usize,
    resolution: Resolution,
    interval: u32,
    step: usize,
    page: usize,
    beat_time: u64,
}

impl View for Sequencer {
    type V = SequencerState;

    closed spec fn view(&self) -> SequencerState {
        SequencerState {
            bpm: self.bpm as nat,
            pages: self.pages as nat,
            resolution: self.resolution,
            lookahead: (self.interval * 1000) as nat,
            step: self.step as nat,
            page: self.page as nat,
            beat_time: self.beat_time as nat,
        }
    }
}

impl Sequencer {
    #[verifier::type_invariant]
    spec fn inv(&self) -> bool {
        &&& self@.valid()
        &&& self.beat_time <= 2 * MAX_TIME
    }

    /// A sequencer at `bpm` beats per minute, with a loop of `pages`
    /// measures, whose first beat is due at `current_time`. Beats are
    /// scheduled `interval` milliseconds ahead.
    pub fn new(
        bpm: u32,
        pages: usize,
        resolution: Resolution,
        current_time: u64,
        interval: u32,
    ) -> (sequencer: Self)
        requires
            0 < bpm <= MAX_BPM,
            0 < pages,
            current_time <= MAX_TIME,
        ensures
            sequencer@ == (SequencerState {
                bpm: bpm as nat,
                pages: pages as nat,
                resolution,
                lookahead: (interval * 1000) as nat,
                step: 0,
                page: 0,
                beat_time: current_time as nat,
            }),
            sequencer@.valid(),
    {
        Self { bpm, pages, resolution, interval, step: 0, page: 0, beat_time: current_time }
    }

    /// Fires every beat that is due at `current_time`, first due first: for
    /// each it calls `f` with the time at which the beat is to sound, the
    /// page and the step, and then moves on to the next beat.
    ///
    /// Where `f` fails, the tick stops and hands the failure on: the beats
    /// before stay fired, the beat that failed stays the next one.
    pub fn tick<F, E>(&mut self, current_time: u64, f: F) -> (result: Result<(), E>) where
        F: Fn(u64, usize, usize) -> Result<(), E>,

        requires
            current_time <= MAX_TIME,
            forall|beats: nat|
                beats < old(self)@.due_count(current_time as nat) ==> f.requires(
                    #[trigger] old(self)@.advanced(beats).beat(),
                ),
        ensures
            final(self)@.valid(),
            match result {
                Ok(_) => {
                    &&& final(self)@ == old(self)@.caught_up(current_time as nat)
                    &&& forall|beats: nat|
                        beats < old(self)@.due_count(current_time as nat) ==> f.ensures(
                            #[trigger] old(self)@.advanced(beats).beat(),
                            Ok(()),
                        )
                },
                Err(error) => exists|failed: nat|
                    {
                        &&& failed < old(self)@.due_count(current_time as nat)
                        &&& final(self)@ == old(self)@.advanced(failed)
                        &&& f.ensures(old(self)@.advanced(failed).beat(), Err(error))
                        &&& forall|beats: nat|
                            beats < failed ==> f.ensures(
                                #[trigger] old(self)@.advanced(beats).beat(),
                                Ok(()),
                            )
                    },
            },
    {
        proof {
            use_type_invariant(&*self);
        }
        let ghost start = self@;
        let ghost now = current_time as nat;
        let ghost total = start.due_count(now);
        let ghost mut fired: nat = 0;
        loop
            invariant
                current_time <= MAX_TIME,
                now == current_time,
                start == old(self)@,
                total == start.due_count(now),
                self@ == start.advanced(fired),
                self@.valid(),
                fired + self@.due_count(now) == total,
                forall|beats: nat|
                    beats < total ==> f.requires(#[trigger] start.advanced(beats).beat()),
                forall|beats: nat|
                    beats < fired ==> f.ensures(#[trigger] start.advanced(beats).beat(), Ok(())),
            decreases self@.due_count(now),
        {
            proof {
                lemma_due_count_step(self@, now);
            }
            let beat = match self.due(current_time) {
                Some(beat) => beat,
                None => {
                    return Ok(());
                },
            };
            assert((beat.time, beat.page, beat.step) == start.advanced(fired).beat());
            let outcome = f(beat.time, beat.page, beat.step);
            match outcome {
                Ok(unit) => {
                    assert(unit == ());
                },
                Err(error) => {
                    assert(f.ensures(start.advanced(fired).beat(), Err(error)));
                    return Err(error);
                },
            }
            self.advance(current_time);
            proof {
                assert(f.ensures(start.advanced(fired).beat(), Ok(())));
                fired = fired + 1;
            }
        }
    }

    /// The beat that is due at `current_time`, if one is: the next beat,
    /// once it lies within the lookahead window. The sequencer stays as it
    /// is; `advance` moves it on.
    pub fn due(&self, current_time: u64) -> (beat: Option<Beat>)
        requires
            current_time <= MAX_TIME,
        ensures
            beat is Some <==> self@.is_due(current_time as nat),
            beat matches Some(b) ==> (b.time, b.page, b.step) == self@.beat() && b.time
                == self@.scheduled_time() && b.page == self@.page && b.step == self@.step,
    {
        proof {
            use_type_invariant(self);
        }
        let lookahead = self.interval as u64 * 1000;
        if self.beat_time < current_time + lookahead {
            Some(Beat { time: self.beat_time + lookahead, page: self.page, step: self.step })
        } else {
            None
        }
    }

    /// Moves on to the next beat, where the current one is due at
    /// `current_time`, and gives the beat that was due; where none is due,
    /// the sequencer stays as it is.
    pub fn advance(&mut self, current_time: u64) -> (beat: Option<Beat>)
        requires
            current_time <= MAX_TIME,
        ensures
            final(self)@.valid(),
            !old(self)@.is_due(current_time as nat) ==> beat is None && final(self)@ == old(self)@,
            old(self)@.is_due(current_time as nat) ==> final(self)@ == old(self)@.advance() && beat
                == Some(
                (Beat {
                    time: old(self)@.scheduled_time() as u64,
                    page: old(self)@.page as usize,
                    step: old(self)@.step as usize,
                }),
            ),
        no_unwind
    {
        proof {
            use_type_invariant(&*self);
            lemma_beat_length(self@);
        }
        let lookahead = self.interval as u64 * 1000;
        if self.beat_time >= current_time + lookahead {
            return None;
        }
        let beat = Beat { time: self.beat_time + lookahead, page: self.page, step: self.step };
        let beats_per_measure = self.resolution.duration().beats_per_measure();
        self.beat_time = self.beat_time + self.seconds_per_beat();
        self.step = (self.step + 1) % beats_per_measure;
        if self.step == 0 {
            self.page = (self.page + 1) % self.pages;
        }
        Some(beat)
    }

    /// The note length of one step.
    pub fn resolution(&self) -> (resolution: Resolution)
        ensures
            resolution == self@.resolution,
    {
        self.resolution
    }

    /// The time from one beat to the next, in microseconds.
    pub fn seconds_per_beat(&self) -> (micros: u64)
        ensures
            micros == self@.beat_length(),
            1 <= micros <= 60_000_000,
        no_unwind
    {
        proof {
            use_type_invariant(self);
            lemma_beat_length(self@);
        }
        let beats_per_minute = self.bpm as u64 * self.resolution.duration().beats_per_measure() as u64;
        WHOLE_NOTE / beats_per_minute
    }

    /// Sets the tempo. The beat that is due next stays due when it was; the
    /// beats after it follow at the new pace.
    pub fn set_bpm(&mut self, bpm: u32)
        requires
            0 < bpm <= MAX_BPM,
        ensures
            final(self)@ == (SequencerState { bpm: bpm as nat, ..old(self)@ }),
            final(self)@.valid(),
    {
        proof {
            use_type_invariant(&*self);
        }
        self.bpm = bpm;
    }
}

/// A beat lasts at least a microsecond and at most a minute.
pub proof fn lemma_beat_length(state: SequencerState)
    requires
        state.valid(),
    ensures
        1 <= state.beat_length() <= 60_000_000,
        0 < state.bpm * state.beats_per_measure() <= WHOLE_NOTE,
{
    let per_minute = (state.bpm * state.beats_per_measure()) as int;
    assert(4 <= per_minute <= WHOLE_NOTE) by {
        if state.resolution == Resolution::Eighth {
            assert(per_minute == state.bpm * 8);
        } else {
            assert(per_minute == state.bpm * 4);
        }
    }
    lemma_div_non_zero(WHOLE_NOTE as int, per_minute);
    lemma_div_is_ordered_by_denominator(WHOLE_NOTE as int, 4, per_minute);
}

/// One beat on, a valid sequencer is valid; tempo, resolution, pages and
/// lookahead window stay as they are.
pub proof fn lemma_advance_keeps_valid(state: SequencerState)
    requires
        state.valid(),
    ensures
        state.advance().valid(),
        state.advance() == (SequencerState {
            step: state.advance().step,
            page: state.advance().page,
            beat_time: state.advance().beat_time,
            ..state
        }),
{
    lemma_mod_bound(state.step as int + 1, state.beats_per_measure() as int);
    lemma_mod_bound(state.page as int + 1, state.pages as int);
}

/// A beat that is due counts for one among the beats that are due, before
/// those that are due once it is fired; where no beat is due, none counts.
pub proof fn lemma_due_count_step(state: SequencerState, now: nat)
    requires
        state.valid(),
    ensures
        !state.is_due(now) ==> state.due_count(now) == 0,
        state.is_due(now) ==> state.due_count(now) == 1 + state.advance().due_count(now),
{
    lemma_beat_length(state);
    lemma_advance_keeps_valid(state);
    if state.is_due(now) {
        let length = state.beat_length() as int;
        let ahead = now + state.lookahead - state.beat_time;
        assert(state.advance().beat_length() == length);
        if ahead <= length {
            lemma_fundamental_div_mod_converse(ahead + length - 1, length, 1, ahead - 1);
        } else {
            lemma_div_plus_one(ahead - 1, length);
        }
    }
}

/// Where a sequencer stands `beats` beats on: a beat length further for
/// each beat, the step counted round the measure, and the page counted
/// round the loop once for every measure that was completed.
pub proof fn lemma_advanced(state: SequencerState, beats: nat)
    requires
        state.valid(),
    ensures
        state.advanced(beats).valid(),
        state.advanced(beats).beat_time == state.beat_time + beats * state.beat_length(),
        state.advanced(beats).scheduled_time() == state.beat_time + beats * state.beat_length()
            + state.lookahead,
        state.advanced(beats).step == (state.step as int + beats as int) % (
        state.beats_per_measure() as int),
        state.advanced(beats).page == (state.page as int + (state.step as int + beats as int) / (
        state.beats_per_measure() as int)) % (state.pages as int),
        state.advanced(beats) == (SequencerState {
            step: state.advanced(beats).step,
            page: state.advanced(beats).page,
            beat_time: state.advanced(beats).beat_time,
            ..state
        }),
    decreases beats,
{
    let measure = state.beats_per_measure() as int;
    let pages = state.pages as int;
    let step = state.step as int;
    let page = state.page as int;
    if beats == 0 {
        lemma_fundamental_div_mod_converse(step, measure, 0, step);
        lemma_fundamental_div_mod_converse(page, pages, 0, page);
    } else {
        let before = (beats - 1) as nat;
        let previous = state.advanced(before);
        let previous_step = previous.step as int;
        let previous_page = previous.page as int;
        lemma_advanced(state, before);
        lemma_advance_keeps_valid(previous);
        assert(previous.beat_length() == state.beat_length());
        assert(state.beat_time + before * state.beat_length() + state.beat_length()
            == state.beat_time + beats * state.beat_length()) by {
            lemma_mul_is_distributive_add_other_way(state.beat_length() as int, before as int, 1);
        }
        // The step: one more than before, round the measure.
        let count = step + before as int;
        let measures = count / measure;
        lemma_fundamental_div_mod(count, measure);
        lemma_mod_bound(count, measure);
        assert(count == measure * measures + previous_step);
        if previous_step + 1 < measure {
            assert(measures * measure == measure * measures) by (nonlinear_arith);
            lemma_fundamental_div_mod_converse(count + 1, measure, measures, previous_step + 1);
            lemma_fundamental_div_mod_converse(previous_step + 1, measure, 0, previous_step + 1);
        } else {
            assert((measures + 1) * measure == measure * measures + measure) by (nonlinear_arith);
            lemma_fundamental_div_mod_converse(count + 1, measure, measures + 1, 0);
            lemma_fundamental_div_mod_converse(previous_step + 1, measure, 1, 0);
            // The page: one more than before, round the loop.
            let turns = (page + measures) / pages;
            lemma_fundamental_div_mod(page + measures, pages);
            lemma_mod_bound(page + measures, pages);
            assert(page + measures == pages * turns + previous_page);
            if previous_page + 1 < pages {
                assert(turns * pages == pages * turns) by (nonlinear_arith);
                lemma_fundamental_div_mod_converse(
                    page + measures + 1,
                    pages,
                    turns,
                    previous_page + 1,
                );
                lemma_fundamental_div_mod_converse(previous_page + 1, pages, 0, previous_page + 1);
            } else {
                assert((turns + 1) * pages == pages * turns + pages) by (nonlinear_arith);
                lemma_fundamental_div_mod_converse(page + measures + 1, pages, turns + 1, 0);
                lemma_fundamental_div_mod_converse(previous_page + 1, pages, 1, 0);
            }
        }
    }
}

/// Beats later and beats later again are as many beats later as both
/// together.
pub proof fn lemma_advanced_twice(state: SequencerState, first: nat, second: nat)
    ensures
        state.advanced(first).advanced(second) == state.advanced(first + second),
    decreases second,
{
    if second > 0 {
        lemma_advanced_twice(state, first, (second - 1) as nat);
    }
}

/// Firing some of the beats that are due leaves the others due, and no more.
pub proof fn lemma_due_count_after(state: SequencerState, now: nat, beats: nat)
    requires
        state.valid(),
        beats <= state.due_count(now),
    ensures
        state.advanced(beats).valid(),
        state.advanced(beats).due_count(now) == state.due_count(now) - beats,
    decreases beats,
{
    if beats > 0 {
        let before = (beats - 1) as nat;
        lemma_due_count_after(state, now, before);
        lemma_due_count_step(state.advanced(before), now);
        lemma_advance_keeps_valid(state.advanced(before));
    }
}

/// As time goes on, no beat that was due stops being due.
pub proof fn lemma_due_count_grows(state: SequencerState, earlier: nat, later: nat)
    requires
        state.valid(),
        earlier <= later,
    ensures
        state.due_count(earlier) <= state.due_count(later),
{
    lemma_beat_length(state);
    if state.is_due(earlier) {
        let length = state.beat_length() as int;
        lemma_div_is_ordered(
            earlier + state.lookahead - state.beat_time + length - 1,
            later + state.lookahead - state.beat_time + length - 1,
            length,
        );
    }
}

/// After a tick, no beat is still due at the time of the tick, and the beats
/// that are due at a later time are those that were due then and had not
/// been fired.
pub proof fn lemma_caught_up(state: SequencerState, now: nat, later: nat)
    requires
        state.valid(),
        now <= later,
    ensures
        state.caught_up(now).valid(),
        state.caught_up(now).due_count(now) == 0,
        state.caught_up(now).due_count(later) == state.due_count(later) - state.due_count(now),
{
    lemma_due_count_grows(state, now, later);
    lemma_due_count_after(state, now, state.due_count(now));
    lemma_due_count_after(state, later, state.due_count(now));
}

/// Ticks at times that never go back fire every beat exactly once, in
/// order: together they leave the sequencer as many beats on as they fired,
/// and they fired as many beats as were due at the time of the last tick,
/// however the ticks were spaced. The beat with number `beats`, counted from
/// 0, is to sound `beats` beat lengths and one lookahead window after the
/// time at which the first beat was due.
pub proof fn lemma_ticks_fire_each_beat_once(state: SequencerState, times: Seq<nat>, beats: nat)
    requires
        state.valid(),
        forall|i: int, j: int| 0 <= i <= j < times.len() ==> times[i] <= times[j],
    ensures
        state.after_ticks(times).valid(),
        state.after_ticks(times) == state.advanced(state.fired_by(times)),
        times.len() > 0 ==> state.fired_by(times) == state.due_count(times.last()),
        state.advanced(beats).scheduled_time() == state.beat_time + beats * state.beat_length()
            + state.lookahead,
    decreases times.len(),
{
    lemma_advanced(state, beats);
    if times.len() > 0 {
        let before = times.drop_last();
        let now = times.last();
        lemma_ticks_fire_each_beat_once(state, before, beats);
        let fired = state.fired_by(before);
        lemma_advanced_twice(state, fired, state.advanced(fired).due_count(now));
        if before.len() > 0 {
            assert(before.last() == times[times.len() - 2]);
            lemma_caught_up(state, before.last(), now);
        }
        lemma_due_count_after(state, now, state.fired_by(times));
    }
}

} // verus!
