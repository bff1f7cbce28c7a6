//! The playback session state machine.
//!
//! A session owns the player's mutable state: which catalog track is
//! loaded, whether an audio sink is attached and paused, the total
//! duration the decoder reported, and the elapsed-time accounting that
//! survives pause/resume cycles without any callback from the audio
//! backend.
//!
//! The audio device itself is a collaborator: the driver holding the
//! session also holds the live sink handle, attaches one exactly when a
//! load completes, and detaches (stop, then drop) exactly when the
//! session clears. All clock readings come in as milliseconds from a
//! monotonic clock the driver owns.

use vstd::prelude::*;

use crate::catalog::Catalog;
use crate::catalog::TrackView;

verus! {

/// The mathematical state of a playback session.
pub ghost struct SessionView {
    /// The catalog the session was built over (immutable).
    pub tracks: Seq<TrackView>,
    /// Whether a live audio sink is attached.
    pub active: bool,
    /// The catalog index of the loaded track, if any.
    pub current: Option<usize>,
    /// Whether playback is paused (meaningful only while a track is loaded).
    pub paused: bool,
    /// The decoder-reported total duration of the loaded track, if known.
    pub total_ms: Option<u64>,
    /// Clock reading at which the current unpaused playback epoch began.
    pub reference_ms: u64,
    /// Playback time accrued over completed epochs of the current load.
    pub accumulated_ms: u64,
}

impl SessionView {
    /// Session invariant: a sink is attached exactly while a track is
    /// loaded, the loaded index lies inside the catalog, and the empty
    /// state carries no leftover accounting.
    pub open spec fn wf(self) -> bool {
        &&& self.active <==> self.current is Some
        &&& match self.current {
            Option::Some(i) => i < self.tracks.len(),
            Option::None => {
                &&& !self.paused
                &&& self.total_ms is None
                &&& self.reference_ms == 0
                &&& self.accumulated_ms == 0
            },
        }
    }

    /// Nothing has been loaded (or the last load was torn down).
    pub open spec fn is_empty(self) -> bool {
        self.current is None
    }

    /// A track is loaded and playing.
    pub open spec fn is_playing(self) -> bool {
        self.current is Some && !self.paused
    }

    /// A track is loaded and paused.
    pub open spec fn is_paused(self) -> bool {
        self.current is Some && self.paused
    }

    /// Number of live sinks the session accounts for: one while a track
    /// is loaded, none otherwise.
    pub open spec fn sink_count(self) -> nat {
        if self.active {
            1
        } else {
            0
        }
    }

    /// The state after tearing down whatever was loaded: empty, with the
    /// catalog kept and every per-load field reset.
    pub open spec fn cleared(self) -> SessionView {
        SessionView {
            tracks: self.tracks,
            active: false,
            current: Option::None,
            paused: false,
            total_ms: Option::None,
            reference_ms: 0,
            accumulated_ms: 0,
        }
    }

    /// The state after a load of track `index` completes at clock `now_ms`
    /// with decoder-reported duration `total_ms`: playing from a fresh
    /// epoch with no accrued time.
    pub open spec fn loaded(self, index: usize, total_ms: Option<u64>, now_ms: u64) -> SessionView {
        SessionView {
            tracks: self.tracks,
            active: true,
            current: Option::Some(index),
            paused: false,
            total_ms: total_ms,
            reference_ms: now_ms,
            accumulated_ms: 0,
        }
    }

    /// The state after pausing at clock `now_ms`: the running epoch's
    /// time is banked into the accumulator and the display freezes there.
    pub open spec fn paused_at(self, now_ms: u64) -> SessionView {
        SessionView {
            paused: true,
            accumulated_ms: self.accumulated_ms.saturating_add(
                now_ms.saturating_sub(self.reference_ms),
            ),
            ..self
        }
    }

    /// The state after resuming at clock `now_ms`: a fresh epoch starts
    /// and the banked time is kept.
    pub open spec fn resumed_at(self, now_ms: u64) -> SessionView {
        SessionView { paused: false, reference_ms: now_ms, ..self }
    }

    /// Elapsed playback time at clock `now_ms`, before clamping: the
    /// banked time plus, while playing, the running epoch. Saturating, so
    /// a clock reading before the epoch start contributes nothing and the
    /// sum never wraps.
    pub open spec fn raw_elapsed_ms(self, now_ms: u64) -> u64 {
        if self.paused {
            self.accumulated_ms
        } else {
            self.accumulated_ms.saturating_add(now_ms.saturating_sub(self.reference_ms))
        }
    }

    /// Elapsed playback time as reported: clamped to the total duration
    /// when the decoder reported one.
    pub open spec fn elapsed_ms(self, now_ms: u64) -> u64 {
        match self.total_ms {
            Option::Some(t) => if self.raw_elapsed_ms(now_ms) < t {
                self.raw_elapsed_ms(now_ms)
            } else {
                t
            },
            Option::None => self.raw_elapsed_ms(now_ms),
        }
    }
}

/// A command that needs a loaded track was issued while nothing was
/// loaded.
#[derive(Debug, PartialEq, Eq)]
pub enum UserError {
    NoActiveTrack,
}

/// A read-only snapshot of the session for the presentation layer to
/// render on a refresh tick.
#[derive(Debug, PartialEq, Eq)]
pub struct Snapshot {
    /// Catalog index of the loaded track, if any.
    pub current_index: Option<usize>,
    /// Whether playback is paused.
    pub is_paused: bool,
    /// Clamped elapsed playback time, absent while nothing is loaded.
    pub elapsed_ms: Option<u64>,
    /// Decoder-reported total duration, if known.
    pub total_ms: Option<u64>,
}

/// The playback session: at most one loaded track, its pause state, and
/// the elapsed-time accounting for the current load.
pub struct PlaybackSession {
    catalog: Catalog,
    active: bool,
    current_index: Option<usize>,
    paused: bool,
    total_ms: Option<u64>,
    reference_ms: u64,
    accumulated_ms: u64,
}

impl View for PlaybackSession {
    type V = SessionView;

    closed spec fn view(&self) -> SessionView {
        SessionView {
            tracks: self.catalog@,
            active: self.active,
            current: self.current_index,
            paused: self.paused,
            total_ms: self.total_ms,
            reference_ms: self.reference_ms,
            accumulated_ms: self.accumulated_ms,
        }
    }
}

impl PlaybackSession {
    /// A fresh session over `catalog`: empty, nothing attached.
    pub fn new(catalog: Catalog) -> (s: Self)
        ensures
            s@.wf(),
            s@.tracks == catalog@,
            s@.is_empty(),
            s@ == s@.cleared(),
    {
        let s = PlaybackSession {
            catalog,
            active: false,
            current_index: Option::None,
            paused: false,
            total_ms: Option::None,
            reference_ms: 0,
            accumulated_ms: 0,
        };
        proof {
            assert(s@ =~= s@.cleared());
        }
        s
    }

    /// Number of tracks in the session's catalog.
    pub fn track_count(&self) -> (n: usize)
        ensures
            n == self@.tracks.len(),
    {
        self.catalog.len()
    }

    /// The path of track `index`, for the driver to open when loading.
    pub fn track_path(&self, index: usize) -> (p: &String)
        requires
            index < self@.tracks.len(),
        ensures
            p@ == self@.tracks[index as int].path,
    {
        self.catalog.path_at(index)
    }

    /// The display name of track `index`.
    pub fn track_name(&self, index: usize) -> (n: &String)
        requires
            index < self@.tracks.len(),
        ensures
            n@ == self@.tracks[index as int].name,
    {
        self.catalog.name_at(index)
    }

    /// Catalog index of the loaded track, if any.
    pub fn current_index(&self) -> (r: Option<usize>)
        ensures
            r == self@.current,
    {
        self.current_index
    }

    /// First step of every load: tear down the previous load, leaving the
    /// session empty with nothing attached. Returns whether a sink was
    /// attached, so the driver stops and drops its handle before opening
    /// the next file (stop-then-drop, never two live sinks).
    pub fn begin_load(&mut self) -> (had_sink: bool)
        requires
            old(self)@.wf(),
        ensures
            final(self)@.wf(),
            final(self)@ == old(self)@.cleared(),
            had_sink == old(self)@.active,
            final(self)@.sink_count() == 0,
    {
        let had_sink = self.active;
        self.active = false;
        self.current_index = Option::None;
        self.paused = false;
        self.total_ms = Option::None;
        self.reference_ms = 0;
        self.accumulated_ms = 0;
        proof {
            assert(final(self)@ =~= old(self)@.cleared());
        }
        had_sink
    }

    /// Second step of a load that succeeded: the driver opened and
    /// decoded track `index`, attached a fresh sink, and reports the
    /// decoder's total duration (if known) and the clock reading at which
    /// playback began. The session becomes `Loaded-Playing` on a fresh
    /// epoch: elapsed time reads zero at `now_ms`.
    pub fn finish_load(&mut self, index: usize, total_ms: Option<u64>, now_ms: u64)
        requires
            old(self)@.wf(),
            old(self)@.is_empty(),
            index < old(self)@.tracks.len(),
        ensures
            final(self)@.wf(),
            final(self)@ == old(self)@.loaded(index, total_ms, now_ms),
            final(self)@.is_playing(),
            final(self)@.current == Option::<usize>::Some(index),
            final(self)@.sink_count() == 1,
            final(self)@.elapsed_ms(now_ms) == 0,
    {
        self.active = true;
        self.current_index = Option::Some(index);
        self.paused = false;
        self.total_ms = total_ms;
        self.reference_ms = now_ms;
        self.accumulated_ms = 0;
        proof {
            assert(final(self)@ =~= old(self)@.loaded(index, total_ms, now_ms));
        }
    }

    /// Toggles pause at clock `now_ms`. From `Loaded-Playing` the session
    /// pauses, banking the running epoch (the driver pauses its sink);
    /// from `Loaded-Paused` it resumes on a fresh epoch (the driver
    /// resumes its sink). While empty it reports `NoActiveTrack` and
    /// changes nothing. Returns `Ok(true)` when now paused, `Ok(false)`
    /// when now playing.
    pub fn toggle_pause(&mut self, now_ms: u64) -> (r: Result<bool, UserError>)
        requires
            old(self)@.wf(),
        ensures
            final(self)@.wf(),
            old(self)@.is_empty() ==> {
                &&& final(self)@ == old(self)@
                &&& r == Result::<bool, UserError>::Err(UserError::NoActiveTrack)
            },
            old(self)@.is_playing() ==> {
                &&& final(self)@ == old(self)@.paused_at(now_ms)
                &&& r == Result::<bool, UserError>::Ok(true)
            },
            old(self)@.is_paused() ==> {
                &&& final(self)@ == old(self)@.resumed_at(now_ms)
                &&& r == Result::<bool, UserError>::Ok(false)
            },
            final(self)@.current == old(self)@.current,
            final(self)@.active == old(self)@.active,
            final(self)@.total_ms == old(self)@.total_ms,
    {
        match self.current_index {
            Option::None => Result::Err(UserError::NoActiveTrack),
            Option::Some(_) => {
                if self.paused {
                    self.paused = false;
                    self.reference_ms = now_ms;
                    proof {
                        assert(final(self)@ =~= old(self)@.resumed_at(now_ms));
                    }
                    Result::Ok(false)
                } else {
                    self.accumulated_ms = self.accumulated_ms.saturating_add(
                        now_ms.saturating_sub(self.reference_ms),
                    );
                    self.paused = true;
                    proof {
                        assert(final(self)@ =~= old(self)@.paused_at(now_ms));
                    }
                    Result::Ok(true)
                }
            },
        }
    }

    /// The catalog index `next()` would load: the successor of the
    /// current index when one exists. `None` (a no-op for the driver)
    /// while empty or already at the last track.
    pub fn next_target(&self) -> (r: Option<usize>)
        requires
            self@.wf(),
        ensures
            r == (match self@.current {
                Option::Some(i) => if i + 1 < self@.tracks.len() {
                    Option::Some((i + 1) as usize)
                } else {
                    Option::<usize>::None
                },
                Option::None => Option::<usize>::None,
            }),
    {
        match self.current_index {
            Option::Some(i) => {
                let len = self.catalog.len();
                assert(i < len);
                if i + 1 < len {
                    Option::Some(i + 1)
                } else {
                    Option::None
                }
            },
            Option::None => Option::None,
        }
    }

    /// The catalog index `prev()` would load: the predecessor of the
    /// current index when one exists. `None` (a no-op for the driver)
    /// while empty or already at the first track.
    pub fn prev_target(&self) -> (r: Option<usize>)
        requires
            self@.wf(),
        ensures
            r == (match self@.current {
                Option::Some(i) => if i > 0 {
                    Option::Some((i - 1) as usize)
                } else {
                    Option::<usize>::None
                },
                Option::None => Option::<usize>::None,
            }),
    {
        match self.current_index {
            Option::Some(i) => {
                if i > 0 {
                    Option::Some(i - 1)
                } else {
                    Option::None
                }
            },
            Option::None => Option::None,
        }
    }

    /// Clamped elapsed playback time at clock `now_ms`; absent while
    /// nothing is loaded.
    pub fn elapsed_ms(&self, now_ms: u64) -> (r: Option<u64>)
        requires
            self@.wf(),
        ensures
            r == (if self@.is_empty() {
                Option::<u64>::None
            } else {
                Option::Some(self@.elapsed_ms(now_ms))
            }),
    {
        match self.current_index {
            Option::None => Option::None,
            Option::Some(_) => {
                let raw: u64 = if self.paused {
                    self.accumulated_ms
                } else {
                    self.accumulated_ms.saturating_add(now_ms.saturating_sub(self.reference_ms))
                };
                let clamped: u64 = match self.total_ms {
                    Option::Some(t) => if raw < t {
                        raw
                    } else {
                        t
                    },
                    Option::None => raw,
                };
                Option::Some(clamped)
            },
        }
    }

    /// The read-only snapshot the presentation layer renders each tick.
    pub fn snapshot(&self, now_ms: u64) -> (s: Snapshot)
        requires
            self@.wf(),
        ensures
            s.current_index == self@.current,
            s.is_paused == self@.paused,
            s.total_ms == self@.total_ms,
            s.elapsed_ms == (if self@.is_empty() {
                Option::<u64>::None
            } else {
                Option::Some(self@.elapsed_ms(now_ms))
            }),
    {
        Snapshot {
            current_index: self.current_index,
            is_paused: self.paused,
            elapsed_ms: self.elapsed_ms(now_ms),
            total_ms: self.total_ms,
        }
    }
}

/// Elapsed time is well-behaved: never negative (it is unsigned), and
/// never above the reported total duration when one is known.
pub proof fn lemma_elapsed_bounded(s: SessionView, now_ms: u64)
    ensures
        s.total_ms is Some ==> s.elapsed_ms(now_ms) <= s.total_ms->0,
{
}

/// Monotonicity: with no intervening transition, elapsed time never
/// decreases as the clock advances.
pub proof fn lemma_elapsed_monotonic(s: SessionView, now_1: u64, now_2: u64)
    requires
        now_1 <= now_2,
    ensures
        s.elapsed_ms(now_1) <= s.elapsed_ms(now_2),
{
}

/// Pause/resume round trip: pausing and immediately resuming at the same
/// clock reading leaves reported elapsed time exactly where it was — it
/// neither jumps to the total nor resets to zero.
pub proof fn lemma_pause_resume_round_trip(s: SessionView, now_ms: u64)
    requires
        s.wf(),
        s.is_playing(),
    ensures
        s.paused_at(now_ms).resumed_at(now_ms).elapsed_ms(now_ms) == s.elapsed_ms(now_ms),
        s.paused_at(now_ms).elapsed_ms(now_ms) == s.elapsed_ms(now_ms),
{
}

} // verus!
