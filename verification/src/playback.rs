//! Playback progress extrapolation and poll scheduling.
//!
//! A remote playback snapshot arrives only every few seconds, while the
//! display is refreshed on every tick.  `estimate` reconstructs a smoothly
//! advancing progress value from the last snapshot and the monotonic clock,
//! and `PollState` gates how often a fresh remote fetch may be issued.

use vstd::prelude::*;

verus! {

/// A point-in-time record of remote playback state: the current track's
/// length, whether it is playing, and the monotonic time (in milliseconds)
/// at which the record was fetched.
#[derive(Clone, Copy, PartialEq, Eq, Structural, Debug)]
pub struct PlaybackSnapshot {
    pub track_duration_ms: u128,
    pub is_playing: bool,
    pub fetched_at_ms: u128,
}

/// The progress to display for snapshot `s` at monotonic time `now_ms`,
/// given the value `prior_ms` currently on display: frozen at `prior_ms`
/// while paused, otherwise the time elapsed since the snapshot was fetched,
/// clamped to the track's duration.
pub open spec fn spec_estimate(s: PlaybackSnapshot, now_ms: u128, prior_ms: u128) -> u128
    recommends
        s.is_playing ==> s.fetched_at_ms <= now_ms,
{
    if !s.is_playing {
        prior_ms
    } else if now_ms - s.fetched_at_ms < s.track_duration_ms {
        (now_ms - s.fetched_at_ms) as u128
    } else {
        s.track_duration_ms
    }
}

/// Computes the progress to display for `s` at monotonic time `now_ms`,
/// given the progress value `prior_ms` currently on display.
pub fn estimate(s: &PlaybackSnapshot, now_ms: u128, prior_ms: u128) -> (r: u128)
    requires
        s.is_playing ==> s.fetched_at_ms <= now_ms,
    ensures
        r == spec_estimate(*s, now_ms, prior_ms),
        !s.is_playing ==> r == prior_ms,
        s.is_playing ==> r <= s.track_duration_ms,
{
    if !s.is_playing {
        prior_ms
    } else {
        let elapsed = now_ms - s.fetched_at_ms;
        if elapsed < s.track_duration_ms {
            elapsed
        } else {
            s.track_duration_ms
        }
    }
}

/// While a track is playing, the estimate only moves forward as time does:
/// for a fixed snapshot, a later tick never displays an earlier position.
pub proof fn lemma_estimate_monotonic(
    s: PlaybackSnapshot,
    now1_ms: u128,
    now2_ms: u128,
    prior_ms: u128,
)
    requires
        s.is_playing,
        s.fetched_at_ms <= now1_ms <= now2_ms,
    ensures
        spec_estimate(s, now1_ms, prior_ms) <= spec_estimate(s, now2_ms, prior_ms),
{
}

/// The estimate never overruns the track: as long as the value on display
/// lies within the track, so does the estimate, playing or paused.
pub proof fn lemma_estimate_bounded(s: PlaybackSnapshot, now_ms: u128, prior_ms: u128)
    requires
        prior_ms <= s.track_duration_ms,
        s.is_playing ==> s.fetched_at_ms <= now_ms,
    ensures
        spec_estimate(s, now_ms, prior_ms) <= s.track_duration_ms,
{
}

/// When the last remote poll was issued, in monotonic milliseconds.
#[derive(Clone, Copy, PartialEq, Eq, Structural, Debug)]
pub struct PollState {
    pub last_poll_at_ms: u128,
}

/// A fresh poll is due exactly when a full `interval_ms` has passed since
/// the last recorded poll.
pub open spec fn spec_should_poll(last_poll_at_ms: u128, now_ms: u128, interval_ms: u128) -> bool {
    last_poll_at_ms + interval_ms <= now_ms
}

impl PollState {
    /// A gate whose last poll time is `now_ms`.
    pub fn new(now_ms: u128) -> (r: Self)
        ensures
            r.last_poll_at_ms == now_ms,
    {
        PollState { last_poll_at_ms: now_ms }
    }

    /// Reports whether a fresh remote fetch is due at monotonic time
    /// `now_ms`, for a minimum spacing of `interval_ms` between fetches.
    pub fn should_poll(&self, now_ms: u128, interval_ms: u128) -> (r: bool)
        ensures
            r == spec_should_poll(self.last_poll_at_ms, now_ms, interval_ms),
    {
        now_ms >= self.last_poll_at_ms && now_ms - self.last_poll_at_ms >= interval_ms
    }

    /// Records that a remote fetch was attempted at `now_ms`; to be called
    /// exactly once per attempt, whether or not the fetch succeeds.
    pub fn record_poll(&mut self, now_ms: u128)
        ensures
            final(self).last_poll_at_ms == now_ms,
    {
        self.last_poll_at_ms = now_ms;
    }
}

/// Immediately after a poll is recorded at `now_ms`, no further poll is due
/// at any `later_ms` before `now_ms + interval_ms`, and one is due at every
/// `later_ms` from that moment on.
pub proof fn lemma_poll_gate(now_ms: u128, later_ms: u128, interval_ms: u128)
    ensures
        later_ms < now_ms + interval_ms ==> !spec_should_poll(now_ms, later_ms, interval_ms),
        later_ms >= now_ms + interval_ms ==> spec_should_poll(now_ms, later_ms, interval_ms),
{
}

} // verus!
