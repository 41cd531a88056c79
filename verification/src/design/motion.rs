//! Motion tokens: the durations of animations.
use vstd::prelude::*;
use std::time::Duration;

verus! {

/// What `Duration::from_millis(ms)` returns.
pub uninterp spec fn millis(ms: u64) -> Duration;

/// `Duration::from_millis`: a duration of `ms` milliseconds.
#[verifier::external_body]
fn duration_from_millis(ms: u64) -> (d: Duration)
    ensures
        d == millis(ms),
{
    Duration::from_millis(ms)
}

/// The durations of animations, from micro-interactions to decorations.
#[derive(Debug, Clone, Copy, PartialEq)]
pub struct DurationTokens {
    /// Micro-interactions (hover, press).
    pub micro: Duration,
    /// Quick feedback (toggle, tooltip).
    pub fastest: Duration,
    /// Simple transitions (dropdown, focus).
    pub faster: Duration,
    /// Standard transitions.
    pub fast: Duration,
    /// Moderate animations.
    pub normal: Duration,
    /// Elements appearing (modal, drawer).
    pub slow: Duration,
    /// Complex transitions (pages).
    pub slower: Duration,
    /// Expressive entrances.
    pub slowest: Duration,
    /// Decorative animations (background, glow).
    pub decorative: Duration,
}

/// The default durations: 50, 100, 150, 200, 300, 400, 500, 700 and 1000
/// milliseconds.
pub fn durations() -> (r: DurationTokens)
    ensures
        r.micro == millis(50),
        r.fastest == millis(100),
        r.faster == millis(150),
        r.fast == millis(200),
        r.normal == millis(300),
        r.slow == millis(400),
        r.slower == millis(500),
        r.slowest == millis(700),
        r.decorative == millis(1000),
{
    DurationTokens {
        micro: duration_from_millis(50),
        fastest: duration_from_millis(100),
        faster: duration_from_millis(150),
        fast: duration_from_millis(200),
        normal: duration_from_millis(300),
        slow: duration_from_millis(400),
        slower: duration_from_millis(500),
        slowest: duration_from_millis(700),
        decorative: duration_from_millis(1000),
    }
}

/// The direction an element slides in from.
#[derive(Debug, Clone, Copy, PartialEq, Eq, Structural)]
pub enum SlideDirection {
    Up,
    Down,
    Left,
    Right,
}

} // verus!
