use space_invaders_core::clock::FrameClock;
use space_invaders_core::clock::FRAME_DURATION_NS;
use space_invaders_core::clock::HALF_FRAME_DURATION_NS;

#[test]
fn full_frame_delta_fires_vector_one_only() {
    let mut clock = FrameClock::new(0);
    let (fired, _cycles) = clock.advance(FRAME_DURATION_NS);
    assert_eq!(fired, Some(1));
    assert_ne!(fired, Some(2));
}

#[test]
fn one_millisecond_budget_is_two_thousand_cycles() {
    let mut clock = FrameClock::new(0);
    let (fired, cycles) = clock.advance(1_000_000);
    assert_eq!(cycles, 2000);
    assert_eq!(fired, None);
}

#[test]
fn half_frame_fires_once_per_frame() {
    let mut clock = FrameClock::new(0);
    // half a frame in: mid-screen interrupt
    assert_eq!(clock.advance(HALF_FRAME_DURATION_NS).0, Some(2));
    // later in the same frame: nothing more
    assert_eq!(clock.advance(12_000_000).0, None);
    // a full frame since the last end-of-draw: vector 1 again
    assert_eq!(clock.advance(FRAME_DURATION_NS).0, Some(1));
    // and the next mid-screen fires in the new frame
    assert_eq!(clock.advance(FRAME_DURATION_NS + HALF_FRAME_DURATION_NS).0, Some(2));
}

#[test]
fn budget_measures_from_last_advance() {
    let mut clock = FrameClock::new(5_000_000);
    assert_eq!(clock.advance(5_000_500).1, 1);
    assert_eq!(clock.advance(5_000_999).1, 0);
    assert_eq!(clock.advance(5_002_000).1, 2);
    assert_eq!(clock.last_advance_ns(), 5_002_000);
}

#[test]
fn short_delta_fires_nothing() {
    let mut clock = FrameClock::new(0);
    let (fired, cycles) = clock.advance(4_000_000);
    assert_eq!(fired, None);
    assert_eq!(cycles, 8000);
    assert_eq!(clock.last_full_frame_ns(), 0);
}
