use black_body::animation::{next_tick, Tick, FRAME_LIMIT};

#[test]
fn animation_renders_until_limit() {
    assert_eq!(next_tick(0), Tick::Render { frames: 1 });
    assert_eq!(next_tick(FRAME_LIMIT), Tick::Render { frames: 1001 });
    assert_eq!(next_tick(1001), Tick::Stop);
    assert_eq!(next_tick(u32::MAX), Tick::Stop);
}
