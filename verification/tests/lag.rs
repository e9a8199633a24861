use timesteps::lag::{lag_system, LagConfig};

#[test]
fn default_lag_pauses_every_frame_for_no_time() {
    let config = LagConfig::default();
    assert_eq!(config, LagConfig { frames_delay: 0, lag_duration_ms: 0 });
    let mut counter = 0;
    assert_eq!(lag_system(&config, &mut counter), Some(0));
    assert_eq!(counter, 0);
}

#[test]
fn lag_comes_after_the_configured_frames() {
    let config = LagConfig { frames_delay: 3, lag_duration_ms: 25 };
    let mut counter = 0;
    let mut pauses = Vec::new();
    for _ in 0..9 {
        pauses.push(lag_system(&config, &mut counter));
    }
    let expected =
        vec![None, None, None, Some(25), None, None, None, Some(25), None];
    assert_eq!(pauses, expected);
    assert_eq!(counter, 1);
}

#[test]
fn lag_counter_above_the_delay_starts_over() {
    let config = LagConfig { frames_delay: 2, lag_duration_ms: 7 };
    let mut counter = u32::MAX;
    assert_eq!(lag_system(&config, &mut counter), Some(7));
    assert_eq!(counter, 0);
    let config = LagConfig { frames_delay: u32::MAX, lag_duration_ms: 7 };
    let mut counter = u32::MAX - 1;
    assert_eq!(lag_system(&config, &mut counter), None);
    assert_eq!(counter, u32::MAX);
    assert_eq!(lag_system(&config, &mut counter), Some(7));
}
