use timesteps::update_cadence::{UpdateCounts, MAX_HISTORY_LENGTH};

#[test]
fn history_keeps_a_hundred_and_twenty_frames() {
    assert_eq!(MAX_HISTORY_LENGTH, 120);
}

#[test]
fn empty_history_counts_nothing() {
    let mut history = UpdateCounts::new();
    assert_eq!(history.len(), 0);
    assert_eq!(history.max_updates(), 0);
    history.update_count();
    assert_eq!(history.len(), 0);
    assert_eq!(history.counts(), Vec::<u32>::new());
}

#[test]
fn runs_are_counted_in_the_frame_in_progress() {
    let mut history = UpdateCounts::new();
    history.flush_counts();
    assert_eq!(history.counts(), vec![0]);
    history.update_count();
    history.update_count();
    assert_eq!(history.counts(), vec![2]);
    history.flush_counts();
    history.update_count();
    assert_eq!(history.counts(), vec![2, 1]);
    history.flush_counts();
    assert_eq!(history.counts(), vec![2, 1, 0]);
    assert_eq!(history.max_updates(), 2);
}

#[test]
fn max_updates_is_the_largest_count() {
    let mut history = UpdateCounts::new();
    for runs in [1, 0, 3, 2, 3, 0] {
        history.flush_counts();
        for _ in 0..runs {
            history.update_count();
        }
    }
    assert_eq!(history.counts(), vec![1, 0, 3, 2, 3, 0]);
    assert_eq!(history.max_updates(), 3);
}

#[test]
fn full_history_drops_its_oldest_frame() {
    let mut history = UpdateCounts::new();
    for frame in 0..MAX_HISTORY_LENGTH {
        history.flush_counts();
        for _ in 0..frame % 5 {
            history.update_count();
        }
        assert_eq!(history.len(), frame + 1);
    }
    let before = history.counts();
    assert_eq!(before.len(), MAX_HISTORY_LENGTH);
    history.flush_counts();
    let after = history.counts();
    assert_eq!(after.len(), MAX_HISTORY_LENGTH);
    assert_eq!(after[..MAX_HISTORY_LENGTH - 1], before[1..]);
    assert_eq!(after[MAX_HISTORY_LENGTH - 1], 0);
    for _ in 0..500 {
        history.flush_counts();
        assert_eq!(history.len(), MAX_HISTORY_LENGTH);
    }
    assert_eq!(history.max_updates(), 0);
}
