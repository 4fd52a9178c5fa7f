use ghpick::indicator::IndicatorState;
use ghpick::indicator::ProgressIndicator;
use ghpick::indicator::SPINNER_GLYPH_COUNT;

#[test]
fn fresh_indicator_is_idle_and_clean() {
    let ind = ProgressIndicator::new();
    assert!(matches!(ind.state, IndicatorState::Idle));
    assert_eq!(ind.glyph_index, 0);
    assert!(!ind.rendered);
}

#[test]
fn starting_sets_the_message() {
    let mut ind = ProgressIndicator::new();
    ind.start(String::from("Fetching owner/repo/file.txt"));
    assert!(matches!(ind.state, IndicatorState::Running));
    assert_eq!(ind.message, "Fetching owner/repo/file.txt");
    assert!(!ind.rendered);
}

#[test]
fn tick_changes_the_glyph_and_draws() {
    let mut ind = ProgressIndicator::new();
    ind.start(String::from("working"));
    let before = ind.glyph_index;
    let frame = ind.tick();
    assert_ne!(ind.glyph_index, before);
    assert!(ind.rendered);
    assert_eq!(frame.glyph_index, ind.glyph_index);
    assert_eq!(frame.message, "working");
}

#[test]
fn every_tick_changes_the_glyph_and_the_cycle_wraps() {
    let mut ind = ProgressIndicator::new();
    ind.start(String::from("working"));
    let mut seen: usize = ind.glyph_index;
    for _ in 0..SPINNER_GLYPH_COUNT {
        let frame = ind.tick();
        assert_ne!(frame.glyph_index, seen);
        assert!(frame.glyph_index < SPINNER_GLYPH_COUNT);
        seen = frame.glyph_index;
    }
    assert_eq!(ind.glyph_index, 0);
}

#[test]
fn stopping_erases_the_line() {
    let mut ind = ProgressIndicator::new();
    ind.start(String::from("working"));
    ind.tick();
    assert!(ind.rendered);
    ind.stop();
    assert!(matches!(ind.state, IndicatorState::Stopped));
    assert!(!ind.rendered);
}

#[test]
fn indicator_ticks_during_a_slow_download_and_leaves_nothing() {
    let rt = tokio::runtime::Builder::new_current_thread().enable_time().build().unwrap();
    let mut ind = ProgressIndicator::new();
    ind.start(String::from("Fetching owner/repo/file.txt"));
    let shared = std::cell::RefCell::new(ind);
    rt.block_on(async {
        // A simulated slow download: the tick loop runs until the deadline
        // stands in for the download concluding and cancels it.
        let raced = tokio::time::timeout(std::time::Duration::from_millis(120), async {
            let mut intv = tokio::time::interval(std::time::Duration::from_millis(10));
            loop {
                intv.tick().await;
                shared.borrow_mut().tick();
            }
        })
        .await;
        assert!(raced.is_err());
    });
    let mut ind = shared.into_inner();
    assert!(ind.rendered);
    ind.stop();
    assert!(!ind.rendered);
}

#[test]
fn stopping_an_idle_indicator_leaves_it_clean() {
    let mut ind = ProgressIndicator::new();
    ind.stop();
    assert!(matches!(ind.state, IndicatorState::Stopped));
    assert!(!ind.rendered);
}
