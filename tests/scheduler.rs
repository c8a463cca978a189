use led_matrix::scheduler::{after_offer, publish, FrameScheduler, HotPathError, OfferOutcome};
use std::sync::mpsc::sync_channel;

const MS: u64 = 1_000_000;

#[test]
fn measures_period_and_rendering_time() {
    let mut s = FrameScheduler::new(33 * MS, 0);
    assert_eq!(s.start_frame(10 * MS), 10 * MS);
    let info = s.frame_info(10 * MS, 15 * MS);
    assert_eq!(info.target_period, 33 * MS);
    assert_eq!(info.last_period, 10 * MS);
    assert_eq!(info.rendering_period, 5 * MS);
    assert_eq!(info.elapsed_since_pd_message, 15 * MS);
    assert_eq!(s.sleep_time(15 * MS), 28 * MS);
    assert_eq!(s.start_frame(43 * MS), 33 * MS);
}

#[test]
fn live_sample_age_restarts_when_a_sample_arrives() {
    let mut s = FrameScheduler::new(33 * MS, 0);
    s.start_frame(100 * MS);
    assert_eq!(s.frame_info(0, 110 * MS).elapsed_since_pd_message, 110 * MS);
    s.record_live_sample(105 * MS);
    let info = s.frame_info(0, 110 * MS);
    assert_eq!(info.elapsed_since_pd_message, 5 * MS);
    assert_eq!(info.rendering_period, 10 * MS);
    assert_eq!(s.sleep_time(110 * MS), 23 * MS);
}

#[test]
fn no_sleep_when_frame_overran() {
    let mut s = FrameScheduler::new(16 * MS, 0);
    s.start_frame(100 * MS);
    assert_eq!(s.sleep_time(130 * MS), 0);
    assert_eq!(s.sleep_time(116 * MS), 0);
    assert_eq!(s.sleep_time(110 * MS), 6 * MS);
    // a clock reading before the frame start counts as no time elapsed
    assert_eq!(s.sleep_time(90 * MS), 16 * MS);
}

#[test]
fn offer_outcomes() {
    assert_eq!(after_offer(OfferOutcome::Delivered), Ok(()));
    assert_eq!(after_offer(OfferOutcome::Full), Ok(()));
    assert_eq!(after_offer(OfferOutcome::Disconnected), Err(HotPathError::ConsumerGone));
}

#[test]
fn slow_consumer_never_blocks_the_loop() {
    // a consumer that never drains its channel
    let (tx, _rx) = sync_channel::<u32>(1);
    let target = 2 * MS;
    let mut s = FrameScheduler::new(target, 0);
    let clock = std::time::Instant::now();
    let mut now: u64 = 0;
    for frame in 0..50u32 {
        let measured = s.start_frame(now);
        if frame > 0 {
            assert_eq!(measured, target);
        }
        let before = clock.elapsed();
        assert_eq!(publish(&tx, frame), Ok(()));
        let work = (clock.elapsed() - before).as_nanos() as u64;
        let done = now + work;
        let sleep = s.sleep_time(done);
        assert!(work + sleep <= target + work);
        now = done + sleep;
    }
    // offering to the stuck consumer returned at once every time
    assert!(clock.elapsed() < std::time::Duration::from_secs(1));
}

#[test]
fn gone_consumer_is_fatal() {
    let (tx, rx) = sync_channel::<u32>(1);
    drop(rx);
    assert_eq!(publish(&tx, 1), Err(HotPathError::ConsumerGone));
}
