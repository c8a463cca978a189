use vstd::prelude::*;

use std::sync::mpsc::SyncSender;

verus! {

/// std's `SyncSender`, the sending end of a bounded channel, carried without
/// looking inside.
#[verifier::external_type_specification]
#[verifier::external_body]
#[verifier::reject_recursive_types(T)]
pub struct ExSyncSender<T>(SyncSender<T>);

/// Timing of one frame of the render loop; every duration is in nanoseconds.
#[derive(Debug, Clone, Copy, PartialEq, Eq)]
pub struct LedFrameInfo {
    pub target_period: u64,
    pub last_period: u64,
    pub rendering_period: u64,
    pub elapsed_since_pd_message: u64,
}

/// Time from `earlier` to `later`, or zero if `later` is not after `earlier`.
pub open spec fn elapsed(earlier: u64, later: u64) -> u64 {
    if later >= earlier {
        (later - earlier) as u64
    } else {
        0
    }
}

/// How long to sleep at `now` so that the frame that started at `start` lasts
/// `target` in all: the rest of the target period, or nothing once it has
/// passed.
pub open spec fn sleep_for(target: u64, start: u64, now: u64) -> u64 {
    if elapsed(start, now) >= target {
        0
    } else {
        (target - elapsed(start, now)) as u64
    }
}

/// The clock of the render loop: the target period, the start of the current
/// frame and the time of the last live sample, all in nanoseconds on one
/// monotonic clock.
#[derive(Debug, Clone, Copy)]
pub struct FrameScheduler {
    target_period: u64,
    last_start: u64,
    last_pd_message: u64,
}

impl FrameScheduler {
    pub closed spec fn target_period(&self) -> u64 {
        self.target_period
    }

    pub closed spec fn last_start(&self) -> u64 {
        self.last_start
    }

    pub closed spec fn last_pd_message(&self) -> u64 {
        self.last_pd_message
    }

    /// A scheduler whose first frame is measured from `now`.
    pub fn new(target_period: u64, now: u64) -> (r: Self)
        ensures
            r.target_period() == target_period,
            r.last_start() == now,
            r.last_pd_message() == now,
    {
        FrameScheduler { target_period, last_start: now, last_pd_message: now }
    }

    /// Starts a frame at `now` and returns the period measured since the start
    /// of the previous frame.
    pub fn start_frame(&mut self, now: u64) -> (measured: u64)
        ensures
            measured == elapsed(old(self).last_start(), now),
            final(self).last_start() == now,
            final(self).target_period() == old(self).target_period(),
            final(self).last_pd_message() == old(self).last_pd_message(),
    {
        let measured = now.saturating_sub(self.last_start);
        self.last_start = now;
        measured
    }

    /// Notes that a new live sample arrived at `now`.
    pub fn record_live_sample(&mut self, now: u64)
        ensures
            final(self).last_pd_message() == now,
            final(self).target_period() == old(self).target_period(),
            final(self).last_start() == old(self).last_start(),
    {
        self.last_pd_message = now;
    }

    /// The timing record of the current frame at `now`, given the period
    /// measured when it started.
    pub fn frame_info(&self, last_period: u64, now: u64) -> (r: LedFrameInfo)
        ensures
            r.target_period == self.target_period(),
            r.last_period == last_period,
            r.rendering_period == elapsed(self.last_start(), now),
            r.elapsed_since_pd_message == elapsed(self.last_pd_message(), now),
    {
        LedFrameInfo {
            target_period: self.target_period,
            last_period,
            rendering_period: now.saturating_sub(self.last_start),
            elapsed_since_pd_message: now.saturating_sub(self.last_pd_message),
        }
    }

    /// How long to sleep at `now` before the next frame starts.
    pub fn sleep_time(&self, now: u64) -> (r: u64)
        ensures
            r == sleep_for(self.target_period(), self.last_start(), now),
    {
        self.target_period.saturating_sub(now.saturating_sub(self.last_start))
    }
}

/// A frame whose work, from its start to `now`, is followed by the sleep the
/// scheduler asks for lasts exactly the longer of the target period and the
/// work itself; so it never exceeds the target period by more than the work
/// of that frame, however slow the consumers of the frame are.
pub proof fn lemma_period_bounded(target: u64, start: u64, now: u64)
    requires
        start <= now,
    ensures
        (now - start) + sleep_for(target, start, now) == if now - start >= target {
            now - start
        } else {
            target as int
        },
        (now - start) + sleep_for(target, start, now) <= target + (now - start),
{
}

/// What became of a value offered to a bounded channel without waiting.
#[derive(Debug, Clone, Copy, PartialEq, Eq)]
pub enum OfferOutcome {
    /// The consumer had room and the value is queued.
    Delivered,
    /// The consumer is behind; the value is dropped.
    Full,
    /// The consumer is gone for good.
    Disconnected,
}

/// A failure of the render loop that nothing can recover from.
#[derive(Debug, Clone, Copy, PartialEq, Eq)]
pub enum HotPathError {
    /// The receiving end of a frame or timing channel was dropped.
    ConsumerGone,
}

/// Relies on std's `SyncSender::try_send`, which returns at once: `Ok` when
/// the value was queued, `Full` when the channel has no room and
/// `Disconnected` when the receiver is gone.
#[verifier::external_body]
fn try_offer<T>(tx: &SyncSender<T>, value: T) -> (r: OfferOutcome) {
    match tx.try_send(value) {
        Ok(()) => OfferOutcome::Delivered,
        Err(std::sync::mpsc::TrySendError::Full(_)) => OfferOutcome::Full,
        Err(std::sync::mpsc::TrySendError::Disconnected(_)) => OfferOutcome::Disconnected,
    }
}

/// Latest-wins delivery: a consumer that is behind only loses the value; a
/// consumer that is gone is fatal.
pub fn after_offer(outcome: OfferOutcome) -> (r: Result<(), HotPathError>)
    ensures
        (r is Err) <==> (outcome == OfferOutcome::Disconnected),
        (r is Err) ==> r->Err_0 == HotPathError::ConsumerGone,
{
    match outcome {
        OfferOutcome::Delivered => Ok(()),
        OfferOutcome::Full => Ok(()),
        OfferOutcome::Disconnected => Err(HotPathError::ConsumerGone),
    }
}

/// Offers `value` to a bounded channel without waiting for the consumer.
pub fn publish<T>(tx: &SyncSender<T>, value: T) -> (r: Result<(), HotPathError>)
    ensures
        (r is Err) ==> r->Err_0 == HotPathError::ConsumerGone,
{
    let outcome = try_offer(tx, value);
    after_offer(outcome)
}

} // verus!
