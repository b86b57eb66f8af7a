use oxidegate::error::GatewayError;
use oxidegate::scheduler::{admission, settle, Batcher, Event, SchedulerConfig, Wait};

const MS: u128 = 1_000_000;

fn batcher(window_ms: u64) -> Batcher<u32> {
    Batcher::new(SchedulerConfig { queue_depth: 100, window_ms })
}

#[test]
fn zero_window_sends_each_request_alone() {
    let mut b = batcher(0);
    let s = b.step(Event::Arrived { item: 1, now: 0 });
    assert_eq!(s.dispatch, Some(vec![1]));
    assert_eq!(s.next, Wait::First);
    let s = b.step(Event::Arrived { item: 2, now: 5 });
    assert_eq!(s.dispatch, Some(vec![2]));
    assert_eq!(s.next, Wait::First);
    let s = b.step(Event::Closed);
    assert_eq!(s.dispatch, None);
    assert_eq!(s.next, Wait::Stop);
}

#[test]
fn window_collects_until_timeout() {
    let mut b = batcher(10);
    let s = b.step(Event::Arrived { item: 1, now: 100 });
    assert_eq!(s.dispatch, None);
    assert_eq!(s.next, Wait::Until { remaining: 10 * MS });
    let s = b.step(Event::Arrived { item: 2, now: 100 + 3 * MS });
    assert_eq!(s.dispatch, None);
    assert_eq!(s.next, Wait::Until { remaining: 7 * MS });
    let s = b.step(Event::Arrived { item: 3, now: 100 + 10 * MS });
    assert_eq!(s.dispatch, None);
    assert_eq!(s.next, Wait::Until { remaining: 0 });
    let s = b.step(Event::TimedOut);
    assert_eq!(s.dispatch, Some(vec![1, 2, 3]));
    assert_eq!(s.next, Wait::First);
}

#[test]
fn late_arrival_closes_the_batch() {
    let mut b = batcher(5);
    b.step(Event::Arrived { item: 7, now: 0 });
    let s = b.step(Event::Arrived { item: 8, now: 5 * MS + 1 });
    assert_eq!(s.dispatch, Some(vec![7, 8]));
    assert_eq!(s.next, Wait::First);
    let s = b.step(Event::Arrived { item: 9, now: 6 * MS });
    assert_eq!(s.dispatch, None);
    assert_eq!(s.next, Wait::Until { remaining: 5 * MS });
}

#[test]
fn close_mid_window_flushes_then_stops() {
    let mut b = batcher(20);
    b.step(Event::Arrived { item: 4, now: 0 });
    b.step(Event::Arrived { item: 5, now: 1 });
    let s = b.step(Event::Closed);
    assert_eq!(s.dispatch, Some(vec![4, 5]));
    assert_eq!(s.next, Wait::First);
    let s = b.step(Event::Closed);
    assert_eq!(s.dispatch, None);
    assert_eq!(s.next, Wait::Stop);
    let s = b.step(Event::TimedOut);
    assert_eq!(s.dispatch, None);
    assert_eq!(s.next, Wait::Stop);
}

#[test]
fn every_request_goes_out_once_in_order() {
    let mut b = batcher(2);
    let mut out = Vec::new();
    let times = [0u128, MS, 3 * MS, 3 * MS + 1, 9 * MS, 9 * MS + 5];
    for (i, now) in times.iter().enumerate() {
        let s = b.step(Event::Arrived { item: i as u32, now: *now });
        if let Some(batch) = s.dispatch {
            assert!(!batch.is_empty());
            out.extend(batch);
        }
    }
    if let Some(batch) = b.step(Event::Closed).dispatch {
        out.extend(batch);
    }
    assert_eq!(out, vec![0, 1, 2, 3, 4, 5]);
}

#[test]
fn refused_request_is_queue_full() {
    assert_eq!(admission(false), Err(GatewayError::QueueFull));
    assert_eq!(admission(true), Ok(()));
    assert_eq!(admission(false).unwrap_err().parts().0, 429);
}

#[test]
fn dropped_reply_channel_is_scheduler_gone() {
    assert_eq!(settle::<u8>(None), Err(GatewayError::SchedulerGone));
    assert_eq!(settle(Some(Ok::<u8, GatewayError>(3))), Ok(3));
    assert_eq!(
        settle::<u8>(Some(Err(GatewayError::QueueFull))),
        Err(GatewayError::QueueFull)
    );
}
