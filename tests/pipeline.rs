use sensor_link::connectivity::{ConnectivityManager, LinkAction, LinkEvent, LinkState, POLL_INTERVAL_MS};
use sensor_link::heartbeat::{blink_commands, plan_blink_cycle, BlinkCycle, Indicator, IndicatorCommand};
use sensor_link::queue::{SampleQueue, WaitStep, CAPACITY};
use sensor_link::transmit::{next_payload, render_payload};

fn as_text(bytes: Vec<u8>) -> String {
    String::from_utf8(bytes).unwrap()
}

#[test]
fn new_queue_is_empty() {
    let q = SampleQueue::new();
    assert_eq!(q.len(), 0);
    assert!(q.is_empty());
    assert!(!q.is_full());
    assert_eq!(q.dropped(), 0);
}

#[test]
fn dequeue_returns_samples_in_insertion_order() {
    let mut q = SampleQueue::new();
    assert!(q.try_enqueue(7));
    assert!(q.try_enqueue(3));
    assert!(q.try_enqueue(9));
    assert_eq!(q.try_dequeue(), Some(7));
    assert!(q.try_enqueue(1));
    assert_eq!(q.try_dequeue(), Some(3));
    assert_eq!(q.try_dequeue(), Some(9));
    assert_eq!(q.try_dequeue(), Some(1));
    assert_eq!(q.try_dequeue(), None);
}

#[test]
fn interleaved_operations_deliver_accepted_prefix() {
    let mut q = SampleQueue::new();
    let mut accepted = Vec::new();
    let mut delivered = Vec::new();
    for i in 0..25u16 {
        if q.try_enqueue(i) {
            accepted.push(i);
        }
        if q.try_enqueue(100 + i) {
            accepted.push(100 + i);
        }
        if i % 3 == 0 {
            if let Some(s) = q.try_dequeue() {
                delivered.push(s);
            }
        }
    }
    assert!(delivered.len() <= accepted.len());
    assert_eq!(&accepted[..delivered.len()], &delivered[..]);
    while let Some(s) = q.try_dequeue() {
        delivered.push(s);
    }
    assert_eq!(accepted, delivered);
}

#[test]
fn enqueue_on_full_queue_is_refused_and_counted() {
    let mut q = SampleQueue::new();
    for i in 0..CAPACITY as u16 {
        assert!(q.try_enqueue(i));
    }
    assert!(q.is_full());
    assert_eq!(q.len(), 10);
    assert!(!q.try_enqueue(999));
    assert_eq!(q.len(), 10);
    assert_eq!(q.dropped(), 1);
    assert!(!q.try_enqueue(1000));
    assert_eq!(q.dropped(), 2);
    for i in 0..CAPACITY as u16 {
        assert_eq!(q.try_dequeue(), Some(i));
    }
    assert_eq!(q.try_dequeue(), None);
}

#[test]
fn bounded_wait_on_empty_queue_times_out() {
    let mut q = SampleQueue::new();
    assert_eq!(q.dequeue_within(0, 1000), WaitStep::Wait(1000));
    assert_eq!(q.dequeue_within(400, 1000), WaitStep::Wait(600));
    assert_eq!(q.dequeue_within(1000, 1000), WaitStep::TimedOut);
    assert_eq!(q.dequeue_within(1500, 1000), WaitStep::TimedOut);
    assert_eq!(q.dequeue_within(0, 0), WaitStep::TimedOut);
    assert!(q.is_empty());
}

#[test]
fn bounded_wait_takes_waiting_sample() {
    let mut q = SampleQueue::new();
    assert!(q.try_enqueue(42));
    assert!(q.try_enqueue(43));
    assert_eq!(q.dequeue_within(5000, 1000), WaitStep::Item(42));
    assert_eq!(q.len(), 1);
}

#[test]
fn faster_producer_saturates_queue() {
    // Two samples offered per round, one taken.
    let mut q = SampleQueue::new();
    let mut delivered: u64 = 0;
    for round in 0..40u64 {
        q.try_enqueue(1);
        q.try_enqueue(2);
        if round >= 10 {
            assert_eq!(q.len(), CAPACITY);
            assert_eq!(q.dropped(), round - 8);
        }
        if q.try_dequeue().is_some() {
            delivered += 1;
        }
        if round >= 10 {
            assert_eq!(q.len(), CAPACITY - 1);
        }
    }
    assert_eq!(delivered, 40);
    assert_eq!(q.dropped(), 31);
}

#[test]
fn payload_is_decimal_text() {
    assert_eq!(render_payload(0), b"0".to_vec());
    assert_eq!(render_payload(5), b"5".to_vec());
    assert_eq!(render_payload(100), b"100".to_vec());
    assert_eq!(render_payload(300), b"300".to_vec());
    assert_eq!(render_payload(4095), b"4095".to_vec());
    assert_eq!(render_payload(65535), b"65535".to_vec());
}

#[test]
fn next_payload_on_empty_queue_is_none() {
    let mut q = SampleQueue::new();
    assert_eq!(next_payload(&mut q), None);
    assert!(q.is_empty());
}

#[test]
fn readings_reach_sink_in_order_one_payload_each() {
    let readings: [u16; 4] = [100, 5, 5, 300];
    let mut q = SampleQueue::new();
    let mut sink: Vec<String> = Vec::new();
    for r in readings {
        assert!(q.try_enqueue(r));
        if let Some(p) = next_payload(&mut q) {
            sink.push(as_text(p));
        }
    }
    while let Some(p) = next_payload(&mut q) {
        sink.push(as_text(p));
    }
    assert_eq!(sink, vec!["100", "5", "5", "300"]);
    assert_eq!(q.dropped(), 0);
}

#[test]
fn bring_up_then_connected() {
    let mut m = ConnectivityManager::new();
    assert_eq!(m.state(), LinkState::Disconnected);
    assert_eq!(m.handle(LinkEvent::Start), LinkAction::BringUp);
    assert_eq!(m.state(), LinkState::Connecting);
    assert_eq!(m.handle(LinkEvent::Status(false)), LinkAction::WaitThenPoll(POLL_INTERVAL_MS));
    assert_eq!(m.handle(LinkEvent::Status(true)), LinkAction::Proceed);
    assert_eq!(m.state(), LinkState::Connected);
    assert_eq!(m.handle(LinkEvent::Status(false)), LinkAction::Proceed);
    assert_eq!(m.state(), LinkState::Connected);
}

#[test]
fn link_never_up_keeps_polling() {
    let mut m = ConnectivityManager::new();
    assert_eq!(m.handle(LinkEvent::Start), LinkAction::BringUp);
    for _ in 0..10_000 {
        assert_eq!(m.handle(LinkEvent::Status(false)), LinkAction::WaitThenPoll(1000));
        assert_eq!(m.state(), LinkState::Connecting);
    }
}

#[test]
fn blink_cycle_on_times_in_range_and_drawn() {
    let mut seen_other = false;
    for _ in 0..200 {
        let c = plan_blink_cycle();
        assert!(c.green_ms >= 500 && c.green_ms < 2000);
        assert!(c.red_ms >= 500 && c.red_ms < 2000);
        if c.green_ms != 500 || c.red_ms != 500 {
            seen_other = true;
        }
    }
    assert!(seen_other);
}

#[test]
fn blink_commands_light_one_indicator_at_a_time() {
    let cmds = blink_commands(BlinkCycle { green_ms: 700, red_ms: 1200 });
    assert_eq!(
        cmds,
        vec![
            IndicatorCommand::On(Indicator::Green),
            IndicatorCommand::DelayMs(700),
            IndicatorCommand::Off(Indicator::Green),
            IndicatorCommand::On(Indicator::Red),
            IndicatorCommand::DelayMs(1200),
            IndicatorCommand::Off(Indicator::Red),
        ]
    );
}
