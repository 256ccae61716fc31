use mortise::ipc::PerUdsLocalInfo;
use mortise::qoe::{AppInfo, FrameQoE};

fn sample(frame_id: u64) -> FrameQoE {
    FrameQoE {
        server_send: 0,
        client_recv: 0,
        server_recv: 80_000_000,
        size: 8738,
        frame_interval_us: 16_667,
        frame_id,
    }
}

#[test]
fn window_keeps_the_last_five_samples() {
    let mut info = PerUdsLocalInfo::new();
    for i in 0..6u64 {
        info.push_qoe(sample(i));
    }
    assert_eq!(info.qoe_record.len(), 5);
    // The oldest sample left.
    assert_eq!(info.qoe_record[0].frame_id, 1);
    assert_eq!(info.qoe_record[4].frame_id, 5);
}

#[test]
fn smoothing_emits_the_mean_of_old_stable_and_transient() {
    let mut info = PerUdsLocalInfo::new();
    // Five reports whose window mean scores in the 150 band leave the
    // stored stable value at 150.
    for i in 0..5u64 {
        info.push_qoe(sample(i));
        info.choose_tradeoff(150, 150);
    }
    assert_eq!(info.last_stable_tradeoff, 150);
    // A sixth report whose own score maps to 300 emits one update with
    // the integer mean (150 + 300) / 2 = 225.
    info.push_qoe(sample(5));
    let chosen = info.choose_tradeoff(300, 150);
    assert_eq!(chosen, Some(225));
    let value = AppInfo { req: 225, resp: 0 }.as_bytes();
    assert_eq!(value[0], 225);
    assert_eq!(value.len(), 16);
}

#[test]
fn smoothing_is_silent_when_the_choice_matches_the_old_stable() {
    let mut info = PerUdsLocalInfo::new();
    info.choose_tradeoff(150, 150);
    // old stable 150, transient 150: (150 + 150) / 2 == 150, no update.
    assert_eq!(info.choose_tradeoff(150, 150), None);
}

#[test]
fn smoothing_always_overwrites_the_stored_stable_value() {
    let mut info = PerUdsLocalInfo::new();
    info.choose_tradeoff(300, 100);
    assert_eq!(info.last_stable_tradeoff, 100);
    info.choose_tradeoff(30, 250);
    assert_eq!(info.last_stable_tradeoff, 250);
}

#[test]
fn tracked_flows_release_exactly_once() {
    let mut info = PerUdsLocalInfo::new();
    info.track_flow(1);
    info.track_flow(2);
    info.track_flow(1);
    let flows = info.release();
    assert_eq!(flows, vec![1, 2]);
}

#[test]
fn a_fresh_connection_tracks_nothing() {
    let info = PerUdsLocalInfo::default();
    assert_eq!(info.last_stable_tradeoff, 0);
    assert!(info.flows.is_empty());
    assert!(info.qoe_record.is_empty());
    assert!(info.release().is_empty());
}
