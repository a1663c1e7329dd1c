use delivery_rate::{
    ConnectionSenderState, ConnectionState, DetectAppLimitedPhaseParams, Packet, TimeSpan,
    Timestamp, TransportSendSequenceSpace,
};

const ORIGIN: u64 = 5_000_000_000;

fn secs(n: u64) -> TimeSpan {
    TimeSpan::from_secs(n)
}

#[test]
fn test_app_limited() {
    let now = Timestamp::from_nanos(ORIGIN);
    let mut c = ConnectionState::new(now);
    let mut snd = TransportSendSequenceSpace { nxt: 0, una: 0, mss: 1, wnd: 2 };
    let mut c_s = ConnectionSenderState {
        write_seq: 0,
        pending_transmissions: 0,
        lost_out: 0,
        retrans_out: 0,
        pipe: 0,
    };

    // Application send
    c.detect_application_limited_phases(&c_s, &snd);
    c_s.write_seq += 2;

    // Transport send
    let p_1 = c.send_packet(now, &snd);
    snd.nxt += 1;
    c_s.pipe += 1;
    let p_2 = c.send_packet(now, &snd);
    snd.nxt += 1;
    c_s.pipe += 1;

    // Transport recv
    let min_rtt = secs(1);
    let now = now.add(secs(1));
    c.detect_application_limited_phases(&c_s, &snd);
    c_s.pipe -= 1;
    let rs = c.sample_rate(&[Packet { state: p_1, data_length: 1 }], now, min_rtt);
    assert!(rs.is_none());
    snd.una += 1;

    // Transport recv
    let now = now.add(secs(1));
    c.detect_application_limited_phases(&c_s, &snd);
    c_s.pipe -= 1;
    let rs = c.sample_rate(&[Packet { state: p_2, data_length: 1 }], now, min_rtt);
    assert!(rs.is_none());
    snd.una += 1;

    // Application send
    c.detect_application_limited_phases(&c_s, &snd);
    c_s.write_seq += 2;

    // Transport send
    let p_3 = c.send_packet(now, &snd);
    snd.nxt += 1;
    c_s.pipe += 1;
    let p_4 = c.send_packet(now, &snd);
    snd.nxt += 1;
    c_s.pipe += 1;

    // Transport recv
    let now = now.add(secs(1));
    c.detect_application_limited_phases(&c_s, &snd);
    c_s.pipe -= 1;
    let rs = c.sample_rate(&[Packet { state: p_3, data_length: 1 }], now, min_rtt);
    assert!(rs.unwrap().is_app_limited());
    snd.una += 1;

    // Transport recv
    let now = now.add(secs(1));
    c.detect_application_limited_phases(&c_s, &snd);
    c_s.pipe -= 1;
    let rs = c.sample_rate(&[Packet { state: p_4, data_length: 1 }], now, min_rtt);
    assert!(rs.unwrap().is_app_limited());
    snd.una += 1;
}

#[test]
fn test_net_limited() {
    let now = Timestamp::from_nanos(ORIGIN);
    let mut c = ConnectionState::new(now);
    let mut snd = TransportSendSequenceSpace { nxt: 0, una: 0, mss: 1, wnd: 1 };
    let mut c_s = ConnectionSenderState {
        write_seq: 0,
        pending_transmissions: 0,
        lost_out: 0,
        retrans_out: 0,
        pipe: 0,
    };

    // Application send
    c.detect_application_limited_phases(&c_s, &snd);
    c_s.write_seq += 2;

    // Transport send
    let p_1 = c.send_packet(now, &snd);
    snd.nxt += 1;
    c_s.pipe += 1;

    // Transport recv
    let min_rtt = secs(1);
    let now = now.add(secs(1));
    c.detect_application_limited_phases(&c_s, &snd);
    c_s.pipe -= 1;
    let rs = c.sample_rate(&[Packet { state: p_1, data_length: 1 }], now, min_rtt);
    assert!(rs.is_none());
    snd.una += 1;

    // Transport send
    let p_2 = c.send_packet(now, &snd);
    snd.nxt += 1;
    c_s.pipe += 1;

    // Transport recv
    let now = now.add(secs(1));
    c.detect_application_limited_phases(&c_s, &snd);
    c_s.pipe -= 1;
    let rs = c.sample_rate(&[Packet { state: p_2, data_length: 1 }], now, min_rtt);
    assert!(!rs.unwrap().is_app_limited());
    snd.una += 1;
}

/// A connection that has delivered `first` units, with nothing in flight, at `t`.
fn warmed_up(t: Timestamp, first: u64) -> ConnectionState {
    let mut c = ConnectionState::new(t);
    let p = c.send_packet_2(t, true);
    assert!(c.sample_rate(&[Packet { state: p, data_length: first }], t, secs(0)).is_none());
    c
}

#[test]
fn interval_equal_to_min_rtt_is_accepted() {
    let t0 = Timestamp::from_nanos(ORIGIN);
    let mut c = warmed_up(t0, 10);
    let p = c.send_packet_2(t0, true);
    let t1 = t0.add(secs(1));
    let rs = c.sample_rate(&[Packet { state: p, data_length: 4 }], t1, secs(1)).unwrap();
    assert_eq!(rs.interval(), secs(1));
    assert_eq!(rs.delivered(), 4);
    assert_eq!(rs.prior_delivered(), 10);
    assert_eq!(rs.prior_time(), t0);
    assert_eq!(rs.send_elapsed(), TimeSpan::from_nanos(0));
    assert_eq!(rs.ack_elapsed(), secs(1));
}

#[test]
fn interval_below_min_rtt_gives_no_sample() {
    let t0 = Timestamp::from_nanos(ORIGIN);
    let mut c = warmed_up(t0, 10);
    let p = c.send_packet_2(t0, true);
    let t1 = t0.add(secs(1));
    let min_rtt = TimeSpan::from_nanos(1_000_000_001);
    let rs = c.sample_rate(&[Packet { state: p, data_length: 4 }], t1, min_rtt);
    assert!(rs.is_none());
    assert_eq!(c.delivered(), 14);
}

#[test]
fn zero_interval_gives_no_sample() {
    let t0 = Timestamp::from_nanos(ORIGIN);
    let mut c = warmed_up(t0, 10);
    let p = c.send_packet_2(t0, true);
    let rs = c.sample_rate(&[Packet { state: p, data_length: 4 }], t0, TimeSpan::from_nanos(0));
    assert!(rs.is_none());
}

#[test]
fn rate_is_length_over_interval() {
    let t0 = Timestamp::from_nanos(ORIGIN);
    let mut c = warmed_up(t0, 10);
    let p_a = c.send_packet_2(t0, true);
    let t2 = t0.add(secs(2));
    let p_b = c.send_packet_2(t2, false);
    assert_eq!(p_b.first_sent_time(), t0);
    let rs = c.sample_rate(&[Packet { state: p_b, data_length: 3000 }], t2, secs(1)).unwrap();
    assert_eq!(rs.send_elapsed(), secs(2));
    assert_eq!(rs.ack_elapsed(), secs(2));
    assert_eq!(rs.interval(), secs(2));
    assert_eq!(rs.delivered(), 3000);
    let rate = rs.delivered() as f64 / (rs.interval().as_nanos() as f64 / 1e9);
    assert!((rate - 1500.0).abs() < 1e-9);
    assert_eq!(p_a.delivered(), 10);
}

#[test]
fn empty_batch_gives_no_sample_and_keeps_bubble() {
    let t0 = Timestamp::from_nanos(ORIGIN);
    let mut c = warmed_up(t0, 10);
    let params = DetectAppLimitedPhaseParams {
        few_data_to_send: true,
        not_transmitting_a_packet: true,
        cwnd_not_full: true,
        all_lost_packets_retransmitted: true,
        pipe: 3,
    };
    c.detect_application_limited_phases_2(params);
    assert_eq!(c.app_limited(), Some(13));
    let rs = c.sample_rate(&[], t0.add(secs(5)), secs(1));
    assert!(rs.is_none());
    assert_eq!(c.app_limited(), Some(13));
    assert_eq!(c.delivered(), 10);
}

#[test]
fn delivered_accumulates_every_acked_length() {
    let t0 = Timestamp::from_nanos(ORIGIN);
    let mut c = ConnectionState::new(t0);
    let p_1 = c.send_packet_2(t0, true);
    let p_2 = c.send_packet_2(t0, false);
    c.sample_rate(&[Packet { state: p_1, data_length: 7 }, Packet { state: p_2, data_length: 5 }], t0, secs(1));
    assert_eq!(c.delivered(), 12);
    c.sample_rate(&[], t0, secs(1));
    assert_eq!(c.delivered(), 12);
    let p_3 = c.send_packet_2(t0, true);
    c.sample_rate(&[Packet { state: p_3, data_length: 1 }], t0, secs(1));
    assert_eq!(c.delivered(), 13);
}

#[test]
fn idle_send_reanchors_snapshot() {
    let t0 = Timestamp::from_nanos(ORIGIN);
    let mut c = warmed_up(t0, 10);
    let t9 = t0.add(secs(9));
    let snd = TransportSendSequenceSpace { nxt: 40, una: 40, mss: 10, wnd: 100 };
    let p = c.send_packet(t9, &snd);
    assert_eq!(p.first_sent_time(), t9);
    assert_eq!(p.delivered_time(), t9);
    assert_eq!(p.sent_time(), t9);
    assert_eq!(p.delivered(), 10);

    let busy = TransportSendSequenceSpace { nxt: 50, una: 40, mss: 10, wnd: 100 };
    let t10 = t0.add(secs(10));
    let q = c.send_packet(t10, &busy);
    assert_eq!(q.first_sent_time(), t9);
    assert_eq!(q.delivered_time(), t9);
    assert_eq!(q.sent_time(), t10);
}

#[test]
fn bubble_closes_once_delivered_passes_it() {
    let t0 = Timestamp::from_nanos(ORIGIN);
    let mut c = warmed_up(t0, 10);
    let snd = TransportSendSequenceSpace { nxt: 0, una: 0, mss: 5, wnd: 10 };
    let sender = ConnectionSenderState {
        write_seq: 2,
        pending_transmissions: 0,
        lost_out: 0,
        retrans_out: 0,
        pipe: 2,
    };
    c.detect_application_limited_phases(&sender, &snd);
    assert_eq!(c.app_limited(), Some(12));
    let p_1 = c.send_packet_2(t0, true);
    assert!(p_1.is_app_limited());
    c.sample_rate(&[Packet { state: p_1, data_length: 2 }], t0.add(secs(1)), secs(1));
    assert_eq!(c.delivered(), 12);
    let p_2 = c.send_packet_2(t0.add(secs(1)), true);
    assert!(p_2.is_app_limited());
    c.sample_rate(&[Packet { state: p_2, data_length: 1 }], t0.add(secs(2)), secs(1));
    assert_eq!(c.app_limited(), None);
    let p_3 = c.send_packet_2(t0.add(secs(2)), true);
    assert!(!p_3.is_app_limited());
}

#[test]
fn detector_needs_all_four_conditions() {
    let t0 = Timestamp::from_nanos(ORIGIN);
    let snd = TransportSendSequenceSpace { nxt: 0, una: 0, mss: 5, wnd: 10 };
    let base = ConnectionSenderState {
        write_seq: 4,
        pending_transmissions: 0,
        lost_out: 1,
        retrans_out: 1,
        pipe: 2,
    };
    let variants = [
        ConnectionSenderState { write_seq: 5, ..base.clone() },
        ConnectionSenderState { pending_transmissions: 1, ..base.clone() },
        ConnectionSenderState { pipe: 10, ..base.clone() },
        ConnectionSenderState { lost_out: 2, ..base.clone() },
    ];
    for v in variants.iter() {
        let mut c = ConnectionState::new(t0);
        c.detect_application_limited_phases(v, &snd);
        assert_eq!(c.app_limited(), None);
    }
    let mut c = ConnectionState::new(t0);
    c.detect_application_limited_phases(&base, &snd);
    assert_eq!(c.app_limited(), Some(2));

    let params = DetectAppLimitedPhaseParams::from_sender(&base, &snd);
    assert!(params.in_app_limited_phase());
    let mut d = ConnectionState::new(t0);
    d.detect_application_limited_phases_2(params);
    assert_eq!(d.app_limited(), c.app_limited());
}

#[test]
fn equal_snapshots_keep_the_first_seen() {
    let t0 = Timestamp::from_nanos(ORIGIN);
    let mut c = warmed_up(t0, 10);
    let p_a = c.send_packet_2(t0, true);
    let p_b = c.send_packet_2(t0.add(secs(1)), false);
    let t3 = t0.add(secs(3));
    let rs = c
        .sample_rate(&[Packet { state: p_a, data_length: 1 }, Packet { state: p_b, data_length: 1 }], t3, secs(1))
        .unwrap();
    assert_eq!(rs.send_elapsed(), TimeSpan::from_nanos(0));
    assert_eq!(rs.delivered(), 2);
    let after = c.send_packet_2(t3, false);
    assert_eq!(after.first_sent_time(), t0);
}

#[test]
fn newest_packet_is_the_largest_snapshot() {
    let t0 = Timestamp::from_nanos(ORIGIN);
    let mut c = warmed_up(t0, 10);
    let p_a = c.send_packet_2(t0, true);
    let p_c = c.send_packet_2(t0, false);
    c.sample_rate(&[Packet { state: p_a, data_length: 5 }], t0.add(secs(1)), secs(1));
    let p_b = c.send_packet_2(t0.add(secs(1)), false);
    let t4 = t0.add(secs(4));
    let rs = c
        .sample_rate(&[Packet { state: p_b, data_length: 2 }, Packet { state: p_c, data_length: 1 }], t4, secs(1))
        .unwrap();
    assert_eq!(rs.prior_delivered(), 15);
    assert_eq!(rs.delivered(), 3);
    assert_eq!(rs.ack_elapsed(), secs(3));
    assert_eq!(c.delivered(), 18);
}

#[test]
fn time_helpers() {
    let a = Timestamp::from_nanos(100);
    let b = Timestamp::from_nanos(40);
    assert_eq!(a.saturating_since(b), TimeSpan::from_nanos(60));
    assert_eq!(b.saturating_since(a), TimeSpan::from_nanos(0));
    assert_eq!(a.as_nanos(), 100);
    assert_eq!(secs(2).as_nanos(), 2_000_000_000);
    assert_eq!(TimeSpan::from_nanos(3).max(TimeSpan::from_nanos(8)), TimeSpan::from_nanos(8));
    assert!(TimeSpan::from_nanos(3).shorter_than(&TimeSpan::from_nanos(8)));
    assert!(!TimeSpan::from_nanos(8).shorter_than(&TimeSpan::from_nanos(8)));
    assert!(TimeSpan::from_nanos(0).is_zero());
    assert!(!snd_idle_check());
}

fn snd_idle_check() -> bool {
    let s = TransportSendSequenceSpace { nxt: 3, una: 2, mss: 1, wnd: 1 };
    s.no_packets_in_flight()
}
