use vstd::prelude::*;

use crate::model::{
    acked_total, detect_next, lemma_acked_total_prefix, lemma_newest_is_max, max_prior, newest,
    sample_next, sample_result, send_next, send_snapshot, initial, AckedModel, ConnectionModel,
    SampleModel, SnapshotModel,
};
use crate::sender::{ConnectionSenderState, DetectAppLimitedPhaseParams, TransportSendSequenceSpace};
use crate::time::{TimeSpan, Timestamp};

verus! {

/// Per-connection delivery state.
#[derive(Debug, Clone)]
pub struct ConnectionState {
    /// Data (octets or packets) delivered over the lifetime of the connection.
    delivered: u64,
    /// When `delivered` was last updated.
    delivered_time: Timestamp,
    /// While packets are in flight, the send time of the packet most recently
    /// marked as delivered; after an idle period, the send time of the most
    /// recently sent packet.
    first_sent_time: Timestamp,
    /// The index of the last packet transmitted in an application-limited
    /// phase, or `None` while the connection is not application-limited.
    app_limited: Option<u64>,
}

/// A snapshot of the connection's delivery information, taken when a packet
/// was last transmitted.
#[derive(Debug, Clone)]
pub struct PacketState {
    delivered: u64,
    delivered_time: Timestamp,
    first_sent_time: Timestamp,
    is_app_limited: bool,
    sent_time: Timestamp,
}

/// An acknowledged packet: its snapshot and its length.
#[derive(Debug, Clone)]
pub struct Packet {
    pub state: PacketState,
    /// Measured in octets or packets.
    pub data_length: u64,
}

/// One measurement of delivery throughput.
#[derive(Debug, Clone)]
pub struct RateSample {
    is_app_limited: bool,
    interval: TimeSpan,
    delivered: u64,
    prior_delivered: u64,
    prior_time: Timestamp,
    send_elapsed: TimeSpan,
    ack_elapsed: TimeSpan,
}

impl View for ConnectionState {
    type V = ConnectionModel;

    closed spec fn view(&self) -> ConnectionModel {
        ConnectionModel {
            delivered: self.delivered as nat,
            delivered_time: self.delivered_time@,
            first_sent_time: self.first_sent_time@,
            app_limited: match self.app_limited {
                Some(k) => Some(k as nat),
                None => None,
            },
        }
    }
}

impl View for PacketState {
    type V = SnapshotModel;

    closed spec fn view(&self) -> SnapshotModel {
        SnapshotModel {
            delivered: self.delivered as nat,
            delivered_time: self.delivered_time@,
            first_sent_time: self.first_sent_time@,
            is_app_limited: self.is_app_limited,
            sent_time: self.sent_time@,
        }
    }
}

impl View for Packet {
    type V = AckedModel;

    open spec fn view(&self) -> AckedModel {
        AckedModel { state: self.state@, data_length: self.data_length as nat }
    }
}

impl View for RateSample {
    type V = SampleModel;

    closed spec fn view(&self) -> SampleModel {
        SampleModel {
            is_app_limited: self.is_app_limited,
            interval: self.interval@,
            delivered: self.delivered as nat,
            prior_delivered: self.prior_delivered as nat,
            prior_time: self.prior_time@,
            send_elapsed: self.send_elapsed@,
            ack_elapsed: self.ack_elapsed@,
        }
    }
}

/// The models of a batch of acknowledged packets.
pub open spec fn acked_models(ps: Seq<Packet>) -> Seq<AckedModel> {
    ps.map_values(|p: Packet| p@)
}

impl ConnectionState {
    pub fn new(now: Timestamp) -> (r: ConnectionState)
        ensures
            r@ == initial(now@),
            r@.wf(),
    {
        ConnectionState {
            delivered: 0,
            delivered_time: now,
            first_sent_time: now,
            app_limited: None,
        }
    }

    /// Data delivered since the connection opened.
    pub fn delivered(&self) -> (r: u64)
        ensures
            r == self@.delivered,
    {
        self.delivered
    }

    /// The end of the open application-limited bubble, if one is open.
    pub fn app_limited(&self) -> (r: Option<u64>)
        ensures
            r is Some <==> self@.app_limited is Some,
            r is Some ==> self@.app_limited == Some(r->0 as nat),
    {
        self.app_limited
    }

    /// Snapshots the delivery information for a packet transmitted at
    /// `send_time`; when nothing is in flight the sampling anchors restart there.
    pub fn send_packet(
        &mut self,
        send_time: Timestamp,
        send_sequence_space: &TransportSendSequenceSpace,
    ) -> (r: PacketState)
        ensures
            old(self)@.wf() ==> final(self)@.wf(),
            final(self)@ == send_next(
                old(self)@,
                send_time@,
                send_sequence_space.spec_no_packets_in_flight(),
            ),
            r@ == send_snapshot(
                old(self)@,
                send_time@,
                send_sequence_space.spec_no_packets_in_flight(),
            ),
    {
        let idle = send_sequence_space.no_packets_in_flight();
        self.send_packet_2(send_time, idle)
    }

    /// Snapshots the delivery information for a packet transmitted at
    /// `send_time`, given whether any packet is in flight.
    pub fn send_packet_2(&mut self, send_time: Timestamp, no_packets_in_flight: bool) -> (r:
        PacketState)
        ensures
            old(self)@.wf() ==> final(self)@.wf(),
            final(self)@ == send_next(old(self)@, send_time@, no_packets_in_flight),
            r@ == send_snapshot(old(self)@, send_time@, no_packets_in_flight),
            no_packets_in_flight ==> r@.first_sent_time == send_time@ && r@.delivered_time
                == send_time@,
            r@.is_app_limited == (old(self)@.app_limited is Some),
            r@.delivered == old(self)@.delivered,
    {
        if no_packets_in_flight {
            self.first_sent_time = send_time;
            self.delivered_time = send_time;
        }
        PacketState {
            delivered: self.delivered,
            delivered_time: self.delivered_time,
            first_sent_time: self.first_sent_time,
            is_app_limited: self.app_limited.is_some(),
            sent_time: send_time,
        }
    }

    /// Opens an application-limited bubble when the sender has less than a
    /// segment of new data, is not transmitting, has room in its window and
    /// has retransmitted every lost packet.
    pub fn detect_application_limited_phases(
        &mut self,
        sender_state: &ConnectionSenderState,
        send_sequence_space: &TransportSendSequenceSpace,
    )
        requires
            send_sequence_space.nxt <= sender_state.write_seq,
            old(self)@.delivered + sender_state.pipe <= u64::MAX,
        ensures
            old(self)@.wf() ==> final(self)@.wf(),
            final(self)@ == detect_next(
                old(self)@,
                sender_state.write_seq - send_sequence_space.nxt < send_sequence_space.mss
                    && sender_state.spec_not_transmitting_a_packet() && sender_state.pipe
                    < send_sequence_space.wnd
                    && sender_state.spec_all_lost_packets_retransmitted(),
                sender_state.pipe as nat,
            ),
    {
        let params = DetectAppLimitedPhaseParams::from_sender(sender_state, send_sequence_space);
        self.detect_application_limited_phases_2(params)
    }

    /// Opens an application-limited bubble when the precomputed conditions all hold.
    pub fn detect_application_limited_phases_2(&mut self, params: DetectAppLimitedPhaseParams)
        requires
            old(self)@.delivered + params.pipe <= u64::MAX,
        ensures
            old(self)@.wf() ==> final(self)@.wf(),
            final(self)@ == detect_next(
                old(self)@,
                params.spec_in_app_limited_phase(),
                params.pipe as nat,
            ),
    {
        if !params.in_app_limited_phase() {
            return;
        }
        let last_transmitted_packet_index = self.delivered + params.pipe;
        self.app_limited = Some(last_transmitted_packet_index);
    }
    /// Processes the acknowledgment of `acked_packets` at `now` and returns a
    /// delivery-rate sample when the batch gives a reliable one.
    ///
    /// `acked_packets` must not hold packets already counted by an earlier call.
    /// The batch's lengths must fit the delivered counter, and no snapshot may
    /// record more delivered data than the counter holds once the batch is
    /// added: snapshots taken by `send_packet` on this connection never do.
    pub fn sample_rate(
        &mut self,
        acked_packets: &[Packet],
        now: Timestamp,
        min_rtt: TimeSpan,
    ) -> (r: Option<RateSample>)
        requires
            old(self)@.delivered + acked_total(acked_models(acked_packets@)) <= u64::MAX,
            max_prior(acked_models(acked_packets@)) <= old(self)@.delivered + acked_total(
                acked_models(acked_packets@),
            ),
        ensures
            old(self)@.wf() ==> final(self)@.wf(),
            final(self)@ == sample_next(old(self)@, acked_models(acked_packets@), now@),
            match r {
                Some(rs) => sample_result(
                    old(self)@,
                    acked_models(acked_packets@),
                    now@,
                    min_rtt@,
                ) == Some(rs@),
                None => sample_result(
                    old(self)@,
                    acked_models(acked_packets@),
                    now@,
                    min_rtt@,
                ) is None,
            },
    {
        let ghost ms = acked_models(acked_packets@);
        let ghost start = self@;
        let mut prior_delivered: u64 = 0;
        let mut newest_index: Option<usize> = None;
        let n = acked_packets.len();
        let mut i: usize = 0;
        while i < n
            invariant
                n == acked_packets@.len() == ms.len(),
                ms == acked_models(acked_packets@),
                0 <= i <= n,
                start.delivered + acked_total(ms) <= u64::MAX,
                self@ == (ConnectionModel {
                    delivered: start.delivered + acked_total(ms.take(i as int)),
                    delivered_time: if i > 0 {
                        now@
                    } else {
                        start.delivered_time
                    },
                    first_sent_time: match newest(ms.take(i as int)) {
                        Some(j) => ms[j].state.sent_time,
                        None => start.first_sent_time,
                    },
                    app_limited: start.app_limited,
                }),
                prior_delivered == max_prior(ms.take(i as int)),
                match newest_index {
                    Some(j) => newest(ms.take(i as int)) == Some(j as int),
                    None => newest(ms.take(i as int)) is None,
                },
            decreases n - i,
        {
            let packet = &acked_packets[i];
            proof {
                assert(ms.take(i + 1).drop_last() =~= ms.take(i as int));
                assert(ms.take(i + 1).last() == ms[i as int]);
                lemma_acked_total_prefix(ms, i + 1);
            }
            self.delivered = self.delivered + packet.data_length;
            self.delivered_time = now;
            if prior_delivered < packet.state.delivered {
                prior_delivered = packet.state.delivered;
                newest_index = Some(i);
                self.first_sent_time = packet.state.sent_time;
            }
            i = i + 1;
        }
        proof {
            assert(ms.take(n as int) =~= ms);
            lemma_newest_is_max(ms);
        }
        if let Some(app_limited) = self.app_limited {
            if app_limited < self.delivered {
                self.app_limited = None;
            }
        }
        let j = match newest_index {
            Some(j) => j,
            None => {
                return None;
            },
        };
        let newest_state = &acked_packets[j].state;
        let prior_time = newest_state.delivered_time;
        let is_app_limited = newest_state.is_app_limited;
        let send_elapsed = newest_state.sent_time.saturating_since(newest_state.first_sent_time);
        let ack_elapsed = self.delivered_time.saturating_since(newest_state.delivered_time);
        let interval = send_elapsed.max(ack_elapsed);
        if interval.shorter_than(&min_rtt) {
            return None;
        }
        if interval.is_zero() {
            return None;
        }
        let delivered = self.delivered - prior_delivered;
        Some(
            RateSample {
                is_app_limited,
                interval,
                delivered,
                prior_delivered,
                prior_time,
                send_elapsed,
                ack_elapsed,
            },
        )
    }
}

impl PacketState {
    /// The connection's delivered count when the packet was sent.
    pub fn delivered(&self) -> (r: u64)
        ensures
            r == self@.delivered,
    {
        self.delivered
    }

    /// The connection's delivered time when the packet was sent.
    pub fn delivered_time(&self) -> (r: Timestamp)
        ensures
            r@ == self@.delivered_time,
    {
        self.delivered_time
    }

    /// The connection's first sent time when the packet was sent.
    pub fn first_sent_time(&self) -> (r: Timestamp)
        ensures
            r@ == self@.first_sent_time,
    {
        self.first_sent_time
    }

    /// Whether an application-limited bubble was open when the packet was sent.
    pub fn is_app_limited(&self) -> (r: bool)
        ensures
            r == self@.is_app_limited,
    {
        self.is_app_limited
    }

    /// When the packet was sent.
    pub fn sent_time(&self) -> (r: Timestamp)
        ensures
            r@ == self@.sent_time,
    {
        self.sent_time
    }
}

impl RateSample {
    /// Whether the newest delivered packet was sent in an application-limited phase.
    pub fn is_app_limited(&self) -> (r: bool)
        ensures
            r == self@.is_app_limited,
    {
        self.is_app_limited
    }

    /// The length of the sampling interval.
    pub fn interval(&self) -> (r: TimeSpan)
        ensures
            r@ == self@.interval,
    {
        self.interval
    }

    /// The amount of data marked as delivered over the sampling interval.
    pub fn delivered(&self) -> (r: u64)
        ensures
            r == self@.delivered,
    {
        self.delivered
    }

    /// The delivered count recorded by the newest delivered packet.
    pub fn prior_delivered(&self) -> (r: u64)
        ensures
            r == self@.prior_delivered,
    {
        self.prior_delivered
    }

    /// The delivered time recorded by the newest delivered packet.
    pub fn prior_time(&self) -> (r: Timestamp)
        ensures
            r@ == self@.prior_time,
    {
        self.prior_time
    }

    /// Send-side interval measured from the newest delivered packet.
    pub fn send_elapsed(&self) -> (r: TimeSpan)
        ensures
            r@ == self@.send_elapsed,
    {
        self.send_elapsed
    }

    /// Acknowledgment-side interval measured from the newest delivered packet.
    pub fn ack_elapsed(&self) -> (r: TimeSpan)
        ensures
            r@ == self@.ack_elapsed,
    {
        self.ack_elapsed
    }
}


} // verus!
