use vstd::prelude::*;

verus! {

/// The send sequence space of a transport connection.
///
/// ```text
///            1         2          3          4
///       ----------|----------|----------|----------
///              SND.UNA    SND.NXT    SND.UNA
///                                   +SND.WND
/// 1 - old sequence numbers which have been acknowledged
/// 2 - sequence numbers of unacknowledged data
/// 3 - sequence numbers allowed for new data transmission
/// 4 - future sequence numbers which are not yet allowed
/// ```
#[derive(Debug, Clone)]
pub struct TransportSendSequenceSpace {
    /// Next sequence number to send, in octets.
    pub nxt: u64,
    /// Oldest unacknowledged sequence number, in octets.
    pub una: u64,
    /// Maximum segment size, in octets.
    pub mss: u64,
    /// Send window, in octets or packets.
    pub wnd: u64,
}

impl TransportSendSequenceSpace {
    pub open spec fn spec_no_packets_in_flight(&self) -> bool {
        self.nxt == self.una
    }

    /// Nothing is outstanding: every sent octet has been acknowledged.
    pub fn no_packets_in_flight(&self) -> (r: bool)
        ensures
            r == self.spec_no_packets_in_flight(),
    {
        self.nxt == self.una
    }
}

/// Per-connection sender state, as seen by the application-limited detector.
#[derive(Debug, Clone)]
pub struct ConnectionSenderState {
    /// One past the sequence number of the last octet queued in the transport write buffer.
    pub write_seq: u64,
    /// Bytes queued for transmission at layers below the transport layer.
    pub pending_transmissions: u64,
    /// Packets in the outstanding window marked as lost.
    pub lost_out: u64,
    /// Packets in the outstanding window being retransmitted.
    pub retrans_out: u64,
    /// Estimated amount of data outstanding in the network (octets or packets).
    pub pipe: u64,
}

impl ConnectionSenderState {
    pub open spec fn spec_all_lost_packets_retransmitted(&self) -> bool {
        self.lost_out <= self.retrans_out
    }

    pub open spec fn spec_not_transmitting_a_packet(&self) -> bool {
        self.pending_transmissions == 0
    }

    /// All the packets considered lost have been retransmitted.
    pub fn all_lost_packets_retransmitted(&self) -> (r: bool)
        ensures
            r == self.spec_all_lost_packets_retransmitted(),
    {
        self.lost_out <= self.retrans_out
    }

    /// The sending flow is not currently in the process of transmitting a packet.
    pub fn not_transmitting_a_packet(&self) -> (r: bool)
        ensures
            r == self.spec_not_transmitting_a_packet(),
    {
        self.pending_transmissions == 0
    }
}

/// The conditions of an application-limited phase, evaluated by the caller.
#[derive(Debug, Clone)]
pub struct DetectAppLimitedPhaseParams {
    /// The transport send buffer has less than one maximum segment of unsent data.
    pub few_data_to_send: bool,
    /// The sending flow is not currently in the process of transmitting a packet.
    pub not_transmitting_a_packet: bool,
    /// The amount of data considered in flight is less than the congestion window.
    pub cwnd_not_full: bool,
    /// All the packets considered lost have been retransmitted.
    pub all_lost_packets_retransmitted: bool,
    /// Estimated amount of data outstanding in the network (octets or packets).
    pub pipe: u64,
}

impl DetectAppLimitedPhaseParams {
    pub open spec fn spec_in_app_limited_phase(&self) -> bool {
        self.few_data_to_send && self.not_transmitting_a_packet && self.cwnd_not_full
            && self.all_lost_packets_retransmitted
    }

    /// All four conditions hold: the sender cannot fill the network.
    pub fn in_app_limited_phase(&self) -> (r: bool)
        ensures
            r == self.spec_in_app_limited_phase(),
    {
        self.few_data_to_send && self.not_transmitting_a_packet && self.cwnd_not_full
            && self.all_lost_packets_retransmitted
    }

    /// The conditions computed from the sender state and the send sequence space.
    pub fn from_sender(
        sender_state: &ConnectionSenderState,
        send_sequence_space: &TransportSendSequenceSpace,
    ) -> (r: DetectAppLimitedPhaseParams)
        requires
            send_sequence_space.nxt <= sender_state.write_seq,
        ensures
            r.few_data_to_send == (sender_state.write_seq - send_sequence_space.nxt
                < send_sequence_space.mss),
            r.not_transmitting_a_packet == sender_state.spec_not_transmitting_a_packet(),
            r.cwnd_not_full == (sender_state.pipe < send_sequence_space.wnd),
            r.all_lost_packets_retransmitted
                == sender_state.spec_all_lost_packets_retransmitted(),
            r.pipe == sender_state.pipe,
    {
        DetectAppLimitedPhaseParams {
            few_data_to_send: sender_state.write_seq - send_sequence_space.nxt
                < send_sequence_space.mss,
            not_transmitting_a_packet: sender_state.not_transmitting_a_packet(),
            cwnd_not_full: sender_state.pipe < send_sequence_space.wnd,
            all_lost_packets_retransmitted: sender_state.all_lost_packets_retransmitted(),
            pipe: sender_state.pipe,
        }
    }
}

} // verus!
