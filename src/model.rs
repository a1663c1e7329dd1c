use vstd::prelude::*;

use crate::time::span_between;

verus! {

/// The mathematical state of a connection's delivery tracking.
pub struct ConnectionModel {
    /// Data delivered since the connection opened.
    pub delivered: nat,
    /// When `delivered` last changed, or when the connection was last re-anchored.
    pub delivered_time: nat,
    /// Send time of the newest delivered packet, or of the packet sent after an idle period.
    pub first_sent_time: nat,
    /// The delivery index that marks the end of an open application-limited bubble.
    pub app_limited: Option<nat>,
}

/// What a packet records of the connection when it is sent.
pub struct SnapshotModel {
    pub delivered: nat,
    pub delivered_time: nat,
    pub first_sent_time: nat,
    pub is_app_limited: bool,
    pub sent_time: nat,
}

/// An acknowledged packet: its snapshot and its length.
pub struct AckedModel {
    pub state: SnapshotModel,
    pub data_length: nat,
}

/// The content of a rate sample.
pub struct SampleModel {
    pub is_app_limited: bool,
    pub interval: nat,
    pub delivered: nat,
    pub prior_delivered: nat,
    pub prior_time: nat,
    pub send_elapsed: nat,
    pub ack_elapsed: nat,
}

impl ConnectionModel {
    /// An open bubble never ends behind what has been delivered: it opens at
    /// or past `delivered` and closes once `delivered` passes it.
    pub open spec fn wf(self) -> bool {
        match self.app_limited {
            Some(k) => self.delivered <= k,
            None => true,
        }
    }
}

/// A connection opened at `now`.
pub open spec fn initial(now: nat) -> ConnectionModel {
    ConnectionModel { delivered: 0, delivered_time: now, first_sent_time: now, app_limited: None }
}

/// The state after sending a packet at `send_time`; an idle connection is re-anchored there.
pub open spec fn send_next(s: ConnectionModel, send_time: nat, idle: bool) -> ConnectionModel {
    if idle {
        ConnectionModel { delivered_time: send_time, first_sent_time: send_time, ..s }
    } else {
        s
    }
}

/// The snapshot a packet sent at `send_time` carries.
pub open spec fn send_snapshot(s: ConnectionModel, send_time: nat, idle: bool) -> SnapshotModel {
    let t = send_next(s, send_time, idle);
    SnapshotModel {
        delivered: t.delivered,
        delivered_time: t.delivered_time,
        first_sent_time: t.first_sent_time,
        is_app_limited: t.app_limited is Some,
        sent_time: send_time,
    }
}

/// The state after the application-limited detector ran; a bubble opens at
/// `delivered + pipe` when the sender is application-limited.
pub open spec fn detect_next(s: ConnectionModel, in_phase: bool, pipe: nat) -> ConnectionModel {
    if in_phase {
        ConnectionModel { app_limited: Some(s.delivered + pipe), ..s }
    } else {
        s
    }
}

/// The sum of the lengths of the acknowledged packets.
pub open spec fn acked_total(ps: Seq<AckedModel>) -> nat
    decreases ps.len(),
{
    if ps.len() == 0 {
        0
    } else {
        acked_total(ps.drop_last()) + ps.last().data_length
    }
}

/// The largest snapshot `delivered` of the batch, or zero for an empty batch.
pub open spec fn max_prior(ps: Seq<AckedModel>) -> nat
    decreases ps.len(),
{
    if ps.len() == 0 {
        0
    } else {
        let m = max_prior(ps.drop_last());
        if m < ps.last().state.delivered {
            ps.last().state.delivered
        } else {
            m
        }
    }
}

/// The newest packet of the batch: the first whose snapshot `delivered` is the
/// batch's largest, provided that largest value is above zero.
pub open spec fn newest(ps: Seq<AckedModel>) -> Option<int>
    decreases ps.len(),
{
    if ps.len() == 0 {
        None
    } else if max_prior(ps.drop_last()) < ps.last().state.delivered {
        Some(ps.len() - 1)
    } else {
        newest(ps.drop_last())
    }
}

/// The state after processing an acknowledgment of the batch `ps` at `now`.
pub open spec fn sample_next(s: ConnectionModel, ps: Seq<AckedModel>, now: nat) -> ConnectionModel {
    let d = s.delivered + acked_total(ps);
    ConnectionModel {
        delivered: d,
        delivered_time: if ps.len() > 0 {
            now
        } else {
            s.delivered_time
        },
        first_sent_time: match newest(ps) {
            Some(i) => ps[i].state.sent_time,
            None => s.first_sent_time,
        },
        app_limited: match s.app_limited {
            Some(k) => if k < d {
                None
            } else {
                Some(k)
            },
            None => None,
        },
    }
}

/// The longer of two spans.
pub open spec fn longer(a: nat, b: nat) -> nat {
    if a >= b {
        a
    } else {
        b
    }
}

/// The rate sample produced by acknowledging the batch `ps` at `now`, if any:
/// none for a batch without a newest packet, or when the interval is shorter
/// than `min_rtt` or zero.
pub open spec fn sample_result(
    s: ConnectionModel,
    ps: Seq<AckedModel>,
    now: nat,
    min_rtt: nat,
) -> Option<SampleModel> {
    match newest(ps) {
        None => None,
        Some(i) => {
            let p = ps[i].state;
            let send_elapsed = span_between(p.first_sent_time, p.sent_time);
            let ack_elapsed = span_between(p.delivered_time, now);
            let interval = longer(send_elapsed, ack_elapsed);
            if interval < min_rtt || interval == 0 {
                None
            } else {
                Some(
                    SampleModel {
                        is_app_limited: p.is_app_limited,
                        interval,
                        delivered: (s.delivered + acked_total(ps) - p.delivered) as nat,
                        prior_delivered: p.delivered,
                        prior_time: p.delivered_time,
                        send_elapsed,
                        ack_elapsed,
                    },
                )
            }
        },
    }
}

/// Acknowledging a prefix adds at most what the whole batch adds.
pub proof fn lemma_acked_total_prefix(ps: Seq<AckedModel>, i: int)
    requires
        0 <= i <= ps.len(),
    ensures
        acked_total(ps.take(i)) <= acked_total(ps),
    decreases ps.len(),
{
    if i < ps.len() {
        assert(ps.drop_last().take(i) =~= ps.take(i));
        lemma_acked_total_prefix(ps.drop_last(), i);
    } else {
        assert(ps.take(i) =~= ps);
    }
}

/// The newest packet carries the batch's largest snapshot `delivered`.
pub proof fn lemma_newest_is_max(ps: Seq<AckedModel>)
    ensures
        match newest(ps) {
            Some(i) => 0 <= i < ps.len() && ps[i].state.delivered == max_prior(ps)
                && max_prior(ps) > 0,
            None => max_prior(ps) == 0,
        },
    decreases ps.len(),
{
    if ps.len() > 0 {
        lemma_newest_is_max(ps.drop_last());
    }
}

} // verus!
