use vstd::prelude::*;

use crate::model::{
    acked_total, initial, lemma_newest_is_max, longer, max_prior, newest, sample_next, sample_result, send_next,
    send_snapshot, detect_next, AckedModel, ConnectionModel, SnapshotModel,
};
use crate::time::span_between;

verus! {

/// One call on a connection, as seen by its delivery state.
pub enum Event {
    /// A packet sent at `send_time`; `idle` when nothing was in flight.
    Send { send_time: nat, idle: bool },
    /// A run of the application-limited detector.
    Detect { in_phase: bool, pipe: nat },
    /// An acknowledgment of `packets` processed at `now`.
    Ack { packets: Seq<AckedModel>, now: nat },
}

/// The state after one call.
pub open spec fn step(s: ConnectionModel, e: Event) -> ConnectionModel {
    match e {
        Event::Send { send_time, idle } => send_next(s, send_time, idle),
        Event::Detect { in_phase, pipe } => detect_next(s, in_phase, pipe),
        Event::Ack { packets, now } => sample_next(s, packets, now),
    }
}

/// The state after a sequence of calls.
pub open spec fn run(s: ConnectionModel, evs: Seq<Event>) -> ConnectionModel
    decreases evs.len(),
{
    if evs.len() == 0 {
        s
    } else {
        step(run(s, evs.drop_last()), evs.last())
    }
}

/// The total length of all packets acknowledged by a sequence of calls.
pub open spec fn acked_in(evs: Seq<Event>) -> nat
    decreases evs.len(),
{
    if evs.len() == 0 {
        0
    } else {
        acked_in(evs.drop_last()) + match evs.last() {
            Event::Ack { packets, .. } => acked_total(packets),
            _ => 0,
        }
    }
}

/// No call of the sequence opens a new application-limited bubble.
pub open spec fn opens_no_bubble(evs: Seq<Event>) -> bool {
    forall|i: int|
        0 <= i < evs.len() ==> !(#[trigger] evs[i] matches Event::Detect { in_phase: true, .. })
}

/// The delivered count grows by exactly what each acknowledgment carries.
proof fn lemma_run_delivered(s: ConnectionModel, evs: Seq<Event>)
    ensures
        run(s, evs).delivered == s.delivered + acked_in(evs),
    decreases evs.len(),
{
    if evs.len() > 0 {
        lemma_run_delivered(s, evs.drop_last());
    }
}

/// Every call keeps an open bubble at or past the delivered count, so every
/// state reached from a new connection satisfies it.
pub proof fn law_bubble_never_behind(s: ConnectionModel, evs: Seq<Event>)
    requires
        s.wf(),
    ensures
        run(s, evs).wf(),
        run(initial(s.delivered_time), evs).wf(),
    decreases evs.len(),
{
    if evs.len() > 0 {
        law_bubble_never_behind(s, evs.drop_last());
    }
}

/// `delivered` never decreases over any sequence of calls, and it is always the
/// starting count plus the lengths of all acknowledged packets; from a new
/// connection it is exactly the total acknowledged.
pub proof fn law_delivered_monotone(s: ConnectionModel, evs: Seq<Event>, i: int, j: int)
    requires
        0 <= i <= j <= evs.len(),
    ensures
        run(s, evs.take(i)).delivered <= run(s, evs.take(j)).delivered,
        run(s, evs).delivered == s.delivered + acked_in(evs),
        run(initial(s.delivered_time), evs).delivered == acked_in(evs),
    decreases j - i,
{
    lemma_run_delivered(s, evs);
    lemma_run_delivered(initial(s.delivered_time), evs);
    if i < j {
        law_delivered_monotone(s, evs, i, j - 1);
        assert(evs.take(j).drop_last() =~= evs.take(j - 1));
        lemma_run_delivered(s, evs.take(j));
        lemma_run_delivered(s, evs.take(j - 1));
    }
}

/// A packet sent while nothing is in flight records its own send time as both
/// the delivered time and the first sent time, whatever the state before.
pub proof fn law_idle_reanchoring(s: ConnectionModel, send_time: nat)
    ensures
        send_snapshot(s, send_time, true).first_sent_time == send_time,
        send_snapshot(s, send_time, true).delivered_time == send_time,
        send_next(s, send_time, true).first_sent_time == send_time,
        send_next(s, send_time, true).delivered_time == send_time,
{
}

/// Once the detector opens a bubble ending at `k = delivered + pipe`, every
/// later snapshot is application-limited exactly while `delivered` has not
/// passed `k`; after an acknowledgment carries `delivered` past `k` the bubble
/// stays closed until a new one is opened.
pub proof fn law_bubble_lifecycle(s: ConnectionModel, pipe: nat, evs: Seq<Event>)
    requires
        opens_no_bubble(evs),
    ensures
        ({
            let k = s.delivered + pipe;
            let t = run(detect_next(s, true, pipe), evs);
            &&& t.app_limited == if t.delivered > k {
                None
            } else {
                Some(k)
            }
            &&& forall|send_time: nat, idle: bool|
                (#[trigger] send_snapshot(t, send_time, idle)).is_app_limited == (t.delivered
                    <= k)
        }),
    decreases evs.len(),
{
    let s1 = detect_next(s, true, pipe);
    if evs.len() > 0 {
        assert(opens_no_bubble(evs.drop_last())) by {
            assert forall|i: int| 0 <= i < evs.drop_last().len() implies !(
            #[trigger] evs.drop_last()[i] matches Event::Detect { in_phase: true, .. }) by {
                assert(evs.drop_last()[i] == evs[i]);
            }
        }
        law_bubble_lifecycle(s, pipe, evs.drop_last());
        assert(!(evs[evs.len() - 1] matches Event::Detect { in_phase: true, .. }));
        lemma_run_delivered(s1, evs.drop_last());
        lemma_run_delivered(s1, evs);
    }
}

/// The newest packet of a batch is the first whose snapshot `delivered` is the
/// batch's largest; a batch has none exactly when every snapshot recorded zero.
pub proof fn law_newest_is_first_largest(ps: Seq<AckedModel>)
    ensures
        match newest(ps) {
            Some(i) => {
                &&& 0 <= i < ps.len()
                &&& ps[i].state.delivered > 0
                &&& forall|j: int|
                    0 <= j < ps.len() ==> #[trigger] ps[j].state.delivered <= ps[i].state.delivered
                &&& forall|j: int| 0 <= j < i ==> #[trigger] ps[j].state.delivered < ps[i].state.delivered
            },
            None => forall|j: int| 0 <= j < ps.len() ==> #[trigger] ps[j].state.delivered == 0,
        },
    decreases ps.len(),
{
    if ps.len() > 0 {
        let init = ps.drop_last();
        law_newest_is_first_largest(init);
        lemma_newest_is_max(init);
        lemma_newest_is_max(ps);
        assert forall|j: int| 0 <= j < init.len() implies #[trigger] ps[j] == init[j] by {}
    }
}

/// A batch whose newest packet gives an interval shorter than `min_rtt` yields
/// no sample, however much it delivered.
pub proof fn law_interval_floor(s: ConnectionModel, ps: Seq<AckedModel>, now: nat, min_rtt: nat)
    requires
        newest(ps) is Some,
        ({
            let p = ps[newest(ps)->0].state;
            longer(span_between(p.first_sent_time, p.sent_time), span_between(p.delivered_time, now))
                < min_rtt
        }),
    ensures
        sample_result(s, ps, now, min_rtt) is None,
{
}

/// A single acknowledged packet of length `L`, sent when the connection had
/// delivered what it has now and whose send and acknowledgment intervals are
/// both `I`, with `I` at least `min_rtt` and above zero, yields a sample of
/// `L` delivered over `I`: a rate of `L / I`.
pub proof fn law_rate_single_packet(
    s: ConnectionModel,
    p: AckedModel,
    now: nat,
    min_rtt: nat,
    interval: nat,
)
    requires
        p.state.delivered == s.delivered,
        p.state.delivered > 0,
        span_between(p.state.first_sent_time, p.state.sent_time) == interval,
        span_between(p.state.delivered_time, now) == interval,
        interval >= min_rtt,
        interval > 0,
    ensures
        sample_result(s, seq![p], now, min_rtt) is Some,
        sample_result(s, seq![p], now, min_rtt)->0.delivered == p.data_length,
        sample_result(s, seq![p], now, min_rtt)->0.interval == interval,
{
    let ps = seq![p];
    assert(ps.drop_last() =~= Seq::<AckedModel>::empty());
    assert(acked_total(ps.drop_last()) == 0);
    assert(max_prior(ps.drop_last()) == 0);
    assert(newest(ps) == Some(0int));
    assert(acked_total(ps) == p.data_length);
}

/// An empty batch yields no sample and leaves the delivered count and any
/// open bubble as they were.
pub proof fn law_empty_batch(s: ConnectionModel, now: nat, min_rtt: nat)
    requires
        s.wf(),
    ensures
        sample_result(s, Seq::empty(), now, min_rtt) is None,
        sample_next(s, Seq::empty(), now).app_limited == s.app_limited,
        sample_next(s, Seq::empty(), now).delivered == s.delivered,
{
    assert(acked_total(Seq::<AckedModel>::empty()) == 0);
    assert(newest(Seq::<AckedModel>::empty()) is None);
}

} // verus!
