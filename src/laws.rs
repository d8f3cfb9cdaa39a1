//! What holds of every run of the probe, whatever the kernel answers.
use vstd::prelude::*;

use crate::config::ProbeConfig;
use crate::header::be_bytes;
use crate::probe::{
    action_of, count_would_block, init_state, lemma_count_le_len, lemma_next_state_wf, next_state,
    run, run_from, state_wf, Action, Event, Phase, ProbeState, SendOutcome,
};

verus! {

/// Every state a probe reaches from its start is well formed.
pub proof fn lemma_run_wf(config: ProbeConfig, events: Seq<Event>)
    requires
        config.valid(),
    ensures
        state_wf(run(config, events)),
        run(config, events).config == config,
    decreases events.len(),
{
    if events.len() == 0 {
        assert(init_state(config).data.len() == config.packet_size);
    } else {
        lemma_run_wf(config, events.drop_last());
        lemma_next_state_wf(run(config, events.drop_last()), events.last());
    }
}

/// Running `a` and then `b` is running `a + b`.
pub proof fn lemma_run_from_append(s: ProbeState, a: Seq<Event>, b: Seq<Event>)
    ensures
        run_from(s, a + b) == run_from(run_from(s, a), b),
    decreases b.len(),
{
    if b.len() == 0 {
        assert(a + b =~= a);
    } else {
        lemma_run_from_append(s, a, b.drop_last());
        assert((a + b).drop_last() =~= a + b.drop_last());
        assert((a + b).last() == b.last());
    }
}

/// A finished probe stays as it is, whatever comes after.
pub proof fn lemma_done_is_final(s: ProbeState, events: Seq<Event>)
    requires
        s.phase == Phase::Done,
    ensures
        run_from(s, events) == s,
    decreases events.len(),
{
    if events.len() > 0 {
        lemma_done_is_final(s, events.drop_last());
    }
}

/// The size reported after the request is the one the second read of the
/// send-buffer size returned, made with the same action as the first read,
/// whatever size was requested.
pub proof fn law_reported_size_is_second_reading(config: ProbeConfig, first: i32, second: i32)
    requires
        config.valid(),
    ensures
        action_of(run(config, seq![])) == Action::GetSendBuffer,
        action_of(run(config, seq![Event::BufferSize(first)])) == Action::SetSendBuffer(
            config.requested_send_buf_size,
        ),
        action_of(run(config, seq![Event::BufferSize(first), Event::SizeSet]))
            == Action::GetSendBuffer,
        run(
            config,
            seq![Event::BufferSize(first), Event::SizeSet, Event::BufferSize(second)],
        ).initial_size == Some(first),
        run(
            config,
            seq![Event::BufferSize(first), Event::SizeSet, Event::BufferSize(second)],
        ).size_after_set == Some(second),
{
    let e1 = seq![Event::BufferSize(first)];
    let e2 = seq![Event::BufferSize(first), Event::SizeSet];
    let e3 = seq![Event::BufferSize(first), Event::SizeSet, Event::BufferSize(second)];
    assert(e1.drop_last() =~= seq![]);
    assert(e2.drop_last() =~= e1);
    assert(e3.drop_last() =~= e2);
}

/// The tally of would-block failures is exactly the number of send attempts
/// that would have blocked; it never counts a send that went out or failed
/// otherwise, and never exceeds the number of attempts, which is at most one
/// per sequence number.
pub proof fn law_tally_counts_would_block(config: ProbeConfig, events: Seq<Event>)
    requires
        config.valid(),
    ensures
        run(config, events).would_block == count_would_block(run(config, events).outcomes),
        run(config, events).would_block <= run(config, events).outcomes.len(),
        run(config, events).outcomes.len() <= config.attempts(),
{
    lemma_run_wf(config, events);
    lemma_count_le_len(run(config, events).outcomes);
}

/// Whenever the probe asks for a send, its datagram is `packet_size` bytes
/// long, starts with the big-endian encoding of the sequence number sent, and
/// is zero after that.
pub proof fn law_datagram_carries_sequence_number(config: ProbeConfig, events: Seq<Event>)
    requires
        config.valid(),
    ensures
        ({
            let s = run(config, events);
            s.phase == Phase::Sending ==> {
                &&& action_of(s) == Action::Send(s.next_seq)
                &&& s.data.len() == config.packet_size
                &&& s.data.subrange(0, 4) == be_bytes(s.next_seq)
                &&& forall|i: int| 4 <= i < s.data.len() ==> s.data[i] == 0
            }
        }),
{
    lemma_run_wf(config, events);
}

/// A send that fails other than by blocking ends the sending: whatever comes
/// after, no further send is attempted, and the probe reports the tally it had.
pub proof fn law_failure_ends_sending(config: ProbeConfig, events: Seq<Event>, later: Seq<Event>)
    requires
        config.valid(),
        run(config, events).phase == Phase::Sending,
    ensures
        ({
            let s = run(config, events);
            let t = run(config, events.push(Event::SendResult(SendOutcome::Failed)) + later);
            &&& t.phase == Phase::Done
            &&& t.outcomes == s.outcomes.push(SendOutcome::Failed)
            &&& t.would_block == s.would_block
            &&& action_of(t) == Action::Report(s.would_block)
        }),
{
    let failed = events.push(Event::SendResult(SendOutcome::Failed));
    assert(failed.drop_last() =~= events);
    let t0 = run(config, failed);
    assert(t0 == next_state(run(config, events), Event::SendResult(SendOutcome::Failed)));
    lemma_run_from_append(init_state(config), failed, later);
    lemma_done_is_final(t0, later);
}

} // verus!
