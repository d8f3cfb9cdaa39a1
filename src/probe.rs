//! The probe's decisions as a state machine. The caller performs each
//! [`Action`] on the socket and feeds the result back as an [`Event`].
use vstd::prelude::*;

use crate::config::ProbeConfig;
use crate::header::{be_bytes, with_header, write_sequence_number};

verus! {

/// Where the probe stands in its run.
#[derive(Clone, Copy, Debug, PartialEq, Eq, Structural)]
pub enum Phase {
    /// Waiting for the send-buffer size the socket starts with.
    ReadInitial,
    /// Waiting for the kernel to take the requested send-buffer size.
    SetSize,
    /// Waiting for the send-buffer size the kernel settled on.
    ReadAfterSet,
    /// Sending datagrams.
    Sending,
    /// Finished: the tally is final.
    Done,
}

/// How one non-blocking send went.
#[derive(Clone, Copy, Debug, PartialEq, Eq, Structural)]
pub enum SendOutcome {
    /// The kernel took the datagram.
    Sent,
    /// The send buffer was full and the send would have blocked.
    WouldBlock,
    /// Any other error; it ends the sending.
    Failed,
}

/// The result of the last action, as seen by the caller.
#[derive(Clone, Copy, Debug, PartialEq, Eq, Structural)]
pub enum Event {
    /// A read of the send-buffer size returned this many bytes.
    BufferSize(i32),
    /// The kernel accepted the request for a send-buffer size.
    SizeSet,
    /// A send attempt ended this way.
    SendResult(SendOutcome),
}

/// What the caller is to do next.
#[derive(Clone, Copy, Debug, PartialEq, Eq, Structural)]
pub enum Action {
    /// Read the socket's send-buffer size.
    GetSendBuffer,
    /// Ask the kernel for this send-buffer size.
    SetSendBuffer(i32),
    /// Send the probe's datagram, which carries this sequence number.
    Send(u32),
    /// Report this number of would-block failures; nothing is left to do.
    Report(u32),
}

/// The probe's state in mathematical terms.
pub struct ProbeState {
    pub config: ProbeConfig,
    pub phase: Phase,
    /// The sequence number of the datagram to send next.
    pub next_seq: u32,
    /// Number of sends that failed because the send buffer was full.
    pub would_block: u32,
    pub initial_size: Option<i32>,
    pub size_after_set: Option<i32>,
    /// The datagram buffer.
    pub data: Seq<u8>,
    /// The outcome of every send attempt so far, in order.
    pub outcomes: Seq<SendOutcome>,
}

/// Number of would-block outcomes in `s`.
pub open spec fn count_would_block(s: Seq<SendOutcome>) -> nat
    decreases s.len(),
{
    if s.len() == 0 {
        0
    } else {
        count_would_block(s.drop_last()) + if s.last() == SendOutcome::WouldBlock {
            1nat
        } else {
            0nat
        }
    }
}

/// The state of a fresh probe: a zero-filled datagram, nothing read or sent.
pub open spec fn init_state(config: ProbeConfig) -> ProbeState {
    ProbeState {
        config,
        phase: Phase::ReadInitial,
        next_seq: 1,
        would_block: 0,
        initial_size: None,
        size_after_set: None,
        data: Seq::new(config.packet_size as nat, |i: int| 0u8),
        outcomes: Seq::empty(),
    }
}

/// The action a probe in state `s` asks for.
pub open spec fn action_of(s: ProbeState) -> Action {
    match s.phase {
        Phase::ReadInitial => Action::GetSendBuffer,
        Phase::SetSize => Action::SetSendBuffer(s.config.requested_send_buf_size),
        Phase::ReadAfterSet => Action::GetSendBuffer,
        Phase::Sending => Action::Send(s.next_seq),
        Phase::Done => Action::Report(s.would_block),
    }
}

/// `s` made ready to send sequence number `seq`, or finished when `seq` is
/// past the last one.
pub open spec fn ready(s: ProbeState, seq: u32) -> ProbeState {
    if seq < s.config.seq_end {
        ProbeState { phase: Phase::Sending, next_seq: seq, data: with_header(s.data, seq), ..s }
    } else {
        ProbeState { phase: Phase::Done, next_seq: seq, ..s }
    }
}

/// `s` after a send that ended with `o`.
pub open spec fn after_send(s: ProbeState, o: SendOutcome) -> ProbeState {
    let counted = ProbeState {
        outcomes: s.outcomes.push(o),
        would_block: if o == SendOutcome::WouldBlock {
            (s.would_block + 1) as u32
        } else {
            s.would_block
        },
        ..s
    };
    if o == SendOutcome::Failed {
        ProbeState { phase: Phase::Done, ..counted }
    } else {
        ready(counted, (s.next_seq + 1) as u32)
    }
}

/// The state after event `e`. An event that does not answer the pending
/// action leaves the state as it is.
pub open spec fn next_state(s: ProbeState, e: Event) -> ProbeState {
    match (s.phase, e) {
        (Phase::ReadInitial, Event::BufferSize(n)) => ProbeState {
            phase: Phase::SetSize,
            initial_size: Some(n),
            ..s
        },
        (Phase::SetSize, Event::SizeSet) => ProbeState { phase: Phase::ReadAfterSet, ..s },
        (Phase::ReadAfterSet, Event::BufferSize(n)) => ready(
            ProbeState { size_after_set: Some(n), ..s },
            1,
        ),
        (Phase::Sending, Event::SendResult(o)) => after_send(s, o),
        _ => s,
    }
}

/// The state after `events`, one by one, starting from `s`.
pub open spec fn run_from(s: ProbeState, events: Seq<Event>) -> ProbeState
    decreases events.len(),
{
    if events.len() == 0 {
        s
    } else {
        next_state(run_from(s, events.drop_last()), events.last())
    }
}

/// The state of a probe made with `config` after `events`.
pub open spec fn run(config: ProbeConfig, events: Seq<Event>) -> ProbeState {
    run_from(init_state(config), events)
}

/// What holds of every state the probe can reach.
pub open spec fn state_wf(s: ProbeState) -> bool {
    &&& s.config.valid()
    &&& s.data.len() == s.config.packet_size
    &&& forall|i: int| 4 <= i < s.data.len() ==> s.data[i] == 0
    &&& 1 <= s.next_seq
    &&& s.would_block == count_would_block(s.outcomes)
    &&& forall|i: int| 0 <= i < s.outcomes.len() - 1 ==> s.outcomes[i] != SendOutcome::Failed
    &&& s.phase != Phase::Done ==> s.outcomes.len() == s.next_seq - 1
    &&& s.phase != Phase::Done ==> forall|i: int|
        0 <= i < s.outcomes.len() ==> s.outcomes[i] != SendOutcome::Failed
    &&& s.phase == Phase::Done ==> s.outcomes.len() == s.next_seq - 1 || (s.outcomes.len()
        == s.next_seq && s.outcomes.last() == SendOutcome::Failed)
    &&& s.next_seq <= s.config.seq_end || s.next_seq == 1
    &&& s.outcomes.len() < s.config.seq_end || s.outcomes.len() == 0
    &&& s.phase == Phase::Sending ==> s.next_seq < s.config.seq_end && s.data.subrange(0, 4)
        == be_bytes(s.next_seq)
    &&& s.phase == Phase::ReadInitial || s.phase == Phase::SetSize || s.phase
        == Phase::ReadAfterSet ==> s.outcomes.len() == 0 && s.next_seq == 1
}

proof fn lemma_count_push(s: Seq<SendOutcome>, o: SendOutcome)
    ensures
        count_would_block(s.push(o)) == count_would_block(s) + if o == SendOutcome::WouldBlock {
            1nat
        } else {
            0nat
        },
{
    assert(s.push(o).drop_last() =~= s);
}

/// There are never more would-block outcomes than outcomes.
pub proof fn lemma_count_le_len(s: Seq<SendOutcome>)
    ensures
        count_would_block(s) <= s.len(),
    decreases s.len(),
{
    if s.len() > 0 {
        lemma_count_le_len(s.drop_last());
    }
}

proof fn lemma_ready_wf(s: ProbeState, seq: u32)
    requires
        s.config.valid(),
        s.data.len() == s.config.packet_size,
        forall|i: int| 4 <= i < s.data.len() ==> s.data[i] == 0,
        1 <= seq,
        seq <= s.config.seq_end || seq == 1,
        s.would_block == count_would_block(s.outcomes),
        forall|i: int| 0 <= i < s.outcomes.len() ==> s.outcomes[i] != SendOutcome::Failed,
        s.outcomes.len() == seq - 1,
    ensures
        state_wf(ready(s, seq)),
{
    let r = ready(s, seq);
    if seq < s.config.seq_end {
        assert(r.data.subrange(0, 4) =~= be_bytes(seq));
        assert forall|i: int| 4 <= i < r.data.len() implies r.data[i] == 0 by {
            assert(r.data[i] == s.data[i]);
        }
    }
    assert forall|i: int| 0 <= i < r.outcomes.len() - 1 implies r.outcomes[i]
        != SendOutcome::Failed by {}
}

/// Every event keeps the probe's state well formed.
pub proof fn lemma_next_state_wf(s: ProbeState, e: Event)
    requires
        state_wf(s),
    ensures
        state_wf(next_state(s, e)),
{
    match (s.phase, e) {
        (Phase::ReadAfterSet, Event::BufferSize(n)) => {
            lemma_ready_wf(ProbeState { size_after_set: Some(n), ..s }, 1);
        },
        (Phase::Sending, Event::SendResult(o)) => {
            lemma_count_push(s.outcomes, o);
            lemma_count_le_len(s.outcomes);
            let outs = s.outcomes.push(o);
            assert forall|i: int| 0 <= i < outs.len() - 1 implies outs[i]
                != SendOutcome::Failed by {
                assert(outs[i] == s.outcomes[i]);
            }
            assert(outs.last() == o);
            if o != SendOutcome::Failed {
                let counted = ProbeState {
                    outcomes: outs,
                    would_block: if o == SendOutcome::WouldBlock {
                        (s.would_block + 1) as u32
                    } else {
                        s.would_block
                    },
                    ..s
                };
                lemma_ready_wf(counted, (s.next_seq + 1) as u32);
            }
        },
        _ => {},
    }
}

/// The probe: its parameters, its datagram buffer and its tally.
pub struct Probe {
    config: ProbeConfig,
    phase: Phase,
    next_seq: u32,
    would_block: u32,
    initial_size: Option<i32>,
    size_after_set: Option<i32>,
    data: Vec<u8>,
    outcomes: Ghost<Seq<SendOutcome>>,
}

impl View for Probe {
    type V = ProbeState;

    closed spec fn view(&self) -> ProbeState {
        ProbeState {
            config: self.config,
            phase: self.phase,
            next_seq: self.next_seq,
            would_block: self.would_block,
            initial_size: self.initial_size,
            size_after_set: self.size_after_set,
            data: self.data@,
            outcomes: self.outcomes@,
        }
    }
}

impl Probe {
    /// The probe is in a state it can reach.
    pub open spec fn wf(&self) -> bool {
        state_wf(self@)
    }

    /// A probe with a zero-filled datagram of `config.packet_size` bytes,
    /// about to read the initial send-buffer size.
    pub fn new(config: ProbeConfig) -> (p: Probe)
        requires
            config.valid(),
        ensures
            p@ == init_state(config),
            p.wf(),
    {
        let mut data: Vec<u8> = Vec::new();
        let mut i: usize = 0;
        while i < config.packet_size
            invariant
                i <= config.packet_size,
                data@ == Seq::new(i as nat, |j: int| 0u8),
            decreases config.packet_size - i,
        {
            data.push(0u8);
            i = i + 1;
            assert(data@ =~= Seq::new(i as nat, |j: int| 0u8));
        }
        let p = Probe {
            config,
            phase: Phase::ReadInitial,
            next_seq: 1,
            would_block: 0,
            initial_size: None,
            size_after_set: None,
            data,
            outcomes: Ghost(Seq::empty()),
        };
        assert(p@ =~= init_state(config));
        p
    }

    /// The action the probe asks for next.
    pub fn action(&self) -> (a: Action)
        ensures
            a == action_of(self@),
    {
        match self.phase {
            Phase::ReadInitial => Action::GetSendBuffer,
            Phase::SetSize => Action::SetSendBuffer(self.config.requested_send_buf_size),
            Phase::ReadAfterSet => Action::GetSendBuffer,
            Phase::Sending => Action::Send(self.next_seq),
            Phase::Done => Action::Report(self.would_block),
        }
    }

    /// Makes the probe ready to send `seq`, or finishes it when `seq` is past
    /// the last sequence number.
    fn make_ready(&mut self, seq: u32)
        requires
            old(self).data@.len() >= 4,
        ensures
            final(self)@ == ready(old(self)@, seq),
    {
        self.next_seq = seq;
        if seq < self.config.seq_end {
            write_sequence_number(&mut self.data, seq);
            self.phase = Phase::Sending;
        } else {
            self.phase = Phase::Done;
        }
    }

    /// Takes the result of the pending action. An event that does not answer
    /// it changes nothing; once finished, the probe changes no more.
    pub fn step(&mut self, e: Event)
        requires
            old(self).wf(),
        ensures
            final(self)@ == next_state(old(self)@, e),
            final(self).wf(),
    {
        proof {
            lemma_next_state_wf(self@, e);
            lemma_count_le_len(self@.outcomes);
        }
        match (self.phase, e) {
            (Phase::ReadInitial, Event::BufferSize(n)) => {
                self.initial_size = Some(n);
                self.phase = Phase::SetSize;
            },
            (Phase::SetSize, Event::SizeSet) => {
                self.phase = Phase::ReadAfterSet;
            },
            (Phase::ReadAfterSet, Event::BufferSize(n)) => {
                self.size_after_set = Some(n);
                self.make_ready(1);
            },
            (Phase::Sending, Event::SendResult(o)) => {
                self.outcomes = Ghost(self.outcomes@.push(o));
                match o {
                    SendOutcome::WouldBlock => {
                        self.would_block = self.would_block + 1;
                    },
                    _ => {},
                }
                match o {
                    SendOutcome::Failed => {
                        self.phase = Phase::Done;
                    },
                    _ => {
                        let seq = self.next_seq + 1;
                        self.make_ready(seq);
                    },
                }
            },
            _ => {},
        }
    }

    /// The datagram to send now: `packet_size` bytes, the first four of them
    /// the sequence number of the pending send.
    pub fn datagram(&self) -> (d: &Vec<u8>)
        ensures
            d@ == self@.data,
    {
        &self.data
    }

    /// Number of sends so far that failed because the send buffer was full.
    pub fn would_block_count(&self) -> (n: u32)
        ensures
            n == self@.would_block,
    {
        self.would_block
    }

    /// The send-buffer size read before the request, once it has been read.
    pub fn initial_size(&self) -> (r: Option<i32>)
        ensures
            r == self@.initial_size,
    {
        self.initial_size
    }

    /// The send-buffer size read after the request, once it has been read.
    pub fn size_after_set(&self) -> (r: Option<i32>)
        ensures
            r == self@.size_after_set,
    {
        self.size_after_set
    }

    /// The probe's parameters.
    pub fn config(&self) -> (c: ProbeConfig)
        ensures
            c == self@.config,
    {
        self.config
    }
}

} // verus!
