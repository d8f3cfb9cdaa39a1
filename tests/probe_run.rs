use sndbuf_probe::config::{
    ProbeConfig, NUM_PACKETS_TO_SEND, PACKET_SIZE, REQUESTED_SEND_BUF_SIZE,
};
use sndbuf_probe::header::write_sequence_number;
use sndbuf_probe::probe::{Action, Event, Probe, SendOutcome};

fn small_config(seq_end: u32) -> ProbeConfig {
    ProbeConfig { packet_size: 8, requested_send_buf_size: 20000, seq_end }
}

/// Answers the three setup actions, checking that each is the one expected.
fn set_up(p: &mut Probe, first: i32, second: i32) {
    assert_eq!(p.action(), Action::GetSendBuffer);
    p.step(Event::BufferSize(first));
    assert_eq!(p.action(), Action::SetSendBuffer(p.config().requested_send_buf_size));
    p.step(Event::SizeSet);
    assert_eq!(p.action(), Action::GetSendBuffer);
    p.step(Event::BufferSize(second));
}

#[test]
fn header_is_big_endian() {
    let mut data = vec![9u8; 6];
    write_sequence_number(&mut data, 0x0102_0304);
    assert_eq!(data, vec![1, 2, 3, 4, 9, 9]);
    write_sequence_number(&mut data, 199);
    assert_eq!(data, vec![0, 0, 0, 199, 9, 9]);
    write_sequence_number(&mut data, u32::MAX);
    assert_eq!(data, vec![255, 255, 255, 255, 9, 9]);
}

#[test]
fn standard_config_values() {
    let c = ProbeConfig::standard();
    assert_eq!(c.packet_size, 1316);
    assert_eq!(c.requested_send_buf_size, 20000);
    assert_eq!(c.seq_end, 200);
    assert_eq!(c.packet_size, PACKET_SIZE);
    assert_eq!(c.requested_send_buf_size, REQUESTED_SEND_BUF_SIZE);
    assert_eq!(c.seq_end, NUM_PACKETS_TO_SEND);
}

#[test]
fn fresh_probe_has_zero_datagram() {
    let p = Probe::new(small_config(5));
    assert_eq!(p.datagram(), &vec![0u8; 8]);
    assert_eq!(p.would_block_count(), 0);
    assert_eq!(p.initial_size(), None);
    assert_eq!(p.size_after_set(), None);
}

#[test]
fn readings_are_recorded_in_order() {
    let mut p = Probe::new(small_config(5));
    set_up(&mut p, 212992, 40000);
    assert_eq!(p.initial_size(), Some(212992));
    assert_eq!(p.size_after_set(), Some(40000));
}

#[test]
fn oversized_request_reports_clamped_reading() {
    let c = ProbeConfig { packet_size: 16, requested_send_buf_size: i32::MAX, seq_end: 3 };
    let mut p = Probe::new(c);
    set_up(&mut p, 212992, 425984);
    assert_eq!(p.size_after_set(), Some(425984));
    assert_ne!(p.size_after_set(), Some(i32::MAX));
    assert_eq!(p.action(), Action::Send(1));
}

#[test]
fn tally_counts_only_would_block() {
    let mut p = Probe::new(small_config(6));
    set_up(&mut p, 1000, 2000);
    let outcomes = [
        SendOutcome::Sent,
        SendOutcome::WouldBlock,
        SendOutcome::WouldBlock,
        SendOutcome::Sent,
        SendOutcome::WouldBlock,
    ];
    for (k, o) in outcomes.iter().enumerate() {
        assert_eq!(p.action(), Action::Send(k as u32 + 1));
        p.step(Event::SendResult(*o));
    }
    assert_eq!(p.action(), Action::Report(3));
    assert_eq!(p.would_block_count(), 3);
}

#[test]
fn every_datagram_carries_its_sequence_number() {
    let mut p = Probe::new(small_config(300));
    set_up(&mut p, 1000, 2000);
    let mut seq: u32 = 1;
    while let Action::Send(n) = p.action() {
        assert_eq!(n, seq);
        let d = p.datagram();
        assert_eq!(d.len(), 8);
        assert_eq!(d[0..4], n.to_be_bytes());
        assert_eq!(d[4..8], [0u8; 4]);
        p.step(Event::SendResult(SendOutcome::Sent));
        seq += 1;
    }
    assert_eq!(seq, 300);
    assert_eq!(p.action(), Action::Report(0));
}

#[test]
fn failure_stops_sending_and_keeps_tally() {
    let mut p = Probe::new(small_config(10));
    set_up(&mut p, 1000, 2000);
    p.step(Event::SendResult(SendOutcome::WouldBlock));
    p.step(Event::SendResult(SendOutcome::WouldBlock));
    assert_eq!(p.action(), Action::Send(3));
    p.step(Event::SendResult(SendOutcome::Failed));
    assert_eq!(p.action(), Action::Report(2));
    p.step(Event::SendResult(SendOutcome::Sent));
    p.step(Event::SendResult(SendOutcome::WouldBlock));
    p.step(Event::BufferSize(5));
    assert_eq!(p.action(), Action::Report(2));
    assert_eq!(p.would_block_count(), 2);
}

#[test]
fn events_that_do_not_answer_are_ignored() {
    let mut p = Probe::new(small_config(4));
    p.step(Event::SizeSet);
    p.step(Event::SendResult(SendOutcome::WouldBlock));
    assert_eq!(p.action(), Action::GetSendBuffer);
    assert_eq!(p.initial_size(), None);
    p.step(Event::BufferSize(7));
    p.step(Event::BufferSize(8));
    assert_eq!(p.initial_size(), Some(7));
    assert_eq!(p.action(), Action::SetSendBuffer(20000));
}

#[test]
fn empty_range_sends_nothing() {
    let mut p = Probe::new(small_config(1));
    set_up(&mut p, 1000, 2000);
    assert_eq!(p.action(), Action::Report(0));
    let mut q = Probe::new(small_config(0));
    set_up(&mut q, 1000, 2000);
    assert_eq!(q.action(), Action::Report(0));
}

#[test]
fn standard_run_makes_199_attempts() {
    let mut p = Probe::new(ProbeConfig::standard());
    set_up(&mut p, 212992, 40000);
    assert_eq!(p.size_after_set(), Some(40000));
    let mut attempts: u32 = 0;
    while let Action::Send(n) = p.action() {
        assert_eq!(p.datagram().len(), 1316);
        assert_eq!(p.datagram()[0..4], n.to_be_bytes());
        attempts += 1;
        // a buffer of 40000 bytes holds 30 datagrams of 1316 bytes
        let o = if n > 30 && n % 2 == 0 { SendOutcome::WouldBlock } else { SendOutcome::Sent };
        p.step(Event::SendResult(o));
    }
    assert_eq!(attempts, 199);
    let tally = p.would_block_count();
    assert_eq!(tally, 84);
    assert!(tally <= 199);
    assert_eq!(p.action(), Action::Report(84));
}
