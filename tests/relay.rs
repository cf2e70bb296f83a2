use pipe_forward::relay::{Action, CopyLoop, EndReason, Failure, Phase, Relay, WriteOutcome, BUFFER_SIZE};

#[test]
fn payload_is_written_verbatim() {
    let mut d = CopyLoop::new();
    let payload = b"hello, agent!";
    assert_eq!(payload.len(), 13);
    assert_eq!(d.on_read(payload), Action::WriteAll(13));
    assert_eq!(d.phase, Phase::Writing);
    assert_eq!(d.pending, 13);
    assert_eq!(d.on_write(WriteOutcome::Written), Action::Flush);
    assert_eq!(d.on_flush(true), Action::Read);
    assert_eq!(d.on_read(&[]), Action::Stop);
    assert_eq!(d.phase, Phase::Ended(EndReason::SourceClosed));
}

#[test]
fn full_buffer_chunk() {
    let mut d = CopyLoop::new();
    let buf = vec![7u8; BUFFER_SIZE];
    assert_eq!(d.on_read(&buf), Action::WriteAll(4096));
}

#[test]
fn source_close_ends_cleanly() {
    let mut d = CopyLoop::new();
    assert_eq!(d.on_read(&[]), Action::Stop);
    assert!(d.is_ended());
}

#[test]
fn write_zero_ends_cleanly() {
    let mut d = CopyLoop::new();
    assert_eq!(d.on_read(&[1, 2, 3]), Action::WriteAll(3));
    assert_eq!(d.on_write(WriteOutcome::WriteZero), Action::Stop);
    assert_eq!(d.phase, Phase::Ended(EndReason::WriteZero));
    assert!(d.is_ended());
}

#[test]
fn failures_abort() {
    let mut d = CopyLoop::new();
    assert_eq!(d.on_read_failed(), Action::Abort(Failure::Read));
    assert!(!d.is_ended());

    let mut d = CopyLoop::new();
    d.on_read(&[1]);
    assert_eq!(d.on_write(WriteOutcome::Failed), Action::Abort(Failure::Write));
    assert!(!d.is_ended());

    let mut d = CopyLoop::new();
    d.on_read(&[1]);
    d.on_write(WriteOutcome::Written);
    assert_eq!(d.on_flush(false), Action::Abort(Failure::Flush));
    assert_eq!(d.phase, Phase::Failed(Failure::Flush));
}

#[test]
fn failure_messages() {
    assert_eq!(Failure::Read.message(), "cannot read source");
    assert_eq!(Failure::Write.message(), "cannot write target");
    assert_eq!(Failure::Flush.message(), "cannot flush target");
}

#[test]
fn relay_closes_only_when_both_directions_ended() {
    let mut r = Relay::new();
    assert!(!r.should_close());
    assert_eq!(r.to_channel.on_read(&[]), Action::Stop);
    assert!(!r.should_close());
    assert_eq!(r.to_client.on_read(&[9]), Action::WriteAll(1));
    assert!(!r.should_close());
    assert_eq!(r.to_client.on_write(WriteOutcome::WriteZero), Action::Stop);
    assert!(r.should_close());
}

#[test]
fn two_relays_stay_apart() {
    let mut a = Relay::new();
    let mut b = Relay::new();
    assert_eq!(a.to_channel.on_read(b"first"), Action::WriteAll(5));
    assert_eq!(b.to_channel.on_read(b"second stream"), Action::WriteAll(13));
    assert_eq!(a.to_channel.pending, 5);
    assert_eq!(b.to_channel.pending, 13);
    assert_eq!(a.to_channel.on_write(WriteOutcome::Written), Action::Flush);
    assert_eq!(b.to_channel.phase, Phase::Writing);
    assert_eq!(a.to_client.phase, Phase::Reading);
    assert_eq!(b.to_client.phase, Phase::Reading);
}

#[test]
fn chunks_are_written_in_order_and_in_full() {
    let mut d = CopyLoop::new();
    let chunks: [&[u8]; 3] = [b"ab", b"cde", b"f"];
    let mut written: Vec<u8> = Vec::new();
    for chunk in chunks {
        let action = d.on_read(chunk);
        assert_eq!(action, Action::WriteAll(chunk.len()));
        if let Action::WriteAll(n) = action {
            written.extend_from_slice(&chunk[..n]);
        }
        assert_eq!(d.on_write(WriteOutcome::Written), Action::Flush);
        assert_eq!(d.on_flush(true), Action::Read);
    }
    assert_eq!(d.on_read(&[]), Action::Stop);
    assert_eq!(written, b"abcdef".to_vec());
}
