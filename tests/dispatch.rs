use pipe_forward::admission::{Network, PeerAddr};
use pipe_forward::dispatch::{on_accepted, AcceptLoop, Dispatch, LoopAction, RaceOutcome};

#[test]
fn scenario_admission_network() {
    let policy = Network::v4(0x0a00_0000, 8);
    assert_eq!(on_accepted(PeerAddr::V4(0xc0a8_0105), &policy), Dispatch::DropConnection);
    assert_eq!(on_accepted(PeerAddr::V4(0x0a01_0203), &policy), Dispatch::OpenChannel);
}

#[test]
fn no_policy_opens_channel() {
    assert_eq!(on_accepted(PeerAddr::V4(0xc0a8_0105), &None), Dispatch::OpenChannel);
}

#[test]
fn loop_races_until_interrupt() {
    let mut l = AcceptLoop::new();
    assert_eq!(l.on_race(RaceOutcome::Dispatched), LoopAction::RaceAgain);
    assert_eq!(l.on_race(RaceOutcome::Dispatched), LoopAction::RaceAgain);
    assert_eq!(l.on_race(RaceOutcome::Interrupted), LoopAction::Exit);
    assert!(l.stopped);
    assert_eq!(l.on_race(RaceOutcome::Dispatched), LoopAction::Exit);
}
