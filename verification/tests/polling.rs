use shell_scene::net::wait_for_tcp;
use shell_scene::net::Poll;
use shell_scene::net::PollAct;
use shell_scene::net::PollStep;

/// Runs a poll to its end; attempt number `i` connects if `answers(i)`.
/// Returns whether it ended ready, and everything it asked for.
fn poll_against(
    attempts: usize,
    interval_ms: u64,
    answers: &dyn Fn(usize) -> bool,
) -> (bool, Vec<PollAct>) {
    let mut acts = Vec::new();
    let mut made: usize = 0;
    let mut step = Poll::begin(9000, attempts, interval_ms);
    loop {
        assert!(acts.len() <= 2 * attempts, "a poll asks for no more than its budget");
        match step {
            PollStep::Connect(poll) => {
                assert_eq!(poll.port, 9000);
                acts.push(PollAct::Connect);
                step = wait_for_tcp(poll, answers(made));
                made += 1;
            }
            PollStep::Sleep(poll) => {
                acts.push(PollAct::Sleep(poll.interval_ms));
                step = poll.resume();
            }
            PollStep::Ready => return (true, acts),
            PollStep::GaveUp => return (false, acts),
        }
    }
}

#[test]
fn poll_begins_with_an_attempt() {
    let poll = Poll { port: 9000, attempts: 100, interval_ms: 50, made: 0 };
    assert_eq!(Poll::begin(9000, 100, 50), PollStep::Connect(poll));
}

#[test]
fn poll_without_budget_gives_up_at_once() {
    assert_eq!(Poll::begin(9000, 0, 50), PollStep::GaveUp);
    assert_eq!(poll_against(0, 50, &|_| true), (false, vec![]));
}

#[test]
fn connection_ends_the_poll() {
    let poll = Poll { port: 9000, attempts: 100, interval_ms: 50, made: 7 };
    assert_eq!(wait_for_tcp(poll, true), PollStep::Ready);
}

#[test]
fn failed_attempt_is_counted_and_followed_by_a_pause() {
    let poll = Poll { port: 9000, attempts: 100, interval_ms: 50, made: 7 };
    let after = Poll { port: 9000, attempts: 100, interval_ms: 50, made: 8 };
    assert_eq!(wait_for_tcp(poll, false), PollStep::Sleep(after));
    assert_eq!(after.resume(), PollStep::Connect(after));
}

#[test]
fn pause_after_last_attempt_is_followed_by_giving_up() {
    let poll = Poll { port: 9000, attempts: 3, interval_ms: 50, made: 2 };
    let after = Poll { port: 9000, attempts: 3, interval_ms: 50, made: 3 };
    assert_eq!(wait_for_tcp(poll, false), PollStep::Sleep(after));
    assert_eq!(after.resume(), PollStep::GaveUp);
}

#[test]
fn unreachable_target_gets_every_attempt_and_pause() {
    let (ready, acts) = poll_against(100, 50, &|_| false);
    assert!(!ready);
    assert_eq!(acts.len(), 200);
    for (i, act) in acts.iter().enumerate() {
        if i % 2 == 0 {
            assert_eq!(*act, PollAct::Connect);
        } else {
            assert_eq!(*act, PollAct::Sleep(50));
        }
    }
}

#[test]
fn small_budget_is_spent_exactly() {
    let (ready, acts) = poll_against(2, 7, &|_| false);
    assert!(!ready);
    assert_eq!(
        acts,
        vec![PollAct::Connect, PollAct::Sleep(7), PollAct::Connect, PollAct::Sleep(7)]
    );
}

#[test]
fn reachable_target_ends_the_poll_early() {
    let (ready, acts) = poll_against(100, 50, &|i| i >= 3);
    assert!(ready);
    assert_eq!(
        acts,
        vec![
            PollAct::Connect,
            PollAct::Sleep(50),
            PollAct::Connect,
            PollAct::Sleep(50),
            PollAct::Connect,
            PollAct::Sleep(50),
            PollAct::Connect
        ]
    );
}

#[test]
fn target_up_at_once_takes_one_attempt() {
    assert_eq!(poll_against(100, 50, &|_| true), (true, vec![PollAct::Connect]));
}

#[test]
fn target_up_at_last_attempt_is_still_found() {
    let (ready, acts) = poll_against(4, 50, &|i| i == 3);
    assert!(ready);
    assert_eq!(acts.len(), 7);
    assert_eq!(acts[6], PollAct::Connect);
}
