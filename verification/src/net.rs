//! Free-port discovery and readiness polling, as decisions.
//!
//! Neither opens a socket. A scan names the port to try; the caller tries to
//! bind it and reports whether that worked. A poll names the next thing to
//! do, connect or sleep; the caller does it and reports back.

use vstd::prelude::*;

verus! {

/// The highest port number.
pub const MAX_PORT: u16 = 65535;

/// The local address on which ports are probed and the server is awaited.
pub const LOOPBACK: &'static str = "127.0.0.1";

/// The port at which a scan that was asked to start at `start` begins:
/// port 0 cannot be bound, so a start of 0 means 1.
pub open spec fn spec_first_port(start: u16) -> u16 {
    if start == 0 {
        1
    } else {
        start
    }
}

/// The port that is tried after `p`: the next higher one, and 1 after the
/// highest.
pub open spec fn spec_next_port(p: u16) -> u16 {
    if p == MAX_PORT {
        1
    } else {
        (p + 1) as u16
    }
}

/// A scan for a free port: where it began and which port is to be tried
/// now.
#[derive(Clone, Copy, Debug, PartialEq, Eq, Structural)]
pub struct PortScan {
    /// The port at which the scan began.
    pub first: u16,
    /// The port to try next.
    pub candidate: u16,
}

/// What a scan decides once its candidate has been tried.
#[derive(Clone, Copy, Debug, PartialEq, Eq, Structural)]
pub enum ScanStep {
    /// The candidate could be bound: this is the port.
    Found(u16),
    /// The candidate is taken: try the candidate of this scan.
    Probe(PortScan),
    /// Every port from 1 to 65535 has been tried and none could be bound.
    Exhausted,
}

impl PortScan {
    /// Neither port of a scan is port 0.
    pub open spec fn wf(self) -> bool {
        self.first >= 1 && self.candidate >= 1
    }

    /// How many ports the scan has tried and found taken.
    pub open spec fn tried(self) -> int {
        spec_scan_index(self.first, self.candidate)
    }

    /// The scan that starts at `start`.
    pub open spec fn spec_begin(start: u16) -> PortScan {
        PortScan { first: spec_first_port(start), candidate: spec_first_port(start) }
    }

    /// Begins a scan at `start`, or at port 1 where `start` is 0.
    pub fn begin(start: u16) -> (r: PortScan)
        ensures
            r == Self::spec_begin(start),
            r.wf(),
            r.tried() == 0,
    {
        let first = if start == 0 {
            1
        } else {
            start
        };
        PortScan { first, candidate: first }
    }
}

/// The position of port `p` in a scan that began at `first`: 0 for `first`
/// itself, counting upward and on from 1 after the highest port.
pub open spec fn spec_scan_index(first: u16, p: u16) -> int {
    if p >= first {
        p - first
    } else {
        p - first + MAX_PORT
    }
}

/// The port at position `k` of a scan that began at `first`.
pub open spec fn spec_port_at(first: u16, k: int) -> u16 {
    if first + k <= MAX_PORT {
        (first + k) as u16
    } else {
        (first + k - MAX_PORT) as u16
    }
}

/// The decision of a scan whose candidate was tried, `bound` telling
/// whether it could be bound.
pub open spec fn spec_find_free_port(scan: PortScan, bound: bool) -> ScanStep {
    if bound {
        ScanStep::Found(scan.candidate)
    } else if spec_next_port(scan.candidate) == scan.first {
        ScanStep::Exhausted
    } else {
        ScanStep::Probe(PortScan { first: scan.first, candidate: spec_next_port(scan.candidate) })
    }
}

/// One decision of free-port discovery. The caller has tried to bind the
/// scan's candidate on the local address and released it at once; `bound`
/// says whether that worked. A bound candidate is the result. Otherwise the
/// scan moves one port up, wraps from the highest port to 1, and gives up
/// once it is back where it began.
pub fn find_free_port(scan: PortScan, bound: bool) -> (r: ScanStep)
    ensures
        r == spec_find_free_port(scan, bound),
        scan.wf() ==> (r matches ScanStep::Probe(next) ==> next.wf() && next.first == scan.first
            && next.tried() == scan.tried() + 1),
{
    if bound {
        return ScanStep::Found(scan.candidate);
    }
    let next = if scan.candidate == MAX_PORT {
        1
    } else {
        scan.candidate + 1
    };
    if next == scan.first {
        ScanStep::Exhausted
    } else {
        ScanStep::Probe(PortScan { first: scan.first, candidate: next })
    }
}

/// What a whole scan comes to when the ports in `free`, and no others, can
/// be bound: the decisions of `find_free_port`, followed from `scan` until
/// one of them ends the scan.
pub open spec fn spec_scan_outcome(scan: PortScan, free: Set<u16>) -> Option<u16>
    decreases MAX_PORT - scan.tried(),
    when scan.wf()
{
    match spec_find_free_port(scan, free.contains(scan.candidate)) {
        ScanStep::Found(p) => Some(p),
        ScanStep::Exhausted => None,
        ScanStep::Probe(next) => spec_scan_outcome(next, free),
    }
}

/// What free-port discovery from `start` comes to when the ports in `free`,
/// and no others, can be bound.
pub open spec fn spec_discover(start: u16, free: Set<u16>) -> Option<u16> {
    spec_scan_outcome(PortScan::spec_begin(start), free)
}

/// How many ports free-port discovery tries before it ends.
pub open spec fn spec_probe_count(scan: PortScan, free: Set<u16>) -> int
    decreases MAX_PORT - scan.tried(),
    when scan.wf()
{
    match spec_find_free_port(scan, free.contains(scan.candidate)) {
        ScanStep::Found(p) => 1,
        ScanStep::Exhausted => 1,
        ScanStep::Probe(next) => 1 + spec_probe_count(next, free),
    }
}

/// The ports that a scan tries from `scan` on, in order, when the ports in
/// `free`, and no others, can be bound.
pub open spec fn spec_probes(scan: PortScan, free: Set<u16>) -> Seq<u16>
    decreases MAX_PORT - scan.tried(),
    when scan.wf()
{
    seq![scan.candidate] + (match spec_find_free_port(scan, free.contains(scan.candidate)) {
        ScanStep::Probe(next) => spec_probes(next, free),
        _ => Seq::<u16>::empty(),
    })
}

/// The ports that a scan tries are those that follow its candidate in scan
/// order, one each, as many as `spec_probe_count` says.
proof fn lemma_probes(scan: PortScan, free: Set<u16>)
    requires
        scan.wf(),
    ensures
        spec_probes(scan, free).len() == spec_probe_count(scan, free),
        forall|k: int|
            0 <= k < spec_probes(scan, free).len() ==> #[trigger] spec_probes(scan, free)[k]
                == spec_port_at(scan.first, scan.tried() + k),
    decreases MAX_PORT - scan.tried(),
{
    assert(spec_port_at(scan.first, scan.tried()) == scan.candidate);
    match spec_find_free_port(scan, free.contains(scan.candidate)) {
        ScanStep::Probe(next) => {
            lemma_probes(next, free);
            let rest = spec_probes(next, free);
            assert forall|k: int| 0 <= k < spec_probes(scan, free).len() implies #[trigger] spec_probes(
                scan,
                free,
            )[k] == spec_port_at(scan.first, scan.tried() + k) by {
                if k > 0 {
                    assert(spec_probes(scan, free)[k] == rest[k - 1]);
                }
            }
        },
        _ => {},
    }
}

/// Discovery tries the ports in scan order from its start, each once: the
/// start first, then upward and on from 1 after the highest port, and never
/// more than all 65535.
pub proof fn discovery_tries_ports_in_order(start: u16, free: Set<u16>)
    ensures
        1 <= spec_probes(PortScan::spec_begin(start), free).len() <= MAX_PORT,
        forall|k: int|
            0 <= k < spec_probes(PortScan::spec_begin(start), free).len() ==> #[trigger] spec_probes(
                PortScan::spec_begin(start),
                free,
            )[k] == spec_port_at(spec_first_port(start), k),
{
    let scan = PortScan::spec_begin(start);
    lemma_probes(scan, free);
    lemma_scan_outcome(scan, free);
}

/// From any point of a scan on: an outcome is a free port with none but
/// taken ports between the candidate and it, and there is no outcome only
/// where every port from the candidate to the end of the scan is taken.
proof fn lemma_scan_outcome(scan: PortScan, free: Set<u16>)
    requires
        scan.wf(),
    ensures
        match spec_scan_outcome(scan, free) {
            Some(q) => {
                &&& q >= 1
                &&& free.contains(q)
                &&& scan.tried() <= spec_scan_index(scan.first, q)
                &&& forall|k: int|
                    scan.tried() <= k < spec_scan_index(scan.first, q) ==> !free.contains(
                        #[trigger] spec_port_at(scan.first, k),
                    )
            },
            None => forall|k: int|
                scan.tried() <= k < MAX_PORT ==> !free.contains(
                    #[trigger] spec_port_at(scan.first, k),
                ),
        },
        1 <= spec_probe_count(scan, free) <= MAX_PORT - scan.tried(),
    decreases MAX_PORT - scan.tried(),
{
    assert(spec_port_at(scan.first, scan.tried()) == scan.candidate);
    match spec_find_free_port(scan, free.contains(scan.candidate)) {
        ScanStep::Found(p) => {},
        ScanStep::Exhausted => {
            assert(scan.tried() == MAX_PORT - 1);
        },
        ScanStep::Probe(next) => {
            assert(next.tried() == scan.tried() + 1);
            lemma_scan_outcome(next, free);
        },
    }
}

/// Discovery from any start finds a port whenever one can be bound, and
/// the port it finds is the first free one in scan order: free itself, and
/// every port between the start and it, upward and on from 1 after the
/// highest port, is taken.
pub proof fn discovery_returns_first_free(start: u16, free: Set<u16>)
    requires
        exists|p: u16| p >= 1 && free.contains(p),
    ensures
        spec_discover(start, free) matches Some(q) && q >= 1 && free.contains(q) && forall|k: int|
            0 <= k < spec_scan_index(spec_first_port(start), q) ==> !free.contains(
                #[trigger] spec_port_at(spec_first_port(start), k),
            ),
{
    let scan = PortScan::spec_begin(start);
    lemma_scan_outcome(scan, free);
    let p = choose|p: u16| p >= 1 && free.contains(p);
    assert(spec_port_at(scan.first, spec_scan_index(scan.first, p)) == p);
}

/// Discovery over a port space in which nothing can be bound ends, after
/// one try of each of the 65535 ports, without a port; and it ends without
/// a port in no other case.
pub proof fn discovery_exhausts(start: u16, free: Set<u16>)
    ensures
        spec_discover(start, free) is None <==> forall|p: u16| p >= 1 ==> !free.contains(p),
        spec_discover(start, free) is None ==> spec_probe_count(
            PortScan::spec_begin(start),
            free,
        ) == MAX_PORT,
        spec_probe_count(PortScan::spec_begin(start), free) <= MAX_PORT,
{
    let scan = PortScan::spec_begin(start);
    lemma_scan_outcome(scan, free);
    if spec_discover(start, free) is None {
        assert forall|p: u16| p >= 1 implies !free.contains(p) by {
            assert(spec_port_at(scan.first, spec_scan_index(scan.first, p)) == p);
        }
        lemma_probe_count_exhausted(scan, free);
    } else {
        let q = spec_discover(start, free)->0;
        assert(q >= 1 && free.contains(q));
    }
}

/// A scan that ends without a port has tried every port that was left.
proof fn lemma_probe_count_exhausted(scan: PortScan, free: Set<u16>)
    requires
        scan.wf(),
        spec_scan_outcome(scan, free) is None,
    ensures
        spec_probe_count(scan, free) == MAX_PORT - scan.tried(),
    decreases MAX_PORT - scan.tried(),
{
    match spec_find_free_port(scan, free.contains(scan.candidate)) {
        ScanStep::Found(p) => {},
        ScanStep::Exhausted => {
            assert(scan.tried() == MAX_PORT - 1);
        },
        ScanStep::Probe(next) => {
            assert(next.tried() == scan.tried() + 1);
            lemma_probe_count_exhausted(next, free);
        },
    }
}

/// A start of 0 and a start of 1 are the same scan: they find the same
/// port, or both none, whatever is free.
pub proof fn discovery_from_zero_is_from_one(free: Set<u16>)
    ensures
        PortScan::spec_begin(0) == PortScan::spec_begin(1),
        spec_discover(0, free) == spec_discover(1, free),
{
}

/// A readiness poll: connection attempts to a local port, a fixed number
/// of them at most, with a fixed pause after each attempt that fails.
#[derive(Clone, Copy, Debug, PartialEq, Eq, Structural)]
pub struct Poll {
    /// The local port that is polled.
    pub port: u16,
    /// How many attempts the poll may make.
    pub attempts: usize,
    /// The pause after a failed attempt, in milliseconds.
    pub interval_ms: u64,
    /// How many attempts have been made.
    pub made: usize,
}

/// What a poll asks for next, or how it ended.
#[derive(Clone, Copy, Debug, PartialEq, Eq, Structural)]
pub enum PollStep {
    /// Try to connect to the poll's port, then report to `wait_for_tcp`.
    Connect(Poll),
    /// Sleep for the poll's interval, then call `resume`.
    Sleep(Poll),
    /// An attempt connected: the target is up.
    Ready,
    /// Every attempt failed. This is no error: the caller goes on.
    GaveUp,
}

/// One thing that a poll had its caller do.
#[derive(Clone, Copy, Debug, PartialEq, Eq, Structural)]
pub enum PollAct {
    /// A connection attempt.
    Connect,
    /// A pause of so many milliseconds.
    Sleep(u64),
}

/// A step that the decisions of a poll can reach: its poll is within the
/// budget, and an attempt is asked for only while the budget lasts.
pub open spec fn spec_poll_step_wf(step: PollStep) -> bool {
    match step {
        PollStep::Connect(p) => p.wf() && p.made < p.attempts,
        PollStep::Sleep(p) => p.wf(),
        PollStep::Ready => true,
        PollStep::GaveUp => true,
    }
}

impl Poll {
    /// A poll has made no more attempts than it may.
    pub open spec fn wf(self) -> bool {
        self.made <= self.attempts
    }

    /// The first step of a poll of `port` with a budget of `attempts`.
    pub open spec fn spec_begin(port: u16, attempts: usize, interval_ms: u64) -> PollStep {
        Poll { port, attempts, interval_ms, made: 0 }.spec_resume()
    }

    /// Begins a poll: the first attempt, or nothing at all where the budget
    /// is zero.
    pub fn begin(port: u16, attempts: usize, interval_ms: u64) -> (r: PollStep)
        ensures
            r == Self::spec_begin(port, attempts, interval_ms),
            spec_poll_step_wf(r),
    {
        Poll { port, attempts, interval_ms, made: 0 }.resume()
    }

    /// The step after a pause, and the first step of all.
    pub open spec fn spec_resume(self) -> PollStep {
        if self.made >= self.attempts {
            PollStep::GaveUp
        } else {
            PollStep::Connect(self)
        }
    }

    /// The step after a pause: another attempt while the budget lasts.
    pub fn resume(self) -> (r: PollStep)
        ensures
            r == self.spec_resume(),
            self.wf() ==> spec_poll_step_wf(r),
    {
        if self.made >= self.attempts {
            PollStep::GaveUp
        } else {
            PollStep::Connect(self)
        }
    }
}

/// The step after a connection attempt, `connected` telling whether it
/// connected.
pub open spec fn spec_wait_for_tcp(poll: Poll, connected: bool) -> PollStep {
    if connected {
        PollStep::Ready
    } else if poll.made < poll.attempts {
        PollStep::Sleep(Poll { made: (poll.made + 1) as usize, ..poll })
    } else {
        PollStep::GaveUp
    }
}

/// One decision of readiness polling. The caller has tried to connect to
/// the poll's port; `connected` says whether that worked. A connection
/// ends the poll at once. A failure counts against the budget and is
/// followed by a pause, after the last attempt as after every other.
pub fn wait_for_tcp(poll: Poll, connected: bool) -> (r: PollStep)
    ensures
        r == spec_wait_for_tcp(poll, connected),
        poll.wf() ==> spec_poll_step_wf(r),
{
    if connected {
        PollStep::Ready
    } else if poll.made < poll.attempts {
        PollStep::Sleep(
            Poll {
                port: poll.port,
                attempts: poll.attempts,
                interval_ms: poll.interval_ms,
                made: poll.made + 1,
            },
        )
    } else {
        PollStep::GaveUp
    }
}

/// How much of a poll is left at a step: two for each attempt that may
/// still be made, one less during the pause that follows an attempt.
pub open spec fn spec_poll_rank(step: PollStep) -> int {
    match step {
        PollStep::Connect(p) => 2 * (p.attempts - p.made),
        PollStep::Sleep(p) => 2 * (p.attempts - p.made) + 1,
        PollStep::Ready => 0,
        PollStep::GaveUp => 0,
    }
}

/// The step that follows `step` when attempt number `i`, counted from 0,
/// connects exactly if `i` is in `up`.
pub open spec fn spec_poll_next(step: PollStep, up: Set<int>) -> PollStep {
    match step {
        PollStep::Connect(p) => spec_wait_for_tcp(p, up.contains(p.made as int)),
        PollStep::Sleep(p) => p.spec_resume(),
        PollStep::Ready => PollStep::Ready,
        PollStep::GaveUp => PollStep::GaveUp,
    }
}

/// Everything that a poll has its caller do from `step` on, in order, when
/// attempt number `i` connects exactly if `i` is in `up`.
pub open spec fn spec_poll_trace(step: PollStep, up: Set<int>) -> Seq<PollAct>
    decreases spec_poll_rank(step),
    when spec_poll_step_wf(step)
{
    match step {
        PollStep::Connect(p) => seq![PollAct::Connect] + spec_poll_trace(
            spec_poll_next(step, up),
            up,
        ),
        PollStep::Sleep(p) => seq![PollAct::Sleep(p.interval_ms)] + spec_poll_trace(
            spec_poll_next(step, up),
            up,
        ),
        PollStep::Ready => Seq::<PollAct>::empty(),
        PollStep::GaveUp => Seq::<PollAct>::empty(),
    }
}

/// Whether a poll that stands at `step` ends with a connection.
pub open spec fn spec_poll_ready(step: PollStep, up: Set<int>) -> bool
    decreases spec_poll_rank(step),
    when spec_poll_step_wf(step)
{
    match step {
        PollStep::Connect(p) => spec_poll_ready(spec_poll_next(step, up), up),
        PollStep::Sleep(p) => spec_poll_ready(spec_poll_next(step, up), up),
        PollStep::Ready => true,
        PollStep::GaveUp => false,
    }
}

/// `n` failed attempts, each followed by its pause.
pub open spec fn spec_refused_rounds(n: nat, interval_ms: u64) -> Seq<PollAct>
    decreases n,
{
    if n == 0 {
        Seq::<PollAct>::empty()
    } else {
        seq![PollAct::Connect, PollAct::Sleep(interval_ms)] + spec_refused_rounds(
            (n - 1) as nat,
            interval_ms,
        )
    }
}

/// A poll whose next `n` attempts fail spends them as `n` rounds of
/// attempt and pause, and then stands before its next attempt.
proof fn lemma_refused_rounds(p: Poll, n: nat, up: Set<int>)
    requires
        p.made + n <= p.attempts,
        forall|i: int| p.made <= i < p.made + n ==> !up.contains(i),
    ensures
        spec_poll_trace(p.spec_resume(), up) == spec_refused_rounds(n, p.interval_ms)
            + spec_poll_trace(Poll { made: (p.made + n) as usize, ..p }.spec_resume(), up),
        spec_poll_ready(p.spec_resume(), up) == spec_poll_ready(
            Poll { made: (p.made + n) as usize, ..p }.spec_resume(),
            up,
        ),
    decreases n,
{
    if n == 0 {
        assert(Poll { made: (p.made + n) as usize, ..p } == p);
        assert(spec_refused_rounds(n, p.interval_ms) + spec_poll_trace(p.spec_resume(), up)
            =~= spec_poll_trace(p.spec_resume(), up));
    } else {
        let q = Poll { made: (p.made + 1) as usize, ..p };
        let end = Poll { made: (p.made + n) as usize, ..p };
        assert(Poll { made: (q.made + (n - 1)) as usize, ..q } == end);
        lemma_refused_rounds(q, (n - 1) as nat, up);
        let first = PollStep::Connect(p);
        assert(p.spec_resume() == first);
        assert(!up.contains(p.made as int));
        let second = PollStep::Sleep(q);
        assert(spec_poll_next(first, up) == second);
        assert(spec_poll_next(second, up) == q.spec_resume());
        assert(spec_poll_trace(second, up) == seq![PollAct::Sleep(p.interval_ms)]
            + spec_poll_trace(q.spec_resume(), up));
        assert(spec_poll_trace(first, up) == seq![PollAct::Connect] + spec_poll_trace(
            second,
            up,
        ));
        assert(spec_poll_trace(first, up) =~= spec_refused_rounds(n, p.interval_ms)
            + spec_poll_trace(end.spec_resume(), up));
        assert(spec_poll_ready(first, up) == spec_poll_ready(second, up));
        assert(spec_poll_ready(second, up) == spec_poll_ready(q.spec_resume(), up));
    }
}

/// A poll of a target that never answers makes exactly the attempts of its
/// budget, pauses for the interval after each of them, and then gives up,
/// which is no error.
pub proof fn polling_unreachable_spends_budget(
    port: u16,
    attempts: usize,
    interval_ms: u64,
    up: Set<int>,
)
    requires
        forall|i: int| 0 <= i < attempts ==> !up.contains(i),
    ensures
        spec_poll_trace(Poll::spec_begin(port, attempts, interval_ms), up)
            == spec_refused_rounds(attempts as nat, interval_ms),
        !spec_poll_ready(Poll::spec_begin(port, attempts, interval_ms), up),
{
    let p = Poll { port, attempts, interval_ms, made: 0 };
    lemma_refused_rounds(p, attempts as nat, up);
    let end = Poll { made: attempts, ..p };
    assert(end.spec_resume() == PollStep::GaveUp);
    assert(spec_poll_trace(PollStep::GaveUp, up) =~= Seq::<PollAct>::empty());
    assert(spec_refused_rounds(attempts as nat, interval_ms) + Seq::<PollAct>::empty()
        =~= spec_refused_rounds(attempts as nat, interval_ms));
}

/// A poll of a target that answers attempt number `k`, within the budget,
/// and none before it, ends with that attempt: `k` failed rounds, one more
/// attempt, and no pause after it.
pub proof fn polling_reachable_returns_early(
    port: u16,
    attempts: usize,
    interval_ms: u64,
    up: Set<int>,
    k: nat,
)
    requires
        k < attempts,
        up.contains(k as int),
        forall|i: int| 0 <= i < k ==> !up.contains(i),
    ensures
        spec_poll_trace(Poll::spec_begin(port, attempts, interval_ms), up)
            == spec_refused_rounds(k, interval_ms).push(PollAct::Connect),
        spec_poll_ready(Poll::spec_begin(port, attempts, interval_ms), up),
{
    let p = Poll { port, attempts, interval_ms, made: 0 };
    lemma_refused_rounds(p, k, up);
    let at = Poll { made: k as usize, ..p };
    let last = PollStep::Connect(at);
    assert(at.spec_resume() == last);
    assert(spec_poll_next(last, up) == PollStep::Ready);
    assert(spec_poll_trace(PollStep::Ready, up) =~= Seq::<PollAct>::empty());
    assert(spec_poll_trace(last, up) =~= seq![PollAct::Connect]);
    assert(spec_refused_rounds(k, interval_ms) + seq![PollAct::Connect] =~= spec_refused_rounds(
        k,
        interval_ms,
    ).push(PollAct::Connect));
    assert(spec_poll_ready(PollStep::Ready, up));
    assert(spec_poll_ready(last, up) == spec_poll_ready(spec_poll_next(last, up), up));
}

} // verus!
