use vstd::prelude::*;
use crate::config::ServerConfig;
use crate::device::{
    addr_argv, argv, forwarding_argv, link_argv, route_argv, DeviceCommand, TunDevice,
};
use crate::error::Error;
use crate::peer::{current_timestamp, fresh_peer_of, status_changed, Peer, PeerStatus};

verus! {

/// Aggregate counters over all peers, computed on demand.
#[derive(Debug, Clone, Copy, PartialEq, Eq, Structural)]
pub struct ServerStats {
    pub total_peers: usize,
    pub connected_peers: usize,
    pub total_bytes_received: u64,
    pub total_bytes_sent: u64,
}

pub open spec fn received_sum(peers: Seq<Peer>) -> int
    decreases peers.len(),
{
    if peers.len() == 0 {
        0
    } else {
        received_sum(peers.drop_last()) + peers.last().bytes_received
    }
}

pub open spec fn sent_sum(peers: Seq<Peer>) -> int
    decreases peers.len(),
{
    if peers.len() == 0 {
        0
    } else {
        sent_sum(peers.drop_last()) + peers.last().bytes_sent
    }
}

pub open spec fn connected_count(peers: Seq<Peer>) -> int
    decreases peers.len(),
{
    if peers.len() == 0 {
        0
    } else {
        connected_count(peers.drop_last()) + (if peers.last().status == PeerStatus::Connected {
            1int
        } else {
            0int
        })
    }
}

proof fn lemma_sums_nonneg(peers: Seq<Peer>)
    ensures
        received_sum(peers) >= 0,
        sent_sum(peers) >= 0,
    decreases peers.len(),
{
    if peers.len() > 0 {
        lemma_sums_nonneg(peers.drop_last());
    }
}

/// `x`, or `u64::MAX` where it does not fit.
pub open spec fn saturated(x: int) -> u64 {
    if x > u64::MAX {
        u64::MAX
    } else {
        x as u64
    }
}

/// The statistics of a registry; byte totals saturate at `u64::MAX`.
pub open spec fn stats_of(peers: Seq<Peer>) -> ServerStats {
    ServerStats {
        total_peers: peers.len() as usize,
        connected_peers: connected_count(peers) as usize,
        total_bytes_received: saturated(received_sum(peers)),
        total_bytes_sent: saturated(sent_sum(peers)),
    }
}

/// Some peer in `peers` has the public key `key`.
pub open spec fn has_key(peers: Seq<Peer>, key: Seq<char>) -> bool {
    exists|i: int| 0 <= i < peers.len() && (#[trigger] peers[i]).public_key@ == key
}

/// `i` is the first peer with the public key `key`.
pub open spec fn first_with_key(peers: Seq<Peer>, key: Seq<char>, i: int) -> bool {
    &&& 0 <= i < peers.len()
    &&& peers[i].public_key@ == key
    &&& forall|j: int| 0 <= j < i ==> (#[trigger] peers[j]).public_key@ != key
}

/// A status update of the peer with key `key` at time `now`: the first peer with
/// that key changes and no other; with no such peer nothing changes and the
/// update fails with a not-found error that names the key.
pub open spec fn status_update(
    before: Seq<Peer>,
    after: Seq<Peer>,
    key: Seq<char>,
    status: PeerStatus,
    now: u64,
    r: Result<(), Error>,
) -> bool {
    if has_key(before, key) {
        &&& r is Ok
        &&& after.len() == before.len()
        &&& exists|i: int|
            #![trigger before[i]]
            first_with_key(before, key, i) && status_changed(before[i], after[i], status, now)
                && forall|j: int| 0 <= j < before.len() && j != i ==> after[j] == before[j]
    } else {
        &&& r matches Err(Error::NotFound(m)) && m@ == "Peer not found: "@ + key
        &&& after == before
    }
}

/// The commands that bring the device up: address, link, forwarding, then one
/// route per peer in registry order.
pub open spec fn start_plan(device: TunDevice, peers: Seq<Peer>) -> Seq<Seq<Seq<char>>> {
    seq![
        addr_argv("add"@, device.address@, device.name@),
        link_argv(device.name@, "up"@),
        forwarding_argv("1"@),
    ] + peers.map_values(|p: Peer| route_argv("add"@, p.allowed_ips@, device.name@))
}

/// The commands that tear the device down: one route removal per peer in
/// registry order, then link down, then address removal.
pub open spec fn stop_plan(device: TunDevice, peers: Seq<Peer>) -> Seq<Seq<Seq<char>>> {
    peers.map_values(|p: Peer| route_argv("del"@, p.allowed_ips@, device.name@)) + seq![
        link_argv(device.name@, "down"@),
        addr_argv("del"@, device.address@, device.name@),
    ]
}

pub open spec fn plan_of(steps: Seq<DeviceCommand>) -> Seq<Seq<Seq<char>>> {
    steps.map_values(|c: DeviceCommand| argv(c))
}

/// A sequence of device commands run one at a time by the caller, who reports
/// each outcome back. A fail-fast run stops at the first failure and ends with
/// its error; a best-effort run goes through every step, keeps the failures as
/// warnings and ends successfully.
#[derive(Debug)]
pub struct DeviceRun {
    pub steps: Vec<DeviceCommand>,
    pub position: usize,
    pub best_effort: bool,
    pub failure: Option<Error>,
    pub warnings: Vec<Error>,
}

impl DeviceRun {
    pub open spec fn wf(&self) -> bool {
        &&& self.position <= self.steps@.len()
        &&& self.best_effort ==> self.failure is None
        &&& !self.best_effort ==> self.warnings@.len() == 0
    }

    /// Another command is due.
    pub open spec fn pending(&self) -> bool {
        self.failure is None && self.position < self.steps@.len()
    }

    /// What the run ends with.
    pub open spec fn result(&self) -> Result<(), Error> {
        match self.failure {
            Some(e) => Err(e),
            None => Ok(()),
        }
    }

    /// `after` is `before` with the outcome of its next command recorded.
    pub open spec fn recorded(before: DeviceRun, after: DeviceRun, outcome: Result<(), Error>) -> bool {
        &&& plan_of(after.steps@) == plan_of(before.steps@)
        &&& after.steps@.len() == before.steps@.len()
        &&& after.position == before.position + 1
        &&& after.best_effort == before.best_effort
        &&& match outcome {
            Ok(()) => after.failure == before.failure && after.warnings@ == before.warnings@,
            Err(e) => if before.best_effort {
                after.failure == before.failure && after.warnings@ == before.warnings@.push(e)
            } else {
                after.failure == Some(e) && after.warnings@ == before.warnings@
            },
        }
    }

    fn fresh(steps: Vec<DeviceCommand>, best_effort: bool) -> (r: DeviceRun)
        ensures
            r.wf(),
            r.steps@ == steps@,
            r.position == 0,
            r.best_effort == best_effort,
            r.failure is None,
            r.warnings@.len() == 0,
    {
        DeviceRun { steps, position: 0, best_effort, failure: None, warnings: Vec::new() }
    }

    /// The command due next, if any.
    pub fn next_command(&self) -> (r: Option<DeviceCommand>)
        requires
            self.wf(),
        ensures
            r is Some <==> self.pending(),
            r matches Some(c) ==> argv(c) == argv(self.steps@[self.position as int]),
    {
        if self.failure.is_none() && self.position < self.steps.len() {
            Some(self.steps[self.position].duplicate())
        } else {
            None
        }
    }

    /// Records how the command due next ended.
    pub fn record(&mut self, outcome: Result<(), Error>)
        requires
            old(self).wf(),
            old(self).pending(),
        ensures
            final(self).wf(),
            DeviceRun::recorded(*old(self), *final(self), outcome),
    {
        let n = self.steps.len();
        assert(self.position < n);
        self.position = self.position + 1;
        match outcome {
            Ok(()) => {},
            Err(e) => {
                if self.best_effort {
                    self.warnings.push(e);
                } else {
                    self.failure = Some(e);
                }
            },
        }
    }

    /// The run's result: the failure of a fail-fast run, else success.
    pub fn finish(self) -> (r: Result<(), Error>)
        ensures
            r == self.result(),
    {
        match self.failure {
            Some(e) => Err(e),
            None => Ok(()),
        }
    }
}

/// `runs` is a run from its fresh state, each state after the first being the
/// one before with the corresponding outcome recorded.
pub open spec fn is_trace(runs: Seq<DeviceRun>, outcomes: Seq<Result<(), Error>>) -> bool {
    &&& runs.len() == outcomes.len() + 1
    &&& runs[0].wf()
    &&& runs[0].position == 0
    &&& runs[0].failure is None
    &&& forall|k: int|
        0 <= k < outcomes.len() ==> #[trigger] runs[k].pending() && DeviceRun::recorded(
            runs[k],
            runs[k + 1],
            outcomes[k],
        )
}

proof fn lemma_trace_positions(runs: Seq<DeviceRun>, outcomes: Seq<Result<(), Error>>, k: int)
    requires
        is_trace(runs, outcomes),
        0 <= k < runs.len(),
    ensures
        runs[k].position == k,
        runs[k].best_effort == runs[0].best_effort,
        plan_of(runs[k].steps@) == plan_of(runs[0].steps@),
        runs[k].steps@.len() == runs[0].steps@.len(),
        runs[k].wf(),
    decreases k,
{
    if k > 0 {
        lemma_trace_positions(runs, outcomes, k - 1);
        assert(runs[k - 1].pending());
    }
}

proof fn lemma_fail_fast_clean_prefix(
    runs: Seq<DeviceRun>,
    outcomes: Seq<Result<(), Error>>,
    k: int,
)
    requires
        is_trace(runs, outcomes),
        !runs[0].best_effort,
        0 <= k < runs.len(),
        forall|i: int| 0 <= i < k ==> (#[trigger] outcomes[i]) is Ok,
    ensures
        runs[k].failure is None,
    decreases k,
{
    if k > 0 {
        lemma_fail_fast_clean_prefix(runs, outcomes, k - 1);
        lemma_trace_positions(runs, outcomes, k - 1);
        assert(runs[k - 1].pending());
        assert(outcomes[k - 1] is Ok);
    }
}

/// A fail-fast run issues its plan in order, one command per step; once a step
/// fails no further command is issued, and the run ends with that step's error.
pub proof fn lemma_fail_fast_run(
    runs: Seq<DeviceRun>,
    outcomes: Seq<Result<(), Error>>,
    failed: int,
)
    requires
        is_trace(runs, outcomes),
        !runs[0].best_effort,
        0 <= failed < outcomes.len(),
        outcomes[failed] is Err,
        forall|i: int| 0 <= i < failed ==> (#[trigger] outcomes[i]) is Ok,
    ensures
        outcomes.len() == failed + 1,
        forall|k: int| 0 <= k < runs.len() ==> (#[trigger] runs[k]).position == k,
        !runs.last().pending(),
        runs.last().result() == outcomes[failed],
{
    assert forall|k: int| 0 <= k < runs.len() implies (#[trigger] runs[k]).position == k by {
        lemma_trace_positions(runs, outcomes, k);
    }
    lemma_fail_fast_clean_prefix(runs, outcomes, failed);
    lemma_trace_positions(runs, outcomes, failed);
    assert(runs[failed].pending());
    assert(runs[failed + 1].failure == Some(outcomes[failed]->Err_0));
    if outcomes.len() > failed + 1 {
        assert(runs[failed + 1].pending());
    }
}

/// A best-effort run issues its plan in order, one command per step, whatever
/// the outcomes: until every step has been issued another one is due, and the
/// run ends successfully.
pub proof fn lemma_best_effort_run(runs: Seq<DeviceRun>, outcomes: Seq<Result<(), Error>>)
    requires
        is_trace(runs, outcomes),
        runs[0].best_effort,
    ensures
        forall|k: int| 0 <= k < runs.len() ==> (#[trigger] runs[k]).position == k,
        runs.last().pending() <==> outcomes.len() < runs[0].steps@.len(),
        runs.last().result() == Ok::<(), Error>(()),
{
    assert forall|k: int| 0 <= k < runs.len() implies (#[trigger] runs[k]).position == k by {
        lemma_trace_positions(runs, outcomes, k);
    }
    lemma_trace_positions(runs, outcomes, outcomes.len() as int);
}

/// The server: its configuration, the registry of peers and the device handle.
#[derive(Debug)]
pub struct VpnServer {
    pub config: ServerConfig,
    pub peers: Vec<Peer>,
    pub device: TunDevice,
}

impl VpnServer {
    /// Builds the server: one fresh peer per configured peer, in order.
    pub fn new(config: ServerConfig) -> (r: Result<VpnServer, Error>)
        ensures
            r matches Ok(s) && s.config == config && s.device.name@ == config.interface.name@
                && s.device.address@ == config.interface.address@ && s.peers@.len()
                == config.peers@.len() && forall|i: int|
                0 <= i < config.peers@.len() ==> fresh_peer_of(
                    #[trigger] s.peers@[i],
                    config.peers@[i],
                ),
    {
        let device = TunDevice::new(config.interface.name.as_str(), config.interface.address.as_str());
        let mut peers: Vec<Peer> = Vec::new();
        let mut i: usize = 0;
        while i < config.peers.len()
            invariant
                i <= config.peers@.len(),
                peers@.len() == i,
                forall|j: int| 0 <= j < i ==> fresh_peer_of(#[trigger] peers@[j], config.peers@[j]),
            decreases config.peers@.len() - i,
        {
            match Peer::from_config(config.peers[i].duplicate()) {
                Ok(peer) => peers.push(peer),
                Err(e) => return Err(e),
            }
            i = i + 1;
        }
        Ok(VpnServer { config, peers, device })
    }

    /// A copy of the registry, in order.
    pub fn get_peers(&self) -> (r: Vec<Peer>)
        ensures
            r@ == self.peers@,
    {
        let mut out: Vec<Peer> = Vec::new();
        let mut i: usize = 0;
        while i < self.peers.len()
            invariant
                i <= self.peers@.len(),
                out@ == self.peers@.take(i as int),
            decreases self.peers@.len() - i,
        {
            out.push(self.peers[i].duplicate());
            assert(out@ =~= self.peers@.take(i + 1));
            i = i + 1;
        }
        assert(out@ =~= self.peers@);
        out
    }

    /// Sets the status of the peer with key `public_key` as of the unix second `now`.
    pub fn update_peer_status_at(&mut self, public_key: &str, status: PeerStatus, now: u64) -> (r:
        Result<(), Error>)
        ensures
            status_update(old(self).peers@, final(self).peers@, public_key@, status, now, r),
            final(self).config == old(self).config,
            final(self).device == old(self).device,
    {
        let key = public_key.to_owned();
        let mut i: usize = 0;
        while i < self.peers.len()
            invariant
                i <= self.peers@.len(),
                key@ == public_key@,
                self.peers@ == old(self).peers@,
                self.config == old(self).config,
                self.device == old(self).device,
                forall|j: int| 0 <= j < i ==> (#[trigger] self.peers@[j]).public_key@ != key@,
            decreases self.peers@.len() - i,
        {
            if self.peers[i].public_key == key {
                let ghost before = self.peers@;
                let mut peer = self.peers[i].duplicate();
                peer.set_status_at(status, now);
                self.peers[i] = peer;
                proof {
                    assert(self.peers@ == before.update(i as int, peer));
                    assert(first_with_key(before, key@, i as int));
                    assert(status_changed(before[i as int], self.peers@[i as int], status, now));
                    assert(has_key(before, public_key@));
                }
                return Ok(());
            }
            i = i + 1;
        }
        assert(!has_key(self.peers@, public_key@));
        let mut message = "Peer not found: ".to_owned();
        message.append(public_key);
        Err(Error::NotFound(message))
    }

    /// Sets the status of the peer with key `public_key`, stamping the current time.
    pub fn update_peer_status(&mut self, public_key: &str, status: PeerStatus) -> (r: Result<(), Error>)
        ensures
            exists|now: u64|
                status_update(old(self).peers@, final(self).peers@, public_key@, status, now, r),
            final(self).config == old(self).config,
            final(self).device == old(self).device,
    {
        let now = current_timestamp();
        self.update_peer_status_at(public_key, status, now)
    }

    /// Totals over the current registry.
    pub fn get_stats(&self) -> (r: ServerStats)
        ensures
            r == stats_of(self.peers@),
    {
        let mut received: u64 = 0;
        let mut sent: u64 = 0;
        let mut connected: usize = 0;
        let mut i: usize = 0;
        while i < self.peers.len()
            invariant
                i <= self.peers@.len(),
                received == saturated(received_sum(self.peers@.take(i as int))),
                sent == saturated(sent_sum(self.peers@.take(i as int))),
                connected as int == connected_count(self.peers@.take(i as int)),
                connected <= i,
            decreases self.peers@.len() - i,
        {
            let p = &self.peers[i];
            assert(self.peers@.take(i + 1).drop_last() =~= self.peers@.take(i as int));
            assert(self.peers@.take(i + 1).last() == self.peers@[i as int]);
            proof {
                lemma_sums_nonneg(self.peers@.take(i as int));
            }
            received = received.saturating_add(p.bytes_received);
            sent = sent.saturating_add(p.bytes_sent);
            if p.status == PeerStatus::Connected {
                connected = connected + 1;
            }
            i = i + 1;
        }
        assert(self.peers@.take(i as int) =~= self.peers@);
        ServerStats {
            total_peers: self.peers.len(),
            connected_peers: connected,
            total_bytes_received: received,
            total_bytes_sent: sent,
        }
    }

    /// The fail-fast run that configures the device for this server.
    pub fn start_run(&self) -> (r: DeviceRun)
        ensures
            r.wf(),
            !r.best_effort,
            r.position == 0,
            r.failure is None,
            plan_of(r.steps@) == start_plan(self.device, self.peers@),
    {
        let mut steps: Vec<DeviceCommand> = Vec::new();
        steps.push(self.device.set_address());
        steps.push(self.device.up());
        steps.push(TunDevice::enable_forwarding());
        let ghost head = plan_of(steps@);
        let ghost routes = self.peers@.map_values(
            |p: Peer| route_argv("add"@, p.allowed_ips@, self.device.name@),
        );
        let mut i: usize = 0;
        while i < self.peers.len()
            invariant
                i <= self.peers@.len(),
                routes == self.peers@.map_values(
                    |p: Peer| route_argv("add"@, p.allowed_ips@, self.device.name@),
                ),
                head == seq![
                    addr_argv("add"@, self.device.address@, self.device.name@),
                    link_argv(self.device.name@, "up"@),
                    forwarding_argv("1"@),
                ],
                plan_of(steps@) == head + routes.take(i as int),
            decreases self.peers@.len() - i,
        {
            let cmd = self.device.add_route(self.peers[i].allowed_ips.as_str());
            assert(argv(cmd) == routes[i as int]);
            let ghost prev = steps@;
            steps.push(cmd);
            assert(plan_of(steps@) =~= plan_of(prev).push(argv(cmd)));
            assert(plan_of(steps@) =~= head + routes.take(i + 1));
            i = i + 1;
        }
        assert(routes.take(i as int) =~= routes);
        DeviceRun::fresh(steps, false)
    }

    /// The best-effort run that tears the device down for this server.
    pub fn stop_run(&self) -> (r: DeviceRun)
        ensures
            r.wf(),
            r.best_effort,
            r.position == 0,
            r.failure is None,
            r.warnings@.len() == 0,
            plan_of(r.steps@) == stop_plan(self.device, self.peers@),
    {
        let mut steps: Vec<DeviceCommand> = Vec::new();
        let ghost routes = self.peers@.map_values(
            |p: Peer| route_argv("del"@, p.allowed_ips@, self.device.name@),
        );
        let mut i: usize = 0;
        assert(plan_of(steps@) =~= routes.take(0));
        while i < self.peers.len()
            invariant
                i <= self.peers@.len(),
                routes == self.peers@.map_values(
                    |p: Peer| route_argv("del"@, p.allowed_ips@, self.device.name@),
                ),
                plan_of(steps@) == routes.take(i as int),
            decreases self.peers@.len() - i,
        {
            let cmd = self.device.remove_route(self.peers[i].allowed_ips.as_str());
            assert(argv(cmd) == routes[i as int]);
            let ghost prev = steps@;
            steps.push(cmd);
            assert(plan_of(steps@) =~= plan_of(prev).push(argv(cmd)));
            assert(plan_of(steps@) =~= routes.take(i + 1));
            i = i + 1;
        }
        assert(routes.take(i as int) =~= routes);
        steps.push(self.device.down());
        steps.push(self.device.remove_address());
        assert(plan_of(steps@) =~= stop_plan(self.device, self.peers@));
        DeviceRun::fresh(steps, true)
    }
}

} // verus!
