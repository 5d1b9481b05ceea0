//! The registrar: configuration, startup resolution, the discovery-probe
//! decision, target-list construction and the announce loop's per-cycle
//! decisions.
//!
//! The registrar itself owns no socket: the surrounding process binds the
//! transport, performs the sends, receives the probe reply, checks the
//! sentinel file and sleeps, all as directed by the verified decisions
//! here.

use vstd::prelude::*;
use vstd::string::*;
use crate::addr::{
    broadcast_addr,
    ipv4_addr,
    spec_broadcast_addr,
    spec_ipv4_addr,
    unwrap_ipv4,
    IfAddr,
    IpAddr,
    Ipv4Addr,
};
use crate::fqdn::{host_short_name, spec_short_name};
use crate::msg::{build_messages, spec_heartbeat_msg, spec_query_msg};

verus! {

/// The fixed UDP destination port of the caching service.
pub const CACHE_PORT: u16 = 14869;

/// The immutable configuration the registrar runs with, handed in once at
/// process start.  The time-to-live and network timeout are held as whole
/// seconds together with the time-to-live's textual rendering, which is what
/// the wire messages carry.
pub struct Options {
    /// Verbose logging requested (read only by the surrounding process).
    pub verbose: bool,
    /// Explicit broadcast address, overriding the computed one.
    pub broadcast: Option<Ipv4Addr>,
    /// The selected network interface's configured addresses.
    pub interface: Vec<IfAddr>,
    /// Host name of an additional cache to announce to, if any.
    pub addcache: Option<String>,
    /// Network timeout in seconds.
    pub timeout_secs: u64,
    /// Textual rendering of the time-to-live, as it appears on the wire.
    pub ttl_text: String,
    /// Time-to-live in whole seconds, for the cycle schedule.
    pub ttl_secs: u64,
    /// Sentinel file: when configured and gone, the loop must end.
    pub checkfile: Option<std::path::PathBuf>,
    /// Explicit identifier to register; defaults to the local FQDN.
    pub identifier: Option<String>,
    /// Explicit setup name; defaults to the FQDN's part before its first dot.
    pub setupname: Option<String>,
}

impl Options {
    /// The machine limits under which the derived millisecond values fit.
    pub open spec fn wf(&self) -> bool {
        &&& self.ttl_secs * 1000 <= u64::MAX
        &&& self.timeout_secs * 1000 <= u64::MAX
    }
}

/// The one startup failure the resolution step can report: the selected
/// interface has no IPv4 address.
#[derive(Clone, Copy, PartialEq, Eq, Structural, Debug)]
pub enum StartupError {
    NoAddressFound,
}

impl StartupError {
    /// Operator-facing description of the failure.
    pub fn message(&self) -> (r: &'static str)
        ensures
            r@ == "no IP address found for this interface"@,
    {
        "no IP address found for this interface"
    }
}

/// What startup resolution computes before the discovery probe runs: the
/// two messages, the local address and netmask, the broadcast target and
/// the transport's read timeout.
pub struct Setup {
    pub query_msg: String,
    pub heartbeat_msg: String,
    pub local_ip: Ipv4Addr,
    pub netmask: Ipv4Addr,
    pub broadcast: Ipv4Addr,
    pub timeout_ms: u64,
}

/// The identifier to register: the explicitly configured one, else the FQDN.
pub open spec fn spec_identifier(opts: Options, fqdn: Seq<char>) -> Seq<char> {
    match opts.identifier {
        Option::Some(id) => id@,
        Option::None => fqdn,
    }
}

/// The setup name to register: the explicitly configured one, else the
/// FQDN's part before its first dot.
pub open spec fn spec_setupname(opts: Options, fqdn: Seq<char>) -> Seq<char> {
    match opts.setupname {
        Option::Some(s) => s@,
        Option::None => spec_short_name(fqdn),
    }
}

/// The discovery probe's conclusion: a failed broadcast send means no reply
/// was awaited; an IPv4 reply's sender becomes the unicast target; no reply
/// within the timeout means falling back to broadcast.
pub open spec fn spec_probe_outcome(send_ok: bool, reply: Option<IpAddr>) -> Option<Ipv4Addr> {
    if send_ok {
        match reply {
            Option::Some(IpAddr::V4(ip)) => Option::Some(ip),
            _ => Option::None,
        }
    } else {
        Option::None
    }
}

/// Decide the discovery probe's outcome from what the transport observed
/// (see `spec_probe_outcome`).  A reply's sender must be IPv4: the protocol
/// is IPv4-only by design, and an IPv6 sender is a fatal condition the
/// caller must rule out.
pub fn probe_outcome(send_ok: bool, reply: Option<IpAddr>) -> (r: Option<Ipv4Addr>)
    requires
        send_ok ==> (reply matches Option::Some(a) ==> a is V4),
    ensures
        r == spec_probe_outcome(send_ok, reply),
{
    if !send_ok {
        None
    } else {
        match reply {
            Option::Some(a) => Some(unwrap_ipv4(a)),
            Option::None => None,
        }
    }
}

/// The target address list: the probed unicast address when one was found,
/// else the broadcast address, followed by the optional secondary cache
/// address.
pub open spec fn spec_targets(
    probe: Option<Ipv4Addr>,
    broadcast: Ipv4Addr,
    addcache: Option<Ipv4Addr>,
) -> Seq<Ipv4Addr> {
    (match probe {
        Option::Some(a) => seq![a],
        Option::None => seq![broadcast],
    }) + (match addcache {
        Option::Some(a) => seq![a],
        Option::None => Seq::empty(),
    })
}

/// Law: the probed unicast address, when present, is the sole primary
/// target and the broadcast address is not added beside it; without a probe
/// reply the broadcast address is the primary target.  The optional
/// secondary cache address is the only other entry.
pub proof fn lemma_probe_primary(
    probe: Option<Ipv4Addr>,
    broadcast: Ipv4Addr,
    addcache: Option<Ipv4Addr>,
)
    ensures
        match probe {
            Option::Some(a) => spec_targets(probe, broadcast, addcache)[0] == a,
            Option::None => spec_targets(probe, broadcast, addcache)[0] == broadcast,
        },
        spec_targets(probe, broadcast, addcache).len() == 1 + (if addcache is Some {
            1int
        } else {
            0int
        }),
{
}

/// The per-cycle sleep in milliseconds: `max(2000, ttl * 1000) - 2000`,
/// saturating at zero.
pub open spec fn spec_sleep_ms(ttl_secs: u64) -> int {
    if ttl_secs * 1000 <= 2000 {
        0
    } else {
        ttl_secs * 1000 - 2000
    }
}

/// Compute the per-cycle sleep: the resend is scheduled roughly the
/// time-to-live apart, with a two-second headroom and never a negative wait.
pub fn sleep_interval_ms(ttl_secs: u64) -> (r: u64)
    requires
        ttl_secs * 1000 <= u64::MAX,
    ensures
        r == spec_sleep_ms(ttl_secs),
        r == vstd::math::max(2000, ttl_secs * 1000) - 2000,
{
    let ttl_ms = ttl_secs * 1000;
    if ttl_ms <= 2000 {
        0
    } else {
        ttl_ms - 2000
    }
}

/// One cycle's decision: end the loop, or send the heartbeat to every
/// target and then sleep for the given interval.
#[derive(Clone, Copy, PartialEq, Eq, Structural, Debug)]
pub enum CycleAction {
    Terminate,
    Announce { sleep_ms: u64 },
}

/// The registrar: the configuration, the heartbeat message sent each cycle
/// and the target addresses it is sent to.  All three are fixed for the
/// process lifetime.
pub struct Registrar {
    pub opts: Options,
    pub msg: String,
    pub addrs: Vec<Ipv4Addr>,
}

/// The payload bytes a cycle sends: the heartbeat message, a function of
/// the registrar value alone.
pub open spec fn cycle_payload(r: Registrar) -> Seq<char> {
    r.msg@
}

/// The addresses a cycle sends to, a function of the registrar value alone.
pub open spec fn cycle_targets(r: Registrar) -> Seq<Ipv4Addr> {
    r.addrs@
}

/// What a cycle decides: terminate when a sentinel is configured and has
/// disappeared, else announce and sleep.
pub open spec fn spec_step(r: Registrar, sentinel_exists: bool) -> CycleAction {
    if r.opts.checkfile is Some && !sentinel_exists {
        CycleAction::Terminate
    } else {
        CycleAction::Announce { sleep_ms: spec_sleep_ms(r.opts.ttl_secs) as u64 }
    }
}

impl Registrar {
    /// A registrar is well formed when its configuration respects the
    /// machine limits and at least one target address is set.
    pub open spec fn wf(&self) -> bool {
        &&& self.opts.wf()
        &&& self.addrs@.len() >= 1
    }

    /// Build the query and heartbeat messages for this configuration,
    /// defaulting the identifier to the local FQDN and the setup name to
    /// the FQDN's part before its first dot.
    pub fn registration_msgs(opts: &Options, fqdn: &str) -> (r: (String, String))
        ensures
            r.0@ == spec_query_msg(opts.ttl_text@, spec_identifier(*opts, fqdn@), spec_setupname(*opts, fqdn@)),
            r.1@ == spec_heartbeat_msg(opts.ttl_text@, spec_identifier(*opts, fqdn@), spec_setupname(*opts, fqdn@)),
    {
        let identifier: String = match &opts.identifier {
            Option::Some(id) => id.clone(),
            Option::None => String::from_str(fqdn),
        };
        let setupname: String = match &opts.setupname {
            Option::Some(s) => s.clone(),
            Option::None => host_short_name(fqdn),
        };
        build_messages(opts.ttl_text.as_str(), identifier.as_str(), setupname.as_str())
    }

    /// Startup resolution, up to the discovery probe: build both messages,
    /// find the interface's IPv4 address and netmask (failing otherwise)
    /// and compute the broadcast target and the transport's read timeout.
    pub fn prepare(opts: &Options, fqdn: &str) -> (r: Result<Setup, StartupError>)
        requires
            opts.wf(),
        ensures
            (r is Ok) <==> spec_ipv4_addr(opts.interface@) is Some,
            match r {
                Result::Ok(setup) => {
                    &&& spec_ipv4_addr(opts.interface@) == Option::Some(
                        (setup.local_ip, setup.netmask),
                    )
                    &&& setup.broadcast == spec_broadcast_addr(
                        opts.broadcast,
                        setup.local_ip,
                        setup.netmask,
                    )
                    &&& setup.query_msg@ == spec_query_msg(
                        opts.ttl_text@,
                        spec_identifier(*opts, fqdn@),
                        spec_setupname(*opts, fqdn@),
                    )
                    &&& setup.heartbeat_msg@ == spec_heartbeat_msg(
                        opts.ttl_text@,
                        spec_identifier(*opts, fqdn@),
                        spec_setupname(*opts, fqdn@),
                    )
                    &&& setup.timeout_ms == opts.timeout_secs * 1000
                },
                Result::Err(e) => e == StartupError::NoAddressFound,
            },
    {
        let (query_msg, heartbeat_msg) = Self::registration_msgs(opts, fqdn);
        match ipv4_addr(&opts.interface) {
            Option::None => Err(StartupError::NoAddressFound),
            Option::Some((ip, mask)) => {
                let broadcast = broadcast_addr(opts.broadcast, ip, mask);
                Ok(
                    Setup {
                        query_msg,
                        heartbeat_msg,
                        local_ip: ip,
                        netmask: mask,
                        broadcast,
                        timeout_ms: opts.timeout_secs * 1000,
                    },
                )
            }
        }
    }

    /// Assemble the registrar from the resolved setup, the discovery
    /// probe's outcome and the optionally resolved secondary cache address.
    /// The target list is never empty.
    pub fn new(
        opts: Options,
        setup: Setup,
        probe_result: Option<Ipv4Addr>,
        addcache_addr: Option<Ipv4Addr>,
    ) -> (r: Registrar)
        requires
            opts.wf(),
        ensures
            r.opts == opts,
            r.msg == setup.heartbeat_msg,
            r.addrs@ == spec_targets(probe_result, setup.broadcast, addcache_addr),
            r.wf(),
    {
        let mut addrs: Vec<Ipv4Addr> = Vec::new();
        match probe_result {
            Option::Some(a) => addrs.push(a),
            Option::None => addrs.push(setup.broadcast),
        }
        match addcache_addr {
            Option::Some(a) => addrs.push(a),
            Option::None => (),
        }
        proof {
            assert(addrs@ =~= spec_targets(probe_result, setup.broadcast, addcache_addr));
        }
        Registrar { opts, msg: setup.heartbeat_msg, addrs }
    }

    /// One cycle's decision: terminate when the configured sentinel has
    /// disappeared; otherwise announce, then sleep for the computed
    /// interval.
    pub fn run_step(&self, sentinel_exists: bool) -> (r: CycleAction)
        requires
            self.opts.wf(),
        ensures
            r == spec_step(*self, sentinel_exists),
    {
        if self.opts.checkfile.is_some() && !sentinel_exists {
            CycleAction::Terminate
        } else {
            CycleAction::Announce { sleep_ms: sleep_interval_ms(self.opts.ttl_secs) }
        }
    }

    /// The addresses each cycle sends to.
    pub fn targets(&self) -> (r: &Vec<Ipv4Addr>)
        ensures
            r@ == cycle_targets(*self),
    {
        &self.addrs
    }

    /// The heartbeat payload each cycle sends.
    pub fn message(&self) -> (r: &String)
        ensures
            r@ == cycle_payload(*self),
    {
        &self.msg
    }
}

/// Law: a configured sentinel that has disappeared ends the loop at the
/// next cycle boundary, before any further send.
pub proof fn lemma_sentinel_terminates(r: Registrar)
    requires
        r.opts.checkfile is Some,
    ensures
        spec_step(r, false) is Terminate,
{
}

/// Law: with an unchanged registrar every announcing cycle is identical —
/// the decision, the payload bytes and the target list are functions of the
/// registrar value alone, so two consecutive cycles send byte-identical
/// payloads to the same addresses.
pub proof fn lemma_cycles_idempotent(r: Registrar, s1: bool, s2: bool)
    requires
        spec_step(r, s1) is Announce,
        spec_step(r, s2) is Announce,
    ensures
        spec_step(r, s1) == spec_step(r, s2),
{
}

} // verus!
