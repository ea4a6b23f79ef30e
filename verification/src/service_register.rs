//! The server side of service discovery: the registrar's policy handling,
//! the UDP probe responder's wire logic, the cancellation race between an
//! expiry timer and an explicit stop, and the bounded retry on record
//! de-registration. The sockets and the multicast-DNS daemon live with the
//! embedding program; every decision they act on is taken here.

use vstd::prelude::*;

use crate::text::dec_digits;
use crate::text::spec_dec_digits;
use crate::tray::Discovery;

verus! {

/// The well-known UDP port the probe responder listens on.
pub const LISTEN_PORT: u16 = 31280;

/// "DISCOVER_VOLUMIZE": the fixed probe payload.
pub open spec fn spec_discovery_msg() -> Seq<u8> {
    seq![68u8, 73, 83, 67, 79, 86, 69, 82, 95, 86, 79, 76, 85, 77, 73, 90, 69]
}

/// The fixed probe payload, as bytes.
pub fn discovery_msg() -> (r: Vec<u8>)
    ensures
        r@ == spec_discovery_msg(),
{
    let r: Vec<u8> = vec![68u8, 73, 83, 67, 79, 86, 69, 82, 95, 86, 79, 76, 85, 77, 73, 90, 69];
    proof {
        assert(r@ =~= spec_discovery_msg());
    }
    r
}

/// "_volume-service._tcp.local.": the fixed service domain.
pub open spec fn spec_mdns_domain() -> Seq<u8> {
    seq![
        95u8,
        118,
        111,
        108,
        117,
        109,
        101,
        45,
        115,
        101,
        114,
        118,
        105,
        99,
        101,
        46,
        95,
        116,
        99,
        112,
        46,
        108,
        111,
        99,
        97,
        108,
        46,
    ]
}

/// The fixed service domain, as bytes.
pub fn mdns_domain() -> (r: Vec<u8>)
    ensures
        r@ == spec_mdns_domain(),
{
    let r: Vec<u8> = vec![
        95u8,
        118,
        111,
        108,
        117,
        109,
        101,
        45,
        115,
        101,
        114,
        118,
        105,
        99,
        101,
        46,
        95,
        116,
        99,
        112,
        46,
        108,
        111,
        99,
        97,
        108,
        46,
    ];
    proof {
        assert(r@ =~= spec_mdns_domain());
    }
    r
}

/// "volumize": the fixed instance name.
pub open spec fn spec_mdns_instance_name() -> Seq<u8> {
    seq![118u8, 111, 108, 117, 109, 105, 122, 101]
}

/// The fixed instance name, as bytes.
pub fn mdns_instance_name() -> (r: Vec<u8>)
    ensures
        r@ == spec_mdns_instance_name(),
{
    let r: Vec<u8> = vec![118u8, 111, 108, 117, 109, 105, 122, 101];
    proof {
        assert(r@ =~= spec_mdns_instance_name());
    }
    r
}

/// "SERVER:<port>": the reply a responder owes to a probe.
pub open spec fn spec_server_reply(port: u16) -> Seq<u8> {
    seq![83u8, 69, 82, 86, 69, 82, 58] + spec_dec_digits(port as nat)
}

/// What the UDP responder answers to one datagram: exactly the fixed probe
/// payload earns `SERVER:<port>`; anything else is ignored.
pub fn respond_probe(payload: &[u8], port: u16) -> (r: Option<Vec<u8>>)
    ensures
        (payload@ == spec_discovery_msg() ==> (r matches Some(reply) && reply@
            == spec_server_reply(port))),
        (payload@ != spec_discovery_msg() ==> r is None),
{
    let probe = discovery_msg();
    if crate::text::bytes_eq(payload, probe.as_slice()) {
        let mut reply: Vec<u8> = vec![83u8, 69, 82, 86, 69, 82, 58];
        proof {
            assert(reply@ =~= seq![83u8, 69, 82, 86, 69, 82, 58]);
        }
        let digits = dec_digits(port as u64);
        crate::text::push_bytes(&mut reply, digits.as_slice());
        Some(reply)
    } else {
        None
    }
}

/// What applying a policy does to the registrar slot.
pub enum RegisterAction {
    /// Stop and clear any running registration, then return at once.
    Stop,
    /// Tear the previous registration down, start a fresh one, and — when a
    /// duration is given — arm a timer that cancels it after that many
    /// seconds unless something else cancelled it first.
    Start { timer_secs: Option<u64> },
}

/// The registrar's reaction to a policy value.
pub fn plan_register(policy: Discovery) -> (r: RegisterAction)
    ensures
        (match policy {
            Discovery::TurnOff => r is Stop,
            Discovery::AlwaysOn => r == (RegisterAction::Start { timer_secs: None }),
            Discovery::OnDuration(secs) => r == (RegisterAction::Start {
                timer_secs: Some(secs),
            }),
        }),
{
    match policy {
        Discovery::TurnOff => RegisterAction::Stop,
        Discovery::AlwaysOn => RegisterAction::Start { timer_secs: None },
        Discovery::OnDuration(secs) => RegisterAction::Start { timer_secs: Some(secs) },
    }
}

/// The registrar's two mechanisms and the shared cancellation signal that
/// both the expiry timer and an explicit stop fire. The signal is observed
/// cooperatively: once it fires, both mechanisms are torn down.
#[derive(Debug, Clone, Copy, PartialEq, Eq, Structural)]
pub struct RegistrarState {
    pub mdns_registered: bool,
    pub udp_active: bool,
    pub cancel_requested: bool,
}

impl RegistrarState {
    /// Both mechanisms up, signal unfired.
    pub open spec fn spec_started() -> RegistrarState {
        RegistrarState { mdns_registered: true, udp_active: true, cancel_requested: false }
    }

    /// Firing the cancellation signal; idempotent.
    pub open spec fn spec_cancel(self) -> RegistrarState {
        RegistrarState { cancel_requested: true, ..self }
    }

    /// The worker observing the fired signal: both mechanisms come down.
    pub open spec fn spec_teardown(self) -> RegistrarState {
        RegistrarState { mdns_registered: false, udp_active: false, ..self }
    }
}

/// Start a fresh registration: the multicast-DNS record is registered and
/// the UDP responder bound, under an unfired cancellation signal.
pub fn start_registration() -> (r: RegistrarState)
    ensures
        r == RegistrarState::spec_started(),
{
    RegistrarState { mdns_registered: true, udp_active: true, cancel_requested: false }
}

/// Fire the cancellation signal. Whichever of the timer and an explicit stop
/// comes first wins; firing twice changes nothing.
pub fn cancel(state: &mut RegistrarState)
    ensures
        *final(state) == old(state).spec_cancel(),
{
    state.cancel_requested = true;
}

/// The expiry timer fires exactly when the policy's duration has elapsed
/// and nothing cancelled the registration earlier.
pub open spec fn spec_timer_fires(state: RegistrarState, elapsed_secs: u64, duration_secs: u64)
    -> bool {
    elapsed_secs >= duration_secs && !state.cancel_requested
}

/// Whether the expiry timer fires now.
pub fn timer_fires(state: &RegistrarState, elapsed_secs: u64, duration_secs: u64) -> (r: bool)
    ensures
        r == spec_timer_fires(*state, elapsed_secs, duration_secs),
{
    elapsed_secs >= duration_secs && !state.cancel_requested
}

/// The worker observes the fired signal and tears both mechanisms down.
pub fn teardown(state: &mut RegistrarState)
    requires
        old(state).cancel_requested,
    ensures
        *final(state) == old(state).spec_teardown(),
        !final(state).mdns_registered,
        !final(state).udp_active,
{
    state.mdns_registered = false;
    state.udp_active = false;
}

/// Policy expiry: on a freshly started registrar under `OnDuration(d)`, the
/// timer fires as soon as `d` has elapsed with no earlier cancellation; the
/// fired signal makes the observing worker tear both the multicast-DNS
/// record and the UDP responder down; firing the signal a second time
/// changes nothing, and an already-fired signal keeps the timer from firing
/// again.
pub proof fn law_on_duration_expiry(elapsed_secs: u64, d: u64)
    requires
        elapsed_secs >= d,
    ensures
        ({
            let started = RegistrarState::spec_started();
            let fired = started.spec_cancel();
            let down = fired.spec_teardown();
            &&& spec_timer_fires(started, elapsed_secs, d)
            &&& fired.cancel_requested
            &&& !spec_timer_fires(fired, elapsed_secs, d)
            &&& !down.mdns_registered
            &&& !down.udp_active
            &&& down.cancel_requested
            &&& fired.spec_cancel() == fired
        }),
{
}

/// The decision after one failed attempt to de-register the record: a
/// transient "busy" failure is retried after a short pause, any other answer
/// — or a busy daemon that outlasts the bound — ends the loop.
pub enum UnregisterStep {
    RetryAfterMillis(u64),
    GiveUp,
}

/// How many times a transient "busy" answer is retried before the loop
/// gives up.
pub const UNREGISTER_RETRY_LIMIT: u32 = 20;

/// Bounded backoff on record de-registration: while the daemon reports the
/// transient "try again" error, retry after fifty milliseconds, at most
/// `UNREGISTER_RETRY_LIMIT` times in all; any other answer, or a bound
/// already spent, ends the loop.
pub fn unregister_retry(transient_again: bool, attempts: u32) -> (r: UnregisterStep)
    ensures
        (transient_again && attempts < UNREGISTER_RETRY_LIMIT) ==> r
            == UnregisterStep::RetryAfterMillis(50),
        !(transient_again && attempts < UNREGISTER_RETRY_LIMIT) ==> r == UnregisterStep::GiveUp,
{
    if transient_again && attempts < UNREGISTER_RETRY_LIMIT {
        UnregisterStep::RetryAfterMillis(50)
    } else {
        UnregisterStep::GiveUp
    }
}

} // verus!
