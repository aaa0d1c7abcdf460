//! How the sidecar's port is chosen: a port named by `OPENCODE_PORT` (first as
//! given when the application was built, then as set when it runs) wins;
//! otherwise ports from `SCAN_FIRST_PORT` to `SCAN_LAST_PORT` are tried in
//! turn and the first that can be bound is used; when none can, the system
//! picks an ephemeral port.

use crate::text::{decimal, parse_u32, parsed_u32, push_decimal};
use vstd::prelude::*;

verus! {

/// The first port that the scan tries.
pub const SCAN_FIRST_PORT: u32 = 10420;

/// The last port that the scan tries.
pub const SCAN_LAST_PORT: u32 = 65535;

/// The port that `OPENCODE_PORT` names, if a value given for it reads as one.
pub open spec fn env_port(build_time: Option<Seq<char>>, run_time: Option<Seq<char>>) -> Option<u32> {
    match build_time {
        Some(b) if parsed_u32(b) is Some => parsed_u32(b),
        _ => match run_time {
            Some(r) => parsed_u32(r),
            None => None,
        },
    }
}

/// The value given for `OPENCODE_PORT` when the application was built, and
/// the one set in its environment, read as a port: the first that reads as an
/// unsigned 32-bit number wins.
pub fn port_from_env(build_time: Option<&str>, run_time: Option<&str>) -> (p: Option<u32>)
    ensures
        p == env_port(
            match build_time {
                Some(b) => Some(b@),
                None => None,
            },
            match run_time {
                Some(r) => Some(r@),
                None => None,
            },
        ),
{
    if let Some(b) = build_time {
        if let Some(p) = parse_u32(b) {
            return Some(p);
        }
    }
    match run_time {
        Some(r) => parse_u32(r),
        None => None,
    }
}

/// The next step of port selection.
#[derive(Clone, Copy, PartialEq, Eq, Structural, Debug)]
pub enum PortStep {
    /// Use this port.
    Use(u32),
    /// Try to bind this loopback port, and report whether that worked.
    TryBind(u32),
    /// No port of the scan could be bound: let the system pick one.
    Ephemeral,
}

/// Where selection starts: a port from the environment is used as it is;
/// otherwise the scan begins with `SCAN_FIRST_PORT`.
pub fn first_port_step(from_env: Option<u32>) -> (step: PortStep)
    ensures
        step == match from_env {
            Some(p) => PortStep::Use(p),
            None => PortStep::TryBind(SCAN_FIRST_PORT),
        },
{
    match from_env {
        Some(p) => PortStep::Use(p),
        None => PortStep::TryBind(SCAN_FIRST_PORT),
    }
}

/// After trying to bind `port`: a port that could be bound is used; otherwise
/// the next port is tried, and after `SCAN_LAST_PORT` the system picks one.
pub fn next_port_step(port: u32, bound: bool) -> (step: PortStep)
    requires
        SCAN_FIRST_PORT <= port <= SCAN_LAST_PORT,
    ensures
        bound ==> step == PortStep::Use(port),
        !bound && port < SCAN_LAST_PORT ==> step == PortStep::TryBind((port + 1) as u32),
        !bound && port == SCAN_LAST_PORT ==> step == PortStep::Ephemeral,
{
    if bound {
        PortStep::Use(port)
    } else if port < SCAN_LAST_PORT {
        PortStep::TryBind(port + 1)
    } else {
        PortStep::Ephemeral
    }
}

/// The port that a scan settles on when `bindable` says which ports from
/// `from` on can be bound: the first bindable one, if any.
pub open spec fn scan_result(bindable: spec_fn(u32) -> bool, from: u32) -> PortStep
    decreases SCAN_LAST_PORT - from,
{
    if from < SCAN_FIRST_PORT || from > SCAN_LAST_PORT {
        PortStep::Ephemeral
    } else if bindable(from) {
        PortStep::Use(from)
    } else if from == SCAN_LAST_PORT {
        PortStep::Ephemeral
    } else {
        scan_result(bindable, (from + 1) as u32)
    }
}

/// The scan settles on the lowest bindable port at or after its start: every
/// port it passes over could not be bound.
pub proof fn lemma_scan_picks_lowest_bindable(bindable: spec_fn(u32) -> bool, from: u32)
    requires
        SCAN_FIRST_PORT <= from <= SCAN_LAST_PORT,
    ensures
        scan_result(bindable, from) matches PortStep::Use(p) ==> from <= p <= SCAN_LAST_PORT
            && bindable(p) && forall|q: u32| from <= q < p ==> !#[trigger] bindable(q),
        scan_result(bindable, from) == PortStep::Ephemeral ==> forall|q: u32|
            from <= q <= SCAN_LAST_PORT ==> !#[trigger] bindable(q),
    decreases SCAN_LAST_PORT - from,
{
    if !bindable(from) && from < SCAN_LAST_PORT {
        lemma_scan_picks_lowest_bindable(bindable, (from + 1) as u32);
    }
}

/// The address that is bound to test a port: the loopback address and the port.
pub fn loopback_address(port: u32) -> (addr: String)
    ensures
        addr@ == "127.0.0.1:"@ + decimal(port as nat),
{
    proof {
        reveal_strlit("127.0.0.1:");
    }
    let mut addr = String::new();
    addr.append("127.0.0.1:");
    push_decimal(&mut addr, port);
    addr
}

/// The TCP port that a probe of `port` connects to: its low 16 bits, as the
/// conversion to a 16-bit port number keeps them.
pub fn probe_port(port: u32) -> (p: u16)
    ensures
        p == port % 65536,
{
    (port % 65536) as u16
}

} // verus!
