//! Connectivity watchdog: the three-state recovery machine for the
//! cellular uplink.
//!
//! Once per poll cycle the supervisor asks whether the interface is
//! reachable — an address is assigned and it is not a link-local
//! auto-configuration address — and feeds the answer through one
//! [`link_step`]. The step returns the next state and the single outside
//! action the supervisor must perform: restart the modem connection, or
//! publish the freshly assigned address. The machine is driven by time and
//! reachability alone; timestamps are milliseconds on a monotonic clock.

use vstd::prelude::*;

verus! {

/// Connectivity of the uplink as the recovery machine tracks it.
#[derive(Clone, Copy, Debug, PartialEq, Eq)]
pub enum LinkState {
    /// The link is down and no recovery attempt is running.
    Disconnected,
    /// A recovery attempt has been running since the held instant.
    Connecting { started_at: u64 },
    /// The link was reachable at the last poll.
    Connected,
}

/// The outside action one poll step asks the supervisor to perform.
#[derive(Clone, Copy, Debug, PartialEq, Eq)]
pub enum LinkAction {
    /// Nothing to do this cycle.
    Idle,
    /// Stop and restart the modem connection.
    Recover,
    /// Publish the newly assigned address, once per reconnection.
    Publish,
}

/// The transition relation of the recovery machine.
///
/// From `Disconnected`, an unreachable poll fires the recovery action and
/// starts a `Connecting` attempt stamped `now`; a reachable poll simply
/// notes `Connected` without any action. A `Connecting` attempt that
/// becomes reachable is `Connected` and fires the one-shot publish action.
/// One that stays unreachable for strictly longer than the attempt timeout
/// is abandoned to `Disconnected`, so the next cycle retries; within the
/// timeout it keeps waiting. A `Connected` link that becomes unreachable
/// drops to `Disconnected` with no action on that transition alone — the
/// recovery action fires on the next cycle's `Disconnected` poll.
pub open spec fn link_step_spec(
    state: LinkState,
    reachable: bool,
    now: u64,
    attempt_timeout_ms: u64,
) -> (LinkState, LinkAction) {
    match state {
        LinkState::Disconnected => if reachable {
            (LinkState::Connected, LinkAction::Idle)
        } else {
            (LinkState::Connecting { started_at: now }, LinkAction::Recover)
        },
        LinkState::Connecting { started_at } => if reachable {
            (LinkState::Connected, LinkAction::Publish)
        } else if now - started_at > attempt_timeout_ms {
            (LinkState::Disconnected, LinkAction::Idle)
        } else {
            (state, LinkAction::Idle)
        },
        LinkState::Connected => if reachable {
            (LinkState::Connected, LinkAction::Idle)
        } else {
            (LinkState::Disconnected, LinkAction::Idle)
        },
    }
}

/// Advances the recovery machine by one poll cycle.
pub fn link_step(state: LinkState, reachable: bool, now: u64, attempt_timeout_ms: u64) -> (r: (
    LinkState,
    LinkAction,
))
    ensures
        r == link_step_spec(state, reachable, now, attempt_timeout_ms),
{
    match state {
        LinkState::Disconnected => if reachable {
            (LinkState::Connected, LinkAction::Idle)
        } else {
            (LinkState::Connecting { started_at: now }, LinkAction::Recover)
        },
        LinkState::Connecting { started_at } => if reachable {
            (LinkState::Connected, LinkAction::Publish)
        } else if now > started_at && now - started_at > attempt_timeout_ms {
            (LinkState::Disconnected, LinkAction::Idle)
        } else {
            (LinkState::Connecting { started_at }, LinkAction::Idle)
        },
        LinkState::Connected => if reachable {
            (LinkState::Connected, LinkAction::Idle)
        } else {
            (LinkState::Disconnected, LinkAction::Idle)
        },
    }
}

/// An IPv4 address as its four dotted-quad octets.
#[derive(Clone, Copy, Debug, PartialEq, Eq, Structural)]
pub struct Ipv4Octets {
    pub a: u8,
    pub b: u8,
    pub c: u8,
    pub d: u8,
}

/// A link-local auto-configuration address: 169.254.0.0/16. An interface
/// carrying only such an address has no real upstream connectivity.
pub open spec fn is_link_local_spec(addr: Ipv4Octets) -> bool {
    addr.a == 169 && addr.b == 254
}

/// Whether the interface counts as reachable: an address is assigned and
/// it is not a link-local auto-configuration address.
pub fn interface_reachable(addr: Option<Ipv4Octets>) -> (r: bool)
    ensures
        r <==> (addr is Some && !is_link_local_spec(addr.unwrap())),
{
    match addr {
        Some(octets) => !(octets.a == 169 && octets.b == 254),
        None => false,
    }
}

/// One step of the dotted-quad automaton. The state holds the completed
/// octets, the digit count of the group being read, and that group's
/// value; `None` is the sink for rejected input. A digit extends the
/// current group as long as the group stays at most three digits and at
/// most 255 (leading zeros are accepted); a dot closes a non-empty group
/// when at most three groups are complete; anything else rejects.
pub open spec fn quad_step(st: Option<(Seq<u8>, int, int)>, c: u8) -> Option<(Seq<u8>, int, int)> {
    match st {
        None => None,
        Some((done, n, v)) => if 0x30 <= c <= 0x39 {
            if n == 3 || v * 10 + (c - 0x30) > 255 {
                None
            } else {
                Some((done, n + 1, v * 10 + (c - 0x30)))
            }
        } else if c == 0x2e {
            if n == 0 || done.len() == 3 {
                None
            } else {
                Some((done.push(v as u8), 0, 0))
            }
        } else {
            None
        },
    }
}

/// The automaton's state after reading a whole byte sequence in order.
pub open spec fn quad_run(s: Seq<u8>) -> Option<(Seq<u8>, int, int)>
    decreases s.len(),
{
    if s.len() == 0 {
        Some((Seq::empty(), 0, 0))
    } else {
        quad_step(quad_run(s.drop_last()), s.last())
    }
}

/// The address a byte sequence spells as a dotted quad: exactly four
/// digit groups separated by dots, each of one to three digits and at
/// most 255. Anything else is rejected.
pub open spec fn dotted_quad_spec(s: Seq<u8>) -> Option<Ipv4Octets> {
    match quad_run(s) {
        None => None,
        Some((done, n, v)) => if done.len() == 3 && n > 0 {
            Some(Ipv4Octets { a: done[0], b: done[1], c: done[2], d: v as u8 })
        } else {
            None
        },
    }
}

/// Once the automaton has rejected a prefix, the whole sequence is
/// rejected.
proof fn lemma_quad_run_none(s: Seq<u8>, i: int)
    requires
        0 <= i <= s.len(),
        quad_run(s.subrange(0, i)) is None,
    ensures
        quad_run(s) is None,
    decreases s.len() - i,
{
    if i < s.len() {
        assert(s.subrange(0, i + 1).drop_last() =~= s.subrange(0, i));
        lemma_quad_run_none(s, i + 1);
    } else {
        assert(s.subrange(0, s.len() as int) =~= s);
    }
}

/// Parses an ASCII dotted-quad address out of a byte sequence.
pub fn parse_dotted_quad(s: &[u8]) -> (r: Option<Ipv4Octets>)
    ensures
        r == dotted_quad_spec(s@),
{
    let mut done: Vec<u8> = Vec::new();
    let mut n: u8 = 0;
    let mut v: u16 = 0;
    let mut i: usize = 0;
    while i < s.len()
        invariant
            i <= s@.len(),
            n <= 3,
            v <= 255,
            done@.len() <= 3,
            quad_run(s@.subrange(0, i as int)) == Some((done@, n as int, v as int)),
        decreases s@.len() - i,
    {
        proof {
            assert(s@.subrange(0, i + 1).drop_last() =~= s@.subrange(0, i as int));
            assert(s@.subrange(0, i + 1).last() == s@[i as int]);
        }
        let c = s[i];
        if 0x30 <= c && c <= 0x39 {
            let d = (c - 0x30) as u16;
            if n == 3 || v * 10 + d > 255 {
                proof {
                    lemma_quad_run_none(s@, i + 1);
                }
                return None;
            }
            v = v * 10 + d;
            n = n + 1;
        } else if c == 0x2e {
            if n == 0 || done.len() == 3 {
                proof {
                    lemma_quad_run_none(s@, i + 1);
                }
                return None;
            }
            done.push(v as u8);
            n = 0;
            v = 0;
        } else {
            proof {
                lemma_quad_run_none(s@, i + 1);
            }
            return None;
        }
        i = i + 1;
    }
    proof {
        assert(s@.subrange(0, s@.len() as int) =~= s@);
    }
    if done.len() == 3 && n > 0 {
        Some(Ipv4Octets { a: done[0], b: done[1], c: done[2], d: v as u8 })
    } else {
        None
    }
}

} // verus!
