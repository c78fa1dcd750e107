//! Command intake: draining all queued datagrams of one tick.
//!
//! The socket itself stays outside the library; what is verified here is
//! the drain policy. Every datagram queued at the moment of the poll is
//! decoded independently; rejected datagrams never stop the drain, and of
//! the valid ones only the newest survives. The drain result is the last
//! valid command together with the count of valid datagrams seen — the
//! count is informational, and it is nonzero exactly when a command came
//! out.

use vstd::prelude::*;
use crate::codec::{decode, decode_spec, Command};

verus! {

/// Number of valid frames in a queue of datagrams.
pub open spec fn valid_count(frames: Seq<Seq<u8>>) -> nat
    decreases frames.len(),
{
    if frames.len() == 0 {
        0
    } else {
        valid_count(frames.drop_last()) + if decode_spec(frames.last()) is Ok {
            1nat
        } else {
            0nat
        }
    }
}

/// The newest valid command in a queue of datagrams, if any datagram
/// decodes.
pub open spec fn latest_valid(frames: Seq<Seq<u8>>) -> Option<Command>
    decreases frames.len(),
{
    if frames.len() == 0 {
        None
    } else if decode_spec(frames.last()) is Ok {
        Some(decode_spec(frames.last()).unwrap())
    } else {
        latest_valid(frames.drop_last())
    }
}

/// A command comes out of a drain exactly when at least one datagram was
/// valid.
pub proof fn lemma_latest_iff_count(frames: Seq<Seq<u8>>)
    ensures
        latest_valid(frames) is Some <==> valid_count(frames) > 0,
    decreases frames.len(),
{
    if frames.len() > 0 {
        lemma_latest_iff_count(frames.drop_last());
    }
}

/// Draining a queue whose datagrams are all valid returns the last
/// datagram's command and counts every datagram.
pub proof fn lemma_drain_all_valid(frames: Seq<Seq<u8>>)
    requires
        frames.len() > 0,
        forall|i: int| 0 <= i < frames.len() ==> (#[trigger] decode_spec(frames[i])) is Ok,
    ensures
        latest_valid(frames) == Some(decode_spec(frames.last()).unwrap()),
        valid_count(frames) == frames.len(),
    decreases frames.len(),
{
    assert(decode_spec(frames[frames.len() - 1]) is Ok);
    assert(frames.last() == frames[frames.len() - 1]);
    if frames.len() > 1 {
        assert forall|i: int| 0 <= i < frames.drop_last().len() implies (#[trigger] decode_spec(
            frames.drop_last()[i],
        )) is Ok by {
            assert(frames.drop_last()[i] == frames[i]);
        }
        lemma_drain_all_valid(frames.drop_last());
    }
}

/// Draining a queue whose datagrams are all valid except the last returns
/// the next-to-last datagram's command and counts all but the last.
pub proof fn lemma_drain_last_invalid(frames: Seq<Seq<u8>>)
    requires
        frames.len() >= 2,
        forall|i: int| 0 <= i < frames.len() - 1 ==> (#[trigger] decode_spec(frames[i])) is Ok,
        !(decode_spec(frames.last()) is Ok),
    ensures
        latest_valid(frames) == Some(decode_spec(frames[frames.len() - 2]).unwrap()),
        valid_count(frames) == frames.len() - 1,
{
    lemma_drain_all_valid(frames.drop_last());
}

/// The running result of one tick's drain.
pub struct DrainState {
    /// The newest valid command seen so far this drain.
    pub latest: Option<Command>,
    /// How many valid frames this drain has seen.
    pub valid_count: usize,
}

impl DrainState {
    /// An empty drain: nothing seen yet.
    pub fn new() -> (s: DrainState)
        ensures
            s.latest is None,
            s.valid_count == 0,
    {
        DrainState { latest: None, valid_count: 0 }
    }

    /// Feeds one received datagram to the drain: a valid frame becomes the
    /// newest command and is counted, a rejected one changes nothing.
    pub fn observe(&mut self, frame: &[u8])
        requires
            old(self).valid_count < usize::MAX,
        ensures
            match decode_spec(frame@) {
                Ok(c) => final(self).latest == Some(c) && final(self).valid_count == old(
                    self,
                ).valid_count + 1,
                Err(_) => *final(self) == *old(self),
            },
    {
        match decode(frame) {
            Ok(c) => {
                self.latest = Some(c);
                self.valid_count = self.valid_count + 1;
            },
            Err(_) => {},
        }
    }
}

/// Drains a whole queue of datagrams at once: decodes each in order and
/// keeps the newest valid command and the count of valid frames.
pub fn drain(frames: &Vec<Vec<u8>>) -> (r: (Option<Command>, usize))
    ensures
        r.0 == latest_valid(frames@.map_values(|f: Vec<u8>| f@)),
        r.1 == valid_count(frames@.map_values(|f: Vec<u8>| f@)),
        r.0 is Some <==> r.1 > 0,
{
    let ghost s = frames@.map_values(|f: Vec<u8>| f@);
    let mut latest: Option<Command> = None;
    let mut count: usize = 0;
    let mut i: usize = 0;
    while i < frames.len()
        invariant
            i <= frames@.len(),
            s == frames@.map_values(|f: Vec<u8>| f@),
            latest == latest_valid(s.subrange(0, i as int)),
            count == valid_count(s.subrange(0, i as int)),
            count <= i,
        decreases frames@.len() - i,
    {
        let ghost prefix = s.subrange(0, i as int);
        let frame: &Vec<u8> = &frames[i];
        proof {
            assert(s.subrange(0, i + 1).drop_last() =~= prefix);
            assert(s.subrange(0, i + 1).last() == frame@);
        }
        match decode(frame.as_slice()) {
            Ok(c) => {
                latest = Some(c);
                count = count + 1;
            },
            Err(_) => {},
        }
        i = i + 1;
    }
    proof {
        assert(s.subrange(0, s.len() as int) =~= s);
        lemma_latest_iff_count(s);
    }
    (latest, count)
}

} // verus!
