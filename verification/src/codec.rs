//! Per-codec driver logic: verb encoding, response decoding, the
//! solicited/address routing rule, subordinate-node parsing, and the
//! discovery scan over the codec-presence bitmap.

use vstd::prelude::*;

verus! {

/// Response bit: set when the response answers a verb this driver sent,
/// clear on an unsolicited event.
pub const SOL: u64 = 0x10_0000_0000;

/// Verb command field (bits 19-8, pre-shifted to bits 27-8): get-parameter.
pub const GET_PARAM: u32 = 0xF00_00;

/// Get-parameter id: subordinate node count and starting node.
pub const SUB_NODE_COUNT: u32 = 0x04;

/// The codec address a verb is steered to: bits 31-28.
pub open spec fn verb_addr(v: u32) -> u32 {
    v >> 28
}

/// Whether a response answers a verb the driver sent: bit 36.
pub open spec fn resp_solicited(resp: u64) -> bool {
    resp & SOL == SOL
}

/// The codec address a response came from: bits 35-32.
pub open spec fn resp_addr(resp: u64) -> u64 {
    (resp >> 32) & 0xF
}

/// Subordinate node count carried in a get-parameter response: bits 7-0.
pub open spec fn resp_node_count(resp: u64) -> u64 {
    resp & 0xFF
}

/// Starting subordinate node id carried in a get-parameter response: bits 23-16.
pub open spec fn resp_start_node(resp: u64) -> u64 {
    (resp >> 16) & 0xFF
}

/// Encode the get-parameter verb that asks codec `id` for its subordinate
/// node range.
pub fn sub_node_verb(id: u8) -> (v: u32)
    requires
        id < 16,
    ensures
        v == ((id as u32) << 28) | GET_PARAM | SUB_NODE_COUNT,
        verb_addr(v) == id,
{
    proof {
        let i = id as u32;
        assert(i < 16 ==> (((i << 28) | 0xF00_00u32 | 0x04u32) >> 28) == i) by (bit_vector);
    }
    ((id as u32) << 28) | GET_PARAM | SUB_NODE_COUNT
}

/// One codec slot's logical driver: its bus address and, once discovery has
/// answered, the range of subordinate nodes it owns.
pub struct Codec {
    /// Bus address of this codec, 0 to 15.
    pub id: u8,
    /// Number of subordinate nodes, 0 until a discovery response matched.
    pub num_subs: u8,
    /// First subordinate node id, 0 until a discovery response matched.
    pub sub_start: u8,
}

impl Codec {
    /// A fresh worker for codec slot `id`, with no subordinate range known yet.
    pub fn new(id: u8) -> (c: Codec)
        requires
            id < 16,
        ensures
            c.id == id,
            c.num_subs == 0,
            c.sub_start == 0,
    {
        Codec { id, num_subs: 0, sub_start: 0 }
    }

    /// The verb this worker sends on startup: get-parameter, subordinate
    /// node count, addressed to itself.
    pub fn init_verb(&self) -> (v: u32)
        requires
            self.id < 16,
        ensures
            v == ((self.id as u32) << 28) | GET_PARAM | SUB_NODE_COUNT,
            verb_addr(v) == self.id,
    {
        sub_node_verb(self.id)
    }

    /// Whether a response's address field names this codec.
    pub fn is_mine(&self, resp: u64) -> (r: bool)
        ensures
            r == (resp_addr(resp) == self.id),
    {
        (resp >> 32) & 0xF == self.id as u64
    }

    /// Consume one response seen during startup discovery. The worker
    /// accepts it, and learns its subordinate range, exactly when the
    /// response is solicited and carries this codec's address; every other
    /// response is ignored unchanged, since it belongs to another codec's
    /// in-flight request.
    pub fn init(&mut self, resp: u64) -> (accepted: bool)
        ensures
            accepted == (resp_solicited(resp) && resp_addr(resp) == old(self).id),
            final(self).id == old(self).id,
            accepted ==> final(self).num_subs == resp_node_count(resp)
                && final(self).sub_start == resp_start_node(resp),
            !accepted ==> *final(self) == *old(self),
    {
        proof {
            assert(resp & 0xFF < 256 && (resp >> 16) & 0xFF < 256) by (bit_vector);
        }
        if self.is_mine(resp) && resp & SOL == SOL {
            self.num_subs = (resp & 0xFF) as u8;
            self.sub_start = ((resp >> 16) & 0xFF) as u8;
            true
        } else {
            false
        }
    }
}

/// Whether the codec-presence bitmap reports slot `i` populated: bit i set.
pub open spec fn slot_present(statests: u16, i: u16) -> bool {
    statests & (1u16 << i) != 0
}

/// Scan the codec-presence bitmap: slot i, for i in 0..15, is present
/// exactly when bit i of STATESTS is set. The present addresses come back
/// in ascending order, one worker to be created for each.
pub fn discover(statests: u16) -> (ids: Vec<u8>)
    ensures
        forall|j: int|
            0 <= j < ids@.len() ==> (#[trigger] ids@[j]) < 15 && slot_present(
                statests,
                ids@[j] as u16,
            ),
        forall|i: u16| i < 15 && #[trigger] slot_present(statests, i) ==> ids@.contains(i as u8),
        forall|j: int, k: int| 0 <= j < k < ids@.len() ==> ids@[j] < ids@[k],
{
    let mut ids: Vec<u8> = Vec::new();
    let mut i: u16 = 0;
    while i < 15
        invariant
            i <= 15,
            forall|j: int|
                0 <= j < ids@.len() ==> (#[trigger] ids@[j]) < i && slot_present(
                    statests,
                    ids@[j] as u16,
                ),
            forall|b: u16| b < i && #[trigger] slot_present(statests, b) ==> ids@.contains(b as u8),
            forall|j: int, k: int| 0 <= j < k < ids@.len() ==> ids@[j] < ids@[k],
        decreases 15 - i,
    {
        let ghost prev = ids@;
        if statests & (1u16 << i) != 0 {
            ids.push(i as u8);
            proof {
                assert(ids@ == prev.push(i as u8));
                assert(ids@[prev.len() as int] == i as u8);
                assert((i as u8) as u16 == i);
            }
        }
        proof {
            assert forall|b: u16| b < i + 1 && #[trigger] slot_present(statests, b) implies ids@
                .contains(b as u8) by {
                if b < i {
                    assert(prev.contains(b as u8));
                    let j = choose|j: int| 0 <= j < prev.len() && prev[j] == b as u8;
                    assert(ids@[j] == b as u8);
                } else {
                    assert(b == i);
                    assert(ids@[ids@.len() - 1] == i as u8);
                }
            }
        }
        i = i + 1;
    }
    ids
}

} // verus!
