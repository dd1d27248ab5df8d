//! Identities of spawned objects.
//!
//! The host engine hands out entity identifiers; the library keeps the two
//! halves it can reason about: a slot index and a generation count. Packed
//! bits carry the index in the low half; a packed generation of zero stands
//! for the first generation.

use vstd::prelude::*;
use vstd::string::StringExecFns;
use crate::text::{dec_rep, u64_to_string};

verus! {

/// An entity identity: which slot, and which reuse of that slot.
#[derive(Clone, Copy, PartialEq, Eq, Structural, Debug)]
pub struct EntityId {
    pub index: u32,
    pub generation: u32,
}

impl EntityId {
    /// The debug name, `"<index>v<generation>"`.
    pub open spec fn name_spec(self) -> Seq<char> {
        dec_rep(self.index as nat) + seq!['v'] + dec_rep(self.generation as nat)
    }

    pub fn new(index: u32, generation: u32) -> (r: EntityId)
        ensures
            r == (EntityId { index, generation }),
    {
        EntityId { index, generation }
    }

    /// Unpacks an identity: index in the low 32 bits, generation count
    /// (starting at one) in the high 32 bits plus one.
    pub fn from_bits(bits: u64) -> (r: EntityId)
        requires
            bits / 0x1_0000_0000 < 0xFFFF_FFFF,
        ensures
            r.index == bits % 0x1_0000_0000,
            r.generation == bits / 0x1_0000_0000 + 1,
    {
        EntityId {
            index: (bits % 0x1_0000_0000) as u32,
            generation: (bits / 0x1_0000_0000) as u32 + 1,
        }
    }

    /// The debug name, as shown in status messages.
    pub fn name(&self) -> (r: String)
        ensures
            r@ == self.name_spec(),
    {
        proof {
            reveal_strlit("v");
        }
        let mut s = u64_to_string(self.index as u64);
        s.append("v");
        let g = u64_to_string(self.generation as u64);
        s.append(g.as_str());
        proof {
            assert(s@ =~= self.name_spec());
        }
        s
    }
}

} // verus!
