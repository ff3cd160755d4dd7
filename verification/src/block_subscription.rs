//! What one finalized block shows of the active authentications.

use std::collections::HashMap;
use std::hash::Hash;
use vstd::prelude::*;
use vstd::std_specs::hash::obeys_key_model;

verus! {

/// The snapshot of one finalized block.
#[derive(Debug)]
pub struct BlockInfo<ValidatorPublicKey> {
    /// Expiry timestamp of every key with an active authentication.
    pub active_authentications_map: HashMap<ValidatorPublicKey, u64>,
    pub block_number: u32,
}

/// The expiry of every key in a list of active authentications. Where a key
/// is listed more than once, its last entry counts.
pub open spec fn expiry_by_key<Key>(active_authentications: Seq<(Key, u64)>) -> Map<Key, u64>
    decreases active_authentications.len(),
{
    if active_authentications.len() == 0 {
        Map::empty()
    } else {
        expiry_by_key(active_authentications.drop_last()).insert(
            active_authentications.last().0,
            active_authentications.last().1,
        )
    }
}

impl<ValidatorPublicKey> BlockInfo<ValidatorPublicKey> where ValidatorPublicKey: Copy + Hash + Eq {
    /// The snapshot of block `block_number`, from the active authentications
    /// that the chain lists for it: pairs of key and expiry timestamp.
    pub fn new(block_number: u32, active_authentications: &[(ValidatorPublicKey, u64)]) -> (block:
        Self)
        requires
            obeys_key_model::<ValidatorPublicKey>(),
        ensures
            block.block_number == block_number,
            block.active_authentications_map@ == expiry_by_key(active_authentications@),
    {
        let mut active_authentications_map: HashMap<ValidatorPublicKey, u64> = HashMap::new();
        let mut i: usize = 0;
        assert(active_authentications@.take(0) =~= Seq::empty());
        while i < active_authentications.len()
            invariant
                obeys_key_model::<ValidatorPublicKey>(),
                i <= active_authentications.len(),
                active_authentications_map@ == expiry_by_key(active_authentications@.take(i as int)),
            decreases active_authentications.len() - i,
        {
            let (public_key, expires_at) = active_authentications[i];
            active_authentications_map.insert(public_key, expires_at);
            assert(active_authentications@.take(i + 1).drop_last() =~= active_authentications@.take(
                i as int,
            ));
            i = i + 1;
        }
        assert(active_authentications@.take(i as int) =~= active_authentications@);
        BlockInfo { active_authentications_map, block_number }
    }
}

} // verus!
