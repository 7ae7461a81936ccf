//! The persisted continuation store: one slot per in-flight role, and the
//! table of transfers awaiting acknowledgement.
use std::collections::HashMap;
use vstd::prelude::*;

use crate::types::{IbcTransferReplyState, MultiSwapState, SwapReplyState};

verus! {

broadcast use vstd::std_specs::hash::group_hash_axioms;

#[derive(Debug)]
pub struct Store {
    pub swap_reply: Option<SwapReplyState>,
    pub ibc_transfer_reply: Option<IbcTransferReplyState>,
    pub multi_swap: Option<MultiSwapState>,
    /// Transfers awaiting acknowledgement, by packet sequence number.
    pub awaiting_ibc_transfers: HashMap<u64, IbcTransferReplyState>,
}

impl Store {
    /// A store with every slot empty.
    pub fn new() -> (s: Store)
        ensures
            s.swap_reply.is_none(),
            s.ibc_transfer_reply.is_none(),
            s.multi_swap.is_none(),
            s.awaiting_ibc_transfers@ == Map::<u64, IbcTransferReplyState>::empty(),
    {
        Store {
            swap_reply: None,
            ibc_transfer_reply: None,
            multi_swap: None,
            awaiting_ibc_transfers: HashMap::new(),
        }
    }

    /// Whether a swap is in flight.
    pub fn swap_reply_state_exists(&self) -> (r: bool)
        ensures
            r == self.swap_reply.is_some(),
    {
        self.swap_reply.is_some()
    }

    /// Records a transfer as awaiting acknowledgement under `sequence`.
    pub fn store_awaiting_ibc_transfer(&mut self, sequence: u64, info: IbcTransferReplyState)
        ensures
            final(self).awaiting_ibc_transfers@ == old(self).awaiting_ibc_transfers@.insert(sequence, info),
            final(self).swap_reply == old(self).swap_reply,
            final(self).ibc_transfer_reply == old(self).ibc_transfer_reply,
            final(self).multi_swap == old(self).multi_swap,
    {
        self.awaiting_ibc_transfers.insert(sequence, info);
    }
}

} // verus!
