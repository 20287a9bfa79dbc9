//! The data returned by the engine, as plain values.

use vstd::prelude::*;

verus! {

#[derive(Debug, Clone)]
pub struct BlockId {
    pub file_hash: String,
    pub root_hash: String,
    pub seqno: usize,
    pub shard: String,
    pub workchain: i32,
}

#[derive(Debug, Clone)]
pub struct TransactionId {
    pub hash: String,
    pub lt: String,
}

#[derive(Debug, Clone)]
pub struct AccountState {
    pub balance: String,
    pub block_id: BlockId,
    pub code: String,
    pub data: String,
    pub frozen_hash: String,
    pub last_transaction_id: TransactionId,
    pub sync_utime: usize,
}

/// One page of an account's transaction history, newest first.
#[derive(Debug, Clone)]
pub struct Transactions {
    pub previous_transaction_id: Option<TransactionId>,
    pub transactions: Vec<Transaction>,
}

#[derive(Debug, Clone)]
pub struct Transaction {
    pub transaction_id: TransactionId,
    pub data: String,
    pub fee: String,
    pub other_fee: String,
    pub storage_fee: String,
    pub utime: usize,
    pub in_msg: TransactionMessage,
    pub out_msgs: Vec<TransactionMessage>,
}

#[derive(Debug, Clone)]
pub struct TransactionMessage {
    destination: TransactionMessageAddress,
    source: TransactionMessageAddress,
    pub body_hash: String,
    pub created_lt: String,
    pub fwd_fee: String,
    pub ihr_fee: String,
    pub value: String,
}

impl TransactionMessage {
    pub fn new(
        destination: TransactionMessageAddress,
        source: TransactionMessageAddress,
        body_hash: String,
        created_lt: String,
        fwd_fee: String,
        ihr_fee: String,
        value: String,
    ) -> (r: TransactionMessage)
        ensures
            r.destination_spec() == destination.account_address@,
            r.source_spec() == source.account_address@,
    {
        TransactionMessage { destination, source, body_hash, created_lt, fwd_fee, ihr_fee, value }
    }

    pub closed spec fn source_spec(&self) -> Seq<char> {
        self.source.account_address@
    }

    pub closed spec fn destination_spec(&self) -> Seq<char> {
        self.destination.account_address@
    }

    /// The address the message came from.
    pub fn source(&self) -> (r: &str)
        ensures
            r@ == self.source_spec(),
    {
        self.source.account_address.as_str()
    }

    /// The address the message goes to.
    pub fn destination(&self) -> (r: &str)
        ensures
            r@ == self.destination_spec(),
    {
        self.destination.account_address.as_str()
    }
}

#[derive(Debug, Clone)]
pub struct TransactionMessageAddress {
    pub account_address: String,
}

#[derive(Debug, Clone)]
pub struct MasterChainInfo {
    pub init: BlockId,
    pub last: BlockId,
    pub state_root_hash: String,
}

/// A position inside a block: an account and a logical time.
#[derive(Debug, Clone)]
pub struct AccountTransactionId {
    pub account: String,
    pub lt: usize,
}

} // verus!
