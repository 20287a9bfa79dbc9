//! The requests sent to the engine and their JSON text.

use vstd::prelude::*;
use vstd::string::*;
use crate::json::{decimal, dec, int_text, integer, json_quote, json_string_of, opt_number, opt_number_json, opt_quote, opt_string_json};
use crate::types::AccountTransactionId;

verus! {

/// Relies on rand::random: a value drawn from the thread-local generator;
/// nothing is known of it.
pub assume_specification<T>[ rand::random::<T> ]() -> (r: T)
    where
        rand::distributions::Standard: rand::distributions::Distribution<T>,
;

/// The correlation id made of a time stamp and a nonce.
pub open spec fn id_text(micros: nat, nonce: nat) -> Seq<char> {
    dec(micros) + seq![':'] + dec(nonce)
}

/// A fresh correlation id: the time stamp `micros` (microseconds since the
/// epoch), a colon, and a random nonce.
pub fn extra(micros: u128) -> (r: String)
    ensures
        exists|nonce: usize| r@ == id_text(micros as nat, nonce as nat),
{
    let nonce: usize = rand::random::<usize>();
    let mut r = decimal(micros);
    proof {
        reveal_strlit(":");
    }
    r.append(":");
    let n = decimal(nonce as u128);
    r.append(n.as_str());
    assert(r@ =~= id_text(micros as nat, nonce as nat));
    r
}

/// The whole message of a request: an object whose first member is the
/// correlation id, followed by the request's own members.
pub open spec fn envelope(extra: Seq<char>, fields: Seq<char>) -> Seq<char> {
    "{\"@extra\":"@ + json_string_of(extra) + fields + "}"@
}

/// The text that comes before a request's own members.
pub open spec fn envelope_head(extra: Seq<char>) -> Seq<char> {
    "{\"@extra\":"@ + json_string_of(extra)
}

fn wrap(extra: &str, fields: &String) -> (r: String)
    ensures
        r@ == envelope(extra@, fields@),
{
    let mut r = String::from_str("{\"@extra\":");
    let q = json_quote(extra);
    r.append(q.as_str());
    r.append(fields.as_str());
    r.append("}");
    r
}

/// A request to the engine.
pub trait Request {
    /// The request's own members, each preceded by a comma.
    spec fn fields(&self) -> Seq<char>;

    /// The message text carrying `extra` as its correlation id.
    fn serialize(&self, extra: &str) -> (r: String)
        ensures
            r@ == envelope(extra@, self.fields()),
    ;
}

/// Sets up the engine with its network configuration and key store.
pub struct Init {
    pub lite_server_config: String,
    pub key_store_directory: String,
}

impl Request for Init {
    open spec fn fields(&self) -> Seq<char> {
        ",\"@type\":\"init\",\"options\":{\"@type\":\"options\",\"config\":{\"@type\":\"config\",\"config\":"@
            + json_string_of(self.lite_server_config@)
            + ",\"use_callbacks_for_network\":false,\"blockchain_name\":\"\",\"ignore_cache\":false},\"keystore_type\":{\"@type\":\"keyStoreTypeDirectory\",\"directory\":"@
            + json_string_of(self.key_store_directory@) + "}}"@
    }

    fn serialize(&self, extra: &str) -> (r: String) {
        let mut f = String::from_str(
            ",\"@type\":\"init\",\"options\":{\"@type\":\"options\",\"config\":{\"@type\":\"config\",\"config\":",
        );
        let c = json_quote(self.lite_server_config.as_str());
        f.append(c.as_str());
        f.append(
            ",\"use_callbacks_for_network\":false,\"blockchain_name\":\"\",\"ignore_cache\":false},\"keystore_type\":{\"@type\":\"keyStoreTypeDirectory\",\"directory\":",
        );
        let d = json_quote(self.key_store_directory.as_str());
        f.append(d.as_str());
        f.append("}}");
        wrap(extra, &f)
    }
}

/// Asks for the state of one account.
pub struct AccountState {
    pub address: String,
}

impl Request for AccountState {
    open spec fn fields(&self) -> Seq<char> {
        ",\"@type\":\"raw.getAccountState\",\"account_address\":{\"account_address\":"@
            + json_string_of(self.address@) + "}"@
    }

    fn serialize(&self, extra: &str) -> (r: String) {
        let mut f = String::from_str(
            ",\"@type\":\"raw.getAccountState\",\"account_address\":{\"account_address\":",
        );
        let a = json_quote(self.address.as_str());
        f.append(a.as_str());
        f.append("}");
        wrap(extra, &f)
    }
}

/// Asks for one page of an account's transactions, going back from a
/// given transaction.
pub struct Transactions {
    pub address: String,
    pub from_transaction_lt: Option<String>,
    pub from_transaction_hash: Option<String>,
}

impl Request for Transactions {
    open spec fn fields(&self) -> Seq<char> {
        ",\"@type\":\"raw.getTransactions\",\"account_address\":{\"account_address\":"@
            + json_string_of(self.address@)
            + "},\"from_transaction_id\":{\"@type\":\"internal.transactionId\",\"lt\":"@
            + opt_string_json(self.from_transaction_lt) + ",\"hash\":"@
            + opt_string_json(self.from_transaction_hash) + "}"@
    }

    fn serialize(&self, extra: &str) -> (r: String) {
        let mut f = String::from_str(
            ",\"@type\":\"raw.getTransactions\",\"account_address\":{\"account_address\":",
        );
        let a = json_quote(self.address.as_str());
        f.append(a.as_str());
        f.append("},\"from_transaction_id\":{\"@type\":\"internal.transactionId\",\"lt\":");
        let lt = opt_quote(&self.from_transaction_lt);
        f.append(lt.as_str());
        f.append(",\"hash\":");
        let h = opt_quote(&self.from_transaction_hash);
        f.append(h.as_str());
        f.append("}");
        wrap(extra, &f)
    }
}

/// Asks for the state of the master chain.
pub struct MasterChainInfo {}

impl Request for MasterChainInfo {
    open spec fn fields(&self) -> Seq<char> {
        ",\"@type\":\"blocks.getMasterchainInfo\""@
    }

    fn serialize(&self, extra: &str) -> (r: String) {
        let f = String::from_str(",\"@type\":\"blocks.getMasterchainInfo\"");
        wrap(extra, &f)
    }
}

/// Asks the engine to synchronise with the network.
pub struct SyncClient {}

impl Request for SyncClient {
    open spec fn fields(&self) -> Seq<char> {
        ",\"@type\":\"sync\""@
    }

    fn serialize(&self, extra: &str) -> (r: String) {
        let f = String::from_str(",\"@type\":\"sync\"");
        wrap(extra, &f)
    }
}

/// Asks for the transactions of a block, optionally after a position.
pub struct BlockTransactions {
    pub fullblock: Option<String>,
    pub count: usize,
    pub after_tx: Option<AccountTransactionId>,
}

impl BlockTransactions {
    /// The mode flags: the base set, plus the flag for a start position.
    pub open spec fn mode_spec(&self) -> nat {
        if self.after_tx is Some {
            135
        } else {
            7
        }
    }

    /// The account a listing starts after: the zero account when none is given.
    pub open spec fn after_account(&self) -> Seq<char> {
        match self.after_tx {
            Some(a) => a.account@,
            None => "AAAAAAAAAAAAAAAAAAAAAAAAAAAAAAAAAAAAAAAAAAA="@,
        }
    }

    pub open spec fn after_lt(&self) -> nat {
        match self.after_tx {
            Some(a) => a.lt as nat,
            None => 0,
        }
    }
}

impl Request for BlockTransactions {
    open spec fn fields(&self) -> Seq<char> {
        ",\"@type\":\"blocks.transactions\",\"id\":"@ + opt_string_json(self.fullblock)
            + ",\"mode\":"@ + dec(self.mode_spec()) + ",\"count\":"@ + dec(self.count as nat)
            + ",\"after\":{\"@type\":\"blocks.accountTransactionId\",\"account\":"@
            + json_string_of(self.after_account()) + ",\"lt\":"@ + dec(self.after_lt()) + "}"@
    }

    fn serialize(&self, extra: &str) -> (r: String) {
        let mut mode: u128 = 7;
        let mut lt: u128 = 0;
        let mut account = json_quote("AAAAAAAAAAAAAAAAAAAAAAAAAAAAAAAAAAAAAAAAAAA=");
        if let Some(account_tx_id) = &self.after_tx {
            mode = 7 + 128;
            account = json_quote(account_tx_id.account.as_str());
            lt = account_tx_id.lt as u128;
        }
        let mut f = String::from_str(",\"@type\":\"blocks.transactions\",\"id\":");
        let id = opt_quote(&self.fullblock);
        f.append(id.as_str());
        f.append(",\"mode\":");
        let m = decimal(mode);
        f.append(m.as_str());
        f.append(",\"count\":");
        let c = decimal(self.count as u128);
        f.append(c.as_str());
        f.append(",\"after\":{\"@type\":\"blocks.accountTransactionId\",\"account\":");
        f.append(account.as_str());
        f.append(",\"lt\":");
        let l = decimal(lt);
        f.append(l.as_str());
        f.append("}");
        wrap(extra, &f)
    }
}

/// Looks a block up by sequence number, logical time or unix time.
pub struct LookupBlock {
    pub workchain: i32,
    pub shard: String,
    pub lt: Option<String>,
    pub utime: Option<usize>,
    pub seqno: Option<usize>,
}

impl LookupBlock {
    /// One flag for each of the given keys: 1 sequence number, 2 logical
    /// time, 4 unix time.
    pub open spec fn mode_spec(&self) -> nat {
        (if self.seqno is Some { 1nat } else { 0nat }) + (if self.lt is Some { 2nat } else { 0nat })
            + (if self.utime is Some { 4nat } else { 0nat })
    }
}

impl Request for LookupBlock {
    open spec fn fields(&self) -> Seq<char> {
        ",\"@type\":\"blocks.lookupBlock\",\"mode\":"@ + dec(self.mode_spec())
            + ",\"id\":{\"@type\":\"ton.blockId\",\"workchain\":"@ + int_text(self.workchain as int)
            + ",\"shard\":"@ + json_string_of(self.shard@) + ",\"seqno\":"@
            + opt_number_json(self.seqno) + "},\"lt\":"@ + opt_string_json(self.lt)
            + ",\"utime\":"@ + opt_number_json(self.utime)
    }

    fn serialize(&self, extra: &str) -> (r: String) {
        let mut mode: u128 = 0;
        if self.seqno.is_some() {
            mode = mode + 1;
        }
        if self.lt.is_some() {
            mode = mode + 2;
        }
        if self.utime.is_some() {
            mode = mode + 4;
        }
        let mut f = String::from_str(",\"@type\":\"blocks.lookupBlock\",\"mode\":");
        let m = decimal(mode);
        f.append(m.as_str());
        f.append(",\"id\":{\"@type\":\"ton.blockId\",\"workchain\":");
        let w = integer(self.workchain);
        f.append(w.as_str());
        f.append(",\"shard\":");
        let s = json_quote(self.shard.as_str());
        f.append(s.as_str());
        f.append(",\"seqno\":");
        let q = opt_number(self.seqno);
        f.append(q.as_str());
        f.append("},\"lt\":");
        let l = opt_quote(&self.lt);
        f.append(l.as_str());
        f.append(",\"utime\":");
        let u = opt_number(self.utime);
        f.append(u.as_str());
        wrap(extra, &f)
    }
}

} // verus!
