use ton_bridge::history::TxPager;
use ton_bridge::types::{
    AccountState, BlockId, Transaction, TransactionId, TransactionMessage,
    TransactionMessageAddress, Transactions,
};

fn tx(lt: &str) -> Transaction {
    let addr = |a: &str| TransactionMessageAddress { account_address: a.to_string() };
    Transaction {
        transaction_id: TransactionId { hash: format!("h{lt}"), lt: lt.to_string() },
        data: String::new(),
        fee: "0".to_string(),
        other_fee: "0".to_string(),
        storage_fee: "0".to_string(),
        utime: 0,
        in_msg: TransactionMessage::new(
            addr("dst"),
            addr("src"),
            String::new(),
            lt.to_string(),
            "0".to_string(),
            "0".to_string(),
            "0".to_string(),
        ),
        out_msgs: Vec::new(),
    }
}

fn page(lts: &[&str], next: Option<&str>) -> Transactions {
    Transactions {
        previous_transaction_id: next
            .map(|n| TransactionId { hash: format!("h{n}"), lt: n.to_string() }),
        transactions: lts.iter().map(|l| tx(l)).collect(),
    }
}

fn lts(txs: &[Transaction]) -> Vec<String> {
    txs.iter().map(|t| t.transaction_id.lt.clone()).collect()
}

fn run(mut pager: TxPager, mut pages: Vec<Option<Transactions>>) -> (Vec<String>, usize) {
    let mut trips = 0;
    while let Some(_req) = pager.next_request() {
        trips += 1;
        let p = if pages.is_empty() { None } else { pages.remove(0) };
        pager.on_page(p);
    }
    (lts(&pager.into_transactions()), trips)
}

fn pager(to: Option<&str>, limit: Option<usize>) -> TxPager {
    TxPager::new(
        "acc".to_string(),
        Some("100".to_string()),
        Some("h100".to_string()),
        to.map(|s| s.to_string()),
        limit,
    )
}

#[test]
fn stops_exactly_at_stop_position() {
    let pages = vec![Some(page(&["100", "90"], Some("80"))), Some(page(&["80", "70", "60"], Some("50")))];
    let (got, trips) = run(pager(Some("70"), Some(10)), pages);
    assert_eq!(got, vec!["100", "90", "80"]);
    assert_eq!(trips, 2);
}

#[test]
fn never_returns_more_than_limit() {
    let pages = vec![Some(page(&["100", "90", "80"], Some("70"))), Some(page(&["70", "60"], None))];
    let (got, trips) = run(pager(None, Some(4)), pages);
    assert_eq!(got, vec!["100", "90", "80", "70"]);
    assert_eq!(trips, 2);
}

#[test]
fn default_limit_is_ten() {
    let many: Vec<String> = (0..15).map(|i| format!("{}", 1000 - i)).collect();
    let refs: Vec<&str> = many.iter().map(|s| s.as_str()).collect();
    let (got, trips) = run(pager(None, None), vec![Some(page(&refs, None))]);
    assert_eq!(got.len(), 10);
    assert_eq!(trips, 1);
}

#[test]
fn empty_page_ends_retrieval() {
    let pages = vec![Some(page(&["100"], Some("90"))), Some(page(&[], None))];
    let (got, trips) = run(pager(None, Some(10)), pages);
    assert_eq!(got, vec!["100"]);
    assert_eq!(trips, 2);
}

#[test]
fn failed_round_trip_keeps_what_was_collected() {
    let pages = vec![Some(page(&["100", "90"], Some("80"))), None];
    let (got, _) = run(pager(None, Some(10)), pages);
    assert_eq!(got, vec!["100", "90"]);
}

#[test]
fn zero_limit_sends_nothing() {
    let (got, trips) = run(pager(None, Some(0)), vec![Some(page(&["1"], None))]);
    assert!(got.is_empty());
    assert_eq!(trips, 0);
}

#[test]
fn page_moves_start_position() {
    let mut p = pager(None, Some(10));
    p.on_page(Some(page(&["100"], Some("90"))));
    let req = p.next_request().expect("more pages");
    assert_eq!(req.from_transaction_lt.as_deref(), Some("90"));
    assert_eq!(req.from_transaction_hash.as_deref(), Some("h90"));
    assert_eq!(req.address, "acc");
}

fn state(lt: &str, hash: &str) -> AccountState {
    AccountState {
        balance: "1".to_string(),
        block_id: BlockId {
            file_hash: String::new(),
            root_hash: String::new(),
            seqno: 1,
            shard: "s".to_string(),
            workchain: 0,
        },
        code: String::new(),
        data: String::new(),
        frozen_hash: String::new(),
        last_transaction_id: TransactionId { hash: hash.to_string(), lt: lt.to_string() },
        sync_utime: 0,
    }
}

#[test]
fn missing_start_is_taken_from_account_state() {
    let mut p = TxPager::new("acc".to_string(), Some("55".to_string()), None, None, None);
    assert!(p.needs_account_state());
    p.seed(Some(&state("99", "hh")));
    let req = p.next_request().expect("a page");
    assert_eq!(req.from_transaction_lt.as_deref(), Some("55"));
    assert_eq!(req.from_transaction_hash.as_deref(), Some("hh"));
}

#[test]
fn no_account_state_gives_empty_history() {
    let mut p = TxPager::new("acc".to_string(), None, None, None, None);
    p.seed(None);
    assert!(p.next_request().is_none());
    assert!(p.into_transactions().is_empty());
}

#[test]
fn message_addresses() {
    let t = tx("5");
    assert_eq!(t.in_msg.source(), "src");
    assert_eq!(t.in_msg.destination(), "dst");
}
