use ethers::types::{Transaction, H160, H256, U256};
use tx_listener::{
    Address, Amount, ClientMiddleware, Event, Next, Pending, Report, TransactionRecord, TxHash,
};

#[test]
fn report_round_trips_through_node_types() {
    let tx = Transaction {
        hash: H256::from_low_u64_be(0xABCD),
        from: H160::from_low_u64_be(0x1111),
        value: U256::from(42u64),
        ..Transaction::default()
    };
    let record = TransactionRecord { from: Address(tx.from.0), value: Amount(tx.value.0) };
    let client = ClientMiddleware::new(());
    let step = client
        .listen_transactions::<String>(Pending::Lookup(TxHash(tx.hash.0)), Event::Lookup(Ok(Some(record))))
        .expect("a lookup was awaited");
    assert_eq!(step.next, Next::Await(Pending::NextHash));
    let report: Report = step.report.expect("the record was found");
    assert_eq!(H256(report.hash.0), tx.hash);
    assert_eq!(H160(report.from.0), tx.from);
    assert_eq!(U256(report.value.0), U256::from(42u64));
    assert_eq!(format!("{:?}", U256(report.value.0)), "42");
    assert_eq!(
        format!("{:?}", H160(report.from.0)),
        "0x0000000000000000000000000000000000001111"
    );
}
