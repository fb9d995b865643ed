use direct_sales::bids::{place_bid, BidStep, OrderBook, BID_DEPOSIT};
use direct_sales::transfer::{AccountRole, TransferProgram};

#[test]
fn place_bid_pays_deposit_first() {
    match place_bid(0) {
        BidStep::Transfer(t) => {
            assert_eq!(t.program, TransferProgram::System);
            assert_eq!(t.from, AccountRole::Signer);
            assert_eq!(t.to, AccountRole::AssetVault);
            assert_eq!(t.amount, BID_DEPOSIT);
            assert_eq!(t.amount, 100);
        }
        other => panic!("expected the deposit, got {:?}", other),
    }
}

#[test]
fn place_bid_records_fixed_bid_with_fresh_addresses() {
    let first = match place_bid(1) {
        BidStep::Record(o) => o,
        other => panic!("expected a bid, got {:?}", other),
    };
    let second = match place_bid(1) {
        BidStep::Record(o) => o,
        other => panic!("expected a bid, got {:?}", other),
    };
    assert_eq!((first.size, first.price, first.total), (2, 120, 240));
    assert_ne!(first.asset.bytes, first.owner.bytes);
    assert_ne!(first.owner.bytes, second.owner.bytes);
    assert_eq!(&first.owner.bytes[8..], &[0u8; 24]);
    assert_ne!(first.owner.bytes, [0u8; 32]);
    assert_ne!(&first.asset.bytes[..8], &[0u8; 8]);
    assert_eq!(&first.asset.bytes[8..], &[0u8; 24]);
    let mut book = OrderBook::new();
    book.record(first);
    book.record(second);
    assert_eq!(book.orders.len(), 2);
    assert_eq!(book.orders[0].owner.bytes, first.owner.bytes);
}
