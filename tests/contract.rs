use phoenix_escrow::contract::{instantiate, AuctionHouse};
use phoenix_escrow::msg::{ExecuteMsg, ExecuteOutcome, InstantiateMsg, MessageInfo, QueryMsg, QueryResponse};
use phoenix_escrow::state::AuctionStatus;

const TEST_CREATOR: &str = "creator";
const NOW: u64 = 1_571_797_419;

fn info(sender: &str) -> MessageInfo {
    MessageInfo { sender: sender.to_string(), funds: vec![] }
}

fn setup() -> AuctionHouse {
    let msg = InstantiateMsg { owner: None, bid_denom: None, min_bid_increment: None, max_duration_days: None };
    instantiate(&info(TEST_CREATOR), msg)
}

fn create(description: &str, starting_price: u128, duration_days: u64) -> ExecuteMsg {
    ExecuteMsg::CreateAuction {
        item_description: description.to_string(),
        starting_price,
        reserve_price: None,
        duration_days,
    }
}

#[test]
fn test_instantiate() {
    let house = setup();
    assert_eq!(house.config.owner, TEST_CREATOR);
    assert_eq!(house.query_auction_count(), 0);
}

#[test]
fn test_create_auction_success() {
    let mut house = setup();
    let res = house.execute(&info(TEST_CREATOR), NOW, create("1oz Gold Bar", 1000, 7)).unwrap();
    match res {
        ExecuteOutcome::Created { auction_id, seller } => {
            assert_eq!(auction_id, 1);
            assert_eq!(seller, TEST_CREATOR);
        }
        other => panic!("unexpected outcome {:?}", other),
    }
    assert_eq!(house.query_auction_count(), 1);
    let auction = house.query_auction(1).unwrap();
    assert_eq!(auction.id, 1);
    assert_eq!(auction.description, "1oz Gold Bar");
    assert_eq!(auction.starting_price, 1000);
    assert!(matches!(auction.status, AuctionStatus::Active));
}

#[test]
fn test_create_auction_validation_errors() {
    let mut house = setup();
    let res = house.execute(&info(TEST_CREATOR), NOW, create("", 1000, 7));
    assert!(res.is_err());
    let res = house.execute(&info(TEST_CREATOR), NOW, create("1oz Gold Bar", 0, 7));
    assert!(res.is_err());
    let res = house.execute(&info(TEST_CREATOR), NOW, create("1oz Gold Bar", 1000, 0));
    assert!(res.is_err());
    let res = house.execute(&info(TEST_CREATOR), NOW, create("1oz Gold Bar", 1000, 400));
    assert!(res.is_err());
}

#[test]
fn test_query_auction() {
    let mut house = setup();
    house.execute(&info(TEST_CREATOR), NOW, create("1oz Gold Bar", 1000, 7)).unwrap();
    let res = house.query(&QueryMsg::GetAuction { id: 1 }).unwrap();
    let auction = match res {
        QueryResponse::Auction(a) => a,
        other => panic!("unexpected response {:?}", other),
    };
    assert_eq!(auction.id, 1);
    assert_eq!(auction.description, "1oz Gold Bar");
    assert_eq!(auction.starting_price, 1000);
    assert!(matches!(auction.status, AuctionStatus::Active));
}

#[test]
fn test_query_auction_count() {
    let mut house = setup();
    house.execute(&info(TEST_CREATOR), NOW, create("Auction 1", 1000, 7)).unwrap();
    house.execute(&info(TEST_CREATOR), NOW, create("Auction 2", 2000, 3)).unwrap();
    let res = house.query(&QueryMsg::GetAuctionCount {}).unwrap();
    let count = match res {
        QueryResponse::Count(c) => c,
        other => panic!("unexpected response {:?}", other),
    };
    assert_eq!(count, 2);
}
