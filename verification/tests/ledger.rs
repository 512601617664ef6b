use otc::bank::{Coin, Transfer};
use otc::contract::{try_cancel_deal, try_create_deal};
use otc::decimal::to_decimal;
use otc::msg::MessageInfo;
use otc::response::{Attribute, Response};
use otc::state::{Config, Deal, Ledger, Status};

fn deal(id: u64, status: Status) -> Deal {
    Deal {
        id,
        creator: "creator".to_string(),
        recipient: Some("friend".to_string()),
        denom_in: "A".to_string(),
        amount_in: 1000,
        denom_out: "B".to_string(),
        amount_out: 500,
        status,
        timeout: 77,
    }
}

#[test]
fn decimal_of_small_numbers() {
    assert_eq!(to_decimal(0), "0");
    assert_eq!(to_decimal(7), "7");
    assert_eq!(to_decimal(9), "9");
    assert_eq!(to_decimal(10), "10");
    assert_eq!(to_decimal(11), "11");
    assert_eq!(to_decimal(99), "99");
    assert_eq!(to_decimal(100), "100");
    assert_eq!(to_decimal(1234567890), "1234567890");
}

#[test]
fn decimal_agrees_with_the_standard_rendering() {
    let mut n: u128 = 1;
    for _ in 0..127 {
        assert_eq!(to_decimal(n), n.to_string());
        assert_eq!(to_decimal(n - 1), (n - 1).to_string());
        n *= 2;
    }
    assert_eq!(to_decimal(u64::MAX as u128), "18446744073709551615");
    assert_eq!(to_decimal(u128::MAX), "340282366920938463463374607431768211455");
}

#[test]
fn a_response_collects_in_order() {
    let empty = Response::new();
    assert_eq!(empty.attributes, vec![]);
    assert_eq!(empty.messages, vec![]);
    let first = Transfer { to_address: "a".to_string(), amount: vec![] };
    let second = Transfer {
        to_address: "b".to_string(),
        amount: vec![Coin { denom: "x".to_string(), amount: 1 }],
    };
    let r = Response::new()
        .add_attribute("k1".to_string(), "v1".to_string())
        .add_message(first.clone())
        .add_attribute("k2".to_string(), "v2".to_string())
        .add_message(second.clone());
    assert_eq!(
        r.attributes,
        vec![
            Attribute { key: "k1".to_string(), value: "v1".to_string() },
            Attribute { key: "k2".to_string(), value: "v2".to_string() },
        ]
    );
    assert_eq!(r.messages, vec![first, second]);
}

#[test]
fn a_duplicate_equals_its_deal() {
    let d = deal(3, Status::Cancelled);
    assert_eq!(d.duplicate(), d);
    let mut plain = deal(0, Status::Open);
    plain.recipient = None;
    assert_eq!(plain.duplicate(), plain);
}

#[test]
fn a_ledger_is_restored_from_its_parts() {
    let deals = vec![deal(0, Status::Executed), deal(1, Status::Open), deal(2, Status::Expired)];
    let ledger = Ledger::restore(Config { default_timeout: 60 }, deals.clone()).unwrap();
    assert_eq!(ledger.config(), Config { default_timeout: 60 });
    assert_eq!(ledger.next_deal_id(), 3);
    for id in 0..3u64 {
        assert!(ledger.has(id));
        assert_eq!(ledger.deal(id), Some(&deals[id as usize]));
    }
    assert!(!ledger.has(3));
    assert_eq!(ledger.deal(3), None);
    assert_eq!(ledger.deal(u64::MAX), None);
}

#[test]
fn an_empty_ledger_is_restored() {
    let ledger = Ledger::restore(Config { default_timeout: 1 }, vec![]).unwrap();
    assert_eq!(ledger.next_deal_id(), 0);
    assert_eq!(ledger.deal(0), None);
}

#[test]
fn a_ledger_without_timeout_is_not_restored() {
    assert_eq!(Ledger::restore(Config { default_timeout: 0 }, vec![]), None);
    assert_eq!(Ledger::restore(Config { default_timeout: 0 }, vec![deal(0, Status::Open)]), None);
}

#[test]
fn a_ledger_with_misplaced_ids_is_not_restored() {
    let config = Config { default_timeout: 60 };
    assert_eq!(Ledger::restore(config, vec![deal(1, Status::Open)]), None);
    assert_eq!(Ledger::restore(config, vec![deal(0, Status::Open), deal(0, Status::Open)]), None);
    assert_eq!(Ledger::restore(config, vec![deal(0, Status::Open), deal(2, Status::Open)]), None);
    assert_eq!(
        Ledger::restore(config, vec![deal(0, Status::Open), deal(1, Status::Open), deal(1, Status::Open)]),
        None
    );
}

#[test]
fn a_restored_ledger_goes_on() {
    let mut ledger =
        Ledger::restore(Config { default_timeout: 60 }, vec![deal(0, Status::Open)]).unwrap();
    let info = MessageInfo {
        sender: "other".to_string(),
        funds: vec![Coin { denom: "C".to_string(), amount: 5 }],
    };
    let res =
        try_create_deal(&mut ledger, 100, info, "C".to_string(), 5, "D".to_string(), 6, None, None).unwrap();
    assert_eq!(res.attributes[1].value, "1");
    assert_eq!(ledger.deal(1).unwrap().timeout, 160);
    let creator = MessageInfo { sender: "creator".to_string(), funds: vec![] };
    try_cancel_deal(&mut ledger, 77, creator, 0).unwrap();
    assert_eq!(ledger.deal(0).unwrap().status, Status::Cancelled);
}
