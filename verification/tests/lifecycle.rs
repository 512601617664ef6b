use otc::bank::{Coin, Transfer};
use otc::contract::{
    deadline_in_range, execute, instantiate, query_deal, try_accept_deal, try_cancel_deal,
    try_create_deal, try_withdraw,
};
use otc::error::ContractError;
use otc::msg::{ExecuteMsg, InstantiateMsg, MessageInfo};
use otc::state::{Ledger, Status};

const NOW: u64 = 1_000_000;

fn coins(amount: u128, denom: &str) -> Vec<Coin> {
    vec![Coin { denom: denom.to_string(), amount }]
}

fn caller(sender: &str, funds: Vec<Coin>) -> MessageInfo {
    MessageInfo { sender: sender.to_string(), funds }
}

fn send(to_address: &str, amount: Vec<Coin>) -> Transfer {
    Transfer { to_address: to_address.to_string(), amount }
}

fn new_ledger() -> Ledger {
    instantiate(InstantiateMsg { default_timeout: Some(3600) }).unwrap().0
}

/// Lets "creator" deposit 1000 A for 500 B at NOW, and returns the id.
fn open_deal(ledger: &mut Ledger, recipient: Option<&str>) -> u64 {
    let id = ledger.next_deal_id();
    try_create_deal(
        ledger,
        NOW,
        caller("creator", coins(1000, "A")),
        "A".to_string(),
        1000,
        "B".to_string(),
        500,
        recipient.map(|r| Ok(r.to_string())),
        None,
    )
    .unwrap();
    id
}

fn accept(ledger: &mut Ledger, now: u64, who: &str, id: u64) -> Result<otc::response::Response, ContractError> {
    try_accept_deal(ledger, now, caller(who, coins(500, "B")), id, "B".to_string(), 500)
}

fn status(ledger: &Ledger, id: u64) -> Status {
    query_deal(ledger, id).unwrap().status
}

#[test]
fn a_deal_is_created_accepted_and_then_closed() {
    let mut ledger = new_ledger();
    let res = execute(
        &mut ledger,
        NOW,
        caller("creator", coins(1000, "A")),
        ExecuteMsg::CreateDeal {
            denom_in: "A".to_string(),
            amount_in: 1000,
            denom_out: "B".to_string(),
            amount_out: 500,
            recipient: None,
            timeout: None,
        },
    )
    .unwrap();
    assert_eq!(res.attributes[1].key, "deal_id");
    assert_eq!(res.attributes[1].value, "0");
    let deal = query_deal(&ledger, 0).unwrap();
    assert_eq!(deal.timeout, NOW + 3600);
    assert_eq!(deal.status, Status::Open);

    let res = execute(
        &mut ledger,
        NOW + 10,
        caller("second", coins(500, "B")),
        ExecuteMsg::AcceptDeal { deal_id: 0, denom_out: "B".to_string(), amount_out: 500 },
    )
    .unwrap();
    assert_eq!(status(&ledger, 0), Status::Executed);
    assert_eq!(res.messages, vec![send("second", coins(1000, "A")), send("creator", coins(500, "B"))]);

    for who in ["second", "creator", "third"] {
        let err = execute(
            &mut ledger,
            NOW + 20,
            caller(who, coins(500, "B")),
            ExecuteMsg::AcceptDeal { deal_id: 0, denom_out: "B".to_string(), amount_out: 500 },
        )
        .unwrap_err();
        assert_eq!(err, ContractError::DealNotOpen {});
    }
    assert_eq!(status(&ledger, 0), Status::Executed);
}

#[test]
fn a_deal_is_cancelled_before_its_timeout() {
    let mut ledger = new_ledger();
    open_deal(&mut ledger, None);
    let res = try_cancel_deal(&mut ledger, NOW + 1, caller("creator", vec![]), 0).unwrap();
    assert_eq!(status(&ledger, 0), Status::Cancelled);
    assert_eq!(res.messages, vec![send("creator", coins(1000, "A"))]);
}

#[test]
fn an_executed_deal_cannot_be_cancelled() {
    let mut ledger = new_ledger();
    open_deal(&mut ledger, None);
    accept(&mut ledger, NOW, "second", 0).unwrap();
    let err = try_cancel_deal(&mut ledger, NOW + 1, caller("creator", vec![]), 0).unwrap_err();
    assert_eq!(err, ContractError::DealNotOpen {});
    assert_eq!(status(&ledger, 0), Status::Executed);
}

#[test]
fn withdraw_waits_for_the_timeout_and_for_the_creator() {
    let mut ledger = new_ledger();
    open_deal(&mut ledger, None);
    let timeout = NOW + 3600;

    let err = try_withdraw(&mut ledger, NOW, caller("creator", vec![]), 0).unwrap_err();
    assert_eq!(err, ContractError::DealNotExpired {});
    let err = try_withdraw(&mut ledger, timeout, caller("creator", vec![]), 0).unwrap_err();
    assert_eq!(err, ContractError::DealNotExpired {});
    // before the timeout the time is named, whoever calls
    let err = try_withdraw(&mut ledger, timeout, caller("other", vec![]), 0).unwrap_err();
    assert_eq!(err, ContractError::DealNotExpired {});

    let err = try_withdraw(&mut ledger, timeout + 1, caller("other", vec![]), 0).unwrap_err();
    assert_eq!(err, ContractError::Unauthorized {});
    assert_eq!(status(&ledger, 0), Status::Open);

    let res = try_withdraw(&mut ledger, timeout + 1, caller("creator", vec![]), 0).unwrap();
    assert_eq!(res.messages, vec![send("creator", coins(1000, "A"))]);
    assert_eq!(status(&ledger, 0), Status::Expired);
}

#[test]
fn a_deposit_is_withdrawn_only_once() {
    let mut ledger = new_ledger();
    open_deal(&mut ledger, None);
    try_withdraw(&mut ledger, NOW + 3601, caller("creator", vec![]), 0).unwrap();
    let before = ledger.clone();
    let err = try_withdraw(&mut ledger, NOW + 3602, caller("creator", vec![]), 0).unwrap_err();
    assert_eq!(err, ContractError::DealNotOpen {});
    let err = accept(&mut ledger, NOW + 3602, "second", 0).unwrap_err();
    assert_eq!(err, ContractError::DealNotOpen {});
    let err = try_cancel_deal(&mut ledger, NOW + 3602, caller("creator", vec![]), 0).unwrap_err();
    assert_eq!(err, ContractError::DealNotOpen {});
    assert_eq!(ledger, before);
}

#[test]
fn a_wrong_deposit_creates_nothing() {
    let mut ledger = new_ledger();
    open_deal(&mut ledger, None);
    let before = ledger.clone();
    let cases: Vec<(Vec<Coin>, ContractError)> = vec![
        (vec![], ContractError::InvalidFundsLength {}),
        (
            vec![Coin { denom: "A".to_string(), amount: 1000 }, Coin { denom: "A".to_string(), amount: 1000 }],
            ContractError::InvalidFundsLength {},
        ),
        (
            vec![Coin { denom: "A".to_string(), amount: 600 }, Coin { denom: "A".to_string(), amount: 400 }],
            ContractError::InvalidFundsLength {},
        ),
        (coins(1000, "B"), ContractError::InvalidFundsDenom {}),
        (coins(1000, "a"), ContractError::InvalidFundsDenom {}),
        (coins(1000, ""), ContractError::InvalidFundsDenom {}),
        (coins(999, "A"), ContractError::InvalidFundsAmount {}),
        (coins(1001, "A"), ContractError::InvalidFundsAmount {}),
        (coins(0, "A"), ContractError::InvalidFundsAmount {}),
    ];
    for (funds, expected) in cases {
        let err = try_create_deal(
            &mut ledger,
            NOW,
            caller("creator", funds),
            "A".to_string(),
            1000,
            "B".to_string(),
            500,
            None,
            None,
        )
        .unwrap_err();
        assert_eq!(err, expected);
        assert_eq!(ledger, before);
        assert_eq!(ledger.next_deal_id(), 1);
    }
}

#[test]
fn ids_count_up_from_zero() {
    let mut ledger = new_ledger();
    let mut issued = Vec::new();
    for round in 0..5u64 {
        // a creation that fails and calls that create nothing use up no id
        let _ = try_create_deal(
            &mut ledger,
            NOW,
            caller("creator", vec![]),
            "A".to_string(),
            1000,
            "B".to_string(),
            500,
            None,
            None,
        )
        .unwrap_err();
        let _ = try_cancel_deal(&mut ledger, NOW, caller("creator", vec![]), 99);
        let res = try_create_deal(
            &mut ledger,
            NOW + round,
            caller("creator", coins(1000, "A")),
            "A".to_string(),
            1000,
            "B".to_string(),
            500,
            None,
            None,
        )
        .unwrap();
        issued.push(res.attributes[1].value.clone());
        if round % 2 == 0 {
            try_cancel_deal(&mut ledger, NOW + round, caller("creator", vec![]), round).unwrap();
        }
    }
    assert_eq!(issued, vec!["0", "1", "2", "3", "4"]);
    assert_eq!(ledger.next_deal_id(), 5);
    for id in 0..5u64 {
        assert_eq!(query_deal(&ledger, id).unwrap().id, id);
    }
}

#[test]
fn accept_needs_the_exact_terms() {
    let mut ledger = new_ledger();
    open_deal(&mut ledger, None);
    let before = ledger.clone();
    let cases: Vec<(&str, u128, ContractError)> = vec![
        ("B", 499, ContractError::InvalidFundsAmount {}),
        ("B", 501, ContractError::InvalidFundsAmount {}),
        ("B", 0, ContractError::InvalidFundsAmount {}),
        ("B", u128::MAX, ContractError::InvalidFundsAmount {}),
        ("A", 500, ContractError::InvalidFundsDenom {}),
        ("b", 500, ContractError::InvalidFundsDenom {}),
        ("BB", 500, ContractError::InvalidFundsDenom {}),
        ("A", 1000, ContractError::InvalidFundsDenom {}),
    ];
    for (denom, amount, expected) in cases {
        let err = try_accept_deal(
            &mut ledger,
            NOW,
            caller("second", coins(amount, denom)),
            0,
            denom.to_string(),
            amount,
        )
        .unwrap_err();
        assert_eq!(err, expected);
        assert_eq!(ledger, before);
    }
    accept(&mut ledger, NOW, "second", 0).unwrap();
}

#[test]
fn only_the_recipient_accepts() {
    let mut ledger = new_ledger();
    open_deal(&mut ledger, Some("friend"));
    let before = ledger.clone();
    for who in ["second", "creator", "Friend", "friend ", ""] {
        let err = accept(&mut ledger, NOW, who, 0).unwrap_err();
        assert_eq!(err, ContractError::Unauthorized {});
        assert_eq!(ledger, before);
    }
    let res = accept(&mut ledger, NOW, "friend", 0).unwrap();
    assert_eq!(res.messages, vec![send("friend", coins(1000, "A")), send("creator", coins(500, "B"))]);
    assert_eq!(status(&ledger, 0), Status::Executed);
}

#[test]
fn a_stranger_after_the_timeout_is_told_of_the_time() {
    let mut ledger = new_ledger();
    open_deal(&mut ledger, Some("friend"));
    let err = accept(&mut ledger, NOW + 3601, "second", 0).unwrap_err();
    assert_eq!(err, ContractError::DealExpired {});
}

#[test]
fn anyone_accepts_a_deal_without_recipient() {
    let mut ledger = new_ledger();
    open_deal(&mut ledger, None);
    open_deal(&mut ledger, None);
    accept(&mut ledger, NOW, "second", 0).unwrap();
    accept(&mut ledger, NOW, "creator", 1).unwrap();
}

#[test]
fn accept_ends_with_the_timeout() {
    let timeout = NOW + 3600;
    for now in [0, NOW, timeout - 1, timeout] {
        let mut ledger = new_ledger();
        open_deal(&mut ledger, None);
        accept(&mut ledger, now, "second", 0).unwrap();
        assert_eq!(status(&ledger, 0), Status::Executed);
    }
    for now in [timeout + 1, timeout + 2, u64::MAX] {
        let mut ledger = new_ledger();
        open_deal(&mut ledger, None);
        let err = accept(&mut ledger, now, "second", 0).unwrap_err();
        assert_eq!(err, ContractError::DealExpired {});
        assert_eq!(status(&ledger, 0), Status::Open);
    }
}

#[test]
fn cancel_ends_with_the_timeout() {
    let timeout = NOW + 3600;
    for now in [0, NOW, timeout - 1, timeout] {
        let mut ledger = new_ledger();
        open_deal(&mut ledger, None);
        try_cancel_deal(&mut ledger, now, caller("creator", vec![]), 0).unwrap();
        assert_eq!(status(&ledger, 0), Status::Cancelled);
    }
    for now in [timeout + 1, timeout + 2, u64::MAX] {
        let mut ledger = new_ledger();
        open_deal(&mut ledger, None);
        let err = try_cancel_deal(&mut ledger, now, caller("creator", vec![]), 0).unwrap_err();
        assert_eq!(err, ContractError::DealExpired {});
        assert_eq!(status(&ledger, 0), Status::Open);
    }
}

#[test]
fn a_final_deal_refuses_everything() {
    for last in [Status::Executed, Status::Cancelled, Status::Expired] {
        let mut ledger = new_ledger();
        open_deal(&mut ledger, None);
        match last {
            Status::Executed => {
                accept(&mut ledger, NOW, "second", 0).unwrap();
            }
            Status::Cancelled => {
                try_cancel_deal(&mut ledger, NOW, caller("creator", vec![]), 0).unwrap();
            }
            _ => {
                try_withdraw(&mut ledger, NOW + 3601, caller("creator", vec![]), 0).unwrap();
            }
        }
        assert_eq!(status(&ledger, 0), last);
        let before = ledger.clone();
        for now in [0, NOW, NOW + 3600, NOW + 3601, u64::MAX] {
            for who in ["creator", "second", "third"] {
                let err = accept(&mut ledger, now, who, 0).unwrap_err();
                assert_eq!(err, ContractError::DealNotOpen {});
                let err = try_accept_deal(
                    &mut ledger,
                    now,
                    caller(who, vec![]),
                    0,
                    "wrong".to_string(),
                    1,
                )
                .unwrap_err();
                assert_eq!(err, ContractError::DealNotOpen {});
                let err = try_cancel_deal(&mut ledger, now, caller(who, vec![]), 0).unwrap_err();
                assert_eq!(err, ContractError::DealNotOpen {});
                let err = try_withdraw(&mut ledger, now, caller(who, vec![]), 0).unwrap_err();
                assert_eq!(err, ContractError::DealNotOpen {});
                assert_eq!(ledger, before);
            }
        }
    }
}

#[test]
fn other_deals_are_left_alone() {
    let mut ledger = new_ledger();
    open_deal(&mut ledger, None);
    open_deal(&mut ledger, Some("friend"));
    open_deal(&mut ledger, None);
    let first = query_deal(&ledger, 0).unwrap();
    let last = query_deal(&ledger, 2).unwrap();
    accept(&mut ledger, NOW, "friend", 1).unwrap();
    assert_eq!(query_deal(&ledger, 0).unwrap(), first);
    assert_eq!(query_deal(&ledger, 2).unwrap(), last);
    let mut middle = query_deal(&ledger, 1).unwrap();
    assert_eq!(middle.status, Status::Executed);
    middle.status = Status::Open;
    assert_eq!(middle.creator, "creator");
    assert_eq!(middle.recipient, Some("friend".to_string()));
    assert_eq!(middle.timeout, NOW + 3600);
}

#[test]
fn a_deadline_is_in_range_while_it_fits() {
    let ledger = new_ledger();
    let create = |timeout: Option<u64>| ExecuteMsg::CreateDeal {
        denom_in: "A".to_string(),
        amount_in: 1000,
        denom_out: "B".to_string(),
        amount_out: 500,
        recipient: None,
        timeout,
    };
    let exact = caller("creator", coins(1000, "A"));
    assert!(deadline_in_range(&ledger, NOW, &exact, &create(None)));
    assert!(deadline_in_range(&ledger, NOW, &exact, &create(Some(u64::MAX - NOW))));
    assert!(!deadline_in_range(&ledger, NOW, &exact, &create(Some(u64::MAX - NOW + 1))));
    assert!(deadline_in_range(&ledger, u64::MAX - 3600, &exact, &create(None)));
    assert!(!deadline_in_range(&ledger, u64::MAX - 3599, &exact, &create(None)));
    // a creation that is refused computes no deadline
    let nothing = caller("creator", vec![]);
    assert!(deadline_in_range(&ledger, NOW, &nothing, &create(Some(u64::MAX))));
    assert!(deadline_in_range(&ledger, u64::MAX, &exact, &create(Some(0))));
    // nor does any other call
    assert!(deadline_in_range(&ledger, u64::MAX, &exact, &ExecuteMsg::Withdraw { deal_id: 0 }));
    assert!(deadline_in_range(&ledger, u64::MAX, &exact, &ExecuteMsg::CancelDeal { deal_id: 0 }));
}

#[test]
fn the_latest_deadline_is_recorded() {
    let mut ledger = new_ledger();
    try_create_deal(
        &mut ledger,
        NOW,
        caller("creator", coins(1000, "A")),
        "A".to_string(),
        1000,
        "B".to_string(),
        500,
        None,
        Some(u64::MAX - NOW),
    )
    .unwrap();
    assert_eq!(query_deal(&ledger, 0).unwrap().timeout, u64::MAX);
    accept(&mut ledger, u64::MAX, "second", 0).unwrap();
}
