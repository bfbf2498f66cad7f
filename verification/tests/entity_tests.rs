use exchange_model::account::{
    Account, AccountHistory, AccountHistoryDetails, AccountHistoryDetailsTransferType,
    AccountHistoryType, AccountHolds, AccountHoldsType,
};
use exchange_model::codec::Token;
use exchange_model::decimal::Decimal;
use exchange_model::error::DecodeError;
use exchange_model::ident::Uuid;
use exchange_model::instant::Instant;
use exchange_model::market::{
    Book, BookLevel, BookRecordL1, BookRecordL2, BookRecordL3, Candle, Currency, Granularity,
    Product, Stats24H, Ticker, Time, Trade,
};
use exchange_model::message::Error;
use exchange_model::order::{
    Fill, FillLiquidity, Order, OrderSide, OrderStatus, OrderStop, OrderStopType,
    OrderTimeInForce, OrderType,
};
use exchange_model::transfer::{Fees, TrailingVolume, Transfer, TransferDetails, TransferType};
use exchange_model::value::{find, Value};

fn convert(v: &serde_json::Value) -> Value {
    match v {
        serde_json::Value::Null => Value::Null,
        serde_json::Value::Bool(b) => Value::Bool(*b),
        serde_json::Value::Number(n) => {
            Value::Number(Decimal::parse(&n.to_string()).expect("a plain decimal"))
        }
        serde_json::Value::String(s) => Value::Text(s.clone()),
        serde_json::Value::Array(items) => Value::List(items.iter().map(convert).collect()),
        serde_json::Value::Object(fields) => {
            Value::Object(fields.iter().map(|(k, v)| (k.clone(), convert(v))).collect())
        }
    }
}

fn tree(json: &str) -> Value {
    convert(&serde_json::from_str::<serde_json::Value>(json).expect("valid JSON"))
}

fn dec(text: &str) -> Decimal {
    Decimal::parse(text).expect("a decimal")
}

fn id(text: &str) -> Uuid {
    Uuid::parse(text).expect("a uuid")
}

fn at(seconds: i64, nanos: u32) -> Instant {
    Instant::new(seconds, nanos).expect("an instant")
}

fn shown(v: &Value) -> String {
    format!("{:?}", v)
}

fn missing(name: &str) -> DecodeError {
    DecodeError::MissingField(name.to_string())
}

fn mismatch(name: &str) -> DecodeError {
    DecodeError::TypeMismatch(name.to_string())
}

const LIMIT: &str = r#"{"id":"e9d0ff7a-ed50-4040-87a7-c884ae562807","price":"1.12000000","size":"1.00000000","product_id":"BTC-USD","side":"buy","stp":"dc","type":"limit","time_in_force":"GTC","post_only":true,"created_at":"2018-08-23T18:53:42.144811Z","fill_fees":"0.0000000000000000","filled_size":"0.00000000","executed_value":"0.0000000000000000","status":"pending","settled":false}"#;

const MARKET: &str = r#"{"id":"ea565dc3-1656-49d7-bcdb-d99981ce35a7","size":"0.00100000","product_id":"BTC-USD","side":"buy","stp":"dc","funds":"28.2449436100000000","type":"market","post_only":false,"created_at":"2018-08-23T18:43:18.964413Z","fill_fees":"0.0000000000000000","filled_size":"0.00000000","executed_value":"0.0000000000000000","status":"pending","settled":false}"#;

const LISTED: &str = r#"{"id":"063da13d-6aba-45e1-91ca-89f8514da989","price":"100000.00000000","size":"0.00100000","product_id":"BTC-USD","side":"sell","type":"limit","time_in_force":"GTC","post_only":true,"created_at":"2018-08-24T04:50:01.139098Z","fill_fees":"0.0000000000000000","filled_size":"0.00000000","executed_value":"0.0000000000000000","status":"open","settled":false}"#;

#[test]
fn limit_order_payload() {
    let order = Order::decode(&tree(LIMIT)).unwrap();
    assert_eq!(
        order._type,
        OrderType::Limit { size: dec("1"), price: dec("1.12"), time_in_force: OrderTimeInForce::GTC }
    );
    assert_eq!(order.status, OrderStatus::Pending);
    assert!(!order.settled);
    assert_eq!(order.stop, None);
    assert_eq!(order.id, id("e9d0ff7a-ed50-4040-87a7-c884ae562807"));
    assert_eq!(order.product_id, "BTC-USD");
    assert_eq!(order.side, OrderSide::Buy);
    assert_eq!(order.stp, Some("dc".to_string()));
    assert_eq!(order.funds, None);
    assert_eq!(order.specified_funds, None);
    assert!(order.post_only);
    assert_eq!(order.created_at, at(1535050422, 144_811_000));
    assert_eq!(order.done_at, None);
    assert_eq!(order.done_reason, None);
    assert_eq!(order.fill_fees, dec("0"));
    assert_eq!(order.filled_size, dec("0"));
    assert_eq!(order.executed_value, dec("0"));
}

#[test]
fn market_order_payload() {
    let order = Order::decode(&tree(MARKET)).unwrap();
    assert_eq!(order._type, OrderType::Market { size: dec("0.001"), funds: dec("28.24494361") });
    assert_eq!(order.funds, Some(dec("28.24494361")));
    assert_eq!(order.status, OrderStatus::Pending);
    assert_eq!(order.created_at, at(1535049798, 964_413_000));
    assert!(!order.post_only);
}

#[test]
fn listed_order_has_no_stp() {
    let order = Order::decode(&tree(LISTED)).unwrap();
    assert_eq!(order.stp, None);
    assert_eq!(order.side, OrderSide::Sell);
    assert_eq!(order.status, OrderStatus::Open);
    assert_eq!(order._type.price(), Some(dec("100000")));
    assert_eq!(order._type.size(), dec("0.001"));
    assert_eq!(order._type.tag(), "limit");
}

#[test]
fn market_order_defaults_to_zero() {
    let json = MARKET.replace(r#""size":"0.00100000","#, "").replace(r#""funds":"28.2449436100000000","#, "");
    let order = Order::decode(&tree(&json)).unwrap();
    assert_eq!(order._type, OrderType::Market { size: dec("0"), funds: dec("0") });
    assert_eq!(order.funds, None);
}

#[test]
fn market_order_does_not_read_garbage_as_zero() {
    let json = MARKET.replace(r#""size":"0.00100000""#, r#""size":"""#);
    assert_eq!(Order::decode(&tree(&json)), Err(DecodeError::InvalidNumber("size".to_string())));
    let json = MARKET.replace(r#""size":"0.00100000""#, r#""size":7"#);
    assert_eq!(Order::decode(&tree(&json)), Err(mismatch("size")));
    let json = MARKET.replace(r#""funds":"28.2449436100000000""#, r#""funds":"much""#);
    assert_eq!(Order::decode(&tree(&json)), Err(DecodeError::InvalidNumber("funds".to_string())));
}

#[test]
fn market_order_counts_null_as_absent() {
    let json = MARKET.replace(r#""funds":"28.2449436100000000""#, r#""funds":null"#);
    let order = Order::decode(&tree(&json)).unwrap();
    assert_eq!(order.funds, None);
    assert_eq!(order._type, OrderType::Market { size: dec("0.001"), funds: dec("0") });
    assert_eq!(Order::decode(&order.encode()), Ok(order));
    let json = MARKET.replace(r#""size":"0.00100000""#, r#""size":null"#);
    let order = Order::decode(&tree(&json)).unwrap();
    assert_eq!(order._type, OrderType::Market { size: dec("0"), funds: dec("28.24494361") });
}

#[test]
fn unknown_order_type_fails() {
    let json = LIMIT.replace(r#""type":"limit""#, r#""type":"stop_limit""#);
    assert_eq!(Order::decode(&tree(&json)), Err(DecodeError::UnknownVariant("stop_limit".to_string())));
    let json = LIMIT.replace(r#""type":"limit","#, "");
    assert_eq!(Order::decode(&tree(&json)), Err(missing("type")));
}

#[test]
fn time_in_force_variants() {
    for (tag, expected) in [
        ("GTC", OrderTimeInForce::GTC),
        ("IOC", OrderTimeInForce::IOC),
        ("FOK", OrderTimeInForce::FOK),
    ] {
        let json = LIMIT.replace(r#""time_in_force":"GTC""#, &format!(r#""time_in_force":"{}""#, tag));
        let order = Order::decode(&tree(&json)).unwrap();
        assert_eq!(order._type.time_in_force(), Some(expected));
        assert_eq!(expected.tag(), tag);
        assert_eq!(expected.expiry(), None);
    }
    let json = LIMIT.replace(
        r#""time_in_force":"GTC""#,
        r#""time_in_force":"GTT","expire_time":"2018-08-24T18:53:42Z""#,
    );
    let order = Order::decode(&tree(&json)).unwrap();
    let gtt = OrderTimeInForce::GTT { expire_time: at(1535136822, 0) };
    assert_eq!(order._type.time_in_force(), Some(gtt));
    assert_eq!(gtt.expiry(), Some(at(1535136822, 0)));
    let json = LIMIT.replace(r#""time_in_force":"GTC""#, r#""time_in_force":"GTT""#);
    assert_eq!(Order::decode(&tree(&json)), Err(missing("expire_time")));
    let json = LIMIT.replace(r#""time_in_force":"GTC""#, r#""time_in_force":"gtc""#);
    assert_eq!(Order::decode(&tree(&json)), Err(DecodeError::UnknownVariant("gtc".to_string())));
    let json = LIMIT.replace(r#""time_in_force":"GTC","#, "");
    assert_eq!(Order::decode(&tree(&json)), Err(missing("time_in_force")));
}

#[test]
fn stop_extension_lies_beside_the_type() {
    let json = LIMIT.replace(r#""settled":false"#, r#""settled":false,"stop":"loss","stop_price":"0.9""#);
    let order = Order::decode(&tree(&json)).unwrap();
    assert_eq!(order.stop, Some(OrderStop { stop_price: dec("0.9"), _type: OrderStopType::Loss }));
    assert_eq!(order._type.tag(), "limit");
    let json = LIMIT.replace(r#""settled":false"#, r#""settled":false,"stop":"entry""#);
    assert_eq!(Order::decode(&tree(&json)), Err(missing("stop_price")));
    let json = LIMIT.replace(r#""settled":false"#, r#""settled":false,"stop":"up","stop_price":"1""#);
    assert_eq!(Order::decode(&tree(&json)), Err(DecodeError::UnknownVariant("up".to_string())));
    let json = LIMIT.replace(r#""settled":false"#, r#""settled":false,"stop":null"#);
    assert_eq!(Order::decode(&tree(&json)).unwrap().stop, None);
}

#[test]
fn order_errors_name_the_field() {
    let json = LIMIT.replace(r#""product_id":"BTC-USD","#, "");
    assert_eq!(Order::decode(&tree(&json)), Err(missing("product_id")));
    let json = LIMIT.replace(r#""post_only":true"#, r#""post_only":"yes""#);
    assert_eq!(Order::decode(&tree(&json)), Err(mismatch("post_only")));
    let json = LIMIT.replace(r#""price":"1.12000000""#, r#""price":"cheap""#);
    assert_eq!(Order::decode(&tree(&json)), Err(DecodeError::InvalidNumber("price".to_string())));
    let json = LIMIT.replace(r#""price":"1.12000000""#, r#""price":1.12"#);
    assert_eq!(Order::decode(&tree(&json)), Err(mismatch("price")));
    let json = LIMIT.replace("2018-08-23T18:53:42.144811Z", "last week");
    assert_eq!(Order::decode(&tree(&json)), Err(DecodeError::InvalidTimestamp("created_at".to_string())));
    let json = LIMIT.replace(r#""status":"pending""#, r#""status":"lost""#);
    assert_eq!(Order::decode(&tree(&json)), Err(DecodeError::UnknownVariant("lost".to_string())));
    let json = LIMIT.replace("e9d0ff7a-ed50-4040-87a7-c884ae562807", "e9d0");
    assert_eq!(Order::decode(&tree(&json)), Err(mismatch("id")));
    assert_eq!(Order::decode(&tree("[]")), Err(mismatch("order")));
    assert_eq!(Order::decode(&tree("{}")), Err(missing("id")));
}

#[test]
fn first_error_in_field_order_wins() {
    let json = LIMIT.replace(r#""product_id":"BTC-USD","#, "").replace(r#""settled":false"#, r#""settled":0"#);
    assert_eq!(Order::decode(&tree(&json)), Err(missing("product_id")));
}

fn limit_order() -> Order {
    Order {
        id: id("e9d0ff7a-ed50-4040-87a7-c884ae562807"),
        product_id: "BTC-USD".to_string(),
        side: OrderSide::Sell,
        stp: Some("dc".to_string()),
        funds: None,
        specified_funds: Some(dec("12.5")),
        _type: OrderType::Limit {
            size: dec("1"),
            price: dec("1.12"),
            time_in_force: OrderTimeInForce::GTT { expire_time: at(1535136822, 5) },
        },
        post_only: true,
        created_at: at(1535050422, 144_811_000),
        done_at: Some(at(1535050423, 0)),
        done_reason: Some("filled".to_string()),
        fill_fees: dec("0.01"),
        filled_size: dec("1"),
        executed_value: dec("1.12"),
        status: OrderStatus::Done,
        settled: true,
        stop: Some(OrderStop { stop_price: dec("0.9"), _type: OrderStopType::Entry }),
    }
}

#[test]
fn order_round_trip() {
    let order = limit_order();
    assert_eq!(Order::decode(&order.encode()), Ok(order.clone()));
    let market = Order {
        _type: OrderType::Market { size: dec("0.001"), funds: dec("28.24494361") },
        funds: Some(dec("28.24494361")),
        stop: None,
        stp: None,
        done_at: None,
        done_reason: None,
        specified_funds: None,
        ..order.clone()
    };
    assert_eq!(Order::decode(&market.encode()), Ok(market.clone()));
    let bare = Order { _type: OrderType::Market { size: dec("2"), funds: dec("0") }, funds: None, ..market };
    assert_eq!(Order::decode(&bare.encode()), Ok(bare));
    for json in [LIMIT, MARKET, LISTED] {
        let decoded = Order::decode(&tree(json)).unwrap();
        assert_eq!(Order::decode(&decoded.encode()), Ok(decoded));
    }
}

#[test]
fn order_is_written_with_the_fields_of_its_type_only() {
    let order = limit_order();
    let Value::Object(fields) = order.encode() else { panic!("an object") };
    let names: Vec<&str> = fields.iter().map(|(k, _)| k.as_str()).collect();
    assert_eq!(
        names,
        vec![
            "id", "product_id", "side", "stp", "specified_funds", "type", "size", "price",
            "time_in_force", "expire_time", "post_only", "created_at", "done_at", "done_reason",
            "fill_fees", "filled_size", "executed_value", "status", "settled", "stop", "stop_price"
        ]
    );
    assert_eq!(shown(find(&fields, "type").unwrap()), r#"Text("limit")"#);
    assert_eq!(shown(find(&fields, "price").unwrap()), r#"Text("1.12")"#);
    assert_eq!(shown(find(&fields, "time_in_force").unwrap()), r#"Text("GTT")"#);
    assert_eq!(shown(find(&fields, "expire_time").unwrap()), r#"Text("2018-08-24T18:53:42.000000005Z")"#);
    assert_eq!(shown(find(&fields, "stop").unwrap()), r#"Text("entry")"#);
    assert_eq!(shown(find(&fields, "id").unwrap()), r#"Text("e9d0ff7a-ed50-4040-87a7-c884ae562807")"#);
    assert_eq!(shown(find(&fields, "settled").unwrap()), "Bool(true)");
    let market = Order {
        _type: OrderType::Market { size: dec("0.001"), funds: dec("28") },
        funds: Some(dec("28")),
        stop: None,
        ..order
    };
    let Value::Object(fields) = market.encode() else { panic!("an object") };
    for absent in ["price", "time_in_force", "expire_time", "stop", "stop_price"] {
        assert!(find(&fields, absent).is_none(), "{}", absent);
    }
    assert_eq!(shown(find(&fields, "funds").unwrap()), r#"Text("28")"#);
    assert_eq!(shown(find(&fields, "type").unwrap()), r#"Text("market")"#);
}

#[test]
fn incoherent_market_order_does_not_round_trip() {
    let order = Order {
        _type: OrderType::Market { size: dec("1"), funds: dec("5") },
        funds: None,
        stop: None,
        ..limit_order()
    };
    let back = Order::decode(&order.encode()).unwrap();
    assert_eq!(back._type, OrderType::Market { size: dec("1"), funds: dec("0") });
}

#[test]
fn tokens_are_kept_exactly() {
    assert_eq!(OrderStatus::Open.to_string(), "open");
    assert_eq!(OrderStatus::Done.to_string(), "done");
    assert_eq!(OrderStatus::Pending.to_string(), "pending");
    assert_eq!(OrderStatus::Active.to_string(), "active");
    assert_eq!(OrderStatus::Rejected.to_string(), "rejected");
    assert_eq!(TransferType::Deposit.to_string(), "deposit");
    assert_eq!(TransferType::Withdraw.to_string(), "withdraw");
    assert_eq!(TransferType::InternalDeposit.to_string(), "internal_deposit");
    assert_eq!(TransferType::InternalWithdraw.to_string(), "internal_withdraw");
    assert_eq!(FillLiquidity::M.token(), "M");
    assert_eq!(FillLiquidity::T.token(), "T");
    assert_eq!(FillLiquidity::from_token("M"), Some(FillLiquidity::M));
    assert_eq!(FillLiquidity::from_token("m"), None);
    assert_eq!(AccountHoldsType::Order.token(), "order");
    assert_eq!(AccountHoldsType::Transfer.token(), "transfer");
    assert_eq!(OrderSide::from_token("buy"), Some(OrderSide::Buy));
    assert_eq!(OrderSide::from_token("sell"), Some(OrderSide::Sell));
    assert_eq!(OrderSide::from_token("Buy"), None);
    assert_eq!(OrderSide::from_token(""), None);
    assert_eq!(OrderStopType::from_token("loss"), Some(OrderStopType::Loss));
    assert_eq!(OrderStopType::Entry.token(), "entry");
    assert_eq!(AccountHistoryDetailsTransferType::from_token("deposit"), Some(AccountHistoryDetailsTransferType::Deposit));
    assert_eq!(AccountHistoryDetailsTransferType::Withdraw.token(), "withdraw");
    for status in [OrderStatus::Open, OrderStatus::Done, OrderStatus::Pending, OrderStatus::Active, OrderStatus::Rejected] {
        assert_eq!(OrderStatus::from_token(status.token()), Some(status));
    }
    for t in [TransferType::Deposit, TransferType::Withdraw, TransferType::InternalDeposit, TransferType::InternalWithdraw] {
        assert_eq!(TransferType::from_token(t.token()), Some(t));
    }
}

#[test]
fn granularity_is_a_closed_set() {
    let all = [
        (Granularity::M1, 60),
        (Granularity::M5, 300),
        (Granularity::M15, 900),
        (Granularity::H1, 3600),
        (Granularity::H4, 14400),
        (Granularity::H6, 21600),
        (Granularity::D1, 86400),
    ];
    for (g, seconds) in all {
        assert_eq!(g.seconds(), seconds);
        assert_eq!(Granularity::from_seconds(seconds), Some(g));
    }
    assert_eq!(Granularity::from_seconds(0), None);
    assert_eq!(Granularity::from_seconds(61), None);
    assert_eq!(Granularity::from_seconds(86401), None);
}

const ACCOUNT: &str = r#"{"id":"71452118-efc7-4cc4-8780-a5e22d4baa53","currency":"BTC","balance":"0.0000000000000000","available":"0.0000000000000000","hold":"0.0000000000000000","profile_id":"75da88c5-05bf-4f54-bc85-5c775bd68254"}"#;

#[test]
fn account_payload() {
    let account = Account::decode(&tree(ACCOUNT)).unwrap();
    assert_eq!(
        account,
        Account {
            id: id("71452118-efc7-4cc4-8780-a5e22d4baa53"),
            currency: "BTC".to_string(),
            balance: dec("0"),
            available: dec("0"),
            hold: dec("0"),
            profile_id: id("75da88c5-05bf-4f54-bc85-5c775bd68254"),
        }
    );
    assert_eq!(Account::decode(&account.encode()), Ok(account));
}

#[test]
fn account_passes_amounts_through_unchecked() {
    let json = ACCOUNT.replace(r#""balance":"0.0000000000000000""#, r#""balance":"7.5""#);
    let account = Account::decode(&tree(&json)).unwrap();
    assert_eq!(account.balance, dec("7.5"));
    assert_eq!(account.available, dec("0"));
    assert_eq!(account.hold, dec("0"));
}

#[test]
fn account_errors() {
    let json = ACCOUNT.replace(r#""currency":"BTC","#, "");
    assert_eq!(Account::decode(&tree(&json)), Err(missing("currency")));
    let json = ACCOUNT.replace(r#""currency":"BTC""#, r#""currency":true"#);
    assert_eq!(Account::decode(&tree(&json)), Err(mismatch("currency")));
    let json = ACCOUNT.replace(r#""hold":"0.0000000000000000""#, r#""hold":"none""#);
    assert_eq!(Account::decode(&tree(&json)), Err(DecodeError::InvalidNumber("hold".to_string())));
    assert_eq!(Account::decode(&tree("null")), Err(mismatch("account")));
    assert_eq!(Account::decode(&tree(r#""account""#)), Err(mismatch("account")));
}

#[test]
fn names_are_compared_in_full() {
    let fields = vec![
        ("stop_price".to_string(), Value::Bool(true)),
        ("sto".to_string(), Value::Bool(true)),
        ("stoq".to_string(), Value::Bool(true)),
        ("stop".to_string(), Value::Text("found".to_string())),
        ("".to_string(), Value::Null),
    ];
    assert_eq!(shown(find(&fields, "stop").unwrap()), r#"Text("found")"#);
    assert_eq!(shown(find(&fields, "").unwrap()), "Null");
    assert!(find(&fields, "stop_").is_none());
    assert!(find(&fields, "st").is_none());
    assert!(find(&fields, "Stop").is_none());
    assert!(find(&Vec::new(), "stop").is_none());
}

#[test]
fn first_field_of_a_name_counts() {
    let value = Value::Object(vec![
        ("message".to_string(), Value::Text("first".to_string())),
        ("message".to_string(), Value::Text("second".to_string())),
    ]);
    assert_eq!(Error::decode(&value).unwrap().to_string(), "first");
}

fn history(kind: &str, details: &str) -> String {
    format!(
        r#"{{"id":"100","created_at":"2014-11-07T08:19:27.028459Z","amount":"0.001","balance":"239.669","type":"{}","details":{}}}"#,
        kind, details
    )
}

const TRADE_REF: &str = r#"{"order_id":"d50ec984-77a8-460a-b958-66f114b0de9b","trade_id":"74","product_id":"BTC-USD"}"#;

#[test]
fn history_category_follows_details() {
    for (tag, category) in [
        ("fee", AccountHistoryType::Fee),
        ("match", AccountHistoryType::Match),
        ("rebate", AccountHistoryType::Rebate),
    ] {
        let entry = AccountHistory::decode(&tree(&history(tag, TRADE_REF))).unwrap();
        assert_eq!(entry._type, category);
        assert_eq!(entry._type, AccountHistoryType::from(&entry.details));
        assert_eq!(entry.details.tag(), tag);
        assert_eq!(entry.id, 100);
        assert_eq!(entry.amount, dec("0.001"));
        assert_eq!(entry.balance, dec("239.669"));
        assert_eq!(entry.created_at, at(1415348367, 28_459_000));
    }
    let entry = AccountHistory::decode(&tree(&history("match", TRADE_REF))).unwrap();
    match &entry.details {
        AccountHistoryDetails::Match { order_id, product_id, trade_id } => {
            assert_eq!(*order_id, id("d50ec984-77a8-460a-b958-66f114b0de9b"));
            assert_eq!(product_id, "BTC-USD");
            assert_eq!(*trade_id, 74);
        }
        other => panic!("{:?}", other),
    }
    let json = history("transfer", r#"{"transfer_id":"d50ec984-77a8-460a-b958-66f114b0de9b","transfer_type":"deposit"}"#);
    let entry = AccountHistory::decode(&tree(&json)).unwrap();
    assert_eq!(entry._type, AccountHistoryType::Transfer);
    match &entry.details {
        AccountHistoryDetails::Transfer { transfer_id, transfer_type } => {
            assert_eq!(*transfer_id, id("d50ec984-77a8-460a-b958-66f114b0de9b"));
            assert_eq!(*transfer_type, AccountHistoryDetailsTransferType::Deposit);
        }
        other => panic!("{:?}", other),
    }
    let json = history("conversion", r#"{"conversion_id":"d50ec984-77a8-460a-b958-66f114b0de9b"}"#);
    let entry = AccountHistory::decode(&tree(&json)).unwrap();
    assert_eq!(entry._type, AccountHistoryType::Conversion);
    assert_eq!(AccountHistoryType::default(), AccountHistoryType::NotSet);
}

#[test]
fn unrecognized_history_details_are_kept() {
    let json = history("staking_reward", r#"{"pool":"eth2","rate":0.05}"#);
    let entry = AccountHistory::decode(&tree(&json)).unwrap();
    assert_eq!(entry._type, AccountHistoryType::NotSet);
    match &entry.details {
        AccountHistoryDetails::Unrecognized { tag, payload } => {
            assert_eq!(tag, "staking_reward");
            assert_eq!(shown(payload), shown(&tree(r#"{"pool":"eth2","rate":0.05}"#)));
        }
        other => panic!("{:?}", other),
    }
    let back = AccountHistory::decode(&entry.encode()).unwrap();
    assert_eq!(format!("{:?}", back), format!("{:?}", entry));
    let json = r#"{"id":"1","created_at":"2014-11-07T08:19:27Z","amount":"1","balance":"1","type":"bonus"}"#;
    let entry = AccountHistory::decode(&tree(json)).unwrap();
    match &entry.details {
        AccountHistoryDetails::Unrecognized { tag, payload } => {
            assert_eq!(tag, "bonus");
            assert_eq!(shown(payload), "Null");
        }
        other => panic!("{:?}", other),
    }
}

#[test]
fn history_errors() {
    let json = history("fee", r#"{"order_id":"d50ec984-77a8-460a-b958-66f114b0de9b","product_id":"BTC-USD"}"#);
    assert_eq!(AccountHistory::decode(&tree(&json)).unwrap_err(), missing("trade_id"));
    let json = history("fee", r#"{"order_id":"d50ec984-77a8-460a-b958-66f114b0de9b","trade_id":"-7","product_id":"BTC-USD"}"#);
    assert_eq!(AccountHistory::decode(&tree(&json)).unwrap_err(), DecodeError::InvalidNumber("trade_id".to_string()));
    let json = history("fee", r#"{"order_id":"d50ec984-77a8-460a-b958-66f114b0de9b","trade_id":74,"product_id":"BTC-USD"}"#);
    assert_eq!(AccountHistory::decode(&tree(&json)).unwrap_err(), mismatch("trade_id"));
    let json = history("transfer", r#"{"transfer_id":"d50ec984-77a8-460a-b958-66f114b0de9b","transfer_type":"gift"}"#);
    assert_eq!(AccountHistory::decode(&tree(&json)).unwrap_err(), DecodeError::UnknownVariant("gift".to_string()));
    let json = history("fee", "7");
    assert_eq!(AccountHistory::decode(&tree(&json)).unwrap_err(), mismatch("details"));
    let json = r#"{"id":"1","created_at":"2014-11-07T08:19:27Z","amount":"1","balance":"1","type":"fee"}"#;
    assert_eq!(AccountHistory::decode(&tree(json)).unwrap_err(), missing("details"));
    let json = r#"{"id":"1","created_at":"2014-11-07T08:19:27Z","amount":"1","balance":"1"}"#;
    assert_eq!(AccountHistory::decode(&tree(json)).unwrap_err(), missing("type"));
    let json = history("fee", TRADE_REF).replace(r#""id":"100""#, r#""id":"x""#);
    assert_eq!(AccountHistory::decode(&tree(&json)).unwrap_err(), DecodeError::InvalidNumber("id".to_string()));
}

#[test]
fn history_round_trip() {
    let jsons = [
        history("fee", TRADE_REF),
        history("match", TRADE_REF),
        history("rebate", TRADE_REF),
        history("transfer", r#"{"transfer_id":"d50ec984-77a8-460a-b958-66f114b0de9b","transfer_type":"withdraw"}"#),
        history("conversion", r#"{"conversion_id":"d50ec984-77a8-460a-b958-66f114b0de9b"}"#),
        history("airdrop", r#"[1,"two",null,{"three":true}]"#),
    ];
    for json in jsons {
        let entry = AccountHistory::decode(&tree(&json)).unwrap();
        let back = AccountHistory::decode(&entry.encode()).unwrap();
        assert_eq!(format!("{:?}", back), format!("{:?}", entry));
        let Value::Object(fields) = entry.encode() else { panic!("an object") };
        let names: Vec<&str> = fields.iter().map(|(k, _)| k.as_str()).collect();
        assert_eq!(names, vec!["id", "created_at", "amount", "balance", "type", "details"]);
    }
}

#[test]
fn payload_copy_is_deep() {
    let value = tree(r#"{"a":[1,{"b":"c"},null,true,-2.50],"d":{}}"#);
    assert_eq!(shown(&value.duplicate()), shown(&value));
    assert_eq!(shown(&Value::Null.duplicate()), "Null");
}

#[test]
fn holds_payload_and_round_trip() {
    let json = r#"{"id":"82dcd140-c3c7-4507-8de4-2c529cd1a28f","account_id":"e0b3f39a-183d-453e-b754-0c13e5bab0b3","created_at":"2014-11-06T10:34:47.123456Z","updated_at":"2014-11-06T10:40:47.123456Z","amount":4.23,"type":"order","ref":"0a205de4-dd35-4370-a285-fe8fc375a273"}"#;
    let hold = AccountHolds::decode(&tree(json)).unwrap();
    assert_eq!(hold.amount, dec("4.23"));
    assert_eq!(hold._type, AccountHoldsType::Order);
    assert_eq!(hold._ref, id("0a205de4-dd35-4370-a285-fe8fc375a273"));
    assert_eq!(hold.updated_at, at(1415270447, 123_456_000));
    assert_eq!(AccountHolds::decode(&hold.encode()), Ok(hold));
    let text = json.replace("4.23", r#""4.23""#);
    assert_eq!(AccountHolds::decode(&tree(&text)), Err(mismatch("amount")));
    let text = json.replace(r#""type":"order""#, r#""type":"loan""#);
    assert_eq!(AccountHolds::decode(&tree(&text)), Err(DecodeError::UnknownVariant("loan".to_string())));
}

#[test]
fn fill_payload_and_round_trip() {
    let json = r#"{"trade_id":74,"product_id":"BTC-USD","price":"10.00","size":"0.01","order_id":"d50ec984-77a8-460a-b958-66f114b0de9b","created_at":"2014-11-07T22:19:28.578544Z","liquidity":"T","fee":"0.00025","settled":true,"side":"buy"}"#;
    let fill = Fill::decode(&tree(json)).unwrap();
    assert_eq!(
        fill,
        Fill {
            trade_id: 74,
            product_id: "BTC-USD".to_string(),
            price: dec("10"),
            size: dec("0.01"),
            order_id: id("d50ec984-77a8-460a-b958-66f114b0de9b"),
            created_at: at(1415398768, 578_544_000),
            liquidity: FillLiquidity::T,
            fee: dec("0.00025"),
            settled: true,
            side: OrderSide::Buy,
        }
    );
    assert_eq!(Fill::decode(&fill.encode()), Ok(fill));
    let text = json.replace(r#""liquidity":"T""#, r#""liquidity":"t""#);
    assert_eq!(Fill::decode(&tree(&text)), Err(DecodeError::UnknownVariant("t".to_string())));
    let text = json.replace(r#""trade_id":74"#, r#""trade_id":7.4"#);
    assert_eq!(Fill::decode(&tree(&text)), Err(DecodeError::InvalidNumber("trade_id".to_string())));
    let text = json.replace(r#""trade_id":74"#, r#""trade_id":-74"#);
    assert_eq!(Fill::decode(&tree(&text)), Err(DecodeError::InvalidNumber("trade_id".to_string())));
    let text = json.replace(r#""trade_id":74"#, r#""trade_id":"74""#);
    assert_eq!(Fill::decode(&tree(&text)), Err(mismatch("trade_id")));
}

const TRANSFER: &str = r#"{"id":"19ac524d-8827-4246-a1b2-18dc5ca9472c","type":"withdraw","created_at":"2020-03-12T00:14:12.397484+00:00","completed_at":"2020-03-12T00:14:13.021899+00:00","canceled_at":null,"processed_at":"2020-03-12T00:14:13.031276+00:00","account_id":"e1d7731f-b7e2-4285-b711-eeec76fc2aff","user_id":"5eeac63c90b913bf3cf7c92e","user_nonce":null,"amount":"1.00000000","details":{"fee":"0.000000","subtotal":"1.00","sent_to_address":"0x5ad5769d","coinbase_account_id":"18a3","crypto_transaction_hash":"0x2f","coinbase_transaction_id":"5f","coinbase_withdrawal_id":"5e"}}"#;

#[test]
fn transfer_payload() {
    let transfer = Transfer::decode(&tree(TRANSFER)).unwrap();
    assert_eq!(transfer._type, TransferType::Withdraw);
    assert_eq!(transfer.created_at, at(1583972052, 397_484_000));
    assert_eq!(transfer.completed_at, Some(at(1583972053, 21_899_000)));
    assert_eq!(transfer.canceled_at, None);
    assert_eq!(transfer.processed_at, Some(at(1583972053, 31_276_000)));
    assert_eq!(transfer.user_nonce, None);
    assert_eq!(transfer.currency, None);
    assert_eq!(transfer.amount, dec("1"));
    assert_eq!(
        transfer.details,
        TransferDetails {
            destination_tag: None,
            sent_to_address: Some("0x5ad5769d".to_string()),
            coinbase_account_id: Some("18a3".to_string()),
            destination_tag_name: None,
            coinbase_withdrawal_id: Some("5e".to_string()),
            coinbase_transaction_id: Some("5f".to_string()),
            crypto_transaction_hash: Some("0x2f".to_string()),
            coinbase_payment_method_id: None,
            fee: Some(dec("0")),
            subtotal: Some(dec("1")),
            crypto_address: None,
            crypto_transaction_id: None,
        }
    );
    assert_eq!(Transfer::decode(&transfer.encode()), Ok(transfer));
}

#[test]
fn transfer_field_presence() {
    let json = TRANSFER.replace(r#""processed_at":"2020-03-12T00:14:13.031276+00:00","#, "");
    let transfer = Transfer::decode(&tree(&json)).unwrap();
    assert_eq!(transfer.processed_at, None);
    assert_eq!(Transfer::decode(&transfer.encode()), Ok(transfer));
    let json = TRANSFER.replace(r#""created_at":"2020-03-12T00:14:12.397484+00:00","#, "");
    assert_eq!(Transfer::decode(&tree(&json)), Err(missing("created_at")));
    let json = TRANSFER.replace(r#""processed_at":"2020-03-12T00:14:13.031276+00:00""#, r#""processed_at":null"#);
    let transfer = Transfer::decode(&tree(&json)).unwrap();
    assert_eq!(transfer.processed_at, None);
    assert_eq!(Transfer::decode(&transfer.encode()), Ok(transfer));
    let json = TRANSFER.replace(r#""completed_at":"2020-03-12T00:14:13.021899+00:00","#, "");
    assert_eq!(Transfer::decode(&tree(&json)).unwrap().completed_at, None);
    let json = TRANSFER.replace("2020-03-12T00:14:12.397484+00:00", "2020-03-12T00:14:12.397484");
    assert_eq!(Transfer::decode(&tree(&json)), Err(DecodeError::InvalidTimestamp("created_at".to_string())));
    let json = TRANSFER.replace("2020-03-12T00:14:13.021899+00:00", "2020-03-12 00:14:13");
    assert_eq!(Transfer::decode(&tree(&json)), Err(DecodeError::InvalidTimestamp("completed_at".to_string())));
    let json = TRANSFER.replace(r#""fee":"0.000000""#, r#""fee":"free""#);
    assert_eq!(Transfer::decode(&tree(&json)), Err(DecodeError::InvalidNumber("fee".to_string())));
    let json = TRANSFER.replace(r#""fee":"0.000000""#, r#""fee":"""#);
    assert_eq!(Transfer::decode(&tree(&json)), Err(DecodeError::InvalidNumber("fee".to_string())));
    let json = TRANSFER.replace(r#""type":"withdraw""#, r#""type":"internal_deposit""#);
    assert_eq!(Transfer::decode(&tree(&json)).unwrap()._type, TransferType::InternalDeposit);
    let json = TRANSFER.replace(r#""type":"withdraw""#, r#""type":"loan""#);
    assert_eq!(Transfer::decode(&tree(&json)), Err(DecodeError::UnknownVariant("loan".to_string())));
    assert_eq!(TransferDetails::decode(&tree("{}")).unwrap().fee, None);
    assert_eq!(TransferDetails::decode(&tree("[]")), Err(mismatch("transfer_details")));
}

#[test]
fn volume_and_fees_round_trip() {
    let json = r#"{"product_id":"BTC-USD","exchange_volume":"11800.00000000","volume":"100.00000000","recorded_at":"1973-11-29T00:05:01.123456Z"}"#;
    let volume = TrailingVolume::decode(&tree(json)).unwrap();
    assert_eq!(volume.exchange_volume, dec("11800"));
    assert_eq!(volume.recorded_at, at(123379501, 123_456_000));
    assert_eq!(TrailingVolume::decode(&volume.encode()), Ok(volume));
    let json = r#"{"maker_fee_rate":"0.0015","taker_fee_rate":"0.0025","usd_volume":"25000.00"}"#;
    let fees = Fees::decode(&tree(json)).unwrap();
    assert_eq!(fees, Fees { maker_fee_rate: dec("0.0015"), taker_fee_rate: dec("0.0025"), usd_volume: dec("25000") });
    assert_eq!(Fees::decode(&fees.encode()), Ok(fees));
}

#[test]
fn clock_instant_comes_from_the_epoch() {
    let time = Time::decode(&tree(r#"{"iso":"2015-01-07T23:47:25.201Z","epoch":1420674445.201}"#)).unwrap();
    assert_eq!(time.iso, "2015-01-07T23:47:25.201Z");
    assert_eq!(time.epoch, dec("1420674445.201"));
    assert_eq!(time.to_instant(), Instant::new(1420674445, 201_000_000));
    let other = Time { iso: "not the same".to_string(), epoch: time.epoch };
    assert_eq!(other.to_instant(), time.to_instant());
    assert_eq!(Time::decode(&time.encode()), Ok(time));
}

#[test]
fn clock_instant_edges() {
    let clock = |text: &str| Time { iso: String::new(), epoch: dec(text) };
    assert_eq!(clock("0").to_instant(), Instant::new(0, 0));
    assert_eq!(clock("5").to_instant(), Instant::new(5, 0));
    assert_eq!(clock("0.000000001").to_instant(), Instant::new(0, 1));
    assert_eq!(clock("0.0000000019").to_instant(), Instant::new(0, 1));
    assert_eq!(clock("1.999999999999").to_instant(), Instant::new(1, 999_999_999));
    assert_eq!(clock("12.5").to_instant(), Instant::new(12, 500_000_000));
    assert_eq!(clock("253402300799.9").to_instant(), Instant::new(253402300799, 900_000_000));
    assert_eq!(clock("253402300800").to_instant(), None);
    assert_eq!(clock("-1").to_instant(), Instant::new(-1, 0));
    assert_eq!(clock("-0.5").to_instant(), Instant::new(-1, 500_000_000));
    assert_eq!(clock("-1.5").to_instant(), Instant::new(-2, 500_000_000));
    assert_eq!(clock("-1.201").to_instant(), Instant::new(-2, 799_000_000));
    assert_eq!(clock("-0.000000001").to_instant(), Instant::new(-1, 999_999_999));
    assert_eq!(clock("-0.0000000001").to_instant(), Instant::new(-1, 999_999_999));
    assert_eq!(clock("-1.9999999999").to_instant(), Instant::new(-2, 0));
    assert_eq!(clock("-12.000000000").to_instant(), Instant::new(-12, 0));
    assert_eq!(clock("-62167219200").to_instant(), Instant::new(-62167219200, 0));
    assert_eq!(clock("-62167219199.5").to_instant(), Instant::new(-62167219200, 500_000_000));
    assert_eq!(clock("-62167219200.5").to_instant(), None);
    assert_eq!(clock("-62167219201").to_instant(), None);
    assert_eq!(clock("-340282366920938463463374607431768211455").to_instant(), None);
    assert_eq!(
        Time { iso: String::new(), epoch: Decimal::new(true, 123, 50) }.to_instant(),
        Instant::new(-1, 999_999_999)
    );
    assert!(Instant::new(-1, 999_999_999).is_some());
    assert!(Instant::new(-62167219200, 500_000_000).is_some());
    assert_eq!(clock("340282366920938463463374607431768211455").to_instant(), None);
    assert_eq!(
        Time { iso: String::new(), epoch: Decimal::new(false, 123, 50) }.to_instant(),
        Instant::new(0, 0)
    );
    assert_eq!(
        Time { iso: String::new(), epoch: Decimal::new(false, u128::MAX, 38) }.to_instant(),
        Instant::new(3, 402_823_669)
    );
}

#[test]
fn currency_and_product_round_trip() {
    let currency = Currency::decode(&tree(r#"{"id":"BTC","name":"Bitcoin","min_size":"0.00000001"}"#)).unwrap();
    assert_eq!(currency, Currency { id: "BTC".to_string(), name: "Bitcoin".to_string(), min_size: dec("0.00000001") });
    assert_eq!(Currency::decode(&currency.encode()), Ok(currency));
    let json = r#"{"id":"BTC-USD","display_name":"BTC/USD","base_currency":"BTC","quote_currency":"USD","base_increment":"0.00000001","quote_increment":"0.01000000","base_min_size":"0.00100000","base_max_size":"280.00000000","min_market_funds":"5","max_market_funds":"1000000","status":"online","status_message":"","cancel_only":false,"limit_only":false,"post_only":false,"trading_disabled":false}"#;
    let product = Product::decode(&tree(json)).unwrap();
    assert_eq!(product.base_min_size, dec("0.001"));
    assert_eq!(product.base_max_size, dec("280"));
    assert_eq!(product.quote_increment, dec("0.01"));
    assert_eq!(product.max_market_funds, dec("1000000"));
    assert_eq!(product.status_message, "");
    assert!(!product.trading_disabled);
    assert_eq!(Product::decode(&product.encode()), Ok(product));
    let text = json.replace(r#","trading_disabled":false"#, "");
    assert_eq!(Product::decode(&tree(&text)), Err(missing("trading_disabled")));
}

#[test]
fn ticker_trade_and_stats_round_trip() {
    let json = r#"{"trade_id":4729088,"price":"333.99","size":"0.193","bid":"333.98","ask":"333.99","volume":"5957.11914015","time":"2015-11-14T20:46:03.511254Z"}"#;
    let ticker = Ticker::decode(&tree(json)).unwrap();
    assert_eq!(ticker.trade_id, 4729088);
    assert_eq!(ticker.bid, dec("333.98"));
    assert_eq!(ticker.time, at(1447533963, 511_254_000));
    assert_eq!(Ticker::decode(&ticker.encode()), Ok(ticker));
    let json = r#"{"time":"2014-11-07T22:19:28.578544Z","trade_id":74,"price":"10.00000000","size":"0.01000000","side":"sell"}"#;
    let trade = Trade::decode(&tree(json)).unwrap();
    assert_eq!(trade.side, OrderSide::Sell);
    assert_eq!(trade.price, dec("10"));
    assert_eq!(Trade::decode(&trade.encode()), Ok(trade));
    let json = r#"{"open":"34.19000000","high":"95.70000000","low":"7.06000000","volume":"2.41000000"}"#;
    let stats = Stats24H::decode(&tree(json)).unwrap();
    assert_eq!(stats, Stats24H { open: dec("34.19"), high: dec("95.7"), low: dec("7.06"), volume: dec("2.41") });
    assert_eq!(Stats24H::decode(&stats.encode()), Ok(stats));
}

#[test]
fn book_levels_stay_distinct() {
    assert_eq!(BookRecordL1::level(), 1);
    assert_eq!(BookRecordL2::level(), 2);
    assert_eq!(BookRecordL3::level(), 3);
    let json = r#"{"sequence":3,"bids":[["295.96","4.39088265",2]],"asks":[["295.97","25.23542881",12],["296.00","1",1]]}"#;
    let book = Book::<BookRecordL2>::decode(&tree(json)).unwrap();
    assert_eq!(book.sequence, 3);
    assert_eq!(book.bids, vec![BookRecordL2 { price: dec("295.96"), size: dec("4.39088265"), num_orders: 2 }]);
    assert_eq!(book.asks.len(), 2);
    assert_eq!(book.asks[1], BookRecordL2 { price: dec("296"), size: dec("1"), num_orders: 1 });
    assert_eq!(Book::<BookRecordL2>::decode(&book.encode()), Ok(book));
    let l1 = Book::<BookRecordL1>::decode(&tree(json)).unwrap();
    assert_eq!(l1.asks[0], BookRecordL1 { price: dec("295.97"), size: dec("25.23542881"), num_orders: 12 });
    assert_eq!(Book::<BookRecordL1>::decode(&l1.encode()), Ok(l1));
    assert_eq!(Book::<BookRecordL3>::decode(&tree(json)), Err(mismatch("order_id")));
    let json = r#"{"sequence":3,"bids":[["295.96","0.05","3b0f1225-7f84-490b-a29f-0faef9de823a"]],"asks":[]}"#;
    let l3 = Book::<BookRecordL3>::decode(&tree(json)).unwrap();
    assert_eq!(
        l3.bids,
        vec![BookRecordL3 { price: dec("295.96"), size: dec("0.05"), order_id: id("3b0f1225-7f84-490b-a29f-0faef9de823a") }]
    );
    assert!(l3.asks.is_empty());
    assert_eq!(Book::<BookRecordL3>::decode(&l3.encode()), Ok(l3));
    assert_eq!(Book::<BookRecordL2>::decode(&tree(json)), Err(mismatch("num_orders")));
}

#[test]
fn book_rows_in_both_forms_and_errors() {
    let named = r#"{"price":"295.96","size":"4.39088265","num_orders":2}"#;
    let listed = r#"["295.96","4.39088265",2]"#;
    let row = BookRecordL2 { price: dec("295.96"), size: dec("4.39088265"), num_orders: 2 };
    assert_eq!(BookRecordL2::decode_row(&tree(named)), Ok(row.clone()));
    assert_eq!(BookRecordL2::decode_row(&tree(listed)), Ok(row.clone()));
    assert_eq!(BookRecordL2::decode_row(&row.encode_row()), Ok(row));
    assert_eq!(BookRecordL2::decode_row(&tree(r#"["295.96","4.39088265"]"#)), Err(mismatch("level")));
    assert_eq!(BookRecordL2::decode_row(&tree(r#"["295.96","4.39088265",2,3]"#)), Err(mismatch("level")));
    assert_eq!(BookRecordL2::decode_row(&tree(r#"[295.96,"4.39088265",2]"#)), Err(mismatch("price")));
    assert_eq!(BookRecordL2::decode_row(&tree("7")), Err(mismatch("level")));
    let json = r#"{"sequence":3,"bids":[["1","1",1],["x","1",1],["1","y",1]],"asks":7}"#;
    assert_eq!(Book::<BookRecordL1>::decode(&tree(json)), Err(DecodeError::InvalidNumber("price".to_string())));
    let json = r#"{"sequence":3,"bids":[],"asks":7}"#;
    assert_eq!(Book::<BookRecordL1>::decode(&tree(json)), Err(mismatch("asks")));
    let json = r#"{"sequence":3,"asks":[]}"#;
    assert_eq!(Book::<BookRecordL1>::decode(&tree(json)), Err(missing("bids")));
    let json = r#"{"sequence":"3","bids":[],"asks":[]}"#;
    assert_eq!(Book::<BookRecordL1>::decode(&tree(json)), Err(mismatch("sequence")));
}

#[test]
fn candle_is_positional() {
    let candle = Candle::decode(&tree("[1415398768, 0.32, 4.2, 0.35, 4.2, 12.3]")).unwrap();
    assert_eq!(candle, Candle(1415398768, dec("0.32"), dec("4.2"), dec("0.35"), dec("4.2"), dec("12.3")));
    assert_eq!(Candle::decode(&candle.encode()), Ok(candle));
    assert_eq!(
        shown(&candle.encode()),
        shown(&tree("[1415398768, 0.32, 4.2, 0.35, 4.2, 12.3]"))
    );
    assert_eq!(Candle::decode(&tree("[1415398768, 0.32, 4.2, 0.35, 4.2]")), Err(mismatch("candle")));
    assert_eq!(Candle::decode(&tree("[1415398768, 0.32, 4.2, 0.35, 4.2, 12.3, 1]")), Err(mismatch("candle")));
    assert_eq!(Candle::decode(&tree("{}")), Err(mismatch("candle")));
    assert_eq!(Candle::decode(&tree(r#"[1415398768, "0.32", 4.2, 0.35, 4.2, 12.3]"#)), Err(mismatch("low")));
    assert_eq!(
        Candle::decode(&tree("[1.5, 0.32, 4.2, 0.35, 4.2, 12.3]")),
        Err(DecodeError::InvalidNumber("time".to_string()))
    );
}

#[test]
fn exchange_error_message() {
    let error = Error::decode(&tree(r#"{"message":"Invalid Price"}"#)).unwrap();
    assert_eq!(error.message(), "Invalid Price");
    assert_eq!(error.to_string(), "Invalid Price");
    assert_eq!(error, Error::new("Invalid Price".to_string()));
    assert_eq!(Error::decode(&error.encode()), Ok(error));
    assert_eq!(Error::decode(&tree("{}")), Err(missing("message")));
}
