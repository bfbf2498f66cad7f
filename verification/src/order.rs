//! Orders and fills.
use crate::codec::{
    as_decimal, as_instant, as_object, as_token, bool_at, bool_field, count_at, count_field,
    count_value, decimal_at, decimal_field, decimal_or_zero_at, decimal_or_zero_field,
    decimal_or_zero_of, decimal_value, Fields, get_opt, instant_at, instant_field, instant_value,
    lemma_field_with_opt, object_of, opt_decimal_at, opt_decimal_field, opt_decimal_value,
    opt_instant_at, opt_instant_field, opt_instant_value, opt_text_at, opt_text_field,
    opt_text_value, opt_token_value, opt_view, present, put_bool, put_count, put_decimal,
    put_instant, put_opt_decimal, put_opt_instant, put_opt_text, put_opt_token, put_str, put_text,
    put_token, put_uuid, read_token, text_at, text_field, Token, token_at, token_field, token_value,
    uuid_at, uuid_field, uuid_value, with_opt,
};
use crate::decimal::{Decimal, DecimalView};
use crate::error::{decoded, decoded_opt, DecodeError, DecodeErrorView, yields};
use crate::ident::{Uuid};
use crate::instant::{Instant, InstantView};
use crate::text::{str_eq};
use crate::value::{
    field, fields_view, lemma_field_empty, lemma_field_push, lemma_initials, lemma_object_view,
    lemma_same_name, no_fields, same_name, Value, ValueView,
};
use vstd::prelude::*;

verus! {

/// The side of the book that an order is on.
#[derive(Clone, Copy, Debug, PartialEq, Eq, Structural)]
pub enum OrderSide {
    Buy,
    Sell,
}

impl Token for OrderSide {
    open spec fn of_token(text: Seq<char>) -> Option<OrderSide> {
        if same_name(text, "buy"@) {
            Some(OrderSide::Buy)
        } else if same_name(text, "sell"@) {
            Some(OrderSide::Sell)
        } else {
            None
        }
    }

    open spec fn token_of(self) -> Seq<char> {
        match self {
            OrderSide::Buy => "buy"@,
            OrderSide::Sell => "sell"@,
        }
    }

    fn from_token(text: &str) -> (r: Option<OrderSide>) {
        if str_eq(text, "buy") {
            Some(OrderSide::Buy)
        } else if str_eq(text, "sell") {
            Some(OrderSide::Sell)
        } else {
            None
        }
    }

    fn token(&self) -> (text: &'static str) {
        broadcast use lemma_same_name;

        proof {
            reveal_strlit("buy");
            reveal_strlit("sell");
            lemma_initials("buy"@);
            lemma_initials("sell"@);
        }
        match self {
            OrderSide::Buy => "buy",
            OrderSide::Sell => "sell",
        }
    }
}

/// The direction in which a stop order triggers.
#[derive(Clone, Copy, Debug, PartialEq, Eq, Structural)]
pub enum OrderStopType {
    Loss,
    Entry,
}

impl Token for OrderStopType {
    open spec fn of_token(text: Seq<char>) -> Option<OrderStopType> {
        if same_name(text, "loss"@) {
            Some(OrderStopType::Loss)
        } else if same_name(text, "entry"@) {
            Some(OrderStopType::Entry)
        } else {
            None
        }
    }

    open spec fn token_of(self) -> Seq<char> {
        match self {
            OrderStopType::Loss => "loss"@,
            OrderStopType::Entry => "entry"@,
        }
    }

    fn from_token(text: &str) -> (r: Option<OrderStopType>) {
        if str_eq(text, "loss") {
            Some(OrderStopType::Loss)
        } else if str_eq(text, "entry") {
            Some(OrderStopType::Entry)
        } else {
            None
        }
    }

    fn token(&self) -> (text: &'static str) {
        broadcast use lemma_same_name;

        proof {
            reveal_strlit("loss");
            reveal_strlit("entry");
            lemma_initials("loss"@);
            lemma_initials("entry"@);
        }
        match self {
            OrderStopType::Loss => "loss",
            OrderStopType::Entry => "entry",
        }
    }
}

/// Where an order stands in its life.
#[derive(Clone, Copy, Debug, PartialEq, Eq, Structural)]
pub enum OrderStatus {
    Open,
    Done,
    Pending,
    Active,
    Rejected,
}

impl Token for OrderStatus {
    open spec fn of_token(text: Seq<char>) -> Option<OrderStatus> {
        if same_name(text, "open"@) {
            Some(OrderStatus::Open)
        } else if same_name(text, "done"@) {
            Some(OrderStatus::Done)
        } else if same_name(text, "pending"@) {
            Some(OrderStatus::Pending)
        } else if same_name(text, "active"@) {
            Some(OrderStatus::Active)
        } else if same_name(text, "rejected"@) {
            Some(OrderStatus::Rejected)
        } else {
            None
        }
    }

    open spec fn token_of(self) -> Seq<char> {
        match self {
            OrderStatus::Open => "open"@,
            OrderStatus::Done => "done"@,
            OrderStatus::Pending => "pending"@,
            OrderStatus::Active => "active"@,
            OrderStatus::Rejected => "rejected"@,
        }
    }

    fn from_token(text: &str) -> (r: Option<OrderStatus>) {
        if str_eq(text, "open") {
            Some(OrderStatus::Open)
        } else if str_eq(text, "done") {
            Some(OrderStatus::Done)
        } else if str_eq(text, "pending") {
            Some(OrderStatus::Pending)
        } else if str_eq(text, "active") {
            Some(OrderStatus::Active)
        } else if str_eq(text, "rejected") {
            Some(OrderStatus::Rejected)
        } else {
            None
        }
    }

    fn token(&self) -> (text: &'static str) {
        broadcast use lemma_same_name;

        proof {
            reveal_strlit("open");
            reveal_strlit("done");
            reveal_strlit("pending");
            reveal_strlit("active");
            reveal_strlit("rejected");
            lemma_initials("open"@);
            lemma_initials("done"@);
            lemma_initials("pending"@);
            lemma_initials("active"@);
            lemma_initials("rejected"@);
        }
        match self {
            OrderStatus::Open => "open",
            OrderStatus::Done => "done",
            OrderStatus::Pending => "pending",
            OrderStatus::Active => "active",
            OrderStatus::Rejected => "rejected",
        }
    }
}

impl OrderStatus {
    /// The wire token of the order status.
    pub fn to_string(&self) -> (text: String)
        ensures
            text@ == self.token_of(),
    {
        self.token().to_owned()
    }
}

/// Whether a fill made or took liquidity.
#[derive(Clone, Copy, Debug, PartialEq, Eq, Structural)]
pub enum FillLiquidity {
    M,
    T,
}

impl Token for FillLiquidity {
    open spec fn of_token(text: Seq<char>) -> Option<FillLiquidity> {
        if same_name(text, "M"@) {
            Some(FillLiquidity::M)
        } else if same_name(text, "T"@) {
            Some(FillLiquidity::T)
        } else {
            None
        }
    }

    open spec fn token_of(self) -> Seq<char> {
        match self {
            FillLiquidity::M => "M"@,
            FillLiquidity::T => "T"@,
        }
    }

    fn from_token(text: &str) -> (r: Option<FillLiquidity>) {
        if str_eq(text, "M") {
            Some(FillLiquidity::M)
        } else if str_eq(text, "T") {
            Some(FillLiquidity::T)
        } else {
            None
        }
    }

    fn token(&self) -> (text: &'static str) {
        broadcast use lemma_same_name;

        proof {
            reveal_strlit("M");
            reveal_strlit("T");
            lemma_initials("M"@);
            lemma_initials("T"@);
        }
        match self {
            FillLiquidity::M => "M",
            FillLiquidity::T => "T",
        }
    }
}

/// A completed trade execution.
#[derive(Clone, Debug, PartialEq)]
pub struct Fill {
    pub trade_id: usize,
    pub product_id: String,
    pub price: Decimal,
    pub size: Decimal,
    pub order_id: Uuid,
    pub created_at: Instant,
    pub liquidity: FillLiquidity,
    pub fee: Decimal,
    pub settled: bool,
    pub side: OrderSide,
}

/// What [`Fill`] holds, as mathematical values.
pub struct FillView {
    pub trade_id: usize,
    pub product_id: Seq<char>,
    pub price: DecimalView,
    pub size: DecimalView,
    pub order_id: Uuid,
    pub created_at: InstantView,
    pub liquidity: FillLiquidity,
    pub fee: DecimalView,
    pub settled: bool,
    pub side: OrderSide,
}

impl View for Fill {
    type V = FillView;

    open spec fn view(&self) -> FillView {
        FillView {
            trade_id: self.trade_id,
            product_id: self.product_id@,
            price: self.price@,
            size: self.size@,
            order_id: self.order_id,
            created_at: self.created_at@,
            liquidity: self.liquidity,
            fee: self.fee@,
            settled: self.settled,
            side: self.side,
        }
    }
}

impl Fill {
    /// The fill that an object's fields denote: the first error met in the
    /// order of the fields below, or else the record of their values.
    pub open spec fn fields_spec(o: Fields) -> Result<FillView, DecodeErrorView> {
        if count_at(o, "trade_id"@) is Err {
            Err(count_at(o, "trade_id"@)->Err_0)
        } else if text_at(o, "product_id"@) is Err {
            Err(text_at(o, "product_id"@)->Err_0)
        } else if decimal_at(o, "price"@) is Err {
            Err(decimal_at(o, "price"@)->Err_0)
        } else if decimal_at(o, "size"@) is Err {
            Err(decimal_at(o, "size"@)->Err_0)
        } else if uuid_at(o, "order_id"@) is Err {
            Err(uuid_at(o, "order_id"@)->Err_0)
        } else if instant_at(o, "created_at"@) is Err {
            Err(instant_at(o, "created_at"@)->Err_0)
        } else if token_at::<FillLiquidity>(o, "liquidity"@) is Err {
            Err(token_at::<FillLiquidity>(o, "liquidity"@)->Err_0)
        } else if decimal_at(o, "fee"@) is Err {
            Err(decimal_at(o, "fee"@)->Err_0)
        } else if bool_at(o, "settled"@) is Err {
            Err(bool_at(o, "settled"@)->Err_0)
        } else if token_at::<OrderSide>(o, "side"@) is Err {
            Err(token_at::<OrderSide>(o, "side"@)->Err_0)
        } else {
            Ok(
                FillView {
                    trade_id: count_at(o, "trade_id"@)->Ok_0,
                    product_id: text_at(o, "product_id"@)->Ok_0,
                    price: decimal_at(o, "price"@)->Ok_0,
                    size: decimal_at(o, "size"@)->Ok_0,
                    order_id: uuid_at(o, "order_id"@)->Ok_0,
                    created_at: instant_at(o, "created_at"@)->Ok_0,
                    liquidity: token_at::<FillLiquidity>(o, "liquidity"@)->Ok_0,
                    fee: decimal_at(o, "fee"@)->Ok_0,
                    settled: bool_at(o, "settled"@)->Ok_0,
                    side: token_at::<OrderSide>(o, "side"@)->Ok_0,
                },
            )
        }
    }

    /// The fill that a payload denotes.
    pub open spec fn decode_spec(v: ValueView) -> Result<FillView, DecodeErrorView> {
        match object_of(v, "fill"@) {
            Ok(o) => Self::fields_spec(o),
            Err(e) => Err(e),
        }
    }

    /// The fields of a fill in wire order, given how each is written.
    pub open spec fn assemble(
        trade_id: ValueView,
        product_id: ValueView,
        price: ValueView,
        size: ValueView,
        order_id: ValueView,
        created_at: ValueView,
        liquidity: ValueView,
        fee: ValueView,
        settled: ValueView,
        side: ValueView,
    ) -> Fields {
        let o = Fields::empty();
        let o = o.push(("trade_id"@, trade_id));
        let o = o.push(("product_id"@, product_id));
        let o = o.push(("price"@, price));
        let o = o.push(("size"@, size));
        let o = o.push(("order_id"@, order_id));
        let o = o.push(("created_at"@, created_at));
        let o = o.push(("liquidity"@, liquidity));
        let o = o.push(("fee"@, fee));
        let o = o.push(("settled"@, settled));
        let o = o.push(("side"@, side));
        o
    }

    /// Among the assembled fields each name finds its own value.
    pub proof fn lemma_assembled(
        trade_id: ValueView,
        product_id: ValueView,
        price: ValueView,
        size: ValueView,
        order_id: ValueView,
        created_at: ValueView,
        liquidity: ValueView,
        fee: ValueView,
        settled: ValueView,
        side: ValueView,
    )
        ensures
            ({
                let o = Self::assemble(trade_id, product_id, price, size, order_id, created_at, liquidity, fee, settled, side);
                &&& field(o, "trade_id"@) == Some(trade_id)
                &&& field(o, "product_id"@) == Some(product_id)
                &&& field(o, "price"@) == Some(price)
                &&& field(o, "size"@) == Some(size)
                &&& field(o, "order_id"@) == Some(order_id)
                &&& field(o, "created_at"@) == Some(created_at)
                &&& field(o, "liquidity"@) == Some(liquidity)
                &&& field(o, "fee"@) == Some(fee)
                &&& field(o, "settled"@) == Some(settled)
                &&& field(o, "side"@) == Some(side)
            }),
    {
        broadcast use {
            lemma_field_push,
            lemma_field_empty,
            lemma_field_with_opt,
            lemma_same_name,
        };

        reveal_strlit("trade_id");
        reveal_strlit("product_id");
        reveal_strlit("price");
        reveal_strlit("size");
        reveal_strlit("order_id");
        reveal_strlit("created_at");
        reveal_strlit("liquidity");
        reveal_strlit("fee");
        reveal_strlit("settled");
        reveal_strlit("side");
        lemma_initials("trade_id"@);
        lemma_initials("product_id"@);
        lemma_initials("price"@);
        lemma_initials("size"@);
        lemma_initials("order_id"@);
        lemma_initials("created_at"@);
        lemma_initials("liquidity"@);
        lemma_initials("fee"@);
        lemma_initials("settled"@);
        lemma_initials("side"@);
    }

    /// The fields that the fill is written as.
    pub open spec fn encoded_fields(a: FillView) -> Fields {
        Self::assemble(
            count_value(a.trade_id),
            ValueView::Text(a.product_id),
            decimal_value(a.price),
            decimal_value(a.size),
            uuid_value(a.order_id),
            instant_value(a.created_at),
            token_value(a.liquidity),
            decimal_value(a.fee),
            ValueView::Bool(a.settled),
            token_value(a.side),
        )
    }

    /// The payload that the fill is written as.
    pub open spec fn encode_spec(a: FillView) -> ValueView {
        ValueView::Object(Self::encoded_fields(a))
    }

    /// Decodes a fill from its payload.
    pub fn decode(value: &Value) -> (r: Result<Fill, DecodeError>)
        ensures
            decoded(r) == Self::decode_spec(value@),
    {
        let o = as_object(value, "fill")?;
        let trade_id = count_field(o, "trade_id")?;
        let product_id = text_field(o, "product_id")?;
        let price = decimal_field(o, "price")?;
        let size = decimal_field(o, "size")?;
        let order_id = uuid_field(o, "order_id")?;
        let created_at = instant_field(o, "created_at")?;
        let liquidity = token_field::<FillLiquidity>(o, "liquidity")?;
        let fee = decimal_field(o, "fee")?;
        let settled = bool_field(o, "settled")?;
        let side = token_field::<OrderSide>(o, "side")?;
        Ok(Fill { trade_id, product_id, price, size, order_id, created_at, liquidity, fee, settled, side })
    }

    /// Writes the fill as a payload, which decodes back to the same fill.
    pub fn encode(&self) -> (value: Value)
        ensures
            value@ == Self::encode_spec(self@),
            Self::decode_spec(value@) == Ok::<FillView, DecodeErrorView>(self@),
    {
        broadcast use lemma_object_view;

        let mut o = no_fields();
        put_count(&mut o, "trade_id", self.trade_id);
        put_text(&mut o, "product_id", &self.product_id);
        put_decimal(&mut o, "price", self.price);
        put_decimal(&mut o, "size", self.size);
        put_uuid(&mut o, "order_id", self.order_id);
        put_instant(&mut o, "created_at", self.created_at);
        put_token(&mut o, "liquidity", self.liquidity);
        put_decimal(&mut o, "fee", self.fee);
        put_bool(&mut o, "settled", self.settled);
        put_token(&mut o, "side", self.side);
        proof {
            Self::lemma_assembled(
                count_value(self@.trade_id),
                ValueView::Text(self@.product_id),
                decimal_value(self@.price),
                decimal_value(self@.size),
                uuid_value(self@.order_id),
                instant_value(self@.created_at),
                token_value(self@.liquidity),
                decimal_value(self@.fee),
                ValueView::Bool(self@.settled),
                token_value(self@.side),
            );
        }
        Value::Object(o)
    }
}

/// What makes an order a stop order: the price at which it triggers, and in
/// which direction.
#[derive(Clone, Copy, Debug, PartialEq)]
pub struct OrderStop {
    pub stop_price: Decimal,
    pub _type: OrderStopType,
}

/// What [`OrderStop`] holds, as mathematical values.
pub struct OrderStopView {
    pub stop_price: DecimalView,
    pub _type: OrderStopType,
}

impl View for OrderStop {
    type V = OrderStopView;

    open spec fn view(&self) -> OrderStopView {
        OrderStopView { stop_price: self.stop_price@, _type: self._type }
    }
}

impl OrderStop {
    /// The stop extension among an order's fields: there is one exactly when
    /// the field `stop` is present and not null, and then `stop_price` is
    /// required.
    pub open spec fn fields_spec(o: Fields) -> Result<Option<OrderStopView>, DecodeErrorView> {
        match present(field(o, "stop"@)) {
            None => Ok(None),
            Some(v) => match as_token::<OrderStopType>(v, "stop"@) {
                Err(e) => Err(e),
                Ok(_type) => match decimal_at(o, "stop_price"@) {
                    Err(e) => Err(e),
                    Ok(stop_price) => Ok(Some(OrderStopView { stop_price, _type })),
                },
            },
        }
    }

    /// Decodes the stop extension from the fields of an order.
    pub fn decode_fields(o: &Vec<(String, Value)>) -> (r: Result<Option<OrderStop>, DecodeError>)
        ensures
            decoded_opt(r) == Self::fields_spec(fields_view(o@)),
    {
        match get_opt(o, "stop") {
            None => Ok(None),
            Some(v) => {
                let _type = read_token::<OrderStopType>(v, "stop")?;
                let stop_price = decimal_field(o, "stop_price")?;
                Ok(Some(OrderStop { stop_price, _type }))
            },
        }
    }
}

/// How long a limit order stays in force.
#[derive(Clone, Copy, Debug, PartialEq)]
pub enum OrderTimeInForce {
    /// Good till cancelled.
    GTC,
    /// Good till the given time.
    GTT { expire_time: Instant },
    /// Immediate or cancel.
    IOC,
    /// Fill or kill.
    FOK,
}

/// What [`OrderTimeInForce`] holds, as mathematical values.
pub enum OrderTimeInForceView {
    GTC,
    GTT { expire_time: InstantView },
    IOC,
    FOK,
}

impl View for OrderTimeInForce {
    type V = OrderTimeInForceView;

    open spec fn view(&self) -> OrderTimeInForceView {
        match self {
            OrderTimeInForce::GTC => OrderTimeInForceView::GTC,
            OrderTimeInForce::GTT { expire_time } => OrderTimeInForceView::GTT {
                expire_time: expire_time@,
            },
            OrderTimeInForce::IOC => OrderTimeInForceView::IOC,
            OrderTimeInForce::FOK => OrderTimeInForceView::FOK,
        }
    }
}

impl OrderTimeInForce {
    /// The time in force among a limit order's fields: the tag
    /// `time_in_force` selects the variant, and `GTT` alone reads a second
    /// field, `expire_time`.
    pub open spec fn fields_spec(o: Fields) -> Result<OrderTimeInForceView, DecodeErrorView> {
        match text_at(o, "time_in_force"@) {
            Err(e) => Err(e),
            Ok(tag) => if same_name(tag, "GTC"@) {
                Ok(OrderTimeInForceView::GTC)
            } else if same_name(tag, "GTT"@) {
                match instant_at(o, "expire_time"@) {
                    Err(e) => Err(e),
                    Ok(expire_time) => Ok(OrderTimeInForceView::GTT { expire_time }),
                }
            } else if same_name(tag, "IOC"@) {
                Ok(OrderTimeInForceView::IOC)
            } else if same_name(tag, "FOK"@) {
                Ok(OrderTimeInForceView::FOK)
            } else {
                Err(DecodeErrorView::UnknownVariant(tag))
            },
        }
    }

    /// The tag of a time in force.
    pub open spec fn tag_of(t: OrderTimeInForceView) -> Seq<char> {
        match t {
            OrderTimeInForceView::GTC => "GTC"@,
            OrderTimeInForceView::GTT { .. } => "GTT"@,
            OrderTimeInForceView::IOC => "IOC"@,
            OrderTimeInForceView::FOK => "FOK"@,
        }
    }

    /// The time at which a time in force ends, if it names one.
    pub open spec fn expiry_of(t: OrderTimeInForceView) -> Option<InstantView> {
        match t {
            OrderTimeInForceView::GTT { expire_time } => Some(expire_time),
            _ => None,
        }
    }

    /// Decodes the time in force from the fields of a limit order.
    pub fn decode_fields(o: &Vec<(String, Value)>) -> (r: Result<OrderTimeInForce, DecodeError>)
        ensures
            decoded(r) == Self::fields_spec(fields_view(o@)),
    {
        let tag = text_field(o, "time_in_force")?;
        if str_eq(tag.as_str(), "GTC") {
            Ok(OrderTimeInForce::GTC)
        } else if str_eq(tag.as_str(), "GTT") {
            let expire_time = instant_field(o, "expire_time")?;
            Ok(OrderTimeInForce::GTT { expire_time })
        } else if str_eq(tag.as_str(), "IOC") {
            Ok(OrderTimeInForce::IOC)
        } else if str_eq(tag.as_str(), "FOK") {
            Ok(OrderTimeInForce::FOK)
        } else {
            Err(DecodeError::UnknownVariant(tag))
        }
    }

    /// The wire tag.
    pub fn tag(&self) -> (tag: &'static str)
        ensures
            tag@ == Self::tag_of(self@),
    {
        match self {
            OrderTimeInForce::GTC => "GTC",
            OrderTimeInForce::GTT { .. } => "GTT",
            OrderTimeInForce::IOC => "IOC",
            OrderTimeInForce::FOK => "FOK",
        }
    }

    /// The time at which the order expires, if it is good till a time.
    pub fn expiry(&self) -> (t: Option<Instant>)
        ensures
            opt_view(t) == Self::expiry_of(self@),
    {
        match self {
            OrderTimeInForce::GTT { expire_time } => Some(*expire_time),
            _ => None,
        }
    }
}

/// The two shapes of an order. A limit order names a size, a price and how
/// long it stays in force; a market order names a size, funds, or both, and
/// what it does not name counts as zero.
#[derive(Clone, Copy, Debug, PartialEq)]
pub enum OrderType {
    Limit { size: Decimal, price: Decimal, time_in_force: OrderTimeInForce },
    Market { size: Decimal, funds: Decimal },
}

/// What [`OrderType`] holds, as mathematical values.
pub enum OrderTypeView {
    Limit { size: DecimalView, price: DecimalView, time_in_force: OrderTimeInForceView },
    Market { size: DecimalView, funds: DecimalView },
}

impl View for OrderType {
    type V = OrderTypeView;

    open spec fn view(&self) -> OrderTypeView {
        match self {
            OrderType::Limit { size, price, time_in_force } => OrderTypeView::Limit {
                size: size@,
                price: price@,
                time_in_force: time_in_force@,
            },
            OrderType::Market { size, funds } => OrderTypeView::Market {
                size: size@,
                funds: funds@,
            },
        }
    }
}

impl OrderType {
    /// The limit order among an order's fields.
    pub open spec fn limit_spec(o: Fields) -> Result<OrderTypeView, DecodeErrorView> {
        if decimal_at(o, "size"@) is Err {
            Err(decimal_at(o, "size"@)->Err_0)
        } else if decimal_at(o, "price"@) is Err {
            Err(decimal_at(o, "price"@)->Err_0)
        } else if OrderTimeInForce::fields_spec(o) is Err {
            Err(OrderTimeInForce::fields_spec(o)->Err_0)
        } else {
            Ok(
                OrderTypeView::Limit {
                    size: decimal_at(o, "size"@)->Ok_0,
                    price: decimal_at(o, "price"@)->Ok_0,
                    time_in_force: OrderTimeInForce::fields_spec(o)->Ok_0,
                },
            )
        }
    }

    /// The market order among an order's fields.
    pub open spec fn market_spec(o: Fields) -> Result<OrderTypeView, DecodeErrorView> {
        if decimal_or_zero_at(o, "size"@) is Err {
            Err(decimal_or_zero_at(o, "size"@)->Err_0)
        } else if decimal_or_zero_at(o, "funds"@) is Err {
            Err(decimal_or_zero_at(o, "funds"@)->Err_0)
        } else {
            Ok(
                OrderTypeView::Market {
                    size: decimal_or_zero_at(o, "size"@)->Ok_0,
                    funds: decimal_or_zero_at(o, "funds"@)->Ok_0,
                },
            )
        }
    }

    /// The order type among an order's fields: the tag `type` selects the
    /// variant, whose own fields lie beside the tag. The set of variants is
    /// closed.
    pub open spec fn fields_spec(o: Fields) -> Result<OrderTypeView, DecodeErrorView> {
        match text_at(o, "type"@) {
            Err(e) => Err(e),
            Ok(tag) => if same_name(tag, "limit"@) {
                Self::limit_spec(o)
            } else if same_name(tag, "market"@) {
                Self::market_spec(o)
            } else {
                Err(DecodeErrorView::UnknownVariant(tag))
            },
        }
    }

    /// The tag of an order type.
    pub open spec fn tag_of(t: OrderTypeView) -> Seq<char> {
        match t {
            OrderTypeView::Limit { .. } => "limit"@,
            OrderTypeView::Market { .. } => "market"@,
        }
    }

    /// The size that an order type names.
    pub open spec fn size_of(t: OrderTypeView) -> DecimalView {
        match t {
            OrderTypeView::Limit { size, .. } => size,
            OrderTypeView::Market { size, .. } => size,
        }
    }

    /// The price of a limit order.
    pub open spec fn price_of(t: OrderTypeView) -> Option<DecimalView> {
        match t {
            OrderTypeView::Limit { price, .. } => Some(price),
            OrderTypeView::Market { .. } => None,
        }
    }

    /// The time in force of a limit order.
    pub open spec fn time_in_force_of(t: OrderTypeView) -> Option<OrderTimeInForceView> {
        match t {
            OrderTypeView::Limit { time_in_force, .. } => Some(time_in_force),
            OrderTypeView::Market { .. } => None,
        }
    }

    /// Decodes the order type from the fields of an order.
    pub fn decode_fields(o: &Vec<(String, Value)>) -> (r: Result<OrderType, DecodeError>)
        ensures
            decoded(r) == Self::fields_spec(fields_view(o@)),
    {
        let tag = text_field(o, "type")?;
        if str_eq(tag.as_str(), "limit") {
            let size = decimal_field(o, "size")?;
            let price = decimal_field(o, "price")?;
            let time_in_force = OrderTimeInForce::decode_fields(o)?;
            Ok(OrderType::Limit { size, price, time_in_force })
        } else if str_eq(tag.as_str(), "market") {
            let size = decimal_or_zero_field(o, "size")?;
            let funds = decimal_or_zero_field(o, "funds")?;
            Ok(OrderType::Market { size, funds })
        } else {
            Err(DecodeError::UnknownVariant(tag))
        }
    }

    /// The wire tag.
    pub fn tag(&self) -> (tag: &'static str)
        ensures
            tag@ == Self::tag_of(self@),
    {
        match self {
            OrderType::Limit { .. } => "limit",
            OrderType::Market { .. } => "market",
        }
    }

    /// The size that the order names.
    pub fn size(&self) -> (size: Decimal)
        ensures
            size@ == Self::size_of(self@),
    {
        match self {
            OrderType::Limit { size, .. } => *size,
            OrderType::Market { size, .. } => *size,
        }
    }

    /// The price, if this is a limit order.
    pub fn price(&self) -> (price: Option<Decimal>)
        ensures
            opt_view(price) == Self::price_of(self@),
    {
        match self {
            OrderType::Limit { price, .. } => Some(*price),
            OrderType::Market { .. } => None,
        }
    }

    /// The time in force, if this is a limit order.
    pub fn time_in_force(&self) -> (t: Option<OrderTimeInForce>)
        ensures
            opt_view(t) == Self::time_in_force_of(self@),
    {
        match self {
            OrderType::Limit { time_in_force, .. } => Some(*time_in_force),
            OrderType::Market { .. } => None,
        }
    }
}

/// An order as the exchange reports it. The order type and the optional stop
/// extension share the object with the order's own fields.
#[derive(Clone, Debug, PartialEq)]
pub struct Order {
    pub id: Uuid,
    pub product_id: String,
    pub side: OrderSide,
    /// The self-trade prevention flag; reported for a new order only.
    pub stp: Option<String>,
    pub funds: Option<Decimal>,
    pub specified_funds: Option<Decimal>,
    pub _type: OrderType,
    pub post_only: bool,
    pub created_at: Instant,
    pub done_at: Option<Instant>,
    pub done_reason: Option<String>,
    pub fill_fees: Decimal,
    pub filled_size: Decimal,
    pub executed_value: Decimal,
    pub status: OrderStatus,
    pub settled: bool,
    pub stop: Option<OrderStop>,
}

/// What [`Order`] holds, as mathematical values.
pub struct OrderView {
    pub id: Uuid,
    pub product_id: Seq<char>,
    pub side: OrderSide,
    pub stp: Option<Seq<char>>,
    pub funds: Option<DecimalView>,
    pub specified_funds: Option<DecimalView>,
    pub _type: OrderTypeView,
    pub post_only: bool,
    pub created_at: InstantView,
    pub done_at: Option<InstantView>,
    pub done_reason: Option<Seq<char>>,
    pub fill_fees: DecimalView,
    pub filled_size: DecimalView,
    pub executed_value: DecimalView,
    pub status: OrderStatus,
    pub settled: bool,
    pub stop: Option<OrderStopView>,
}

impl View for Order {
    type V = OrderView;

    open spec fn view(&self) -> OrderView {
        OrderView {
            id: self.id,
            product_id: self.product_id@,
            side: self.side,
            stp: opt_view(self.stp),
            funds: opt_view(self.funds),
            specified_funds: opt_view(self.specified_funds),
            _type: self._type@,
            post_only: self.post_only,
            created_at: self.created_at@,
            done_at: opt_view(self.done_at),
            done_reason: opt_view(self.done_reason),
            fill_fees: self.fill_fees@,
            filled_size: self.filled_size@,
            executed_value: self.executed_value@,
            status: self.status,
            settled: self.settled,
            stop: opt_view(self.stop),
        }
    }
}

impl OrderView {
    /// A market order reads its funds from the order's own field `funds`, so
    /// the two agree: absent funds count as zero.
    pub open spec fn coherent(self) -> bool {
        match self._type {
            OrderTypeView::Market { funds, .. } => funds == match self.funds {
                Some(f) => f,
                None => DecimalView { negative: false, mantissa: 0, scale: 0 },
            },
            OrderTypeView::Limit { .. } => true,
        }
    }

    /// The direction of the stop extension, if there is one.
    pub open spec fn stop_type(self) -> Option<OrderStopType> {
        match self.stop {
            Some(stop) => Some(stop._type),
            None => None,
        }
    }

    /// The price of the stop extension, if there is one.
    pub open spec fn stop_price(self) -> Option<DecimalView> {
        match self.stop {
            Some(stop) => Some(stop.stop_price),
            None => None,
        }
    }

    /// The tag of the time in force, if this is a limit order.
    pub open spec fn time_in_force_tag(self) -> Option<Seq<char>> {
        match OrderType::time_in_force_of(self._type) {
            Some(t) => Some(OrderTimeInForce::tag_of(t)),
            None => None,
        }
    }

    /// When the order expires, if it is a limit order that is good till a time.
    pub open spec fn expire_time(self) -> Option<InstantView> {
        match OrderType::time_in_force_of(self._type) {
            Some(t) => OrderTimeInForce::expiry_of(t),
            None => None,
        }
    }
}

impl Order {
    /// The order that an object's fields denote: the first error met in the
    /// order of the fields below, or else the record of their values.
    pub open spec fn fields_spec(o: Fields) -> Result<OrderView, DecodeErrorView> {
        if uuid_at(o, "id"@) is Err {
            Err(uuid_at(o, "id"@)->Err_0)
        } else if text_at(o, "product_id"@) is Err {
            Err(text_at(o, "product_id"@)->Err_0)
        } else if token_at::<OrderSide>(o, "side"@) is Err {
            Err(token_at::<OrderSide>(o, "side"@)->Err_0)
        } else if opt_text_at(o, "stp"@) is Err {
            Err(opt_text_at(o, "stp"@)->Err_0)
        } else if opt_decimal_at(o, "funds"@) is Err {
            Err(opt_decimal_at(o, "funds"@)->Err_0)
        } else if opt_decimal_at(o, "specified_funds"@) is Err {
            Err(opt_decimal_at(o, "specified_funds"@)->Err_0)
        } else if OrderType::fields_spec(o) is Err {
            Err(OrderType::fields_spec(o)->Err_0)
        } else if bool_at(o, "post_only"@) is Err {
            Err(bool_at(o, "post_only"@)->Err_0)
        } else if instant_at(o, "created_at"@) is Err {
            Err(instant_at(o, "created_at"@)->Err_0)
        } else if opt_instant_at(o, "done_at"@) is Err {
            Err(opt_instant_at(o, "done_at"@)->Err_0)
        } else if opt_text_at(o, "done_reason"@) is Err {
            Err(opt_text_at(o, "done_reason"@)->Err_0)
        } else if decimal_at(o, "fill_fees"@) is Err {
            Err(decimal_at(o, "fill_fees"@)->Err_0)
        } else if decimal_at(o, "filled_size"@) is Err {
            Err(decimal_at(o, "filled_size"@)->Err_0)
        } else if decimal_at(o, "executed_value"@) is Err {
            Err(decimal_at(o, "executed_value"@)->Err_0)
        } else if token_at::<OrderStatus>(o, "status"@) is Err {
            Err(token_at::<OrderStatus>(o, "status"@)->Err_0)
        } else if bool_at(o, "settled"@) is Err {
            Err(bool_at(o, "settled"@)->Err_0)
        } else if OrderStop::fields_spec(o) is Err {
            Err(OrderStop::fields_spec(o)->Err_0)
        } else {
            Ok(
                OrderView {
                    id: uuid_at(o, "id"@)->Ok_0,
                    product_id: text_at(o, "product_id"@)->Ok_0,
                    side: token_at::<OrderSide>(o, "side"@)->Ok_0,
                    stp: opt_text_at(o, "stp"@)->Ok_0,
                    funds: opt_decimal_at(o, "funds"@)->Ok_0,
                    specified_funds: opt_decimal_at(o, "specified_funds"@)->Ok_0,
                    _type: OrderType::fields_spec(o)->Ok_0,
                    post_only: bool_at(o, "post_only"@)->Ok_0,
                    created_at: instant_at(o, "created_at"@)->Ok_0,
                    done_at: opt_instant_at(o, "done_at"@)->Ok_0,
                    done_reason: opt_text_at(o, "done_reason"@)->Ok_0,
                    fill_fees: decimal_at(o, "fill_fees"@)->Ok_0,
                    filled_size: decimal_at(o, "filled_size"@)->Ok_0,
                    executed_value: decimal_at(o, "executed_value"@)->Ok_0,
                    status: token_at::<OrderStatus>(o, "status"@)->Ok_0,
                    settled: bool_at(o, "settled"@)->Ok_0,
                    stop: OrderStop::fields_spec(o)->Ok_0,
                },
            )
        }
    }

    /// The order that a payload denotes.
    pub open spec fn decode_spec(v: ValueView) -> Result<OrderView, DecodeErrorView> {
        match object_of(v, "order"@) {
            Ok(o) => Self::fields_spec(o),
            Err(e) => Err(e),
        }
    }

    /// The fields of an order in wire order, given how each is written.
    pub open spec fn assemble(
        id: ValueView,
        product_id: ValueView,
        side: ValueView,
        stp: Option<ValueView>,
        funds: Option<ValueView>,
        specified_funds: Option<ValueView>,
        kind: ValueView,
        size: ValueView,
        price: Option<ValueView>,
        time_in_force: Option<ValueView>,
        expire_time: Option<ValueView>,
        post_only: ValueView,
        created_at: ValueView,
        done_at: Option<ValueView>,
        done_reason: Option<ValueView>,
        fill_fees: ValueView,
        filled_size: ValueView,
        executed_value: ValueView,
        status: ValueView,
        settled: ValueView,
        stop: Option<ValueView>,
        stop_price: Option<ValueView>,
    ) -> Fields {
        let o = Fields::empty();
        let o = o.push(("id"@, id));
        let o = o.push(("product_id"@, product_id));
        let o = o.push(("side"@, side));
        let o = with_opt(o, "stp"@, stp);
        let o = with_opt(o, "funds"@, funds);
        let o = with_opt(o, "specified_funds"@, specified_funds);
        let o = o.push(("type"@, kind));
        let o = o.push(("size"@, size));
        let o = with_opt(o, "price"@, price);
        let o = with_opt(o, "time_in_force"@, time_in_force);
        let o = with_opt(o, "expire_time"@, expire_time);
        let o = o.push(("post_only"@, post_only));
        let o = o.push(("created_at"@, created_at));
        let o = with_opt(o, "done_at"@, done_at);
        let o = with_opt(o, "done_reason"@, done_reason);
        let o = o.push(("fill_fees"@, fill_fees));
        let o = o.push(("filled_size"@, filled_size));
        let o = o.push(("executed_value"@, executed_value));
        let o = o.push(("status"@, status));
        let o = o.push(("settled"@, settled));
        let o = with_opt(o, "stop"@, stop);
        let o = with_opt(o, "stop_price"@, stop_price);
        o
    }

    /// Among the assembled fields each name finds its own value.
    pub proof fn lemma_assembled(
        id: ValueView,
        product_id: ValueView,
        side: ValueView,
        stp: Option<ValueView>,
        funds: Option<ValueView>,
        specified_funds: Option<ValueView>,
        kind: ValueView,
        size: ValueView,
        price: Option<ValueView>,
        time_in_force: Option<ValueView>,
        expire_time: Option<ValueView>,
        post_only: ValueView,
        created_at: ValueView,
        done_at: Option<ValueView>,
        done_reason: Option<ValueView>,
        fill_fees: ValueView,
        filled_size: ValueView,
        executed_value: ValueView,
        status: ValueView,
        settled: ValueView,
        stop: Option<ValueView>,
        stop_price: Option<ValueView>,
    )
        ensures
            ({
                let o = Self::assemble(id, product_id, side, stp, funds, specified_funds, kind, size, price, time_in_force, expire_time, post_only, created_at, done_at, done_reason, fill_fees, filled_size, executed_value, status, settled, stop, stop_price);
                &&& field(o, "id"@) == Some(id)
                &&& field(o, "product_id"@) == Some(product_id)
                &&& field(o, "side"@) == Some(side)
                &&& field(o, "stp"@) == stp
                &&& field(o, "funds"@) == funds
                &&& field(o, "specified_funds"@) == specified_funds
                &&& field(o, "type"@) == Some(kind)
                &&& field(o, "size"@) == Some(size)
                &&& field(o, "price"@) == price
                &&& field(o, "time_in_force"@) == time_in_force
                &&& field(o, "expire_time"@) == expire_time
                &&& field(o, "post_only"@) == Some(post_only)
                &&& field(o, "created_at"@) == Some(created_at)
                &&& field(o, "done_at"@) == done_at
                &&& field(o, "done_reason"@) == done_reason
                &&& field(o, "fill_fees"@) == Some(fill_fees)
                &&& field(o, "filled_size"@) == Some(filled_size)
                &&& field(o, "executed_value"@) == Some(executed_value)
                &&& field(o, "status"@) == Some(status)
                &&& field(o, "settled"@) == Some(settled)
                &&& field(o, "stop"@) == stop
                &&& field(o, "stop_price"@) == stop_price
            }),
    {
        broadcast use {
            lemma_field_push,
            lemma_field_empty,
            lemma_field_with_opt,
            lemma_same_name,
        };

        reveal_strlit("id");
        reveal_strlit("product_id");
        reveal_strlit("side");
        reveal_strlit("stp");
        reveal_strlit("funds");
        reveal_strlit("specified_funds");
        reveal_strlit("type");
        reveal_strlit("size");
        reveal_strlit("price");
        reveal_strlit("time_in_force");
        reveal_strlit("expire_time");
        reveal_strlit("post_only");
        reveal_strlit("created_at");
        reveal_strlit("done_at");
        reveal_strlit("done_reason");
        reveal_strlit("fill_fees");
        reveal_strlit("filled_size");
        reveal_strlit("executed_value");
        reveal_strlit("status");
        reveal_strlit("settled");
        reveal_strlit("stop");
        reveal_strlit("stop_price");
        lemma_initials("id"@);
        lemma_initials("product_id"@);
        lemma_initials("side"@);
        lemma_initials("stp"@);
        lemma_initials("funds"@);
        lemma_initials("specified_funds"@);
        lemma_initials("type"@);
        lemma_initials("size"@);
        lemma_initials("price"@);
        lemma_initials("time_in_force"@);
        lemma_initials("expire_time"@);
        lemma_initials("post_only"@);
        lemma_initials("created_at"@);
        lemma_initials("done_at"@);
        lemma_initials("done_reason"@);
        lemma_initials("fill_fees"@);
        lemma_initials("filled_size"@);
        lemma_initials("executed_value"@);
        lemma_initials("status"@);
        lemma_initials("settled"@);
        lemma_initials("stop"@);
        lemma_initials("stop_price"@);
    }

    /// The fields that the order is written as: its own, then those of its
    /// type, and those of the stop extension if it has one. A market order's
    /// funds are written once, from the order's own `funds`.
    pub open spec fn encoded_fields(a: OrderView) -> Fields {
        Self::assemble(
            uuid_value(a.id),
            ValueView::Text(a.product_id),
            token_value(a.side),
            opt_text_value(a.stp),
            opt_decimal_value(a.funds),
            opt_decimal_value(a.specified_funds),
            ValueView::Text(OrderType::tag_of(a._type)),
            decimal_value(OrderType::size_of(a._type)),
            opt_decimal_value(OrderType::price_of(a._type)),
            opt_text_value(a.time_in_force_tag()),
            opt_instant_value(a.expire_time()),
            ValueView::Bool(a.post_only),
            instant_value(a.created_at),
            opt_instant_value(a.done_at),
            opt_text_value(a.done_reason),
            decimal_value(a.fill_fees),
            decimal_value(a.filled_size),
            decimal_value(a.executed_value),
            token_value(a.status),
            ValueView::Bool(a.settled),
            opt_token_value(a.stop_type()),
            opt_decimal_value(a.stop_price()),
        )
    }

    /// The payload that the order is written as.
    pub open spec fn encode_spec(a: OrderView) -> ValueView {
        ValueView::Object(Self::encoded_fields(a))
    }

    /// An order type is read back from fields that hold what it is written
    /// as, where each of those values reads back as what it stands for and
    /// the order's own funds agree with those of a market order.
    proof fn lemma_type_found(o: Fields, t: OrderTypeView, funds: Option<DecimalView>)
        requires
            field(o, "type"@) == Some(ValueView::Text(OrderType::tag_of(t))),
            field(o, "size"@) == Some(decimal_value(OrderType::size_of(t))),
            field(o, "price"@) == opt_decimal_value(OrderType::price_of(t)),
            field(o, "funds"@) == opt_decimal_value(funds),
            t matches OrderTypeView::Limit { time_in_force, .. } ==> {
                &&& field(o, "time_in_force"@) == Some(
                    ValueView::Text(OrderTimeInForce::tag_of(time_in_force)),
                )
                &&& field(o, "expire_time"@) == opt_instant_value(
                    OrderTimeInForce::expiry_of(time_in_force),
                )
            },
            yields(
                as_decimal(decimal_value(OrderType::size_of(t)), "size"@),
                OrderType::size_of(t),
            ),
            t matches OrderTypeView::Limit { price, .. } ==> yields(
                as_decimal(decimal_value(price), "price"@),
                price,
            ),
            t matches OrderTypeView::Limit {
                time_in_force: OrderTimeInForceView::GTT { expire_time },
                ..
            } ==> yields(as_instant(instant_value(expire_time), "expire_time"@), expire_time),
            t matches OrderTypeView::Market { funds: market_funds, .. } ==> yields(
                decimal_or_zero_of(opt_decimal_value(funds), "funds"@),
                market_funds,
            ),
        ensures
            OrderType::fields_spec(o) == Ok::<OrderTypeView, DecodeErrorView>(t),
    {
        broadcast use lemma_same_name;

        reveal_strlit("limit");
        reveal_strlit("market");
        reveal_strlit("GTC");
        reveal_strlit("GTT");
        reveal_strlit("IOC");
        reveal_strlit("FOK");
        lemma_initials("limit"@);
        lemma_initials("market"@);
        lemma_initials("GTC"@);
        lemma_initials("GTT"@);
        lemma_initials("IOC"@);
        lemma_initials("FOK"@);
        match t {
            OrderTypeView::Limit { time_in_force, .. } => {
                assert(OrderTimeInForce::fields_spec(o) == Ok::<
                    OrderTimeInForceView,
                    DecodeErrorView,
                >(time_in_force));
            },
            OrderTypeView::Market { .. } => {},
        }
    }

    /// A stop extension is read back from fields that hold what it is written
    /// as, where each of those values reads back as what it stands for.
    proof fn lemma_stop_found(o: Fields, stop: Option<OrderStopView>)
        requires
            stop matches Some(s) ==> {
                &&& field(o, "stop"@) == Some(token_value(s._type))
                &&& field(o, "stop_price"@) == Some(decimal_value(s.stop_price))
                &&& yields(as_token::<OrderStopType>(token_value(s._type), "stop"@), s._type)
                &&& yields(as_decimal(decimal_value(s.stop_price), "stop_price"@), s.stop_price)
            },
            stop is None ==> field(o, "stop"@) is None,
        ensures
            OrderStop::fields_spec(o) == Ok::<Option<OrderStopView>, DecodeErrorView>(stop),
    {
    }

    /// Every decoded order is coherent.
    pub proof fn lemma_decoded_is_coherent(v: ValueView)
        ensures
            Self::decode_spec(v) matches Ok(a) ==> a.coherent(),
    {
    }

    /// Decodes an order from its payload.
    pub fn decode(value: &Value) -> (r: Result<Order, DecodeError>)
        ensures
            decoded(r) == Self::decode_spec(value@),
    {
        let o = as_object(value, "order")?;
        let id = uuid_field(o, "id")?;
        let product_id = text_field(o, "product_id")?;
        let side = token_field::<OrderSide>(o, "side")?;
        let stp = opt_text_field(o, "stp")?;
        let funds = opt_decimal_field(o, "funds")?;
        let specified_funds = opt_decimal_field(o, "specified_funds")?;
        let _type = OrderType::decode_fields(o)?;
        let post_only = bool_field(o, "post_only")?;
        let created_at = instant_field(o, "created_at")?;
        let done_at = opt_instant_field(o, "done_at")?;
        let done_reason = opt_text_field(o, "done_reason")?;
        let fill_fees = decimal_field(o, "fill_fees")?;
        let filled_size = decimal_field(o, "filled_size")?;
        let executed_value = decimal_field(o, "executed_value")?;
        let status = token_field::<OrderStatus>(o, "status")?;
        let settled = bool_field(o, "settled")?;
        let stop = OrderStop::decode_fields(o)?;
        Ok(
            Order {
                id,
                product_id,
                side,
                stp,
                funds,
                specified_funds,
                _type,
                post_only,
                created_at,
                done_at,
                done_reason,
                fill_fees,
                filled_size,
                executed_value,
                status,
                settled,
                stop,
            },
        )
    }

    /// Writes the order as a payload that holds only the fields of its own
    /// type. A coherent order decodes back from it.
    pub fn encode(&self) -> (value: Value)
        ensures
            value@ == Self::encode_spec(self@),
            self@.coherent() ==> Self::decode_spec(value@) == Ok::<OrderView, DecodeErrorView>(
                self@,
            ),
    {
        broadcast use {lemma_object_view, lemma_same_name};

        let time_in_force = self._type.time_in_force();
        let (tag, expiry): (Option<String>, Option<Instant>) = match time_in_force {
            Some(t) => (Some(t.tag().to_owned()), t.expiry()),
            None => (None, None),
        };
        let (stop_type, stop_price): (Option<OrderStopType>, Option<Decimal>) = match self.stop {
            Some(stop) => (Some(stop._type), Some(stop.stop_price)),
            None => (None, None),
        };
        let mut o = no_fields();
        put_uuid(&mut o, "id", self.id);
        put_text(&mut o, "product_id", &self.product_id);
        put_token(&mut o, "side", self.side);
        put_opt_text(&mut o, "stp", &self.stp);
        put_opt_decimal(&mut o, "funds", self.funds);
        put_opt_decimal(&mut o, "specified_funds", self.specified_funds);
        put_str(&mut o, "type", self._type.tag());
        put_decimal(&mut o, "size", self._type.size());
        put_opt_decimal(&mut o, "price", self._type.price());
        put_opt_text(&mut o, "time_in_force", &tag);
        put_opt_instant(&mut o, "expire_time", expiry);
        put_bool(&mut o, "post_only", self.post_only);
        put_instant(&mut o, "created_at", self.created_at);
        put_opt_instant(&mut o, "done_at", self.done_at);
        put_opt_text(&mut o, "done_reason", &self.done_reason);
        put_decimal(&mut o, "fill_fees", self.fill_fees);
        put_decimal(&mut o, "filled_size", self.filled_size);
        put_decimal(&mut o, "executed_value", self.executed_value);
        put_token(&mut o, "status", self.status);
        put_bool(&mut o, "settled", self.settled);
        put_opt_token(&mut o, "stop", stop_type);
        put_opt_decimal(&mut o, "stop_price", stop_price);
        proof {
            let a = self@;
            Self::lemma_assembled(
                uuid_value(a.id),
                ValueView::Text(a.product_id),
                token_value(a.side),
                opt_text_value(a.stp),
                opt_decimal_value(a.funds),
                opt_decimal_value(a.specified_funds),
                ValueView::Text(OrderType::tag_of(a._type)),
                decimal_value(OrderType::size_of(a._type)),
                opt_decimal_value(OrderType::price_of(a._type)),
                opt_text_value(a.time_in_force_tag()),
                opt_instant_value(a.expire_time()),
                ValueView::Bool(a.post_only),
                instant_value(a.created_at),
                opt_instant_value(a.done_at),
                opt_text_value(a.done_reason),
                decimal_value(a.fill_fees),
                decimal_value(a.filled_size),
                decimal_value(a.executed_value),
                token_value(a.status),
                ValueView::Bool(a.settled),
                opt_token_value(a.stop_type()),
                opt_decimal_value(a.stop_price()),
            );
            Self::lemma_stop_found(fields_view(o@), a.stop);
            if a.coherent() {
                Self::lemma_type_found(fields_view(o@), a._type, a.funds);
            }
        }
        Value::Object(o)
    }
}

} // verus!
