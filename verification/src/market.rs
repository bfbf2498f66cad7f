//! Public market data: the exchange's clock, currencies, products, order
//! books, tickers, trades, candles and daily statistics.
use crate::codec::{
    as_count, as_decimal, as_number, as_object, as_uuid, bool_at, bool_field, count_at, count_field,
    count_value, decimal_at, decimal_field, decimal_value, Fields, get, instant_at, instant_field,
    instant_value, lemma_field_with_opt, list_of, need, number_at, number_field, number_of,
    object_of, optional_number_of,
    opt_view, put_bool, put_count, put_decimal, put_instant, put_number, put_text, put_token,
    put_uuid, read_count, read_decimal, read_number, read_uuid, text_at, text_field, token_at,
    token_field, token_value, uuid_at, uuid_field, uuid_value,
};
use crate::decimal::{Decimal, DecimalView};
use crate::error::{decoded, DecodeError, DecodeErrorView};
use crate::ident::{Uuid};
use crate::instant::{Instant, InstantView, MAX_SECONDS, MIN_SECONDS};
use crate::order::OrderSide;
use crate::value::{
    field, fields_view, items_view, lemma_field_empty, lemma_field_push, lemma_initials,
    lemma_list_view, lemma_object_view, lemma_same_name, no_fields, put, Value, ValueView,
};
use vstd::arithmetic::div_mod::{
    lemma_breakdown, lemma_div_denominator, lemma_fundamental_div_mod,
    lemma_fundamental_div_mod_converse, lemma_mod_bound, lemma_mod_pos_bound, lemma_small_mod,
};
use vstd::prelude::*;

verus! {

/// The exchange's clock: an ISO 8601 text and the same instant as seconds
/// since the Unix epoch. The seconds are authoritative.
#[derive(Clone, Debug, PartialEq)]
pub struct Time {
    pub iso: String,
    pub epoch: Decimal,
}

/// What [`Time`] holds, as mathematical values.
pub struct TimeView {
    pub iso: Seq<char>,
    pub epoch: DecimalView,
}

impl View for Time {
    type V = TimeView;

    open spec fn view(&self) -> TimeView {
        TimeView {
            iso: self.iso@,
            epoch: self.epoch@,
        }
    }
}

impl Time {
    /// The clock reading that an object's fields denote: the first error met in the
    /// order of the fields below, or else the record of their values.
    pub open spec fn fields_spec(o: Fields) -> Result<TimeView, DecodeErrorView> {
        if text_at(o, "iso"@) is Err {
            Err(text_at(o, "iso"@)->Err_0)
        } else if number_at(o, "epoch"@) is Err {
            Err(number_at(o, "epoch"@)->Err_0)
        } else {
            Ok(
                TimeView {
                    iso: text_at(o, "iso"@)->Ok_0,
                    epoch: number_at(o, "epoch"@)->Ok_0,
                },
            )
        }
    }

    /// The clock reading that a payload denotes.
    pub open spec fn decode_spec(v: ValueView) -> Result<TimeView, DecodeErrorView> {
        match object_of(v, "time"@) {
            Ok(o) => Self::fields_spec(o),
            Err(e) => Err(e),
        }
    }

    /// The fields of a clock reading in wire order, given how each is written.
    pub open spec fn assemble(
        iso: ValueView,
        epoch: ValueView,
    ) -> Fields {
        let o = Fields::empty();
        let o = o.push(("iso"@, iso));
        let o = o.push(("epoch"@, epoch));
        o
    }

    /// Among the assembled fields each name finds its own value.
    pub proof fn lemma_assembled(
        iso: ValueView,
        epoch: ValueView,
    )
        ensures
            ({
                let o = Self::assemble(iso, epoch);
                &&& field(o, "iso"@) == Some(iso)
                &&& field(o, "epoch"@) == Some(epoch)
            }),
    {
        broadcast use {
            lemma_field_push,
            lemma_field_empty,
            lemma_field_with_opt,
            lemma_same_name,
        };

        reveal_strlit("iso");
        reveal_strlit("epoch");
        lemma_initials("iso"@);
        lemma_initials("epoch"@);
    }

    /// The fields that the clock reading is written as.
    pub open spec fn encoded_fields(a: TimeView) -> Fields {
        Self::assemble(
            ValueView::Text(a.iso),
            ValueView::Number(a.epoch),
        )
    }

    /// The payload that the clock reading is written as.
    pub open spec fn encode_spec(a: TimeView) -> ValueView {
        ValueView::Object(Self::encoded_fields(a))
    }

    /// Decodes a clock reading from its payload.
    pub fn decode(value: &Value) -> (r: Result<Time, DecodeError>)
        ensures
            decoded(r) == Self::decode_spec(value@),
    {
        let o = as_object(value, "time")?;
        let iso = text_field(o, "iso")?;
        let epoch = number_field(o, "epoch")?;
        Ok(Time { iso, epoch })
    }

    /// Writes the clock reading as a payload, which decodes back to the same clock reading.
    pub fn encode(&self) -> (value: Value)
        ensures
            value@ == Self::encode_spec(self@),
            Self::decode_spec(value@) == Ok::<TimeView, DecodeErrorView>(self@),
    {
        broadcast use lemma_object_view;

        let mut o = no_fields();
        put_text(&mut o, "iso", &self.iso);
        put_number(&mut o, "epoch", self.epoch);
        proof {
            Self::lemma_assembled(
                ValueView::Text(self@.iso),
                ValueView::Number(self@.epoch),
            );
        }
        Value::Object(o)
    }

    /// The instant that the clock shows, taken from `epoch` alone: its whole
    /// seconds, and what it holds above them cut to whole nanoseconds. A
    /// negative `epoch` lies before 1970; its whole seconds are the next
    /// whole number below it. There is no instant only where the whole
    /// seconds lie outside the years 0000 to 9999.
    pub fn to_instant(&self) -> (r: Option<Instant>)
        ensures
            opt_view(r) == Self::instant_spec(self@),
    {
        let m: u128 = self.epoch.mantissa();
        let scale: u32 = self.epoch.scale();
        let (whole, whole_exact): (u128, bool) = split_off(m, scale);
        let (above, exact): (u128, bool) = if scale >= 9 {
            let (top, clean): (u128, bool) = split_off(m, scale - 9);
            (top % 1_000_000_000, clean)
        } else {
            let unit: u128 = ten_to(scale);
            let rest: u128 = ten_to(9 - scale);
            proof {
                lemma_pow10_adds(scale as nat, (9 - scale) as nat);
                lemma_pow10_adds((9 - scale) as nat, 0);
                lemma_pow10_nine();
                assert((m % unit) * rest < unit * rest) by (nonlinear_arith)
                    requires
                        m % unit < unit,
                        rest > 0,
                ;
            }
            ((m % unit) * rest, true)
        };
        proof {
            lemma_split(m as nat, scale as nat, above as nat, exact);
        }
        if !self.epoch.is_negative() {
            if whole > MAX_SECONDS as u128 {
                return None;
            }
            Instant::new(whole as i64, above as u32)
        } else {
            let limit: u128 = (-MIN_SECONDS) as u128;
            if whole > limit {
                None
            } else if whole_exact {
                Instant::new(-(whole as i64), 0)
            } else if whole == limit {
                None
            } else if exact {
                Instant::new(-(whole as i64) - 1, (1_000_000_000 - above) as u32)
            } else {
                Instant::new(-(whole as i64) - 1, (1_000_000_000 - above - 1) as u32)
            }
        }
    }

    /// The instant of a clock reading, which depends on `epoch` alone.
    pub open spec fn instant_spec(t: TimeView) -> Option<InstantView> {
        instant_of_epoch(t.epoch)
    }

    /// Two clock readings with the same `epoch` show the same instant,
    /// whatever their `iso` texts hold.
    pub proof fn lemma_instant_ignores_iso(a: TimeView, b: TimeView)
        requires
            a.epoch == b.epoch,
        ensures
            Self::instant_spec(a) == Self::instant_spec(b),
    {
    }

    /// A clock reading comes back from its payload as it was, and so shows
    /// the same instant.
    pub proof fn lemma_round_trip(t: TimeView)
        ensures
            Self::decode_spec(Self::encode_spec(t)) == Ok::<TimeView, DecodeErrorView>(t),
            Self::decode_spec(Self::encode_spec(t)) matches Ok(back) && Self::instant_spec(back)
                == Self::instant_spec(t),
    {
        Self::lemma_assembled(ValueView::Text(t.iso), ValueView::Number(t.epoch));
    }

    /// An `epoch` written as text shows the same instant whether it is read
    /// by the required or by the optional form of the numeric codec.
    pub proof fn lemma_instant_of_either_form(text: Seq<char>, name: Seq<char>, iso: Seq<char>)
        requires
            number_of(text, name) is Ok,
        ensures
            optional_number_of(Some(text), name) matches Ok(Some(epoch)) && Self::instant_spec(
                TimeView { iso, epoch },
            ) == Self::instant_spec(TimeView { iso, epoch: number_of(text, name)->Ok_0 }),
    {
    }
}

/// A currency that the exchange lists.
#[derive(Clone, Debug, PartialEq)]
pub struct Currency {
    pub id: String,
    pub name: String,
    pub min_size: Decimal,
}

/// What [`Currency`] holds, as mathematical values.
pub struct CurrencyView {
    pub id: Seq<char>,
    pub name: Seq<char>,
    pub min_size: DecimalView,
}

impl View for Currency {
    type V = CurrencyView;

    open spec fn view(&self) -> CurrencyView {
        CurrencyView {
            id: self.id@,
            name: self.name@,
            min_size: self.min_size@,
        }
    }
}

impl Currency {
    /// The currency that an object's fields denote: the first error met in the
    /// order of the fields below, or else the record of their values.
    pub open spec fn fields_spec(o: Fields) -> Result<CurrencyView, DecodeErrorView> {
        if text_at(o, "id"@) is Err {
            Err(text_at(o, "id"@)->Err_0)
        } else if text_at(o, "name"@) is Err {
            Err(text_at(o, "name"@)->Err_0)
        } else if decimal_at(o, "min_size"@) is Err {
            Err(decimal_at(o, "min_size"@)->Err_0)
        } else {
            Ok(
                CurrencyView {
                    id: text_at(o, "id"@)->Ok_0,
                    name: text_at(o, "name"@)->Ok_0,
                    min_size: decimal_at(o, "min_size"@)->Ok_0,
                },
            )
        }
    }

    /// The currency that a payload denotes.
    pub open spec fn decode_spec(v: ValueView) -> Result<CurrencyView, DecodeErrorView> {
        match object_of(v, "currency"@) {
            Ok(o) => Self::fields_spec(o),
            Err(e) => Err(e),
        }
    }

    /// The fields of a currency in wire order, given how each is written.
    pub open spec fn assemble(
        id: ValueView,
        name: ValueView,
        min_size: ValueView,
    ) -> Fields {
        let o = Fields::empty();
        let o = o.push(("id"@, id));
        let o = o.push(("name"@, name));
        let o = o.push(("min_size"@, min_size));
        o
    }

    /// Among the assembled fields each name finds its own value.
    pub proof fn lemma_assembled(
        id: ValueView,
        name: ValueView,
        min_size: ValueView,
    )
        ensures
            ({
                let o = Self::assemble(id, name, min_size);
                &&& field(o, "id"@) == Some(id)
                &&& field(o, "name"@) == Some(name)
                &&& field(o, "min_size"@) == Some(min_size)
            }),
    {
        broadcast use {
            lemma_field_push,
            lemma_field_empty,
            lemma_field_with_opt,
            lemma_same_name,
        };

        reveal_strlit("id");
        reveal_strlit("name");
        reveal_strlit("min_size");
        lemma_initials("id"@);
        lemma_initials("name"@);
        lemma_initials("min_size"@);
    }

    /// The fields that the currency is written as.
    pub open spec fn encoded_fields(a: CurrencyView) -> Fields {
        Self::assemble(
            ValueView::Text(a.id),
            ValueView::Text(a.name),
            decimal_value(a.min_size),
        )
    }

    /// The payload that the currency is written as.
    pub open spec fn encode_spec(a: CurrencyView) -> ValueView {
        ValueView::Object(Self::encoded_fields(a))
    }

    /// Decodes a currency from its payload.
    pub fn decode(value: &Value) -> (r: Result<Currency, DecodeError>)
        ensures
            decoded(r) == Self::decode_spec(value@),
    {
        let o = as_object(value, "currency")?;
        let id = text_field(o, "id")?;
        let name = text_field(o, "name")?;
        let min_size = decimal_field(o, "min_size")?;
        Ok(Currency { id, name, min_size })
    }

    /// Writes the currency as a payload, which decodes back to the same currency.
    pub fn encode(&self) -> (value: Value)
        ensures
            value@ == Self::encode_spec(self@),
            Self::decode_spec(value@) == Ok::<CurrencyView, DecodeErrorView>(self@),
    {
        broadcast use lemma_object_view;

        let mut o = no_fields();
        put_text(&mut o, "id", &self.id);
        put_text(&mut o, "name", &self.name);
        put_decimal(&mut o, "min_size", self.min_size);
        proof {
            Self::lemma_assembled(
                ValueView::Text(self@.id),
                ValueView::Text(self@.name),
                decimal_value(self@.min_size),
            );
        }
        Value::Object(o)
    }
}

/// A trading pair and its limits.
#[derive(Clone, Debug, PartialEq)]
pub struct Product {
    pub id: String,
    pub display_name: String,
    pub base_currency: String,
    pub quote_currency: String,
    pub base_increment: Decimal,
    pub quote_increment: Decimal,
    pub base_min_size: Decimal,
    pub base_max_size: Decimal,
    pub min_market_funds: Decimal,
    pub max_market_funds: Decimal,
    pub status: String,
    pub status_message: String,
    pub cancel_only: bool,
    pub limit_only: bool,
    pub post_only: bool,
    pub trading_disabled: bool,
}

/// What [`Product`] holds, as mathematical values.
pub struct ProductView {
    pub id: Seq<char>,
    pub display_name: Seq<char>,
    pub base_currency: Seq<char>,
    pub quote_currency: Seq<char>,
    pub base_increment: DecimalView,
    pub quote_increment: DecimalView,
    pub base_min_size: DecimalView,
    pub base_max_size: DecimalView,
    pub min_market_funds: DecimalView,
    pub max_market_funds: DecimalView,
    pub status: Seq<char>,
    pub status_message: Seq<char>,
    pub cancel_only: bool,
    pub limit_only: bool,
    pub post_only: bool,
    pub trading_disabled: bool,
}

impl View for Product {
    type V = ProductView;

    open spec fn view(&self) -> ProductView {
        ProductView {
            id: self.id@,
            display_name: self.display_name@,
            base_currency: self.base_currency@,
            quote_currency: self.quote_currency@,
            base_increment: self.base_increment@,
            quote_increment: self.quote_increment@,
            base_min_size: self.base_min_size@,
            base_max_size: self.base_max_size@,
            min_market_funds: self.min_market_funds@,
            max_market_funds: self.max_market_funds@,
            status: self.status@,
            status_message: self.status_message@,
            cancel_only: self.cancel_only,
            limit_only: self.limit_only,
            post_only: self.post_only,
            trading_disabled: self.trading_disabled,
        }
    }
}

impl Product {
    /// The product that an object's fields denote: the first error met in the
    /// order of the fields below, or else the record of their values.
    pub open spec fn fields_spec(o: Fields) -> Result<ProductView, DecodeErrorView> {
        if text_at(o, "id"@) is Err {
            Err(text_at(o, "id"@)->Err_0)
        } else if text_at(o, "display_name"@) is Err {
            Err(text_at(o, "display_name"@)->Err_0)
        } else if text_at(o, "base_currency"@) is Err {
            Err(text_at(o, "base_currency"@)->Err_0)
        } else if text_at(o, "quote_currency"@) is Err {
            Err(text_at(o, "quote_currency"@)->Err_0)
        } else if decimal_at(o, "base_increment"@) is Err {
            Err(decimal_at(o, "base_increment"@)->Err_0)
        } else if decimal_at(o, "quote_increment"@) is Err {
            Err(decimal_at(o, "quote_increment"@)->Err_0)
        } else if decimal_at(o, "base_min_size"@) is Err {
            Err(decimal_at(o, "base_min_size"@)->Err_0)
        } else if decimal_at(o, "base_max_size"@) is Err {
            Err(decimal_at(o, "base_max_size"@)->Err_0)
        } else if decimal_at(o, "min_market_funds"@) is Err {
            Err(decimal_at(o, "min_market_funds"@)->Err_0)
        } else if decimal_at(o, "max_market_funds"@) is Err {
            Err(decimal_at(o, "max_market_funds"@)->Err_0)
        } else if text_at(o, "status"@) is Err {
            Err(text_at(o, "status"@)->Err_0)
        } else if text_at(o, "status_message"@) is Err {
            Err(text_at(o, "status_message"@)->Err_0)
        } else if bool_at(o, "cancel_only"@) is Err {
            Err(bool_at(o, "cancel_only"@)->Err_0)
        } else if bool_at(o, "limit_only"@) is Err {
            Err(bool_at(o, "limit_only"@)->Err_0)
        } else if bool_at(o, "post_only"@) is Err {
            Err(bool_at(o, "post_only"@)->Err_0)
        } else if bool_at(o, "trading_disabled"@) is Err {
            Err(bool_at(o, "trading_disabled"@)->Err_0)
        } else {
            Ok(
                ProductView {
                    id: text_at(o, "id"@)->Ok_0,
                    display_name: text_at(o, "display_name"@)->Ok_0,
                    base_currency: text_at(o, "base_currency"@)->Ok_0,
                    quote_currency: text_at(o, "quote_currency"@)->Ok_0,
                    base_increment: decimal_at(o, "base_increment"@)->Ok_0,
                    quote_increment: decimal_at(o, "quote_increment"@)->Ok_0,
                    base_min_size: decimal_at(o, "base_min_size"@)->Ok_0,
                    base_max_size: decimal_at(o, "base_max_size"@)->Ok_0,
                    min_market_funds: decimal_at(o, "min_market_funds"@)->Ok_0,
                    max_market_funds: decimal_at(o, "max_market_funds"@)->Ok_0,
                    status: text_at(o, "status"@)->Ok_0,
                    status_message: text_at(o, "status_message"@)->Ok_0,
                    cancel_only: bool_at(o, "cancel_only"@)->Ok_0,
                    limit_only: bool_at(o, "limit_only"@)->Ok_0,
                    post_only: bool_at(o, "post_only"@)->Ok_0,
                    trading_disabled: bool_at(o, "trading_disabled"@)->Ok_0,
                },
            )
        }
    }

    /// The product that a payload denotes.
    pub open spec fn decode_spec(v: ValueView) -> Result<ProductView, DecodeErrorView> {
        match object_of(v, "product"@) {
            Ok(o) => Self::fields_spec(o),
            Err(e) => Err(e),
        }
    }

    /// The fields of a product in wire order, given how each is written.
    pub open spec fn assemble(
        id: ValueView,
        display_name: ValueView,
        base_currency: ValueView,
        quote_currency: ValueView,
        base_increment: ValueView,
        quote_increment: ValueView,
        base_min_size: ValueView,
        base_max_size: ValueView,
        min_market_funds: ValueView,
        max_market_funds: ValueView,
        status: ValueView,
        status_message: ValueView,
        cancel_only: ValueView,
        limit_only: ValueView,
        post_only: ValueView,
        trading_disabled: ValueView,
    ) -> Fields {
        let o = Fields::empty();
        let o = o.push(("id"@, id));
        let o = o.push(("display_name"@, display_name));
        let o = o.push(("base_currency"@, base_currency));
        let o = o.push(("quote_currency"@, quote_currency));
        let o = o.push(("base_increment"@, base_increment));
        let o = o.push(("quote_increment"@, quote_increment));
        let o = o.push(("base_min_size"@, base_min_size));
        let o = o.push(("base_max_size"@, base_max_size));
        let o = o.push(("min_market_funds"@, min_market_funds));
        let o = o.push(("max_market_funds"@, max_market_funds));
        let o = o.push(("status"@, status));
        let o = o.push(("status_message"@, status_message));
        let o = o.push(("cancel_only"@, cancel_only));
        let o = o.push(("limit_only"@, limit_only));
        let o = o.push(("post_only"@, post_only));
        let o = o.push(("trading_disabled"@, trading_disabled));
        o
    }

    /// Among the assembled fields each name finds its own value.
    pub proof fn lemma_assembled(
        id: ValueView,
        display_name: ValueView,
        base_currency: ValueView,
        quote_currency: ValueView,
        base_increment: ValueView,
        quote_increment: ValueView,
        base_min_size: ValueView,
        base_max_size: ValueView,
        min_market_funds: ValueView,
        max_market_funds: ValueView,
        status: ValueView,
        status_message: ValueView,
        cancel_only: ValueView,
        limit_only: ValueView,
        post_only: ValueView,
        trading_disabled: ValueView,
    )
        ensures
            ({
                let o = Self::assemble(id, display_name, base_currency, quote_currency, base_increment, quote_increment, base_min_size, base_max_size, min_market_funds, max_market_funds, status, status_message, cancel_only, limit_only, post_only, trading_disabled);
                &&& field(o, "id"@) == Some(id)
                &&& field(o, "display_name"@) == Some(display_name)
                &&& field(o, "base_currency"@) == Some(base_currency)
                &&& field(o, "quote_currency"@) == Some(quote_currency)
                &&& field(o, "base_increment"@) == Some(base_increment)
                &&& field(o, "quote_increment"@) == Some(quote_increment)
                &&& field(o, "base_min_size"@) == Some(base_min_size)
                &&& field(o, "base_max_size"@) == Some(base_max_size)
                &&& field(o, "min_market_funds"@) == Some(min_market_funds)
                &&& field(o, "max_market_funds"@) == Some(max_market_funds)
                &&& field(o, "status"@) == Some(status)
                &&& field(o, "status_message"@) == Some(status_message)
                &&& field(o, "cancel_only"@) == Some(cancel_only)
                &&& field(o, "limit_only"@) == Some(limit_only)
                &&& field(o, "post_only"@) == Some(post_only)
                &&& field(o, "trading_disabled"@) == Some(trading_disabled)
            }),
    {
        broadcast use {
            lemma_field_push,
            lemma_field_empty,
            lemma_field_with_opt,
            lemma_same_name,
        };

        reveal_strlit("id");
        reveal_strlit("display_name");
        reveal_strlit("base_currency");
        reveal_strlit("quote_currency");
        reveal_strlit("base_increment");
        reveal_strlit("quote_increment");
        reveal_strlit("base_min_size");
        reveal_strlit("base_max_size");
        reveal_strlit("min_market_funds");
        reveal_strlit("max_market_funds");
        reveal_strlit("status");
        reveal_strlit("status_message");
        reveal_strlit("cancel_only");
        reveal_strlit("limit_only");
        reveal_strlit("post_only");
        reveal_strlit("trading_disabled");
        lemma_initials("id"@);
        lemma_initials("display_name"@);
        lemma_initials("base_currency"@);
        lemma_initials("quote_currency"@);
        lemma_initials("base_increment"@);
        lemma_initials("quote_increment"@);
        lemma_initials("base_min_size"@);
        lemma_initials("base_max_size"@);
        lemma_initials("min_market_funds"@);
        lemma_initials("max_market_funds"@);
        lemma_initials("status"@);
        lemma_initials("status_message"@);
        lemma_initials("cancel_only"@);
        lemma_initials("limit_only"@);
        lemma_initials("post_only"@);
        lemma_initials("trading_disabled"@);
    }

    /// The fields that the product is written as.
    pub open spec fn encoded_fields(a: ProductView) -> Fields {
        Self::assemble(
            ValueView::Text(a.id),
            ValueView::Text(a.display_name),
            ValueView::Text(a.base_currency),
            ValueView::Text(a.quote_currency),
            decimal_value(a.base_increment),
            decimal_value(a.quote_increment),
            decimal_value(a.base_min_size),
            decimal_value(a.base_max_size),
            decimal_value(a.min_market_funds),
            decimal_value(a.max_market_funds),
            ValueView::Text(a.status),
            ValueView::Text(a.status_message),
            ValueView::Bool(a.cancel_only),
            ValueView::Bool(a.limit_only),
            ValueView::Bool(a.post_only),
            ValueView::Bool(a.trading_disabled),
        )
    }

    /// The payload that the product is written as.
    pub open spec fn encode_spec(a: ProductView) -> ValueView {
        ValueView::Object(Self::encoded_fields(a))
    }

    /// Decodes a product from its payload.
    pub fn decode(value: &Value) -> (r: Result<Product, DecodeError>)
        ensures
            decoded(r) == Self::decode_spec(value@),
    {
        let o = as_object(value, "product")?;
        let id = text_field(o, "id")?;
        let display_name = text_field(o, "display_name")?;
        let base_currency = text_field(o, "base_currency")?;
        let quote_currency = text_field(o, "quote_currency")?;
        let base_increment = decimal_field(o, "base_increment")?;
        let quote_increment = decimal_field(o, "quote_increment")?;
        let base_min_size = decimal_field(o, "base_min_size")?;
        let base_max_size = decimal_field(o, "base_max_size")?;
        let min_market_funds = decimal_field(o, "min_market_funds")?;
        let max_market_funds = decimal_field(o, "max_market_funds")?;
        let status = text_field(o, "status")?;
        let status_message = text_field(o, "status_message")?;
        let cancel_only = bool_field(o, "cancel_only")?;
        let limit_only = bool_field(o, "limit_only")?;
        let post_only = bool_field(o, "post_only")?;
        let trading_disabled = bool_field(o, "trading_disabled")?;
        Ok(Product { id, display_name, base_currency, quote_currency, base_increment, quote_increment, base_min_size, base_max_size, min_market_funds, max_market_funds, status, status_message, cancel_only, limit_only, post_only, trading_disabled })
    }

    /// Writes the product as a payload, which decodes back to the same product.
    pub fn encode(&self) -> (value: Value)
        ensures
            value@ == Self::encode_spec(self@),
            Self::decode_spec(value@) == Ok::<ProductView, DecodeErrorView>(self@),
    {
        broadcast use lemma_object_view;

        let mut o = no_fields();
        put_text(&mut o, "id", &self.id);
        put_text(&mut o, "display_name", &self.display_name);
        put_text(&mut o, "base_currency", &self.base_currency);
        put_text(&mut o, "quote_currency", &self.quote_currency);
        put_decimal(&mut o, "base_increment", self.base_increment);
        put_decimal(&mut o, "quote_increment", self.quote_increment);
        put_decimal(&mut o, "base_min_size", self.base_min_size);
        put_decimal(&mut o, "base_max_size", self.base_max_size);
        put_decimal(&mut o, "min_market_funds", self.min_market_funds);
        put_decimal(&mut o, "max_market_funds", self.max_market_funds);
        put_text(&mut o, "status", &self.status);
        put_text(&mut o, "status_message", &self.status_message);
        put_bool(&mut o, "cancel_only", self.cancel_only);
        put_bool(&mut o, "limit_only", self.limit_only);
        put_bool(&mut o, "post_only", self.post_only);
        put_bool(&mut o, "trading_disabled", self.trading_disabled);
        proof {
            Self::lemma_assembled(
                ValueView::Text(self@.id),
                ValueView::Text(self@.display_name),
                ValueView::Text(self@.base_currency),
                ValueView::Text(self@.quote_currency),
                decimal_value(self@.base_increment),
                decimal_value(self@.quote_increment),
                decimal_value(self@.base_min_size),
                decimal_value(self@.base_max_size),
                decimal_value(self@.min_market_funds),
                decimal_value(self@.max_market_funds),
                ValueView::Text(self@.status),
                ValueView::Text(self@.status_message),
                ValueView::Bool(self@.cancel_only),
                ValueView::Bool(self@.limit_only),
                ValueView::Bool(self@.post_only),
                ValueView::Bool(self@.trading_disabled),
            );
        }
        Value::Object(o)
    }
}

/// The last trade of a product and the best bid and ask.
#[derive(Clone, Debug, PartialEq)]
pub struct Ticker {
    pub trade_id: usize,
    pub price: Decimal,
    pub size: Decimal,
    pub bid: Decimal,
    pub ask: Decimal,
    pub volume: Decimal,
    pub time: Instant,
}

/// What [`Ticker`] holds, as mathematical values.
pub struct TickerView {
    pub trade_id: usize,
    pub price: DecimalView,
    pub size: DecimalView,
    pub bid: DecimalView,
    pub ask: DecimalView,
    pub volume: DecimalView,
    pub time: InstantView,
}

impl View for Ticker {
    type V = TickerView;

    open spec fn view(&self) -> TickerView {
        TickerView {
            trade_id: self.trade_id,
            price: self.price@,
            size: self.size@,
            bid: self.bid@,
            ask: self.ask@,
            volume: self.volume@,
            time: self.time@,
        }
    }
}

impl Ticker {
    /// The ticker that an object's fields denote: the first error met in the
    /// order of the fields below, or else the record of their values.
    pub open spec fn fields_spec(o: Fields) -> Result<TickerView, DecodeErrorView> {
        if count_at(o, "trade_id"@) is Err {
            Err(count_at(o, "trade_id"@)->Err_0)
        } else if decimal_at(o, "price"@) is Err {
            Err(decimal_at(o, "price"@)->Err_0)
        } else if decimal_at(o, "size"@) is Err {
            Err(decimal_at(o, "size"@)->Err_0)
        } else if decimal_at(o, "bid"@) is Err {
            Err(decimal_at(o, "bid"@)->Err_0)
        } else if decimal_at(o, "ask"@) is Err {
            Err(decimal_at(o, "ask"@)->Err_0)
        } else if decimal_at(o, "volume"@) is Err {
            Err(decimal_at(o, "volume"@)->Err_0)
        } else if instant_at(o, "time"@) is Err {
            Err(instant_at(o, "time"@)->Err_0)
        } else {
            Ok(
                TickerView {
                    trade_id: count_at(o, "trade_id"@)->Ok_0,
                    price: decimal_at(o, "price"@)->Ok_0,
                    size: decimal_at(o, "size"@)->Ok_0,
                    bid: decimal_at(o, "bid"@)->Ok_0,
                    ask: decimal_at(o, "ask"@)->Ok_0,
                    volume: decimal_at(o, "volume"@)->Ok_0,
                    time: instant_at(o, "time"@)->Ok_0,
                },
            )
        }
    }

    /// The ticker that a payload denotes.
    pub open spec fn decode_spec(v: ValueView) -> Result<TickerView, DecodeErrorView> {
        match object_of(v, "ticker"@) {
            Ok(o) => Self::fields_spec(o),
            Err(e) => Err(e),
        }
    }

    /// The fields of a ticker in wire order, given how each is written.
    pub open spec fn assemble(
        trade_id: ValueView,
        price: ValueView,
        size: ValueView,
        bid: ValueView,
        ask: ValueView,
        volume: ValueView,
        time: ValueView,
    ) -> Fields {
        let o = Fields::empty();
        let o = o.push(("trade_id"@, trade_id));
        let o = o.push(("price"@, price));
        let o = o.push(("size"@, size));
        let o = o.push(("bid"@, bid));
        let o = o.push(("ask"@, ask));
        let o = o.push(("volume"@, volume));
        let o = o.push(("time"@, time));
        o
    }

    /// Among the assembled fields each name finds its own value.
    pub proof fn lemma_assembled(
        trade_id: ValueView,
        price: ValueView,
        size: ValueView,
        bid: ValueView,
        ask: ValueView,
        volume: ValueView,
        time: ValueView,
    )
        ensures
            ({
                let o = Self::assemble(trade_id, price, size, bid, ask, volume, time);
                &&& field(o, "trade_id"@) == Some(trade_id)
                &&& field(o, "price"@) == Some(price)
                &&& field(o, "size"@) == Some(size)
                &&& field(o, "bid"@) == Some(bid)
                &&& field(o, "ask"@) == Some(ask)
                &&& field(o, "volume"@) == Some(volume)
                &&& field(o, "time"@) == Some(time)
            }),
    {
        broadcast use {
            lemma_field_push,
            lemma_field_empty,
            lemma_field_with_opt,
            lemma_same_name,
        };

        reveal_strlit("trade_id");
        reveal_strlit("price");
        reveal_strlit("size");
        reveal_strlit("bid");
        reveal_strlit("ask");
        reveal_strlit("volume");
        reveal_strlit("time");
        lemma_initials("trade_id"@);
        lemma_initials("price"@);
        lemma_initials("size"@);
        lemma_initials("bid"@);
        lemma_initials("ask"@);
        lemma_initials("volume"@);
        lemma_initials("time"@);
    }

    /// The fields that the ticker is written as.
    pub open spec fn encoded_fields(a: TickerView) -> Fields {
        Self::assemble(
            count_value(a.trade_id),
            decimal_value(a.price),
            decimal_value(a.size),
            decimal_value(a.bid),
            decimal_value(a.ask),
            decimal_value(a.volume),
            instant_value(a.time),
        )
    }

    /// The payload that the ticker is written as.
    pub open spec fn encode_spec(a: TickerView) -> ValueView {
        ValueView::Object(Self::encoded_fields(a))
    }

    /// Decodes a ticker from its payload.
    pub fn decode(value: &Value) -> (r: Result<Ticker, DecodeError>)
        ensures
            decoded(r) == Self::decode_spec(value@),
    {
        let o = as_object(value, "ticker")?;
        let trade_id = count_field(o, "trade_id")?;
        let price = decimal_field(o, "price")?;
        let size = decimal_field(o, "size")?;
        let bid = decimal_field(o, "bid")?;
        let ask = decimal_field(o, "ask")?;
        let volume = decimal_field(o, "volume")?;
        let time = instant_field(o, "time")?;
        Ok(Ticker { trade_id, price, size, bid, ask, volume, time })
    }

    /// Writes the ticker as a payload, which decodes back to the same ticker.
    pub fn encode(&self) -> (value: Value)
        ensures
            value@ == Self::encode_spec(self@),
            Self::decode_spec(value@) == Ok::<TickerView, DecodeErrorView>(self@),
    {
        broadcast use lemma_object_view;

        let mut o = no_fields();
        put_count(&mut o, "trade_id", self.trade_id);
        put_decimal(&mut o, "price", self.price);
        put_decimal(&mut o, "size", self.size);
        put_decimal(&mut o, "bid", self.bid);
        put_decimal(&mut o, "ask", self.ask);
        put_decimal(&mut o, "volume", self.volume);
        put_instant(&mut o, "time", self.time);
        proof {
            Self::lemma_assembled(
                count_value(self@.trade_id),
                decimal_value(self@.price),
                decimal_value(self@.size),
                decimal_value(self@.bid),
                decimal_value(self@.ask),
                decimal_value(self@.volume),
                instant_value(self@.time),
            );
        }
        Value::Object(o)
    }
}

/// One trade of a product.
#[derive(Clone, Debug, PartialEq)]
pub struct Trade {
    pub time: Instant,
    pub trade_id: usize,
    pub price: Decimal,
    pub size: Decimal,
    pub side: OrderSide,
}

/// What [`Trade`] holds, as mathematical values.
pub struct TradeView {
    pub time: InstantView,
    pub trade_id: usize,
    pub price: DecimalView,
    pub size: DecimalView,
    pub side: OrderSide,
}

impl View for Trade {
    type V = TradeView;

    open spec fn view(&self) -> TradeView {
        TradeView {
            time: self.time@,
            trade_id: self.trade_id,
            price: self.price@,
            size: self.size@,
            side: self.side,
        }
    }
}

impl Trade {
    /// The trade that an object's fields denote: the first error met in the
    /// order of the fields below, or else the record of their values.
    pub open spec fn fields_spec(o: Fields) -> Result<TradeView, DecodeErrorView> {
        if instant_at(o, "time"@) is Err {
            Err(instant_at(o, "time"@)->Err_0)
        } else if count_at(o, "trade_id"@) is Err {
            Err(count_at(o, "trade_id"@)->Err_0)
        } else if decimal_at(o, "price"@) is Err {
            Err(decimal_at(o, "price"@)->Err_0)
        } else if decimal_at(o, "size"@) is Err {
            Err(decimal_at(o, "size"@)->Err_0)
        } else if token_at::<OrderSide>(o, "side"@) is Err {
            Err(token_at::<OrderSide>(o, "side"@)->Err_0)
        } else {
            Ok(
                TradeView {
                    time: instant_at(o, "time"@)->Ok_0,
                    trade_id: count_at(o, "trade_id"@)->Ok_0,
                    price: decimal_at(o, "price"@)->Ok_0,
                    size: decimal_at(o, "size"@)->Ok_0,
                    side: token_at::<OrderSide>(o, "side"@)->Ok_0,
                },
            )
        }
    }

    /// The trade that a payload denotes.
    pub open spec fn decode_spec(v: ValueView) -> Result<TradeView, DecodeErrorView> {
        match object_of(v, "trade"@) {
            Ok(o) => Self::fields_spec(o),
            Err(e) => Err(e),
        }
    }

    /// The fields of a trade in wire order, given how each is written.
    pub open spec fn assemble(
        time: ValueView,
        trade_id: ValueView,
        price: ValueView,
        size: ValueView,
        side: ValueView,
    ) -> Fields {
        let o = Fields::empty();
        let o = o.push(("time"@, time));
        let o = o.push(("trade_id"@, trade_id));
        let o = o.push(("price"@, price));
        let o = o.push(("size"@, size));
        let o = o.push(("side"@, side));
        o
    }

    /// Among the assembled fields each name finds its own value.
    pub proof fn lemma_assembled(
        time: ValueView,
        trade_id: ValueView,
        price: ValueView,
        size: ValueView,
        side: ValueView,
    )
        ensures
            ({
                let o = Self::assemble(time, trade_id, price, size, side);
                &&& field(o, "time"@) == Some(time)
                &&& field(o, "trade_id"@) == Some(trade_id)
                &&& field(o, "price"@) == Some(price)
                &&& field(o, "size"@) == Some(size)
                &&& field(o, "side"@) == Some(side)
            }),
    {
        broadcast use {
            lemma_field_push,
            lemma_field_empty,
            lemma_field_with_opt,
            lemma_same_name,
        };

        reveal_strlit("time");
        reveal_strlit("trade_id");
        reveal_strlit("price");
        reveal_strlit("size");
        reveal_strlit("side");
        lemma_initials("time"@);
        lemma_initials("trade_id"@);
        lemma_initials("price"@);
        lemma_initials("size"@);
        lemma_initials("side"@);
    }

    /// The fields that the trade is written as.
    pub open spec fn encoded_fields(a: TradeView) -> Fields {
        Self::assemble(
            instant_value(a.time),
            count_value(a.trade_id),
            decimal_value(a.price),
            decimal_value(a.size),
            token_value(a.side),
        )
    }

    /// The payload that the trade is written as.
    pub open spec fn encode_spec(a: TradeView) -> ValueView {
        ValueView::Object(Self::encoded_fields(a))
    }

    /// Decodes a trade from its payload.
    pub fn decode(value: &Value) -> (r: Result<Trade, DecodeError>)
        ensures
            decoded(r) == Self::decode_spec(value@),
    {
        let o = as_object(value, "trade")?;
        let time = instant_field(o, "time")?;
        let trade_id = count_field(o, "trade_id")?;
        let price = decimal_field(o, "price")?;
        let size = decimal_field(o, "size")?;
        let side = token_field::<OrderSide>(o, "side")?;
        Ok(Trade { time, trade_id, price, size, side })
    }

    /// Writes the trade as a payload, which decodes back to the same trade.
    pub fn encode(&self) -> (value: Value)
        ensures
            value@ == Self::encode_spec(self@),
            Self::decode_spec(value@) == Ok::<TradeView, DecodeErrorView>(self@),
    {
        broadcast use lemma_object_view;

        let mut o = no_fields();
        put_instant(&mut o, "time", self.time);
        put_count(&mut o, "trade_id", self.trade_id);
        put_decimal(&mut o, "price", self.price);
        put_decimal(&mut o, "size", self.size);
        put_token(&mut o, "side", self.side);
        proof {
            Self::lemma_assembled(
                instant_value(self@.time),
                count_value(self@.trade_id),
                decimal_value(self@.price),
                decimal_value(self@.size),
                token_value(self@.side),
            );
        }
        Value::Object(o)
    }
}

/// A product's statistics over the last twenty-four hours.
#[derive(Clone, Debug, PartialEq)]
pub struct Stats24H {
    pub open: Decimal,
    pub high: Decimal,
    pub low: Decimal,
    pub volume: Decimal,
}

/// What [`Stats24H`] holds, as mathematical values.
pub struct Stats24HView {
    pub open: DecimalView,
    pub high: DecimalView,
    pub low: DecimalView,
    pub volume: DecimalView,
}

impl View for Stats24H {
    type V = Stats24HView;

    open spec fn view(&self) -> Stats24HView {
        Stats24HView {
            open: self.open@,
            high: self.high@,
            low: self.low@,
            volume: self.volume@,
        }
    }
}

impl Stats24H {
    /// The daily summary that an object's fields denote: the first error met in the
    /// order of the fields below, or else the record of their values.
    pub open spec fn fields_spec(o: Fields) -> Result<Stats24HView, DecodeErrorView> {
        if decimal_at(o, "open"@) is Err {
            Err(decimal_at(o, "open"@)->Err_0)
        } else if decimal_at(o, "high"@) is Err {
            Err(decimal_at(o, "high"@)->Err_0)
        } else if decimal_at(o, "low"@) is Err {
            Err(decimal_at(o, "low"@)->Err_0)
        } else if decimal_at(o, "volume"@) is Err {
            Err(decimal_at(o, "volume"@)->Err_0)
        } else {
            Ok(
                Stats24HView {
                    open: decimal_at(o, "open"@)->Ok_0,
                    high: decimal_at(o, "high"@)->Ok_0,
                    low: decimal_at(o, "low"@)->Ok_0,
                    volume: decimal_at(o, "volume"@)->Ok_0,
                },
            )
        }
    }

    /// The daily summary that a payload denotes.
    pub open spec fn decode_spec(v: ValueView) -> Result<Stats24HView, DecodeErrorView> {
        match object_of(v, "stats"@) {
            Ok(o) => Self::fields_spec(o),
            Err(e) => Err(e),
        }
    }

    /// The fields of a daily summary in wire order, given how each is written.
    pub open spec fn assemble(
        open: ValueView,
        high: ValueView,
        low: ValueView,
        volume: ValueView,
    ) -> Fields {
        let o = Fields::empty();
        let o = o.push(("open"@, open));
        let o = o.push(("high"@, high));
        let o = o.push(("low"@, low));
        let o = o.push(("volume"@, volume));
        o
    }

    /// Among the assembled fields each name finds its own value.
    pub proof fn lemma_assembled(
        open: ValueView,
        high: ValueView,
        low: ValueView,
        volume: ValueView,
    )
        ensures
            ({
                let o = Self::assemble(open, high, low, volume);
                &&& field(o, "open"@) == Some(open)
                &&& field(o, "high"@) == Some(high)
                &&& field(o, "low"@) == Some(low)
                &&& field(o, "volume"@) == Some(volume)
            }),
    {
        broadcast use {
            lemma_field_push,
            lemma_field_empty,
            lemma_field_with_opt,
            lemma_same_name,
        };

        reveal_strlit("open");
        reveal_strlit("high");
        reveal_strlit("low");
        reveal_strlit("volume");
        lemma_initials("open"@);
        lemma_initials("high"@);
        lemma_initials("low"@);
        lemma_initials("volume"@);
    }

    /// The fields that the daily summary is written as.
    pub open spec fn encoded_fields(a: Stats24HView) -> Fields {
        Self::assemble(
            decimal_value(a.open),
            decimal_value(a.high),
            decimal_value(a.low),
            decimal_value(a.volume),
        )
    }

    /// The payload that the daily summary is written as.
    pub open spec fn encode_spec(a: Stats24HView) -> ValueView {
        ValueView::Object(Self::encoded_fields(a))
    }

    /// Decodes a daily summary from its payload.
    pub fn decode(value: &Value) -> (r: Result<Stats24H, DecodeError>)
        ensures
            decoded(r) == Self::decode_spec(value@),
    {
        let o = as_object(value, "stats")?;
        let open = decimal_field(o, "open")?;
        let high = decimal_field(o, "high")?;
        let low = decimal_field(o, "low")?;
        let volume = decimal_field(o, "volume")?;
        Ok(Stats24H { open, high, low, volume })
    }

    /// Writes the daily summary as a payload, which decodes back to the same daily summary.
    pub fn encode(&self) -> (value: Value)
        ensures
            value@ == Self::encode_spec(self@),
            Self::decode_spec(value@) == Ok::<Stats24HView, DecodeErrorView>(self@),
    {
        broadcast use lemma_object_view;

        let mut o = no_fields();
        put_decimal(&mut o, "open", self.open);
        put_decimal(&mut o, "high", self.high);
        put_decimal(&mut o, "low", self.low);
        put_decimal(&mut o, "volume", self.volume);
        proof {
            Self::lemma_assembled(
                decimal_value(self@.open),
                decimal_value(self@.high),
                decimal_value(self@.low),
                decimal_value(self@.volume),
            );
        }
        Value::Object(o)
    }
}

/// Ten to the power `n`.
pub open spec fn pow10(n: nat) -> nat
    decreases n,
{
    if n == 0 {
        1
    } else {
        10 * pow10((n - 1) as nat)
    }
}

/// A number of seconds as a count of units of `10^-scale` seconds, with its
/// sign.
pub open spec fn signed_units(epoch: DecimalView) -> int {
    if epoch.negative {
        -(epoch.mantissa as int)
    } else {
        epoch.mantissa as int
    }
}

/// The whole seconds of a number of seconds: the greatest whole number that
/// is not above it.
pub open spec fn whole_seconds(epoch: DecimalView) -> int {
    signed_units(epoch) / (pow10(epoch.scale) as int)
}

/// What a number of seconds holds above its whole seconds, cut to whole
/// nanoseconds.
pub open spec fn nanos_part(epoch: DecimalView) -> int {
    ((signed_units(epoch) % (pow10(epoch.scale) as int)) * 1_000_000_000) / (pow10(
        epoch.scale,
    ) as int)
}

/// The instant that lies `epoch` seconds from the Unix epoch, cut to whole
/// nanoseconds, if its whole seconds lie in the years 0000 to 9999.
pub open spec fn instant_of_epoch(epoch: DecimalView) -> Option<InstantView> {
    if MIN_SECONDS <= whole_seconds(epoch) <= MAX_SECONDS {
        Some(InstantView { seconds: whole_seconds(epoch), nanos: nanos_part(epoch) })
    } else {
        None
    }
}

/// Ten to the ninth power is a thousand millions.
proof fn lemma_pow10_nine()
    ensures
        pow10(9) == 1_000_000_000,
{
    reveal_with_fuel(pow10, 10);
}

/// The nanoseconds of a number of seconds are less than a second.
pub proof fn lemma_nanos_part_bound(epoch: DecimalView)
    ensures
        0 <= nanos_part(epoch) < 1_000_000_000,
{
    let p = pow10(epoch.scale) as int;
    let r = signed_units(epoch) % p;
    lemma_pow10_adds(epoch.scale, 0);
    lemma_mod_bound(signed_units(epoch), p);
    lemma_fundamental_div_mod(r * 1_000_000_000, p);
    lemma_mod_pos_bound(r * 1_000_000_000, p);
    let q = (r * 1_000_000_000) / p;
    assert(0 <= r * 1_000_000_000 < p * 1_000_000_000) by (nonlinear_arith)
        requires
            0 <= r < p,
    ;
    assert(0 <= q < 1_000_000_000) by (nonlinear_arith)
        requires
            0 <= r * 1_000_000_000 < p * 1_000_000_000,
            r * 1_000_000_000 == p * q + (r * 1_000_000_000) % p,
            0 <= (r * 1_000_000_000) % p < p,
            p > 0,
    ;
}

/// How the whole seconds and the nanoseconds of `m / 10^s` seconds, and of
/// as many seconds before the epoch, follow from the digits of `m`: `above`
/// is the first nine digits after the point, and `exact` says that no
/// nonzero digit follows them.
proof fn lemma_split(m: nat, s: nat, above: nat, exact: bool)
    requires
        s >= 9 ==> above == (m / pow10((s - 9) as nat)) % 1_000_000_000 && exact == (m % pow10(
            (s - 9) as nat,
        ) == 0),
        s < 9 ==> above == (m % pow10(s)) * pow10((9 - s) as nat) && exact,
    ensures
        above < 1_000_000_000,
        ({
            let p = pow10(s) as int;
            let r = (m as int) % p;
            &&& p > 0
            &&& 0 <= r < p
            &&& (r * 1_000_000_000) / p == above
            &&& r == 0 ==> (-(m as int)) / p == -((m as int) / p) && (-(m as int)) % p == 0
            &&& r > 0 ==> {
                &&& (-(m as int)) / p == -((m as int) / p) - 1
                &&& (-(m as int)) % p == p - r
                &&& exact ==> above >= 1 && ((p - r) * 1_000_000_000) / p == 1_000_000_000
                    - above
                &&& !exact ==> ((p - r) * 1_000_000_000) / p == 1_000_000_000 - above - 1
            }
        }),
{
    let n = 1_000_000_000int;
    let mi = m as int;
    let p = pow10(s) as int;
    lemma_pow10_adds(s, 0);
    lemma_pow10_nine();
    let q = mi / p;
    let r = mi % p;
    lemma_fundamental_div_mod(mi, p);
    lemma_mod_pos_bound(mi, p);
    // What lies beyond the ninth digit after the point, in units of 10^-s / 10^9.
    let rest: int;
    if s >= 9 {
        let t = pow10((s - 9) as nat) as int;
        lemma_pow10_adds((s - 9) as nat, 9);
        lemma_pow10_adds((s - 9) as nat, 0);
        assert(p == t * n);
        lemma_breakdown(mi, t, n);
        lemma_mod_pos_bound(mi, t);
        let a = (mi / t) % n;
        let b = mi % t;
        assert(r == t * a + b);
        assert(r * n == a * p + b * n) by (nonlinear_arith)
            requires
                r == t * a + b,
                p == t * n,
        ;
        assert(0 <= b * n < p && ((b * n == 0) == (b == 0))) by (nonlinear_arith)
            requires
                0 <= b < t,
                p == t * n,
                n == 1_000_000_000,
        ;
        lemma_fundamental_div_mod_converse(r * n, p, a, b * n);
        rest = b * n;
    } else {
        let k = pow10((9 - s) as nat) as int;
        lemma_pow10_adds(s, (9 - s) as nat);
        lemma_pow10_adds((9 - s) as nat, 0);
        assert(n == p * k);
        assert(r * n == (r * k) * p + 0 && r * k < n) by (nonlinear_arith)
            requires
                n == p * k,
                0 <= r < p,
                k > 0,
        ;
        lemma_fundamental_div_mod_converse(r * n, p, r * k, 0);
        rest = 0;
    }
    assert(r * n == above * p + rest);
    assert(0 <= rest < p);
    assert((rest == 0) == exact);
    if r == 0 {
        assert(-mi == (-q) * p + 0) by (nonlinear_arith)
            requires
                mi == p * q + r,
                r == 0,
        ;
        lemma_fundamental_div_mod_converse(-mi, p, -q, 0);
    } else {
        assert(-mi == (-q - 1) * p + (p - r)) by (nonlinear_arith)
            requires
                mi == p * q + r,
        ;
        lemma_fundamental_div_mod_converse(-mi, p, -q - 1, p - r);
        if rest == 0 {
            assert((p - r) * n == (n - above) * p + 0 && above >= 1) by (nonlinear_arith)
                requires
                    r * n == above * p + rest,
                    rest == 0,
                    r > 0,
                    p > 0,
                    above >= 0,
                    n == 1_000_000_000,
            ;
            lemma_fundamental_div_mod_converse((p - r) * n, p, n - above, 0);
        } else {
            assert((p - r) * n == (n - above - 1) * p + (p - rest)) by (nonlinear_arith)
                requires
                    r * n == above * p + rest,
            ;
            lemma_fundamental_div_mod_converse((p - r) * n, p, n - above - 1, p - rest);
        }
    }
}

/// Powers of ten are positive and multiply as their exponents add.
pub proof fn lemma_pow10_adds(a: nat, b: nat)
    ensures
        pow10(a) > 0,
        pow10(a + b) == pow10(a) * pow10(b),
    decreases a,
{
    if a > 0 {
        lemma_pow10_adds((a - 1) as nat, b);
        assert(10 * (pow10((a - 1) as nat) * pow10(b)) == (10 * pow10((a - 1) as nat)) * pow10(b))
            by (nonlinear_arith);
    } else {
        assert(pow10(0 + b) == 1 * pow10(b));
    }
}

/// `ten_to(n)` for the exponents whose power fits in 128 bits.
fn ten_to(n: u32) -> (p: u128)
    requires
        n <= 38,
    ensures
        p == pow10(n as nat),
        p <= 100_000_000_000_000_000_000_000_000_000_000_000_000,
{
    let mut p: u128 = 1;
    let mut i: u32 = 0;
    assert(pow10(38) == 100_000_000_000_000_000_000_000_000_000_000_000_000) by {
        reveal_with_fuel(pow10, 39);
    }
    while i < n
        invariant
            i <= n <= 38,
            p == pow10(i as nat),
            p * pow10((38 - i) as nat) == 100_000_000_000_000_000_000_000_000_000_000_000_000,
        decreases n - i,
    {
        proof {
            lemma_pow10_adds(1, (38 - i - 1) as nat);
            assert(pow10(1) == 10) by {
                reveal_with_fuel(pow10, 2);
            }
            lemma_pow10_adds((38 - i - 1) as nat, 0);
            assert(p * (10 * pow10((38 - i - 1) as nat)) == (p * 10) * pow10((38 - i - 1) as nat))
                by (nonlinear_arith);
            assert(p * 10 <= (p * 10) * pow10((38 - i - 1) as nat)) by (nonlinear_arith)
                requires
                    pow10((38 - i - 1) as nat) > 0,
            ;
        }
        p = p * 10;
        i += 1;
    }
    proof {
        lemma_pow10_adds((38 - n) as nat, 0);
        assert(p <= p * pow10((38 - n) as nat)) by (nonlinear_arith)
            requires
                pow10((38 - n) as nat) > 0,
        ;
    }
    p
}

/// `m` without its last `k` decimal digits, and whether those digits are
/// all zero.
fn split_off(m: u128, k: u32) -> (r: (u128, bool))
    ensures
        r.0 == m as nat / pow10(k as nat),
        r.1 == (m as nat % pow10(k as nat) == 0),
{
    let mut q: u128 = m;
    let mut clean: bool = true;
    let mut i: u32 = 0;
    proof {
        assert(pow10(0) == 1);
    }
    while i < k && q > 0
        invariant
            i <= k,
            q == m as nat / pow10(i as nat),
            clean == (m as nat % pow10(i as nat) == 0),
        decreases k - i,
    {
        proof {
            let p = pow10(i as nat) as int;
            lemma_pow10_adds(i as nat, 1);
            lemma_pow10_adds(i as nat, 0);
            assert(pow10(1) == 10) by {
                reveal_with_fuel(pow10, 2);
            }
            lemma_div_denominator(m as int, p, 10);
            lemma_breakdown(m as int, p, 10);
            lemma_mod_pos_bound(m as int, p);
            let d = ((m as int) / p) % 10;
            assert((p * d + (m as int) % p == 0) == (d == 0 && (m as int) % p == 0))
                by (nonlinear_arith)
                requires
                    p > 0,
                    0 <= d,
                    0 <= (m as int) % p,
            ;
        }
        clean = clean && q % 10 == 0;
        q = q / 10;
        i += 1;
    }
    proof {
        if i < k {
            let a = pow10(i as nat) as int;
            let b = pow10((k - i) as nat) as int;
            lemma_pow10_adds(i as nat, (k - i) as nat);
            lemma_pow10_adds(i as nat, 0);
            lemma_pow10_adds((k - i) as nat, 0);
            lemma_div_denominator(m as int, a, b);
            assert(0int / b == 0);
            lemma_fundamental_div_mod(m as int, a);
            lemma_mod_pos_bound(m as int, a);
            assert(a * 0 == 0);
            assert(m < a);
            assert(a <= a * b) by (nonlinear_arith)
                requires
                    a > 0,
                    b >= 1,
            ;
            lemma_small_mod(m as nat, pow10(k as nat));
        }
    }
    (q, clean)
}

/// The spans of time that a candle may cover.
#[derive(Clone, Copy, Debug, PartialEq, Eq, Structural)]
pub enum Granularity {
    M1,
    M5,
    M15,
    H1,
    H4,
    H6,
    D1,
}

impl Granularity {
    /// The span in seconds.
    pub open spec fn spec_seconds(self) -> u32 {
        match self {
            Granularity::M1 => 60,
            Granularity::M5 => 300,
            Granularity::M15 => 900,
            Granularity::H1 => 3600,
            Granularity::H4 => 14400,
            Granularity::H6 => 21600,
            Granularity::D1 => 86400,
        }
    }

    /// The span in seconds.
    pub fn seconds(&self) -> (s: u32)
        ensures
            s == self.spec_seconds(),
    {
        match self {
            Granularity::M1 => 60,
            Granularity::M5 => 300,
            Granularity::M15 => 900,
            Granularity::H1 => 3600,
            Granularity::H4 => 14400,
            Granularity::H6 => 21600,
            Granularity::D1 => 86400,
        }
    }

    /// The granularity that spans `seconds`, if `seconds` is one of the seven
    /// spans that the exchange accepts.
    pub fn from_seconds(seconds: u32) -> (r: Option<Granularity>)
        ensures
            match r {
                Some(g) => g.spec_seconds() == seconds,
                None => forall|g: Granularity| g.spec_seconds() != seconds,
            },
    {
        if seconds == 60 {
            Some(Granularity::M1)
        } else if seconds == 300 {
            Some(Granularity::M5)
        } else if seconds == 900 {
            Some(Granularity::M15)
        } else if seconds == 3600 {
            Some(Granularity::H1)
        } else if seconds == 14400 {
            Some(Granularity::H4)
        } else if seconds == 21600 {
            Some(Granularity::H6)
        } else if seconds == 86400 {
            Some(Granularity::D1)
        } else {
            None
        }
    }
}

/// A row of an order book at one of the three levels of detail. A row is
/// sent as a list of three values and written as an object; both forms are
/// read.
pub trait BookLevel: Sized + View {
    /// The level of detail: 1, 2 or 3.
    spec fn spec_level() -> u8;

    /// The row that a payload denotes.
    spec fn row_spec(v: ValueView) -> Result<Self::V, DecodeErrorView>;

    /// The payload that a row is written as.
    spec fn row_value(r: Self::V) -> ValueView;

    fn level() -> (l: u8)
        ensures
            l == Self::spec_level(),
    ;

    fn decode_row(value: &Value) -> (r: Result<Self, DecodeError>)
        ensures
            decoded(r) == Self::row_spec(value@),
    ;

    fn encode_row(&self) -> (value: Value)
        ensures
            value@ == Self::row_value(self@),
            Self::row_spec(value@) == Ok::<Self::V, DecodeErrorView>(self@),
    ;
}

/// The best bid or ask: its price, the size on offer, and how many orders
/// make it up.
#[derive(Clone, Debug, PartialEq)]
pub struct BookRecordL1 {
    pub price: Decimal,
    pub size: Decimal,
    pub num_orders: usize,
}

/// What [`BookRecordL1`] holds, as mathematical values.
pub struct BookRecordL1View {
    pub price: DecimalView,
    pub size: DecimalView,
    pub num_orders: usize,
}

impl View for BookRecordL1 {
    type V = BookRecordL1View;

    open spec fn view(&self) -> BookRecordL1View {
        BookRecordL1View {
            price: self.price@,
            size: self.size@,
            num_orders: self.num_orders,
        }
    }
}

impl BookRecordL1 {
    /// The level that an object's fields denote: the first error met in the
    /// order of the fields below, or else the record of their values.
    pub open spec fn fields_spec(o: Fields) -> Result<BookRecordL1View, DecodeErrorView> {
        if decimal_at(o, "price"@) is Err {
            Err(decimal_at(o, "price"@)->Err_0)
        } else if decimal_at(o, "size"@) is Err {
            Err(decimal_at(o, "size"@)->Err_0)
        } else if count_at(o, "num_orders"@) is Err {
            Err(count_at(o, "num_orders"@)->Err_0)
        } else {
            Ok(
                BookRecordL1View {
                    price: decimal_at(o, "price"@)->Ok_0,
                    size: decimal_at(o, "size"@)->Ok_0,
                    num_orders: count_at(o, "num_orders"@)->Ok_0,
                },
            )
        }
    }

    /// The level that a payload denotes.
    pub open spec fn decode_spec(v: ValueView) -> Result<BookRecordL1View, DecodeErrorView> {
        match object_of(v, "level"@) {
            Ok(o) => Self::fields_spec(o),
            Err(e) => Err(e),
        }
    }

    /// The fields of a level in wire order, given how each is written.
    pub open spec fn assemble(
        price: ValueView,
        size: ValueView,
        num_orders: ValueView,
    ) -> Fields {
        let o = Fields::empty();
        let o = o.push(("price"@, price));
        let o = o.push(("size"@, size));
        let o = o.push(("num_orders"@, num_orders));
        o
    }

    /// Among the assembled fields each name finds its own value.
    pub proof fn lemma_assembled(
        price: ValueView,
        size: ValueView,
        num_orders: ValueView,
    )
        ensures
            ({
                let o = Self::assemble(price, size, num_orders);
                &&& field(o, "price"@) == Some(price)
                &&& field(o, "size"@) == Some(size)
                &&& field(o, "num_orders"@) == Some(num_orders)
            }),
    {
        broadcast use {
            lemma_field_push,
            lemma_field_empty,
            lemma_field_with_opt,
            lemma_same_name,
        };

        reveal_strlit("price");
        reveal_strlit("size");
        reveal_strlit("num_orders");
        lemma_initials("price"@);
        lemma_initials("size"@);
        lemma_initials("num_orders"@);
    }

    /// The fields that the level is written as.
    pub open spec fn encoded_fields(a: BookRecordL1View) -> Fields {
        Self::assemble(
            decimal_value(a.price),
            decimal_value(a.size),
            count_value(a.num_orders),
        )
    }

    /// The payload that the level is written as.
    pub open spec fn encode_spec(a: BookRecordL1View) -> ValueView {
        ValueView::Object(Self::encoded_fields(a))
    }

    /// Decodes a level from its payload.
    pub fn decode(value: &Value) -> (r: Result<BookRecordL1, DecodeError>)
        ensures
            decoded(r) == Self::decode_spec(value@),
    {
        let o = as_object(value, "level")?;
        let price = decimal_field(o, "price")?;
        let size = decimal_field(o, "size")?;
        let num_orders = count_field(o, "num_orders")?;
        Ok(BookRecordL1 { price, size, num_orders })
    }

    /// Writes the level as a payload, which decodes back to the same level.
    pub fn encode(&self) -> (value: Value)
        ensures
            value@ == Self::encode_spec(self@),
            Self::decode_spec(value@) == Ok::<BookRecordL1View, DecodeErrorView>(self@),
    {
        broadcast use lemma_object_view;

        let mut o = no_fields();
        put_decimal(&mut o, "price", self.price);
        put_decimal(&mut o, "size", self.size);
        put_count(&mut o, "num_orders", self.num_orders);
        proof {
            Self::lemma_assembled(
                decimal_value(self@.price),
                decimal_value(self@.size),
                count_value(self@.num_orders),
            );
        }
        Value::Object(o)
    }

    /// The level that a list of three values denotes: price, size and num_orders,
    /// in that order.
    pub open spec fn positional_spec(items: Seq<ValueView>) -> Result<BookRecordL1View, DecodeErrorView> {
        if items.len() != 3 {
            Err(DecodeErrorView::TypeMismatch("level"@))
        } else if as_decimal(items[0], "price"@) is Err {
            Err(as_decimal(items[0], "price"@)->Err_0)
        } else if as_decimal(items[1], "size"@) is Err {
            Err(as_decimal(items[1], "size"@)->Err_0)
        } else if as_count(items[2], "num_orders"@) is Err {
            Err(as_count(items[2], "num_orders"@)->Err_0)
        } else {
            Ok(
                BookRecordL1View {
                    price: as_decimal(items[0], "price"@)->Ok_0,
                    size: as_decimal(items[1], "size"@)->Ok_0,
                    num_orders: as_count(items[2], "num_orders"@)->Ok_0,
                },
            )
        }
    }

    /// Decodes a level from the list form that the exchange sends.
    pub fn decode_positional(items: &Vec<Value>) -> (r: Result<BookRecordL1, DecodeError>)
        ensures
            decoded(r) == Self::positional_spec(items_view(items@)),
    {
        if items.len() != 3 {
            return Err(DecodeError::mismatch("level"));
        }
        let price = read_decimal(&items[0], "price")?;
        let size = read_decimal(&items[1], "size")?;
        let num_orders = read_count(&items[2], "num_orders")?;
        Ok(BookRecordL1 { price, size, num_orders })
    }
}

impl BookLevel for BookRecordL1 {
    open spec fn spec_level() -> u8 {
        1
    }

    open spec fn row_spec(v: ValueView) -> Result<BookRecordL1View, DecodeErrorView> {
        match v {
            ValueView::List(items) => Self::positional_spec(items),
            _ => Self::decode_spec(v),
        }
    }

    open spec fn row_value(r: BookRecordL1View) -> ValueView {
        Self::encode_spec(r)
    }

    fn level() -> (l: u8) {
        1
    }

    fn decode_row(value: &Value) -> (r: Result<BookRecordL1, DecodeError>) {
        broadcast use lemma_list_view;

        match value {
            Value::List(items) => Self::decode_positional(items),
            _ => Self::decode(value),
        }
    }

    fn encode_row(&self) -> (value: Value) {
        self.encode()
    }
}

/// One price level of the book: its price, the size on offer at it, and
/// how many orders make it up.
#[derive(Clone, Debug, PartialEq)]
pub struct BookRecordL2 {
    pub price: Decimal,
    pub size: Decimal,
    pub num_orders: usize,
}

/// What [`BookRecordL2`] holds, as mathematical values.
pub struct BookRecordL2View {
    pub price: DecimalView,
    pub size: DecimalView,
    pub num_orders: usize,
}

impl View for BookRecordL2 {
    type V = BookRecordL2View;

    open spec fn view(&self) -> BookRecordL2View {
        BookRecordL2View {
            price: self.price@,
            size: self.size@,
            num_orders: self.num_orders,
        }
    }
}

impl BookRecordL2 {
    /// The level that an object's fields denote: the first error met in the
    /// order of the fields below, or else the record of their values.
    pub open spec fn fields_spec(o: Fields) -> Result<BookRecordL2View, DecodeErrorView> {
        if decimal_at(o, "price"@) is Err {
            Err(decimal_at(o, "price"@)->Err_0)
        } else if decimal_at(o, "size"@) is Err {
            Err(decimal_at(o, "size"@)->Err_0)
        } else if count_at(o, "num_orders"@) is Err {
            Err(count_at(o, "num_orders"@)->Err_0)
        } else {
            Ok(
                BookRecordL2View {
                    price: decimal_at(o, "price"@)->Ok_0,
                    size: decimal_at(o, "size"@)->Ok_0,
                    num_orders: count_at(o, "num_orders"@)->Ok_0,
                },
            )
        }
    }

    /// The level that a payload denotes.
    pub open spec fn decode_spec(v: ValueView) -> Result<BookRecordL2View, DecodeErrorView> {
        match object_of(v, "level"@) {
            Ok(o) => Self::fields_spec(o),
            Err(e) => Err(e),
        }
    }

    /// The fields of a level in wire order, given how each is written.
    pub open spec fn assemble(
        price: ValueView,
        size: ValueView,
        num_orders: ValueView,
    ) -> Fields {
        let o = Fields::empty();
        let o = o.push(("price"@, price));
        let o = o.push(("size"@, size));
        let o = o.push(("num_orders"@, num_orders));
        o
    }

    /// Among the assembled fields each name finds its own value.
    pub proof fn lemma_assembled(
        price: ValueView,
        size: ValueView,
        num_orders: ValueView,
    )
        ensures
            ({
                let o = Self::assemble(price, size, num_orders);
                &&& field(o, "price"@) == Some(price)
                &&& field(o, "size"@) == Some(size)
                &&& field(o, "num_orders"@) == Some(num_orders)
            }),
    {
        broadcast use {
            lemma_field_push,
            lemma_field_empty,
            lemma_field_with_opt,
            lemma_same_name,
        };

        reveal_strlit("price");
        reveal_strlit("size");
        reveal_strlit("num_orders");
        lemma_initials("price"@);
        lemma_initials("size"@);
        lemma_initials("num_orders"@);
    }

    /// The fields that the level is written as.
    pub open spec fn encoded_fields(a: BookRecordL2View) -> Fields {
        Self::assemble(
            decimal_value(a.price),
            decimal_value(a.size),
            count_value(a.num_orders),
        )
    }

    /// The payload that the level is written as.
    pub open spec fn encode_spec(a: BookRecordL2View) -> ValueView {
        ValueView::Object(Self::encoded_fields(a))
    }

    /// Decodes a level from its payload.
    pub fn decode(value: &Value) -> (r: Result<BookRecordL2, DecodeError>)
        ensures
            decoded(r) == Self::decode_spec(value@),
    {
        let o = as_object(value, "level")?;
        let price = decimal_field(o, "price")?;
        let size = decimal_field(o, "size")?;
        let num_orders = count_field(o, "num_orders")?;
        Ok(BookRecordL2 { price, size, num_orders })
    }

    /// Writes the level as a payload, which decodes back to the same level.
    pub fn encode(&self) -> (value: Value)
        ensures
            value@ == Self::encode_spec(self@),
            Self::decode_spec(value@) == Ok::<BookRecordL2View, DecodeErrorView>(self@),
    {
        broadcast use lemma_object_view;

        let mut o = no_fields();
        put_decimal(&mut o, "price", self.price);
        put_decimal(&mut o, "size", self.size);
        put_count(&mut o, "num_orders", self.num_orders);
        proof {
            Self::lemma_assembled(
                decimal_value(self@.price),
                decimal_value(self@.size),
                count_value(self@.num_orders),
            );
        }
        Value::Object(o)
    }

    /// The level that a list of three values denotes: price, size and num_orders,
    /// in that order.
    pub open spec fn positional_spec(items: Seq<ValueView>) -> Result<BookRecordL2View, DecodeErrorView> {
        if items.len() != 3 {
            Err(DecodeErrorView::TypeMismatch("level"@))
        } else if as_decimal(items[0], "price"@) is Err {
            Err(as_decimal(items[0], "price"@)->Err_0)
        } else if as_decimal(items[1], "size"@) is Err {
            Err(as_decimal(items[1], "size"@)->Err_0)
        } else if as_count(items[2], "num_orders"@) is Err {
            Err(as_count(items[2], "num_orders"@)->Err_0)
        } else {
            Ok(
                BookRecordL2View {
                    price: as_decimal(items[0], "price"@)->Ok_0,
                    size: as_decimal(items[1], "size"@)->Ok_0,
                    num_orders: as_count(items[2], "num_orders"@)->Ok_0,
                },
            )
        }
    }

    /// Decodes a level from the list form that the exchange sends.
    pub fn decode_positional(items: &Vec<Value>) -> (r: Result<BookRecordL2, DecodeError>)
        ensures
            decoded(r) == Self::positional_spec(items_view(items@)),
    {
        if items.len() != 3 {
            return Err(DecodeError::mismatch("level"));
        }
        let price = read_decimal(&items[0], "price")?;
        let size = read_decimal(&items[1], "size")?;
        let num_orders = read_count(&items[2], "num_orders")?;
        Ok(BookRecordL2 { price, size, num_orders })
    }
}

impl BookLevel for BookRecordL2 {
    open spec fn spec_level() -> u8 {
        2
    }

    open spec fn row_spec(v: ValueView) -> Result<BookRecordL2View, DecodeErrorView> {
        match v {
            ValueView::List(items) => Self::positional_spec(items),
            _ => Self::decode_spec(v),
        }
    }

    open spec fn row_value(r: BookRecordL2View) -> ValueView {
        Self::encode_spec(r)
    }

    fn level() -> (l: u8) {
        2
    }

    fn decode_row(value: &Value) -> (r: Result<BookRecordL2, DecodeError>) {
        broadcast use lemma_list_view;

        match value {
            Value::List(items) => Self::decode_positional(items),
            _ => Self::decode(value),
        }
    }

    fn encode_row(&self) -> (value: Value) {
        self.encode()
    }
}

/// One order in the book: its price, its size, and the order's own
/// identifier.
#[derive(Clone, Debug, PartialEq)]
pub struct BookRecordL3 {
    pub price: Decimal,
    pub size: Decimal,
    pub order_id: Uuid,
}

/// What [`BookRecordL3`] holds, as mathematical values.
pub struct BookRecordL3View {
    pub price: DecimalView,
    pub size: DecimalView,
    pub order_id: Uuid,
}

impl View for BookRecordL3 {
    type V = BookRecordL3View;

    open spec fn view(&self) -> BookRecordL3View {
        BookRecordL3View {
            price: self.price@,
            size: self.size@,
            order_id: self.order_id,
        }
    }
}

impl BookRecordL3 {
    /// The level that an object's fields denote: the first error met in the
    /// order of the fields below, or else the record of their values.
    pub open spec fn fields_spec(o: Fields) -> Result<BookRecordL3View, DecodeErrorView> {
        if decimal_at(o, "price"@) is Err {
            Err(decimal_at(o, "price"@)->Err_0)
        } else if decimal_at(o, "size"@) is Err {
            Err(decimal_at(o, "size"@)->Err_0)
        } else if uuid_at(o, "order_id"@) is Err {
            Err(uuid_at(o, "order_id"@)->Err_0)
        } else {
            Ok(
                BookRecordL3View {
                    price: decimal_at(o, "price"@)->Ok_0,
                    size: decimal_at(o, "size"@)->Ok_0,
                    order_id: uuid_at(o, "order_id"@)->Ok_0,
                },
            )
        }
    }

    /// The level that a payload denotes.
    pub open spec fn decode_spec(v: ValueView) -> Result<BookRecordL3View, DecodeErrorView> {
        match object_of(v, "level"@) {
            Ok(o) => Self::fields_spec(o),
            Err(e) => Err(e),
        }
    }

    /// The fields of a level in wire order, given how each is written.
    pub open spec fn assemble(
        price: ValueView,
        size: ValueView,
        order_id: ValueView,
    ) -> Fields {
        let o = Fields::empty();
        let o = o.push(("price"@, price));
        let o = o.push(("size"@, size));
        let o = o.push(("order_id"@, order_id));
        o
    }

    /// Among the assembled fields each name finds its own value.
    pub proof fn lemma_assembled(
        price: ValueView,
        size: ValueView,
        order_id: ValueView,
    )
        ensures
            ({
                let o = Self::assemble(price, size, order_id);
                &&& field(o, "price"@) == Some(price)
                &&& field(o, "size"@) == Some(size)
                &&& field(o, "order_id"@) == Some(order_id)
            }),
    {
        broadcast use {
            lemma_field_push,
            lemma_field_empty,
            lemma_field_with_opt,
            lemma_same_name,
        };

        reveal_strlit("price");
        reveal_strlit("size");
        reveal_strlit("order_id");
        lemma_initials("price"@);
        lemma_initials("size"@);
        lemma_initials("order_id"@);
    }

    /// The fields that the level is written as.
    pub open spec fn encoded_fields(a: BookRecordL3View) -> Fields {
        Self::assemble(
            decimal_value(a.price),
            decimal_value(a.size),
            uuid_value(a.order_id),
        )
    }

    /// The payload that the level is written as.
    pub open spec fn encode_spec(a: BookRecordL3View) -> ValueView {
        ValueView::Object(Self::encoded_fields(a))
    }

    /// Decodes a level from its payload.
    pub fn decode(value: &Value) -> (r: Result<BookRecordL3, DecodeError>)
        ensures
            decoded(r) == Self::decode_spec(value@),
    {
        let o = as_object(value, "level")?;
        let price = decimal_field(o, "price")?;
        let size = decimal_field(o, "size")?;
        let order_id = uuid_field(o, "order_id")?;
        Ok(BookRecordL3 { price, size, order_id })
    }

    /// Writes the level as a payload, which decodes back to the same level.
    pub fn encode(&self) -> (value: Value)
        ensures
            value@ == Self::encode_spec(self@),
            Self::decode_spec(value@) == Ok::<BookRecordL3View, DecodeErrorView>(self@),
    {
        broadcast use lemma_object_view;

        let mut o = no_fields();
        put_decimal(&mut o, "price", self.price);
        put_decimal(&mut o, "size", self.size);
        put_uuid(&mut o, "order_id", self.order_id);
        proof {
            Self::lemma_assembled(
                decimal_value(self@.price),
                decimal_value(self@.size),
                uuid_value(self@.order_id),
            );
        }
        Value::Object(o)
    }

    /// The level that a list of three values denotes: price, size and order_id,
    /// in that order.
    pub open spec fn positional_spec(items: Seq<ValueView>) -> Result<BookRecordL3View, DecodeErrorView> {
        if items.len() != 3 {
            Err(DecodeErrorView::TypeMismatch("level"@))
        } else if as_decimal(items[0], "price"@) is Err {
            Err(as_decimal(items[0], "price"@)->Err_0)
        } else if as_decimal(items[1], "size"@) is Err {
            Err(as_decimal(items[1], "size"@)->Err_0)
        } else if as_uuid(items[2], "order_id"@) is Err {
            Err(as_uuid(items[2], "order_id"@)->Err_0)
        } else {
            Ok(
                BookRecordL3View {
                    price: as_decimal(items[0], "price"@)->Ok_0,
                    size: as_decimal(items[1], "size"@)->Ok_0,
                    order_id: as_uuid(items[2], "order_id"@)->Ok_0,
                },
            )
        }
    }

    /// Decodes a level from the list form that the exchange sends.
    pub fn decode_positional(items: &Vec<Value>) -> (r: Result<BookRecordL3, DecodeError>)
        ensures
            decoded(r) == Self::positional_spec(items_view(items@)),
    {
        if items.len() != 3 {
            return Err(DecodeError::mismatch("level"));
        }
        let price = read_decimal(&items[0], "price")?;
        let size = read_decimal(&items[1], "size")?;
        let order_id = read_uuid(&items[2], "order_id")?;
        Ok(BookRecordL3 { price, size, order_id })
    }
}

impl BookLevel for BookRecordL3 {
    open spec fn spec_level() -> u8 {
        3
    }

    open spec fn row_spec(v: ValueView) -> Result<BookRecordL3View, DecodeErrorView> {
        match v {
            ValueView::List(items) => Self::positional_spec(items),
            _ => Self::decode_spec(v),
        }
    }

    open spec fn row_value(r: BookRecordL3View) -> ValueView {
        Self::encode_spec(r)
    }

    fn level() -> (l: u8) {
        3
    }

    fn decode_row(value: &Value) -> (r: Result<BookRecordL3, DecodeError>) {
        broadcast use lemma_list_view;

        match value {
            Value::List(items) => Self::decode_positional(items),
            _ => Self::decode(value),
        }
    }

    fn encode_row(&self) -> (value: Value) {
        self.encode()
    }
}

/// A snapshot of an order book: a sequence number, and the bids and the asks
/// as rows of one level of detail.
#[derive(Clone, Debug, PartialEq)]
pub struct Book<T> {
    pub sequence: usize,
    pub bids: Vec<T>,
    pub asks: Vec<T>,
}

/// What [`Book`] holds, as mathematical values.
pub struct BookView<V> {
    pub sequence: usize,
    pub bids: Seq<V>,
    pub asks: Seq<V>,
}

/// The views of rows, in order.
pub open spec fn rows_view<T: View>(rows: Seq<T>) -> Seq<T::V> {
    Seq::new(rows.len(), |i: int| rows[i]@)
}

impl<T: View> View for Book<T> {
    type V = BookView<T::V>;

    open spec fn view(&self) -> BookView<T::V> {
        BookView {
            sequence: self.sequence,
            bids: rows_view(self.bids@),
            asks: rows_view(self.asks@),
        }
    }
}

impl<T: BookLevel> Book<T> {
    /// The rows that a list of payloads denotes: the error of the first
    /// payload that is no row, or else all the rows in order.
    pub open spec fn rows_spec(items: Seq<ValueView>) -> Result<Seq<T::V>, DecodeErrorView>
        decreases items.len(),
    {
        if items.len() == 0 {
            Ok(Seq::empty())
        } else {
            match Self::rows_spec(items.drop_last()) {
                Err(e) => Err(e),
                Ok(rows) => match T::row_spec(items.last()) {
                    Err(e) => Err(e),
                    Ok(row) => Ok(rows.push(row)),
                },
            }
        }
    }

    /// The payloads that rows are written as.
    pub open spec fn rows_value(rows: Seq<T::V>) -> Seq<ValueView> {
        Seq::new(rows.len(), |i: int| T::row_value(rows[i]))
    }

    /// The rows under the required field `key`, which must hold a list.
    pub open spec fn rows_at(o: Fields, key: Seq<char>) -> Result<Seq<T::V>, DecodeErrorView> {
        match need(o, key) {
            Err(e) => Err(e),
            Ok(v) => match list_of(v, key) {
                Err(e) => Err(e),
                Ok(items) => Self::rows_spec(items),
            },
        }
    }

    /// The book that an object's fields denote: the first error met in the
    /// order of the fields below, or else the record of their values.
    pub open spec fn fields_spec(o: Fields) -> Result<BookView<T::V>, DecodeErrorView> {
        if count_at(o, "sequence"@) is Err {
            Err(count_at(o, "sequence"@)->Err_0)
        } else if Self::rows_at(o, "bids"@) is Err {
            Err(Self::rows_at(o, "bids"@)->Err_0)
        } else if Self::rows_at(o, "asks"@) is Err {
            Err(Self::rows_at(o, "asks"@)->Err_0)
        } else {
            Ok(
                BookView {
                    sequence: count_at(o, "sequence"@)->Ok_0,
                    bids: Self::rows_at(o, "bids"@)->Ok_0,
                    asks: Self::rows_at(o, "asks"@)->Ok_0,
                },
            )
        }
    }

    /// The book that a payload denotes.
    pub open spec fn decode_spec(v: ValueView) -> Result<BookView<T::V>, DecodeErrorView> {
        match object_of(v, "book"@) {
            Ok(o) => Self::fields_spec(o),
            Err(e) => Err(e),
        }
    }

    /// The payload that the book is written as.
    pub open spec fn encode_spec(a: BookView<T::V>) -> ValueView {
        ValueView::Object(
            Fields::empty().push(("sequence"@, count_value(a.sequence))).push(
                ("bids"@, ValueView::List(Self::rows_value(a.bids))),
            ).push(("asks"@, ValueView::List(Self::rows_value(a.asks)))),
        )
    }

    /// The rows of one more payload: those before it, and then its own.
    pub proof fn lemma_rows_step(items: Seq<ValueView>, i: int)
        requires
            0 <= i < items.len(),
        ensures
            Self::rows_spec(items.take(i + 1)) == match Self::rows_spec(items.take(i)) {
                Err(e) => Err(e),
                Ok(rows) => match T::row_spec(items[i]) {
                    Err(e) => Err(e),
                    Ok(row) => Ok(rows.push(row)),
                },
            },
    {
        assert(items.take(i + 1).drop_last() =~= items.take(i));
        assert(items.take(i + 1).last() == items[i]);
    }

    /// An error among the first `k` payloads is the error of the whole list.
    pub proof fn lemma_rows_error(items: Seq<ValueView>, k: int)
        requires
            0 <= k <= items.len(),
            Self::rows_spec(items.take(k)) is Err,
        ensures
            Self::rows_spec(items) == Self::rows_spec(items.take(k)),
        decreases items.len() - k,
    {
        if k < items.len() {
            assert(items.take(k + 1).drop_last() =~= items.take(k));
            Self::lemma_rows_error(items, k + 1);
        } else {
            assert(items.take(k) =~= items);
        }
    }

    fn decode_rows(items: &Vec<Value>) -> (r: Result<Vec<T>, DecodeError>)
        ensures
            match r {
                Ok(rows) => Self::rows_spec(items_view(items@)) == Ok::<
                    Seq<T::V>,
                    DecodeErrorView,
                >(rows_view(rows@)),
                Err(e) => Self::rows_spec(items_view(items@)) == Err::<Seq<T::V>, DecodeErrorView>(
                    e@,
                ),
            },
    {
        let ghost all = items_view(items@);
        let mut rows: Vec<T> = Vec::new();
        let mut i: usize = 0;
        assert(rows_view(rows@) =~= Seq::<T::V>::empty());
        while i < items.len()
            invariant
                i <= items.len(),
                all == items_view(items@),
                Self::rows_spec(all.take(i as int)) == Ok::<Seq<T::V>, DecodeErrorView>(
                    rows_view(rows@),
                ),
            decreases items.len() - i,
        {
            proof {
                Self::lemma_rows_step(all, i as int);
            }
            let ghost before = rows_view(rows@);
            match T::decode_row(&items[i]) {
                Ok(row) => {
                    rows.push(row);
                    assert(rows_view(rows@) =~= before.push(row@));
                },
                Err(e) => {
                    proof {
                        Self::lemma_rows_error(all, i + 1);
                    }
                    return Err(e);
                },
            }
            i += 1;
        }
        assert(all.take(items.len() as int) =~= all);
        Ok(rows)
    }

    fn rows_field(o: &Vec<(String, Value)>, key: &str) -> (r: Result<Vec<T>, DecodeError>)
        ensures
            match r {
                Ok(rows) => Self::rows_at(fields_view(o@), key@) == Ok::<
                    Seq<T::V>,
                    DecodeErrorView,
                >(rows_view(rows@)),
                Err(e) => Self::rows_at(fields_view(o@), key@) == Err::<
                    Seq<T::V>,
                    DecodeErrorView,
                >(e@),
            },
    {
        broadcast use lemma_list_view;

        match get(o, key)? {
            Value::List(items) => Self::decode_rows(items),
            _ => Err(DecodeError::mismatch(key)),
        }
    }

    fn encode_rows(rows: &Vec<T>) -> (value: Value)
        ensures
            value@ == ValueView::List(Self::rows_value(rows_view(rows@))),
            Self::rows_spec(Self::rows_value(rows_view(rows@))) == Ok::<
                Seq<T::V>,
                DecodeErrorView,
            >(rows_view(rows@)),
    {
        broadcast use lemma_list_view;

        let ghost whole = rows_view(rows@);
        let mut items: Vec<Value> = Vec::new();
        let mut i: usize = 0;
        assert(items_view(items@) =~= Self::rows_value(whole.take(0)));
        assert(whole.take(0) =~= Seq::<T::V>::empty());
        while i < rows.len()
            invariant
                i <= rows.len(),
                whole == rows_view(rows@),
                items_view(items@) == Self::rows_value(whole.take(i as int)),
                Self::rows_spec(Self::rows_value(whole.take(i as int))) == Ok::<
                    Seq<T::V>,
                    DecodeErrorView,
                >(whole.take(i as int)),
            decreases rows.len() - i,
        {
            let ghost before = items_view(items@);
            let item = rows[i].encode_row();
            items.push(item);
            proof {
                let next = Self::rows_value(whole.take(i + 1));
                assert(items_view(items@) =~= before.push(item@));
                assert(next =~= before.push(item@));
                assert(next.drop_last() =~= before);
                assert(whole.take(i + 1) =~= whole.take(i as int).push(rows@[i as int]@));
            }
            i += 1;
        }
        assert(whole.take(rows.len() as int) =~= whole);
        Value::List(items)
    }

    /// Decodes a book from its payload.
    pub fn decode(value: &Value) -> (r: Result<Book<T>, DecodeError>)
        ensures
            match r {
                Ok(book) => Self::decode_spec(value@) == Ok::<BookView<T::V>, DecodeErrorView>(
                    book@,
                ),
                Err(e) => Self::decode_spec(value@) == Err::<BookView<T::V>, DecodeErrorView>(e@),
            },
    {
        let o = as_object(value, "book")?;
        let sequence = count_field(o, "sequence")?;
        let bids = Self::rows_field(o, "bids")?;
        let asks = Self::rows_field(o, "asks")?;
        Ok(Book { sequence, bids, asks })
    }

    /// Writes the book as a payload, which decodes back to the same book.
    pub fn encode(&self) -> (value: Value)
        ensures
            value@ == Self::encode_spec(self@),
            Self::decode_spec(value@) == Ok::<BookView<T::V>, DecodeErrorView>(self@),
    {
        broadcast use {lemma_object_view, lemma_field_push, lemma_field_empty, lemma_same_name};

        let mut o = no_fields();
        put_count(&mut o, "sequence", self.sequence);
        put(&mut o, "bids", Self::encode_rows(&self.bids));
        put(&mut o, "asks", Self::encode_rows(&self.asks));
        proof {
            reveal_strlit("sequence");
            reveal_strlit("bids");
            reveal_strlit("asks");
            lemma_initials("sequence"@);
            lemma_initials("bids"@);
            lemma_initials("asks"@);
        }
        Value::Object(o)
    }
}

/// One candle of a product's price history. The exchange sends it as a list
/// of six numbers, in the order of the fields.
#[derive(Clone, Copy, Debug, PartialEq)]
pub struct Candle(
    /// The start of the candle, in seconds since the Unix epoch.
    pub usize,
    /// The lowest price.
    pub Decimal,
    /// The highest price.
    pub Decimal,
    /// The first price.
    pub Decimal,
    /// The last price.
    pub Decimal,
    /// The volume traded.
    pub Decimal,
);

/// What [`Candle`] holds, as mathematical values.
pub struct CandleView {
    pub time: usize,
    pub low: DecimalView,
    pub high: DecimalView,
    pub open: DecimalView,
    pub close: DecimalView,
    pub volume: DecimalView,
}

impl View for Candle {
    type V = CandleView;

    open spec fn view(&self) -> CandleView {
        CandleView {
            time: self.0,
            low: self.1@,
            high: self.2@,
            open: self.3@,
            close: self.4@,
            volume: self.5@,
        }
    }
}

impl Candle {
    /// The candle that a list of values denotes: there must be six, and the
    /// first error in their order counts.
    pub open spec fn items_spec(items: Seq<ValueView>) -> Result<CandleView, DecodeErrorView> {
        if items.len() != 6 {
            Err(DecodeErrorView::TypeMismatch("candle"@))
        } else if as_count(items[0], "time"@) is Err {
            Err(as_count(items[0], "time"@)->Err_0)
        } else if as_number(items[1], "low"@) is Err {
            Err(as_number(items[1], "low"@)->Err_0)
        } else if as_number(items[2], "high"@) is Err {
            Err(as_number(items[2], "high"@)->Err_0)
        } else if as_number(items[3], "open"@) is Err {
            Err(as_number(items[3], "open"@)->Err_0)
        } else if as_number(items[4], "close"@) is Err {
            Err(as_number(items[4], "close"@)->Err_0)
        } else if as_number(items[5], "volume"@) is Err {
            Err(as_number(items[5], "volume"@)->Err_0)
        } else {
            Ok(
                CandleView {
                    time: as_count(items[0], "time"@)->Ok_0,
                    low: as_number(items[1], "low"@)->Ok_0,
                    high: as_number(items[2], "high"@)->Ok_0,
                    open: as_number(items[3], "open"@)->Ok_0,
                    close: as_number(items[4], "close"@)->Ok_0,
                    volume: as_number(items[5], "volume"@)->Ok_0,
                },
            )
        }
    }

    /// The candle that a payload denotes.
    pub open spec fn decode_spec(v: ValueView) -> Result<CandleView, DecodeErrorView> {
        match list_of(v, "candle"@) {
            Ok(items) => Self::items_spec(items),
            Err(e) => Err(e),
        }
    }

    /// The payload that the candle is written as.
    pub open spec fn encode_spec(c: CandleView) -> ValueView {
        ValueView::List(
            Seq::empty().push(count_value(c.time)).push(ValueView::Number(c.low)).push(
                ValueView::Number(c.high),
            ).push(ValueView::Number(c.open)).push(ValueView::Number(c.close)).push(
                ValueView::Number(c.volume),
            ),
        )
    }

    /// Decodes a candle from its payload.
    pub fn decode(value: &Value) -> (r: Result<Candle, DecodeError>)
        ensures
            decoded(r) == Self::decode_spec(value@),
    {
        broadcast use lemma_list_view;

        let items = match value {
            Value::List(items) => items,
            _ => {
                return Err(DecodeError::mismatch("candle"));
            },
        };
        if items.len() != 6 {
            return Err(DecodeError::mismatch("candle"));
        }
        let time = read_count(&items[0], "time")?;
        let low = read_number(&items[1], "low")?;
        let high = read_number(&items[2], "high")?;
        let open = read_number(&items[3], "open")?;
        let close = read_number(&items[4], "close")?;
        let volume = read_number(&items[5], "volume")?;
        Ok(Candle(time, low, high, open, close, volume))
    }

    /// Writes the candle as a payload, which decodes back to the same
    /// candle.
    pub fn encode(&self) -> (value: Value)
        ensures
            value@ == Self::encode_spec(self@),
            Self::decode_spec(value@) == Ok::<CandleView, DecodeErrorView>(self@),
    {
        broadcast use lemma_list_view;

        let mut items: Vec<Value> = Vec::new();
        items.push(Value::Number(Decimal::from_unsigned(self.0 as u64)));
        items.push(Value::Number(self.1));
        items.push(Value::Number(self.2));
        items.push(Value::Number(self.3));
        items.push(Value::Number(self.4));
        items.push(Value::Number(self.5));
        assert(items_view(items@) =~= Self::encode_spec(self@)->List_0);
        Value::List(items)
    }
}

} // verus!
