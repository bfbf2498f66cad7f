//! Accounts, their ledger and their holds.
use crate::codec::{
    as_object, count_text_at, count_text_field, count_text_value, decimal_at, decimal_field,
    decimal_value, Fields, instant_at, instant_field, instant_value, lemma_field_with_opt,
    number_at, number_field, object_of, opt_view, put_count_text, put_decimal, put_instant,
    put_number, put_text, put_token, put_uuid, text_at, text_field, Token, token_at, token_field,
    token_value, uuid_at, uuid_field, uuid_value,
};
use crate::decimal::{Decimal, DecimalView};
use crate::error::{decoded, DecodeError, DecodeErrorView};
use crate::ident::{Uuid};
use crate::instant::{Instant, InstantView};
use crate::text::{str_eq};
use crate::value::{
    field, fields_view, find, lemma_field_empty, lemma_field_push, lemma_initials,
    lemma_object_view, lemma_same_name, no_fields, put, same_name, Value, ValueView,
};
use vstd::prelude::*;

verus! {

/// The balance of one currency. The exchange keeps `balance` equal to
/// `available + hold`; the codec passes all three through as sent.
#[derive(Clone, Debug, PartialEq)]
pub struct Account {
    pub id: Uuid,
    pub currency: String,
    pub balance: Decimal,
    pub available: Decimal,
    pub hold: Decimal,
    pub profile_id: Uuid,
}

/// What [`Account`] holds, as mathematical values.
pub struct AccountView {
    pub id: Uuid,
    pub currency: Seq<char>,
    pub balance: DecimalView,
    pub available: DecimalView,
    pub hold: DecimalView,
    pub profile_id: Uuid,
}

impl View for Account {
    type V = AccountView;

    open spec fn view(&self) -> AccountView {
        AccountView {
            id: self.id,
            currency: self.currency@,
            balance: self.balance@,
            available: self.available@,
            hold: self.hold@,
            profile_id: self.profile_id,
        }
    }
}

impl Account {
    /// The account that an object's fields denote: the first error met in the
    /// order of the fields below, or else the record of their values.
    pub open spec fn fields_spec(o: Fields) -> Result<AccountView, DecodeErrorView> {
        if uuid_at(o, "id"@) is Err {
            Err(uuid_at(o, "id"@)->Err_0)
        } else if text_at(o, "currency"@) is Err {
            Err(text_at(o, "currency"@)->Err_0)
        } else if decimal_at(o, "balance"@) is Err {
            Err(decimal_at(o, "balance"@)->Err_0)
        } else if decimal_at(o, "available"@) is Err {
            Err(decimal_at(o, "available"@)->Err_0)
        } else if decimal_at(o, "hold"@) is Err {
            Err(decimal_at(o, "hold"@)->Err_0)
        } else if uuid_at(o, "profile_id"@) is Err {
            Err(uuid_at(o, "profile_id"@)->Err_0)
        } else {
            Ok(
                AccountView {
                    id: uuid_at(o, "id"@)->Ok_0,
                    currency: text_at(o, "currency"@)->Ok_0,
                    balance: decimal_at(o, "balance"@)->Ok_0,
                    available: decimal_at(o, "available"@)->Ok_0,
                    hold: decimal_at(o, "hold"@)->Ok_0,
                    profile_id: uuid_at(o, "profile_id"@)->Ok_0,
                },
            )
        }
    }

    /// The account that a payload denotes.
    pub open spec fn decode_spec(v: ValueView) -> Result<AccountView, DecodeErrorView> {
        match object_of(v, "account"@) {
            Ok(o) => Self::fields_spec(o),
            Err(e) => Err(e),
        }
    }

    /// The fields of an account in wire order, given how each is written.
    pub open spec fn assemble(
        id: ValueView,
        currency: ValueView,
        balance: ValueView,
        available: ValueView,
        hold: ValueView,
        profile_id: ValueView,
    ) -> Fields {
        let o = Fields::empty();
        let o = o.push(("id"@, id));
        let o = o.push(("currency"@, currency));
        let o = o.push(("balance"@, balance));
        let o = o.push(("available"@, available));
        let o = o.push(("hold"@, hold));
        let o = o.push(("profile_id"@, profile_id));
        o
    }

    /// Among the assembled fields each name finds its own value.
    pub proof fn lemma_assembled(
        id: ValueView,
        currency: ValueView,
        balance: ValueView,
        available: ValueView,
        hold: ValueView,
        profile_id: ValueView,
    )
        ensures
            ({
                let o = Self::assemble(id, currency, balance, available, hold, profile_id);
                &&& field(o, "id"@) == Some(id)
                &&& field(o, "currency"@) == Some(currency)
                &&& field(o, "balance"@) == Some(balance)
                &&& field(o, "available"@) == Some(available)
                &&& field(o, "hold"@) == Some(hold)
                &&& field(o, "profile_id"@) == Some(profile_id)
            }),
    {
        broadcast use {
            lemma_field_push,
            lemma_field_empty,
            lemma_field_with_opt,
            lemma_same_name,
        };

        reveal_strlit("id");
        reveal_strlit("currency");
        reveal_strlit("balance");
        reveal_strlit("available");
        reveal_strlit("hold");
        reveal_strlit("profile_id");
        lemma_initials("id"@);
        lemma_initials("currency"@);
        lemma_initials("balance"@);
        lemma_initials("available"@);
        lemma_initials("hold"@);
        lemma_initials("profile_id"@);
    }

    /// The fields that the account is written as.
    pub open spec fn encoded_fields(a: AccountView) -> Fields {
        Self::assemble(
            uuid_value(a.id),
            ValueView::Text(a.currency),
            decimal_value(a.balance),
            decimal_value(a.available),
            decimal_value(a.hold),
            uuid_value(a.profile_id),
        )
    }

    /// The payload that the account is written as.
    pub open spec fn encode_spec(a: AccountView) -> ValueView {
        ValueView::Object(Self::encoded_fields(a))
    }

    /// Decodes an account from its payload.
    pub fn decode(value: &Value) -> (r: Result<Account, DecodeError>)
        ensures
            decoded(r) == Self::decode_spec(value@),
    {
        let o = as_object(value, "account")?;
        let id = uuid_field(o, "id")?;
        let currency = text_field(o, "currency")?;
        let balance = decimal_field(o, "balance")?;
        let available = decimal_field(o, "available")?;
        let hold = decimal_field(o, "hold")?;
        let profile_id = uuid_field(o, "profile_id")?;
        Ok(Account { id, currency, balance, available, hold, profile_id })
    }

    /// Writes the account as a payload, which decodes back to the same account.
    pub fn encode(&self) -> (value: Value)
        ensures
            value@ == Self::encode_spec(self@),
            Self::decode_spec(value@) == Ok::<AccountView, DecodeErrorView>(self@),
    {
        broadcast use lemma_object_view;

        let mut o = no_fields();
        put_uuid(&mut o, "id", self.id);
        put_text(&mut o, "currency", &self.currency);
        put_decimal(&mut o, "balance", self.balance);
        put_decimal(&mut o, "available", self.available);
        put_decimal(&mut o, "hold", self.hold);
        put_uuid(&mut o, "profile_id", self.profile_id);
        proof {
            Self::lemma_assembled(
                uuid_value(self@.id),
                ValueView::Text(self@.currency),
                decimal_value(self@.balance),
                decimal_value(self@.available),
                decimal_value(self@.hold),
                uuid_value(self@.profile_id),
            );
        }
        Value::Object(o)
    }
}

/// What holds funds on an account.
#[derive(Clone, Copy, Debug, PartialEq, Eq, Structural)]
pub enum AccountHoldsType {
    Order,
    Transfer,
}

impl Token for AccountHoldsType {
    open spec fn of_token(text: Seq<char>) -> Option<AccountHoldsType> {
        if same_name(text, "order"@) {
            Some(AccountHoldsType::Order)
        } else if same_name(text, "transfer"@) {
            Some(AccountHoldsType::Transfer)
        } else {
            None
        }
    }

    open spec fn token_of(self) -> Seq<char> {
        match self {
            AccountHoldsType::Order => "order"@,
            AccountHoldsType::Transfer => "transfer"@,
        }
    }

    fn from_token(text: &str) -> (r: Option<AccountHoldsType>) {
        if str_eq(text, "order") {
            Some(AccountHoldsType::Order)
        } else if str_eq(text, "transfer") {
            Some(AccountHoldsType::Transfer)
        } else {
            None
        }
    }

    fn token(&self) -> (text: &'static str) {
        broadcast use lemma_same_name;

        proof {
            reveal_strlit("order");
            reveal_strlit("transfer");
            lemma_initials("order"@);
            lemma_initials("transfer"@);
        }
        match self {
            AccountHoldsType::Order => "order",
            AccountHoldsType::Transfer => "transfer",
        }
    }
}

/// Funds held on an account, for an open order or a transfer under way.
#[derive(Clone, Debug, PartialEq)]
pub struct AccountHolds {
    pub id: Uuid,
    pub account_id: Uuid,
    pub created_at: Instant,
    pub updated_at: Instant,
    pub amount: Decimal,
    pub _type: AccountHoldsType,
    pub _ref: Uuid,
}

/// What [`AccountHolds`] holds, as mathematical values.
pub struct AccountHoldsView {
    pub id: Uuid,
    pub account_id: Uuid,
    pub created_at: InstantView,
    pub updated_at: InstantView,
    pub amount: DecimalView,
    pub _type: AccountHoldsType,
    pub _ref: Uuid,
}

impl View for AccountHolds {
    type V = AccountHoldsView;

    open spec fn view(&self) -> AccountHoldsView {
        AccountHoldsView {
            id: self.id,
            account_id: self.account_id,
            created_at: self.created_at@,
            updated_at: self.updated_at@,
            amount: self.amount@,
            _type: self._type,
            _ref: self._ref,
        }
    }
}

impl AccountHolds {
    /// The hold that an object's fields denote: the first error met in the
    /// order of the fields below, or else the record of their values.
    pub open spec fn fields_spec(o: Fields) -> Result<AccountHoldsView, DecodeErrorView> {
        if uuid_at(o, "id"@) is Err {
            Err(uuid_at(o, "id"@)->Err_0)
        } else if uuid_at(o, "account_id"@) is Err {
            Err(uuid_at(o, "account_id"@)->Err_0)
        } else if instant_at(o, "created_at"@) is Err {
            Err(instant_at(o, "created_at"@)->Err_0)
        } else if instant_at(o, "updated_at"@) is Err {
            Err(instant_at(o, "updated_at"@)->Err_0)
        } else if number_at(o, "amount"@) is Err {
            Err(number_at(o, "amount"@)->Err_0)
        } else if token_at::<AccountHoldsType>(o, "type"@) is Err {
            Err(token_at::<AccountHoldsType>(o, "type"@)->Err_0)
        } else if uuid_at(o, "ref"@) is Err {
            Err(uuid_at(o, "ref"@)->Err_0)
        } else {
            Ok(
                AccountHoldsView {
                    id: uuid_at(o, "id"@)->Ok_0,
                    account_id: uuid_at(o, "account_id"@)->Ok_0,
                    created_at: instant_at(o, "created_at"@)->Ok_0,
                    updated_at: instant_at(o, "updated_at"@)->Ok_0,
                    amount: number_at(o, "amount"@)->Ok_0,
                    _type: token_at::<AccountHoldsType>(o, "type"@)->Ok_0,
                    _ref: uuid_at(o, "ref"@)->Ok_0,
                },
            )
        }
    }

    /// The hold that a payload denotes.
    pub open spec fn decode_spec(v: ValueView) -> Result<AccountHoldsView, DecodeErrorView> {
        match object_of(v, "account_holds"@) {
            Ok(o) => Self::fields_spec(o),
            Err(e) => Err(e),
        }
    }

    /// The fields of a hold in wire order, given how each is written.
    pub open spec fn assemble(
        id: ValueView,
        account_id: ValueView,
        created_at: ValueView,
        updated_at: ValueView,
        amount: ValueView,
        _type: ValueView,
        _ref: ValueView,
    ) -> Fields {
        let o = Fields::empty();
        let o = o.push(("id"@, id));
        let o = o.push(("account_id"@, account_id));
        let o = o.push(("created_at"@, created_at));
        let o = o.push(("updated_at"@, updated_at));
        let o = o.push(("amount"@, amount));
        let o = o.push(("type"@, _type));
        let o = o.push(("ref"@, _ref));
        o
    }

    /// Among the assembled fields each name finds its own value.
    pub proof fn lemma_assembled(
        id: ValueView,
        account_id: ValueView,
        created_at: ValueView,
        updated_at: ValueView,
        amount: ValueView,
        _type: ValueView,
        _ref: ValueView,
    )
        ensures
            ({
                let o = Self::assemble(id, account_id, created_at, updated_at, amount, _type, _ref);
                &&& field(o, "id"@) == Some(id)
                &&& field(o, "account_id"@) == Some(account_id)
                &&& field(o, "created_at"@) == Some(created_at)
                &&& field(o, "updated_at"@) == Some(updated_at)
                &&& field(o, "amount"@) == Some(amount)
                &&& field(o, "type"@) == Some(_type)
                &&& field(o, "ref"@) == Some(_ref)
            }),
    {
        broadcast use {
            lemma_field_push,
            lemma_field_empty,
            lemma_field_with_opt,
            lemma_same_name,
        };

        reveal_strlit("id");
        reveal_strlit("account_id");
        reveal_strlit("created_at");
        reveal_strlit("updated_at");
        reveal_strlit("amount");
        reveal_strlit("type");
        reveal_strlit("ref");
        lemma_initials("id"@);
        lemma_initials("account_id"@);
        lemma_initials("created_at"@);
        lemma_initials("updated_at"@);
        lemma_initials("amount"@);
        lemma_initials("type"@);
        lemma_initials("ref"@);
    }

    /// The fields that the hold is written as.
    pub open spec fn encoded_fields(a: AccountHoldsView) -> Fields {
        Self::assemble(
            uuid_value(a.id),
            uuid_value(a.account_id),
            instant_value(a.created_at),
            instant_value(a.updated_at),
            ValueView::Number(a.amount),
            token_value(a._type),
            uuid_value(a._ref),
        )
    }

    /// The payload that the hold is written as.
    pub open spec fn encode_spec(a: AccountHoldsView) -> ValueView {
        ValueView::Object(Self::encoded_fields(a))
    }

    /// Decodes a hold from its payload.
    pub fn decode(value: &Value) -> (r: Result<AccountHolds, DecodeError>)
        ensures
            decoded(r) == Self::decode_spec(value@),
    {
        let o = as_object(value, "account_holds")?;
        let id = uuid_field(o, "id")?;
        let account_id = uuid_field(o, "account_id")?;
        let created_at = instant_field(o, "created_at")?;
        let updated_at = instant_field(o, "updated_at")?;
        let amount = number_field(o, "amount")?;
        let _type = token_field::<AccountHoldsType>(o, "type")?;
        let _ref = uuid_field(o, "ref")?;
        Ok(AccountHolds { id, account_id, created_at, updated_at, amount, _type, _ref })
    }

    /// Writes the hold as a payload, which decodes back to the same hold.
    pub fn encode(&self) -> (value: Value)
        ensures
            value@ == Self::encode_spec(self@),
            Self::decode_spec(value@) == Ok::<AccountHoldsView, DecodeErrorView>(self@),
    {
        broadcast use lemma_object_view;

        let mut o = no_fields();
        put_uuid(&mut o, "id", self.id);
        put_uuid(&mut o, "account_id", self.account_id);
        put_instant(&mut o, "created_at", self.created_at);
        put_instant(&mut o, "updated_at", self.updated_at);
        put_number(&mut o, "amount", self.amount);
        put_token(&mut o, "type", self._type);
        put_uuid(&mut o, "ref", self._ref);
        proof {
            Self::lemma_assembled(
                uuid_value(self@.id),
                uuid_value(self@.account_id),
                instant_value(self@.created_at),
                instant_value(self@.updated_at),
                ValueView::Number(self@.amount),
                token_value(self@._type),
                uuid_value(self@._ref),
            );
        }
        Value::Object(o)
    }
}

/// The category of a ledger entry. It is never sent: it follows from which
/// details the entry carries.
#[derive(Clone, Copy, Debug, PartialEq, Eq, Structural)]
pub enum AccountHistoryType {
    Fee,
    Match,
    Rebate,
    Transfer,
    Conversion,
    NotSet,
}

impl Default for AccountHistoryType {
    fn default() -> (t: AccountHistoryType)
        ensures
            t == AccountHistoryType::NotSet,
    {
        AccountHistoryType::NotSet
    }
}

impl AccountHistoryType {
    /// The tag of the details that belong to a category; `NotSet` has none.
    pub open spec fn tag_of(self) -> Option<Seq<char>> {
        match self {
            AccountHistoryType::Fee => Some("fee"@),
            AccountHistoryType::Match => Some("match"@),
            AccountHistoryType::Rebate => Some("rebate"@),
            AccountHistoryType::Transfer => Some("transfer"@),
            AccountHistoryType::Conversion => Some("conversion"@),
            AccountHistoryType::NotSet => None,
        }
    }

    /// The category of a ledger entry with the given details.
    pub fn from(details: &AccountHistoryDetails) -> (t: AccountHistoryType)
        ensures
            t == details@.category(),
    {
        match details {
            AccountHistoryDetails::Fee { .. } => AccountHistoryType::Fee,
            AccountHistoryDetails::Match { .. } => AccountHistoryType::Match,
            AccountHistoryDetails::Transfer { .. } => AccountHistoryType::Transfer,
            AccountHistoryDetails::Rebate { .. } => AccountHistoryType::Rebate,
            AccountHistoryDetails::Conversion { .. } => AccountHistoryType::Conversion,
            AccountHistoryDetails::Unrecognized { .. } => AccountHistoryType::NotSet,
        }
    }
}

/// The direction of a transfer that a ledger entry records.
#[derive(Clone, Copy, Debug, PartialEq, Eq, Structural)]
pub enum AccountHistoryDetailsTransferType {
    Deposit,
    Withdraw,
}

impl Token for AccountHistoryDetailsTransferType {
    open spec fn of_token(text: Seq<char>) -> Option<AccountHistoryDetailsTransferType> {
        if same_name(text, "deposit"@) {
            Some(AccountHistoryDetailsTransferType::Deposit)
        } else if same_name(text, "withdraw"@) {
            Some(AccountHistoryDetailsTransferType::Withdraw)
        } else {
            None
        }
    }

    open spec fn token_of(self) -> Seq<char> {
        match self {
            AccountHistoryDetailsTransferType::Deposit => "deposit"@,
            AccountHistoryDetailsTransferType::Withdraw => "withdraw"@,
        }
    }

    fn from_token(text: &str) -> (r: Option<AccountHistoryDetailsTransferType>) {
        if str_eq(text, "deposit") {
            Some(AccountHistoryDetailsTransferType::Deposit)
        } else if str_eq(text, "withdraw") {
            Some(AccountHistoryDetailsTransferType::Withdraw)
        } else {
            None
        }
    }

    fn token(&self) -> (text: &'static str) {
        broadcast use lemma_same_name;

        proof {
            reveal_strlit("deposit");
            reveal_strlit("withdraw");
            lemma_initials("deposit"@);
            lemma_initials("withdraw"@);
        }
        match self {
            AccountHistoryDetailsTransferType::Deposit => "deposit",
            AccountHistoryDetailsTransferType::Withdraw => "withdraw",
        }
    }
}

/// Why a ledger entry was made. The exchange may add reasons: an entry with
/// a tag that is not known here is kept as it came, under `Unrecognized`.
#[non_exhaustive]
#[derive(Debug)]
pub enum AccountHistoryDetails {
    Fee { order_id: Uuid, product_id: String, trade_id: usize },
    Match { order_id: Uuid, product_id: String, trade_id: usize },
    Rebate { order_id: Uuid, product_id: String, trade_id: usize },
    Transfer { transfer_id: Uuid, transfer_type: AccountHistoryDetailsTransferType },
    Conversion { conversion_id: Uuid },
    Unrecognized { tag: String, payload: Value },
}

/// What [`AccountHistoryDetails`] holds, as mathematical values.
pub enum AccountHistoryDetailsView {
    Fee { order_id: Uuid, product_id: Seq<char>, trade_id: usize },
    Match { order_id: Uuid, product_id: Seq<char>, trade_id: usize },
    Rebate { order_id: Uuid, product_id: Seq<char>, trade_id: usize },
    Transfer { transfer_id: Uuid, transfer_type: AccountHistoryDetailsTransferType },
    Conversion { conversion_id: Uuid },
    Unrecognized { tag: Seq<char>, payload: ValueView },
}

impl View for AccountHistoryDetails {
    type V = AccountHistoryDetailsView;

    open spec fn view(&self) -> AccountHistoryDetailsView {
        match self {
            AccountHistoryDetails::Fee {
                order_id,
                product_id,
                trade_id,
            } => AccountHistoryDetailsView::Fee {
                order_id: *order_id,
                product_id: product_id@,
                trade_id: *trade_id,
            },
            AccountHistoryDetails::Match {
                order_id,
                product_id,
                trade_id,
            } => AccountHistoryDetailsView::Match {
                order_id: *order_id,
                product_id: product_id@,
                trade_id: *trade_id,
            },
            AccountHistoryDetails::Rebate {
                order_id,
                product_id,
                trade_id,
            } => AccountHistoryDetailsView::Rebate {
                order_id: *order_id,
                product_id: product_id@,
                trade_id: *trade_id,
            },
            AccountHistoryDetails::Transfer {
                transfer_id,
                transfer_type,
            } => AccountHistoryDetailsView::Transfer {
                transfer_id: *transfer_id,
                transfer_type: *transfer_type,
            },
            AccountHistoryDetails::Conversion {
                conversion_id,
            } => AccountHistoryDetailsView::Conversion { conversion_id: *conversion_id },
            AccountHistoryDetails::Unrecognized {
                tag,
                payload,
            } => AccountHistoryDetailsView::Unrecognized { tag: tag@, payload: payload@ },
        }
    }
}

/// The reference to a trade that fee, match and rebate entries carry.
pub struct TradeRef {
    pub order_id: Uuid,
    pub product_id: Seq<char>,
    pub trade_id: usize,
}

impl AccountHistoryDetailsView {
    /// The category that the details put their ledger entry in.
    pub open spec fn category(self) -> AccountHistoryType {
        match self {
            AccountHistoryDetailsView::Fee { .. } => AccountHistoryType::Fee,
            AccountHistoryDetailsView::Match { .. } => AccountHistoryType::Match,
            AccountHistoryDetailsView::Rebate { .. } => AccountHistoryType::Rebate,
            AccountHistoryDetailsView::Transfer { .. } => AccountHistoryType::Transfer,
            AccountHistoryDetailsView::Conversion { .. } => AccountHistoryType::Conversion,
            AccountHistoryDetailsView::Unrecognized { .. } => AccountHistoryType::NotSet,
        }
    }

    /// The tag that the details are sent under.
    pub open spec fn tag(self) -> Seq<char> {
        match self {
            AccountHistoryDetailsView::Fee { .. } => "fee"@,
            AccountHistoryDetailsView::Match { .. } => "match"@,
            AccountHistoryDetailsView::Rebate { .. } => "rebate"@,
            AccountHistoryDetailsView::Transfer { .. } => "transfer"@,
            AccountHistoryDetailsView::Conversion { .. } => "conversion"@,
            AccountHistoryDetailsView::Unrecognized { tag, .. } => tag,
        }
    }

    /// Unrecognized details carry a tag that is indeed not known.
    pub open spec fn well_tagged(self) -> bool {
        self matches AccountHistoryDetailsView::Unrecognized { tag, .. }
            ==> !AccountHistoryDetails::known_tag(tag)
    }

    /// The payload that the details are sent as.
    pub open spec fn payload(self) -> ValueView {
        match self {
            AccountHistoryDetailsView::Fee {
                order_id,
                product_id,
                trade_id,
            } => AccountHistoryDetails::trade_payload(TradeRef { order_id, product_id, trade_id }),
            AccountHistoryDetailsView::Match {
                order_id,
                product_id,
                trade_id,
            } => AccountHistoryDetails::trade_payload(TradeRef { order_id, product_id, trade_id }),
            AccountHistoryDetailsView::Rebate {
                order_id,
                product_id,
                trade_id,
            } => AccountHistoryDetails::trade_payload(TradeRef { order_id, product_id, trade_id }),
            AccountHistoryDetailsView::Transfer { transfer_id, transfer_type } => ValueView::Object(
                AccountHistoryDetails::assemble_transfer(
                    uuid_value(transfer_id),
                    token_value(transfer_type),
                ),
            ),
            AccountHistoryDetailsView::Conversion { conversion_id } => ValueView::Object(
                Fields::empty().push(("conversion_id"@, uuid_value(conversion_id))),
            ),
            AccountHistoryDetailsView::Unrecognized { payload, .. } => payload,
        }
    }
}

impl AccountHistoryDetails {
    /// Whether a tag names one of the variants known here.
    pub open spec fn known_tag(tag: Seq<char>) -> bool {
        same_name(tag, "fee"@) || same_name(tag, "match"@) || same_name(tag, "rebate"@)
            || same_name(tag, "transfer"@) || same_name(tag, "conversion"@)
    }

    /// The fields of a trade reference in wire order, given how each is written.
    pub open spec fn assemble_trade(
        order_id: ValueView,
        product_id: ValueView,
        trade_id: ValueView,
    ) -> Fields {
        let o = Fields::empty();
        let o = o.push(("order_id"@, order_id));
        let o = o.push(("product_id"@, product_id));
        let o = o.push(("trade_id"@, trade_id));
        o
    }

    /// Among the assembled fields each name finds its own value.
    pub proof fn lemma_assembled_trade(
        order_id: ValueView,
        product_id: ValueView,
        trade_id: ValueView,
    )
        ensures
            ({
                let o = Self::assemble_trade(order_id, product_id, trade_id);
                &&& field(o, "order_id"@) == Some(order_id)
                &&& field(o, "product_id"@) == Some(product_id)
                &&& field(o, "trade_id"@) == Some(trade_id)
            }),
    {
        broadcast use {
            lemma_field_push,
            lemma_field_empty,
            lemma_field_with_opt,
            lemma_same_name,
        };

        reveal_strlit("order_id");
        reveal_strlit("product_id");
        reveal_strlit("trade_id");
        lemma_initials("order_id"@);
        lemma_initials("product_id"@);
        lemma_initials("trade_id"@);
    }

    /// The fields of a transfer reference in wire order, given how each is written.
    pub open spec fn assemble_transfer(
        transfer_id: ValueView,
        transfer_type: ValueView,
    ) -> Fields {
        let o = Fields::empty();
        let o = o.push(("transfer_id"@, transfer_id));
        let o = o.push(("transfer_type"@, transfer_type));
        o
    }

    /// Among the assembled fields each name finds its own value.
    pub proof fn lemma_assembled_transfer(
        transfer_id: ValueView,
        transfer_type: ValueView,
    )
        ensures
            ({
                let o = Self::assemble_transfer(transfer_id, transfer_type);
                &&& field(o, "transfer_id"@) == Some(transfer_id)
                &&& field(o, "transfer_type"@) == Some(transfer_type)
            }),
    {
        broadcast use {
            lemma_field_push,
            lemma_field_empty,
            lemma_field_with_opt,
            lemma_same_name,
        };

        reveal_strlit("transfer_id");
        reveal_strlit("transfer_type");
        lemma_initials("transfer_id"@);
        lemma_initials("transfer_type"@);
    }

    /// The payload of a trade reference.
    pub open spec fn trade_payload(t: TradeRef) -> ValueView {
        ValueView::Object(
            Self::assemble_trade(
                uuid_value(t.order_id),
                ValueView::Text(t.product_id),
                count_text_value(t.trade_id),
            ),
        )
    }

    /// The trade reference that the fields of a payload denote.
    pub open spec fn trade_spec(d: Fields) -> Result<TradeRef, DecodeErrorView> {
        if uuid_at(d, "order_id"@) is Err {
            Err(uuid_at(d, "order_id"@)->Err_0)
        } else if text_at(d, "product_id"@) is Err {
            Err(text_at(d, "product_id"@)->Err_0)
        } else if count_text_at(d, "trade_id"@) is Err {
            Err(count_text_at(d, "trade_id"@)->Err_0)
        } else {
            Ok(
                TradeRef {
                    order_id: uuid_at(d, "order_id"@)->Ok_0,
                    product_id: text_at(d, "product_id"@)->Ok_0,
                    trade_id: count_text_at(d, "trade_id"@)->Ok_0,
                },
            )
        }
    }

    /// The details with a known tag that the fields of a payload denote.
    pub open spec fn known_spec(tag: Seq<char>, d: Fields) -> Result<
        AccountHistoryDetailsView,
        DecodeErrorView,
    > {
        if same_name(tag, "fee"@) {
            match Self::trade_spec(d) {
                Ok(t) => Ok(
                    AccountHistoryDetailsView::Fee {
                        order_id: t.order_id,
                        product_id: t.product_id,
                        trade_id: t.trade_id,
                    },
                ),
                Err(e) => Err(e),
            }
        } else if same_name(tag, "match"@) {
            match Self::trade_spec(d) {
                Ok(t) => Ok(
                    AccountHistoryDetailsView::Match {
                        order_id: t.order_id,
                        product_id: t.product_id,
                        trade_id: t.trade_id,
                    },
                ),
                Err(e) => Err(e),
            }
        } else if same_name(tag, "rebate"@) {
            match Self::trade_spec(d) {
                Ok(t) => Ok(
                    AccountHistoryDetailsView::Rebate {
                        order_id: t.order_id,
                        product_id: t.product_id,
                        trade_id: t.trade_id,
                    },
                ),
                Err(e) => Err(e),
            }
        } else if same_name(tag, "transfer"@) {
            match uuid_at(d, "transfer_id"@) {
                Err(e) => Err(e),
                Ok(transfer_id) => match token_at::<AccountHistoryDetailsTransferType>(
                    d,
                    "transfer_type"@,
                ) {
                    Err(e) => Err(e),
                    Ok(transfer_type) => Ok(
                        AccountHistoryDetailsView::Transfer { transfer_id, transfer_type },
                    ),
                },
            }
        } else {
            match uuid_at(d, "conversion_id"@) {
                Err(e) => Err(e),
                Ok(conversion_id) => Ok(AccountHistoryDetailsView::Conversion { conversion_id }),
            }
        }
    }

    /// The details that a tag and what was found under `details` denote. A
    /// known tag demands a payload object of its own shape. An unknown tag
    /// fails nothing: tag and payload are kept as they came, with null for a
    /// payload that is absent.
    pub open spec fn from_parts(tag: Seq<char>, found: Option<ValueView>) -> Result<
        AccountHistoryDetailsView,
        DecodeErrorView,
    > {
        if !Self::known_tag(tag) {
            Ok(
                AccountHistoryDetailsView::Unrecognized {
                    tag,
                    payload: match found {
                        Some(v) => v,
                        None => ValueView::Null,
                    },
                },
            )
        } else {
            match found {
                None => Err(DecodeErrorView::MissingField("details"@)),
                Some(v) => match object_of(v, "details"@) {
                    Err(e) => Err(e),
                    Ok(d) => Self::known_spec(tag, d),
                },
            }
        }
    }

    /// The details among the fields of a ledger entry: the tag `type` and
    /// the payload `details`.
    pub open spec fn fields_spec(o: Fields) -> Result<AccountHistoryDetailsView, DecodeErrorView> {
        match text_at(o, "type"@) {
            Err(e) => Err(e),
            Ok(tag) => Self::from_parts(tag, field(o, "details"@)),
        }
    }

    /// The resolver agrees with the tags: details with a known tag fall in
    /// the category of that tag, and unrecognized details in `NotSet`.
    pub proof fn lemma_category_matches_tag(d: AccountHistoryDetailsView)
        ensures
            d is Unrecognized <==> d.category() == AccountHistoryType::NotSet,
            !(d is Unrecognized) ==> d.category().tag_of() == Some(d.tag()),
    {
    }

    fn decode_trade(d: &Vec<(String, Value)>) -> (r: Result<(Uuid, String, usize), DecodeError>)
        ensures
            match r {
                Ok(t) => Self::trade_spec(fields_view(d@)) == Ok::<TradeRef, DecodeErrorView>(
                    TradeRef { order_id: t.0, product_id: t.1@, trade_id: t.2 },
                ),
                Err(e) => Self::trade_spec(fields_view(d@)) == Err::<TradeRef, DecodeErrorView>(e@),
            },
    {
        let order_id = uuid_field(d, "order_id")?;
        let product_id = text_field(d, "product_id")?;
        let trade_id = count_text_field(d, "trade_id")?;
        Ok((order_id, product_id, trade_id))
    }

    /// Decodes details from their tag and from what stands under `details`.
    pub fn decode_parts(tag: String, found: Option<&Value>) -> (r: Result<
        AccountHistoryDetails,
        DecodeError,
    >)
        ensures
            decoded(r) == Self::from_parts(tag@, opt_view(found)),
    {
        let t = tag.as_str();
        let fee = str_eq(t, "fee");
        let matched = str_eq(t, "match");
        let rebate = str_eq(t, "rebate");
        let transfer = str_eq(t, "transfer");
        let conversion = str_eq(t, "conversion");
        if !(fee || matched || rebate || transfer || conversion) {
            let payload = match found {
                Some(v) => v.duplicate(),
                None => Value::Null,
            };
            return Ok(AccountHistoryDetails::Unrecognized { tag, payload });
        }
        let d = match found {
            Some(v) => as_object(v, "details")?,
            None => {
                return Err(DecodeError::missing("details"));
            },
        };
        if fee {
            let (order_id, product_id, trade_id) = Self::decode_trade(d)?;
            Ok(AccountHistoryDetails::Fee { order_id, product_id, trade_id })
        } else if matched {
            let (order_id, product_id, trade_id) = Self::decode_trade(d)?;
            Ok(AccountHistoryDetails::Match { order_id, product_id, trade_id })
        } else if rebate {
            let (order_id, product_id, trade_id) = Self::decode_trade(d)?;
            Ok(AccountHistoryDetails::Rebate { order_id, product_id, trade_id })
        } else if transfer {
            let transfer_id = uuid_field(d, "transfer_id")?;
            let transfer_type = token_field::<AccountHistoryDetailsTransferType>(
                d,
                "transfer_type",
            )?;
            Ok(AccountHistoryDetails::Transfer { transfer_id, transfer_type })
        } else {
            let conversion_id = uuid_field(d, "conversion_id")?;
            Ok(AccountHistoryDetails::Conversion { conversion_id })
        }
    }

    /// Decodes the details from the fields of a ledger entry.
    pub fn decode_fields(o: &Vec<(String, Value)>) -> (r: Result<
        AccountHistoryDetails,
        DecodeError,
    >)
        ensures
            decoded(r) == Self::fields_spec(fields_view(o@)),
    {
        let tag = text_field(o, "type")?;
        Self::decode_parts(tag, find(o, "details"))
    }

    /// The tag that the details are sent under.
    pub fn tag(&self) -> (tag: String)
        ensures
            tag@ == self@.tag(),
    {
        match self {
            AccountHistoryDetails::Fee { .. } => "fee".to_owned(),
            AccountHistoryDetails::Match { .. } => "match".to_owned(),
            AccountHistoryDetails::Rebate { .. } => "rebate".to_owned(),
            AccountHistoryDetails::Transfer { .. } => "transfer".to_owned(),
            AccountHistoryDetails::Conversion { .. } => "conversion".to_owned(),
            AccountHistoryDetails::Unrecognized { tag, .. } => tag.clone(),
        }
    }

    fn write_trade(order_id: Uuid, product_id: &String, trade_id: usize) -> (value: Value)
        ensures
            value@ == Self::trade_payload(
                TradeRef { order_id, product_id: product_id@, trade_id },
            ),
            value@ matches ValueView::Object(d) && Self::trade_spec(d) == Ok::<
                TradeRef,
                DecodeErrorView,
            >(TradeRef { order_id, product_id: product_id@, trade_id }),
    {
        broadcast use lemma_object_view;

        let mut d = no_fields();
        put_uuid(&mut d, "order_id", order_id);
        put_text(&mut d, "product_id", product_id);
        put_count_text(&mut d, "trade_id", trade_id);
        proof {
            Self::lemma_assembled_trade(
                uuid_value(order_id),
                ValueView::Text(product_id@),
                count_text_value(trade_id),
            );
        }
        Value::Object(d)
    }

    /// The payload that the details are sent as. Together with the tag it
    /// decodes back to the details, if they are well tagged.
    pub fn payload(&self) -> (value: Value)
        ensures
            value@ == self@.payload(),
            self@.well_tagged() ==> Self::from_parts(self@.tag(), Some(value@)) == Ok::<
                AccountHistoryDetailsView,
                DecodeErrorView,
            >(self@),
    {
        broadcast use {lemma_object_view, lemma_same_name, lemma_field_push, lemma_field_empty};

        proof {
            reveal_strlit("fee");
            reveal_strlit("match");
            reveal_strlit("rebate");
            reveal_strlit("transfer");
            reveal_strlit("conversion");
            lemma_initials("fee"@);
            lemma_initials("match"@);
            lemma_initials("rebate"@);
            lemma_initials("transfer"@);
            lemma_initials("conversion"@);
        }
        match self {
            AccountHistoryDetails::Fee { order_id, product_id, trade_id } => Self::write_trade(
                *order_id,
                product_id,
                *trade_id,
            ),
            AccountHistoryDetails::Match { order_id, product_id, trade_id } => Self::write_trade(
                *order_id,
                product_id,
                *trade_id,
            ),
            AccountHistoryDetails::Rebate { order_id, product_id, trade_id } => Self::write_trade(
                *order_id,
                product_id,
                *trade_id,
            ),
            AccountHistoryDetails::Transfer { transfer_id, transfer_type } => {
                let mut d = no_fields();
                put_uuid(&mut d, "transfer_id", *transfer_id);
                put_token(&mut d, "transfer_type", *transfer_type);
                proof {
                    Self::lemma_assembled_transfer(
                        uuid_value(*transfer_id),
                        token_value(*transfer_type),
                    );
                }
                Value::Object(d)
            },
            AccountHistoryDetails::Conversion { conversion_id } => {
                let mut d = no_fields();
                put_uuid(&mut d, "conversion_id", *conversion_id);
                Value::Object(d)
            },
            AccountHistoryDetails::Unrecognized { payload, .. } => payload.duplicate(),
        }
    }
}

/// One line of an account's ledger.
#[derive(Debug)]
pub struct AccountHistory {
    pub id: usize,
    pub created_at: Instant,
    pub amount: Decimal,
    pub balance: Decimal,
    /// The category of the entry, which follows from `details`.
    pub _type: AccountHistoryType,
    pub details: AccountHistoryDetails,
}

/// What [`AccountHistory`] holds, as mathematical values.
pub struct AccountHistoryView {
    pub id: usize,
    pub created_at: InstantView,
    pub amount: DecimalView,
    pub balance: DecimalView,
    pub _type: AccountHistoryType,
    pub details: AccountHistoryDetailsView,
}

impl View for AccountHistory {
    type V = AccountHistoryView;

    open spec fn view(&self) -> AccountHistoryView {
        AccountHistoryView {
            id: self.id,
            created_at: self.created_at@,
            amount: self.amount@,
            balance: self.balance@,
            _type: self._type,
            details: self.details@,
        }
    }
}

impl AccountHistoryView {
    /// The category is that of the details, and the details are well
    /// tagged.
    pub open spec fn consistent(self) -> bool {
        self._type == self.details.category() && self.details.well_tagged()
    }
}

impl AccountHistory {
    /// The ledger entry that an object's fields denote: the first error met
    /// in the order of the fields below, or else the record of their values,
    /// with the category that the details put the entry in.
    pub open spec fn fields_spec(o: Fields) -> Result<AccountHistoryView, DecodeErrorView> {
        if count_text_at(o, "id"@) is Err {
            Err(count_text_at(o, "id"@)->Err_0)
        } else if instant_at(o, "created_at"@) is Err {
            Err(instant_at(o, "created_at"@)->Err_0)
        } else if decimal_at(o, "amount"@) is Err {
            Err(decimal_at(o, "amount"@)->Err_0)
        } else if decimal_at(o, "balance"@) is Err {
            Err(decimal_at(o, "balance"@)->Err_0)
        } else if AccountHistoryDetails::fields_spec(o) is Err {
            Err(AccountHistoryDetails::fields_spec(o)->Err_0)
        } else {
            Ok(
                AccountHistoryView {
                    id: count_text_at(o, "id"@)->Ok_0,
                    created_at: instant_at(o, "created_at"@)->Ok_0,
                    amount: decimal_at(o, "amount"@)->Ok_0,
                    balance: decimal_at(o, "balance"@)->Ok_0,
                    _type: AccountHistoryDetails::fields_spec(o)->Ok_0.category(),
                    details: AccountHistoryDetails::fields_spec(o)->Ok_0,
                },
            )
        }
    }

    /// The ledger entry that a payload denotes.
    pub open spec fn decode_spec(v: ValueView) -> Result<AccountHistoryView, DecodeErrorView> {
        match object_of(v, "account_history"@) {
            Ok(o) => Self::fields_spec(o),
            Err(e) => Err(e),
        }
    }

    /// The fields of a ledger entry in wire order, given how each is written.
    pub open spec fn assemble(
        id: ValueView,
        created_at: ValueView,
        amount: ValueView,
        balance: ValueView,
        kind: ValueView,
        details: ValueView,
    ) -> Fields {
        let o = Fields::empty();
        let o = o.push(("id"@, id));
        let o = o.push(("created_at"@, created_at));
        let o = o.push(("amount"@, amount));
        let o = o.push(("balance"@, balance));
        let o = o.push(("type"@, kind));
        let o = o.push(("details"@, details));
        o
    }

    /// Among the assembled fields each name finds its own value.
    pub proof fn lemma_assembled(
        id: ValueView,
        created_at: ValueView,
        amount: ValueView,
        balance: ValueView,
        kind: ValueView,
        details: ValueView,
    )
        ensures
            ({
                let o = Self::assemble(id, created_at, amount, balance, kind, details);
                &&& field(o, "id"@) == Some(id)
                &&& field(o, "created_at"@) == Some(created_at)
                &&& field(o, "amount"@) == Some(amount)
                &&& field(o, "balance"@) == Some(balance)
                &&& field(o, "type"@) == Some(kind)
                &&& field(o, "details"@) == Some(details)
            }),
    {
        broadcast use {
            lemma_field_push,
            lemma_field_empty,
            lemma_field_with_opt,
            lemma_same_name,
        };

        reveal_strlit("id");
        reveal_strlit("created_at");
        reveal_strlit("amount");
        reveal_strlit("balance");
        reveal_strlit("type");
        reveal_strlit("details");
        lemma_initials("id"@);
        lemma_initials("created_at"@);
        lemma_initials("amount"@);
        lemma_initials("balance"@);
        lemma_initials("type"@);
        lemma_initials("details"@);
    }

    /// The fields that the ledger entry is written as. The category is not
    /// among them.
    pub open spec fn encoded_fields(a: AccountHistoryView) -> Fields {
        Self::assemble(
            count_text_value(a.id),
            instant_value(a.created_at),
            decimal_value(a.amount),
            decimal_value(a.balance),
            ValueView::Text(a.details.tag()),
            a.details.payload(),
        )
    }

    /// The payload that the ledger entry is written as.
    pub open spec fn encode_spec(a: AccountHistoryView) -> ValueView {
        ValueView::Object(Self::encoded_fields(a))
    }

    /// In every decoded ledger entry the category is that of the details,
    /// though the two stand in different fields.
    pub proof fn lemma_decoded_is_consistent(v: ValueView)
        ensures
            Self::decode_spec(v) matches Ok(a) ==> a.consistent(),
    {
    }

    /// Decodes a ledger entry from its payload.
    pub fn decode(value: &Value) -> (r: Result<AccountHistory, DecodeError>)
        ensures
            decoded(r) == Self::decode_spec(value@),
    {
        let o = as_object(value, "account_history")?;
        let id = count_text_field(o, "id")?;
        let created_at = instant_field(o, "created_at")?;
        let amount = decimal_field(o, "amount")?;
        let balance = decimal_field(o, "balance")?;
        let details = AccountHistoryDetails::decode_fields(o)?;
        let _type = AccountHistoryType::from(&details);
        Ok(AccountHistory { id, created_at, amount, balance, _type, details })
    }

    /// Writes the ledger entry as a payload. A consistent entry decodes back
    /// from it.
    pub fn encode(&self) -> (value: Value)
        ensures
            value@ == Self::encode_spec(self@),
            self@.consistent() ==> Self::decode_spec(value@) == Ok::<
                AccountHistoryView,
                DecodeErrorView,
            >(self@),
    {
        broadcast use lemma_object_view;

        let mut o = no_fields();
        put_count_text(&mut o, "id", self.id);
        put_instant(&mut o, "created_at", self.created_at);
        put_decimal(&mut o, "amount", self.amount);
        put_decimal(&mut o, "balance", self.balance);
        put_text(&mut o, "type", &self.details.tag());
        put(&mut o, "details", self.details.payload());
        proof {
            Self::lemma_assembled(
                count_text_value(self@.id),
                instant_value(self@.created_at),
                decimal_value(self@.amount),
                decimal_value(self@.balance),
                ValueView::Text(self@.details.tag()),
                self@.details.payload(),
            );
        }
        Value::Object(o)
    }
}

} // verus!
