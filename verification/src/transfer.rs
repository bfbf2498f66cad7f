//! Transfers of funds, trailing volume and fee rates.
use crate::codec::{
    as_object, decimal_at, decimal_field, decimal_value, Fields, get, instant_at, instant_field,
    instant_value, lemma_field_with_opt, need, object_of, offset_instant_at, offset_instant_field,
    opt_decimal_at, opt_decimal_field, opt_decimal_value, opt_instant_value, opt_offset_instant_at,
    opt_offset_instant_field, opt_text_at, opt_text_field, opt_text_value, opt_view, present,
    put_decimal, put_instant, put_opt_decimal, put_opt_instant, put_opt_text, put_text, put_token,
    put_uuid, text_at, text_field, Token, token_at, token_field, token_value, uuid_at, uuid_field,
    uuid_value, with_opt,
};
use crate::decimal::{Decimal, DecimalView};
use crate::error::{decoded, DecodeError, DecodeErrorView};
use crate::ident::{Uuid};
use crate::instant::{Instant, InstantView};
use crate::text::{str_eq};
use crate::value::{
    field, fields_view, lemma_field_empty, lemma_field_push, lemma_initials, lemma_object_view,
    lemma_same_name, no_fields, put, same_name, Value, ValueView,
};
use vstd::prelude::*;

verus! {

/// The direction and rail of a transfer.
#[derive(Clone, Copy, Debug, PartialEq, Eq, Structural)]
pub enum TransferType {
    Deposit,
    Withdraw,
    InternalDeposit,
    InternalWithdraw,
}

impl Token for TransferType {
    open spec fn of_token(text: Seq<char>) -> Option<TransferType> {
        if same_name(text, "deposit"@) {
            Some(TransferType::Deposit)
        } else if same_name(text, "withdraw"@) {
            Some(TransferType::Withdraw)
        } else if same_name(text, "internal_deposit"@) {
            Some(TransferType::InternalDeposit)
        } else if same_name(text, "internal_withdraw"@) {
            Some(TransferType::InternalWithdraw)
        } else {
            None
        }
    }

    open spec fn token_of(self) -> Seq<char> {
        match self {
            TransferType::Deposit => "deposit"@,
            TransferType::Withdraw => "withdraw"@,
            TransferType::InternalDeposit => "internal_deposit"@,
            TransferType::InternalWithdraw => "internal_withdraw"@,
        }
    }

    fn from_token(text: &str) -> (r: Option<TransferType>) {
        if str_eq(text, "deposit") {
            Some(TransferType::Deposit)
        } else if str_eq(text, "withdraw") {
            Some(TransferType::Withdraw)
        } else if str_eq(text, "internal_deposit") {
            Some(TransferType::InternalDeposit)
        } else if str_eq(text, "internal_withdraw") {
            Some(TransferType::InternalWithdraw)
        } else {
            None
        }
    }

    fn token(&self) -> (text: &'static str) {
        broadcast use lemma_same_name;

        proof {
            reveal_strlit("deposit");
            reveal_strlit("withdraw");
            reveal_strlit("internal_deposit");
            reveal_strlit("internal_withdraw");
            lemma_initials("deposit"@);
            lemma_initials("withdraw"@);
            lemma_initials("internal_deposit"@);
            lemma_initials("internal_withdraw"@);
        }
        match self {
            TransferType::Deposit => "deposit",
            TransferType::Withdraw => "withdraw",
            TransferType::InternalDeposit => "internal_deposit",
            TransferType::InternalWithdraw => "internal_withdraw",
        }
    }
}

impl TransferType {
    /// The wire token of the transfer type.
    pub fn to_string(&self) -> (text: String)
        ensures
            text@ == self.token_of(),
    {
        self.token().to_owned()
    }
}

/// What the exchange tells about a transfer's rail. Which fields are present
/// depends on the rail; none is required and none excludes another.
#[derive(Clone, Debug, PartialEq)]
pub struct TransferDetails {
    pub destination_tag: Option<String>,
    pub sent_to_address: Option<String>,
    pub coinbase_account_id: Option<String>,
    pub destination_tag_name: Option<String>,
    pub coinbase_withdrawal_id: Option<String>,
    pub coinbase_transaction_id: Option<String>,
    pub crypto_transaction_hash: Option<String>,
    pub coinbase_payment_method_id: Option<String>,
    pub fee: Option<Decimal>,
    pub subtotal: Option<Decimal>,
    pub crypto_address: Option<String>,
    pub crypto_transaction_id: Option<String>,
}

/// What [`TransferDetails`] holds, as mathematical values.
pub struct TransferDetailsView {
    pub destination_tag: Option<Seq<char>>,
    pub sent_to_address: Option<Seq<char>>,
    pub coinbase_account_id: Option<Seq<char>>,
    pub destination_tag_name: Option<Seq<char>>,
    pub coinbase_withdrawal_id: Option<Seq<char>>,
    pub coinbase_transaction_id: Option<Seq<char>>,
    pub crypto_transaction_hash: Option<Seq<char>>,
    pub coinbase_payment_method_id: Option<Seq<char>>,
    pub fee: Option<DecimalView>,
    pub subtotal: Option<DecimalView>,
    pub crypto_address: Option<Seq<char>>,
    pub crypto_transaction_id: Option<Seq<char>>,
}

impl View for TransferDetails {
    type V = TransferDetailsView;

    open spec fn view(&self) -> TransferDetailsView {
        TransferDetailsView {
            destination_tag: opt_view(self.destination_tag),
            sent_to_address: opt_view(self.sent_to_address),
            coinbase_account_id: opt_view(self.coinbase_account_id),
            destination_tag_name: opt_view(self.destination_tag_name),
            coinbase_withdrawal_id: opt_view(self.coinbase_withdrawal_id),
            coinbase_transaction_id: opt_view(self.coinbase_transaction_id),
            crypto_transaction_hash: opt_view(self.crypto_transaction_hash),
            coinbase_payment_method_id: opt_view(self.coinbase_payment_method_id),
            fee: opt_view(self.fee),
            subtotal: opt_view(self.subtotal),
            crypto_address: opt_view(self.crypto_address),
            crypto_transaction_id: opt_view(self.crypto_transaction_id),
        }
    }
}

impl TransferDetails {
    /// The details record that an object's fields denote: the first error met in the
    /// order of the fields below, or else the record of their values.
    pub open spec fn fields_spec(o: Fields) -> Result<TransferDetailsView, DecodeErrorView> {
        if opt_text_at(o, "destination_tag"@) is Err {
            Err(opt_text_at(o, "destination_tag"@)->Err_0)
        } else if opt_text_at(o, "sent_to_address"@) is Err {
            Err(opt_text_at(o, "sent_to_address"@)->Err_0)
        } else if opt_text_at(o, "coinbase_account_id"@) is Err {
            Err(opt_text_at(o, "coinbase_account_id"@)->Err_0)
        } else if opt_text_at(o, "destination_tag_name"@) is Err {
            Err(opt_text_at(o, "destination_tag_name"@)->Err_0)
        } else if opt_text_at(o, "coinbase_withdrawal_id"@) is Err {
            Err(opt_text_at(o, "coinbase_withdrawal_id"@)->Err_0)
        } else if opt_text_at(o, "coinbase_transaction_id"@) is Err {
            Err(opt_text_at(o, "coinbase_transaction_id"@)->Err_0)
        } else if opt_text_at(o, "crypto_transaction_hash"@) is Err {
            Err(opt_text_at(o, "crypto_transaction_hash"@)->Err_0)
        } else if opt_text_at(o, "coinbase_payment_method_id"@) is Err {
            Err(opt_text_at(o, "coinbase_payment_method_id"@)->Err_0)
        } else if opt_decimal_at(o, "fee"@) is Err {
            Err(opt_decimal_at(o, "fee"@)->Err_0)
        } else if opt_decimal_at(o, "subtotal"@) is Err {
            Err(opt_decimal_at(o, "subtotal"@)->Err_0)
        } else if opt_text_at(o, "crypto_address"@) is Err {
            Err(opt_text_at(o, "crypto_address"@)->Err_0)
        } else if opt_text_at(o, "crypto_transaction_id"@) is Err {
            Err(opt_text_at(o, "crypto_transaction_id"@)->Err_0)
        } else {
            Ok(
                TransferDetailsView {
                    destination_tag: opt_text_at(o, "destination_tag"@)->Ok_0,
                    sent_to_address: opt_text_at(o, "sent_to_address"@)->Ok_0,
                    coinbase_account_id: opt_text_at(o, "coinbase_account_id"@)->Ok_0,
                    destination_tag_name: opt_text_at(o, "destination_tag_name"@)->Ok_0,
                    coinbase_withdrawal_id: opt_text_at(o, "coinbase_withdrawal_id"@)->Ok_0,
                    coinbase_transaction_id: opt_text_at(o, "coinbase_transaction_id"@)->Ok_0,
                    crypto_transaction_hash: opt_text_at(o, "crypto_transaction_hash"@)->Ok_0,
                    coinbase_payment_method_id: opt_text_at(o, "coinbase_payment_method_id"@)->Ok_0,
                    fee: opt_decimal_at(o, "fee"@)->Ok_0,
                    subtotal: opt_decimal_at(o, "subtotal"@)->Ok_0,
                    crypto_address: opt_text_at(o, "crypto_address"@)->Ok_0,
                    crypto_transaction_id: opt_text_at(o, "crypto_transaction_id"@)->Ok_0,
                },
            )
        }
    }

    /// The details record that a payload denotes.
    pub open spec fn decode_spec(v: ValueView) -> Result<TransferDetailsView, DecodeErrorView> {
        match object_of(v, "transfer_details"@) {
            Ok(o) => Self::fields_spec(o),
            Err(e) => Err(e),
        }
    }

    /// The fields of a details record in wire order, given how each is written.
    pub open spec fn assemble(
        destination_tag: Option<ValueView>,
        sent_to_address: Option<ValueView>,
        coinbase_account_id: Option<ValueView>,
        destination_tag_name: Option<ValueView>,
        coinbase_withdrawal_id: Option<ValueView>,
        coinbase_transaction_id: Option<ValueView>,
        crypto_transaction_hash: Option<ValueView>,
        coinbase_payment_method_id: Option<ValueView>,
        fee: Option<ValueView>,
        subtotal: Option<ValueView>,
        crypto_address: Option<ValueView>,
        crypto_transaction_id: Option<ValueView>,
    ) -> Fields {
        let o = Fields::empty();
        let o = with_opt(o, "destination_tag"@, destination_tag);
        let o = with_opt(o, "sent_to_address"@, sent_to_address);
        let o = with_opt(o, "coinbase_account_id"@, coinbase_account_id);
        let o = with_opt(o, "destination_tag_name"@, destination_tag_name);
        let o = with_opt(o, "coinbase_withdrawal_id"@, coinbase_withdrawal_id);
        let o = with_opt(o, "coinbase_transaction_id"@, coinbase_transaction_id);
        let o = with_opt(o, "crypto_transaction_hash"@, crypto_transaction_hash);
        let o = with_opt(o, "coinbase_payment_method_id"@, coinbase_payment_method_id);
        let o = with_opt(o, "fee"@, fee);
        let o = with_opt(o, "subtotal"@, subtotal);
        let o = with_opt(o, "crypto_address"@, crypto_address);
        let o = with_opt(o, "crypto_transaction_id"@, crypto_transaction_id);
        o
    }

    /// Among the assembled fields each name finds its own value.
    pub proof fn lemma_assembled(
        destination_tag: Option<ValueView>,
        sent_to_address: Option<ValueView>,
        coinbase_account_id: Option<ValueView>,
        destination_tag_name: Option<ValueView>,
        coinbase_withdrawal_id: Option<ValueView>,
        coinbase_transaction_id: Option<ValueView>,
        crypto_transaction_hash: Option<ValueView>,
        coinbase_payment_method_id: Option<ValueView>,
        fee: Option<ValueView>,
        subtotal: Option<ValueView>,
        crypto_address: Option<ValueView>,
        crypto_transaction_id: Option<ValueView>,
    )
        ensures
            ({
                let o = Self::assemble(destination_tag, sent_to_address, coinbase_account_id, destination_tag_name, coinbase_withdrawal_id, coinbase_transaction_id, crypto_transaction_hash, coinbase_payment_method_id, fee, subtotal, crypto_address, crypto_transaction_id);
                &&& field(o, "destination_tag"@) == destination_tag
                &&& field(o, "sent_to_address"@) == sent_to_address
                &&& field(o, "coinbase_account_id"@) == coinbase_account_id
                &&& field(o, "destination_tag_name"@) == destination_tag_name
                &&& field(o, "coinbase_withdrawal_id"@) == coinbase_withdrawal_id
                &&& field(o, "coinbase_transaction_id"@) == coinbase_transaction_id
                &&& field(o, "crypto_transaction_hash"@) == crypto_transaction_hash
                &&& field(o, "coinbase_payment_method_id"@) == coinbase_payment_method_id
                &&& field(o, "fee"@) == fee
                &&& field(o, "subtotal"@) == subtotal
                &&& field(o, "crypto_address"@) == crypto_address
                &&& field(o, "crypto_transaction_id"@) == crypto_transaction_id
            }),
    {
        broadcast use {
            lemma_field_push,
            lemma_field_empty,
            lemma_field_with_opt,
            lemma_same_name,
        };

        reveal_strlit("destination_tag");
        reveal_strlit("sent_to_address");
        reveal_strlit("coinbase_account_id");
        reveal_strlit("destination_tag_name");
        reveal_strlit("coinbase_withdrawal_id");
        reveal_strlit("coinbase_transaction_id");
        reveal_strlit("crypto_transaction_hash");
        reveal_strlit("coinbase_payment_method_id");
        reveal_strlit("fee");
        reveal_strlit("subtotal");
        reveal_strlit("crypto_address");
        reveal_strlit("crypto_transaction_id");
        lemma_initials("destination_tag"@);
        lemma_initials("sent_to_address"@);
        lemma_initials("coinbase_account_id"@);
        lemma_initials("destination_tag_name"@);
        lemma_initials("coinbase_withdrawal_id"@);
        lemma_initials("coinbase_transaction_id"@);
        lemma_initials("crypto_transaction_hash"@);
        lemma_initials("coinbase_payment_method_id"@);
        lemma_initials("fee"@);
        lemma_initials("subtotal"@);
        lemma_initials("crypto_address"@);
        lemma_initials("crypto_transaction_id"@);
    }

    /// The fields that the details record is written as.
    pub open spec fn encoded_fields(a: TransferDetailsView) -> Fields {
        Self::assemble(
            opt_text_value(a.destination_tag),
            opt_text_value(a.sent_to_address),
            opt_text_value(a.coinbase_account_id),
            opt_text_value(a.destination_tag_name),
            opt_text_value(a.coinbase_withdrawal_id),
            opt_text_value(a.coinbase_transaction_id),
            opt_text_value(a.crypto_transaction_hash),
            opt_text_value(a.coinbase_payment_method_id),
            opt_decimal_value(a.fee),
            opt_decimal_value(a.subtotal),
            opt_text_value(a.crypto_address),
            opt_text_value(a.crypto_transaction_id),
        )
    }

    /// The payload that the details record is written as.
    pub open spec fn encode_spec(a: TransferDetailsView) -> ValueView {
        ValueView::Object(Self::encoded_fields(a))
    }

    /// Decodes a details record from its payload.
    pub fn decode(value: &Value) -> (r: Result<TransferDetails, DecodeError>)
        ensures
            decoded(r) == Self::decode_spec(value@),
    {
        let o = as_object(value, "transfer_details")?;
        let destination_tag = opt_text_field(o, "destination_tag")?;
        let sent_to_address = opt_text_field(o, "sent_to_address")?;
        let coinbase_account_id = opt_text_field(o, "coinbase_account_id")?;
        let destination_tag_name = opt_text_field(o, "destination_tag_name")?;
        let coinbase_withdrawal_id = opt_text_field(o, "coinbase_withdrawal_id")?;
        let coinbase_transaction_id = opt_text_field(o, "coinbase_transaction_id")?;
        let crypto_transaction_hash = opt_text_field(o, "crypto_transaction_hash")?;
        let coinbase_payment_method_id = opt_text_field(o, "coinbase_payment_method_id")?;
        let fee = opt_decimal_field(o, "fee")?;
        let subtotal = opt_decimal_field(o, "subtotal")?;
        let crypto_address = opt_text_field(o, "crypto_address")?;
        let crypto_transaction_id = opt_text_field(o, "crypto_transaction_id")?;
        Ok(TransferDetails { destination_tag, sent_to_address, coinbase_account_id, destination_tag_name, coinbase_withdrawal_id, coinbase_transaction_id, crypto_transaction_hash, coinbase_payment_method_id, fee, subtotal, crypto_address, crypto_transaction_id })
    }

    /// Writes the details record as a payload, which decodes back to the same details record.
    pub fn encode(&self) -> (value: Value)
        ensures
            value@ == Self::encode_spec(self@),
            Self::decode_spec(value@) == Ok::<TransferDetailsView, DecodeErrorView>(self@),
    {
        broadcast use lemma_object_view;

        let mut o = no_fields();
        put_opt_text(&mut o, "destination_tag", &self.destination_tag);
        put_opt_text(&mut o, "sent_to_address", &self.sent_to_address);
        put_opt_text(&mut o, "coinbase_account_id", &self.coinbase_account_id);
        put_opt_text(&mut o, "destination_tag_name", &self.destination_tag_name);
        put_opt_text(&mut o, "coinbase_withdrawal_id", &self.coinbase_withdrawal_id);
        put_opt_text(&mut o, "coinbase_transaction_id", &self.coinbase_transaction_id);
        put_opt_text(&mut o, "crypto_transaction_hash", &self.crypto_transaction_hash);
        put_opt_text(&mut o, "coinbase_payment_method_id", &self.coinbase_payment_method_id);
        put_opt_decimal(&mut o, "fee", self.fee);
        put_opt_decimal(&mut o, "subtotal", self.subtotal);
        put_opt_text(&mut o, "crypto_address", &self.crypto_address);
        put_opt_text(&mut o, "crypto_transaction_id", &self.crypto_transaction_id);
        proof {
            Self::lemma_assembled(
                opt_text_value(self@.destination_tag),
                opt_text_value(self@.sent_to_address),
                opt_text_value(self@.coinbase_account_id),
                opt_text_value(self@.destination_tag_name),
                opt_text_value(self@.coinbase_withdrawal_id),
                opt_text_value(self@.coinbase_transaction_id),
                opt_text_value(self@.crypto_transaction_hash),
                opt_text_value(self@.coinbase_payment_method_id),
                opt_decimal_value(self@.fee),
                opt_decimal_value(self@.subtotal),
                opt_text_value(self@.crypto_address),
                opt_text_value(self@.crypto_transaction_id),
            );
        }
        Value::Object(o)
    }

    /// The transfer details under the required field `key`.
    pub open spec fn at(o: Fields, key: Seq<char>) -> Result<TransferDetailsView, DecodeErrorView> {
        match need(o, key) {
            Ok(v) => Self::decode_spec(v),
            Err(e) => Err(e),
        }
    }

    /// Decodes the transfer details under the required field `key`.
    pub fn field(o: &Vec<(String, Value)>, key: &str) -> (r: Result<TransferDetails, DecodeError>)
        ensures
            decoded(r) == Self::at(fields_view(o@), key@),
    {
        TransferDetails::decode(get(o, key)?)
    }
}

/// A movement of funds into or out of an account. Of its four timestamps
/// only `created_at` is always there.
#[derive(Clone, Debug, PartialEq)]
pub struct Transfer {
    pub id: Uuid,
    pub _type: TransferType,
    pub created_at: Instant,
    pub completed_at: Option<Instant>,
    pub canceled_at: Option<Instant>,
    pub processed_at: Option<Instant>,
    pub account_id: Uuid,
    pub user_id: String,
    pub user_nonce: Option<String>,
    pub amount: Decimal,
    pub currency: Option<String>,
    pub details: TransferDetails,
}

/// What [`Transfer`] holds, as mathematical values.
pub struct TransferView {
    pub id: Uuid,
    pub _type: TransferType,
    pub created_at: InstantView,
    pub completed_at: Option<InstantView>,
    pub canceled_at: Option<InstantView>,
    pub processed_at: Option<InstantView>,
    pub account_id: Uuid,
    pub user_id: Seq<char>,
    pub user_nonce: Option<Seq<char>>,
    pub amount: DecimalView,
    pub currency: Option<Seq<char>>,
    pub details: TransferDetailsView,
}

impl View for Transfer {
    type V = TransferView;

    open spec fn view(&self) -> TransferView {
        TransferView {
            id: self.id,
            _type: self._type,
            created_at: self.created_at@,
            completed_at: opt_view(self.completed_at),
            canceled_at: opt_view(self.canceled_at),
            processed_at: opt_view(self.processed_at),
            account_id: self.account_id,
            user_id: self.user_id@,
            user_nonce: opt_view(self.user_nonce),
            amount: self.amount@,
            currency: opt_view(self.currency),
            details: self.details@,
        }
    }
}

impl Transfer {
    /// The transfer that an object's fields denote: the first error met in the
    /// order of the fields below, or else the record of their values.
    pub open spec fn fields_spec(o: Fields) -> Result<TransferView, DecodeErrorView> {
        if uuid_at(o, "id"@) is Err {
            Err(uuid_at(o, "id"@)->Err_0)
        } else if token_at::<TransferType>(o, "type"@) is Err {
            Err(token_at::<TransferType>(o, "type"@)->Err_0)
        } else if offset_instant_at(o, "created_at"@) is Err {
            Err(offset_instant_at(o, "created_at"@)->Err_0)
        } else if opt_offset_instant_at(o, "completed_at"@) is Err {
            Err(opt_offset_instant_at(o, "completed_at"@)->Err_0)
        } else if opt_offset_instant_at(o, "canceled_at"@) is Err {
            Err(opt_offset_instant_at(o, "canceled_at"@)->Err_0)
        } else if opt_offset_instant_at(o, "processed_at"@) is Err {
            Err(opt_offset_instant_at(o, "processed_at"@)->Err_0)
        } else if uuid_at(o, "account_id"@) is Err {
            Err(uuid_at(o, "account_id"@)->Err_0)
        } else if text_at(o, "user_id"@) is Err {
            Err(text_at(o, "user_id"@)->Err_0)
        } else if opt_text_at(o, "user_nonce"@) is Err {
            Err(opt_text_at(o, "user_nonce"@)->Err_0)
        } else if decimal_at(o, "amount"@) is Err {
            Err(decimal_at(o, "amount"@)->Err_0)
        } else if opt_text_at(o, "currency"@) is Err {
            Err(opt_text_at(o, "currency"@)->Err_0)
        } else if TransferDetails::at(o, "details"@) is Err {
            Err(TransferDetails::at(o, "details"@)->Err_0)
        } else {
            Ok(
                TransferView {
                    id: uuid_at(o, "id"@)->Ok_0,
                    _type: token_at::<TransferType>(o, "type"@)->Ok_0,
                    created_at: offset_instant_at(o, "created_at"@)->Ok_0,
                    completed_at: opt_offset_instant_at(o, "completed_at"@)->Ok_0,
                    canceled_at: opt_offset_instant_at(o, "canceled_at"@)->Ok_0,
                    processed_at: opt_offset_instant_at(o, "processed_at"@)->Ok_0,
                    account_id: uuid_at(o, "account_id"@)->Ok_0,
                    user_id: text_at(o, "user_id"@)->Ok_0,
                    user_nonce: opt_text_at(o, "user_nonce"@)->Ok_0,
                    amount: decimal_at(o, "amount"@)->Ok_0,
                    currency: opt_text_at(o, "currency"@)->Ok_0,
                    details: TransferDetails::at(o, "details"@)->Ok_0,
                },
            )
        }
    }

    /// The transfer that a payload denotes.
    pub open spec fn decode_spec(v: ValueView) -> Result<TransferView, DecodeErrorView> {
        match object_of(v, "transfer"@) {
            Ok(o) => Self::fields_spec(o),
            Err(e) => Err(e),
        }
    }

    /// The fields of a transfer in wire order, given how each is written.
    pub open spec fn assemble(
        id: ValueView,
        _type: ValueView,
        created_at: ValueView,
        completed_at: Option<ValueView>,
        canceled_at: Option<ValueView>,
        processed_at: Option<ValueView>,
        account_id: ValueView,
        user_id: ValueView,
        user_nonce: Option<ValueView>,
        amount: ValueView,
        currency: Option<ValueView>,
        details: ValueView,
    ) -> Fields {
        let o = Fields::empty();
        let o = o.push(("id"@, id));
        let o = o.push(("type"@, _type));
        let o = o.push(("created_at"@, created_at));
        let o = with_opt(o, "completed_at"@, completed_at);
        let o = with_opt(o, "canceled_at"@, canceled_at);
        let o = with_opt(o, "processed_at"@, processed_at);
        let o = o.push(("account_id"@, account_id));
        let o = o.push(("user_id"@, user_id));
        let o = with_opt(o, "user_nonce"@, user_nonce);
        let o = o.push(("amount"@, amount));
        let o = with_opt(o, "currency"@, currency);
        let o = o.push(("details"@, details));
        o
    }

    /// Among the assembled fields each name finds its own value.
    pub proof fn lemma_assembled(
        id: ValueView,
        _type: ValueView,
        created_at: ValueView,
        completed_at: Option<ValueView>,
        canceled_at: Option<ValueView>,
        processed_at: Option<ValueView>,
        account_id: ValueView,
        user_id: ValueView,
        user_nonce: Option<ValueView>,
        amount: ValueView,
        currency: Option<ValueView>,
        details: ValueView,
    )
        ensures
            ({
                let o = Self::assemble(id, _type, created_at, completed_at, canceled_at, processed_at, account_id, user_id, user_nonce, amount, currency, details);
                &&& field(o, "id"@) == Some(id)
                &&& field(o, "type"@) == Some(_type)
                &&& field(o, "created_at"@) == Some(created_at)
                &&& field(o, "completed_at"@) == completed_at
                &&& field(o, "canceled_at"@) == canceled_at
                &&& field(o, "processed_at"@) == processed_at
                &&& field(o, "account_id"@) == Some(account_id)
                &&& field(o, "user_id"@) == Some(user_id)
                &&& field(o, "user_nonce"@) == user_nonce
                &&& field(o, "amount"@) == Some(amount)
                &&& field(o, "currency"@) == currency
                &&& field(o, "details"@) == Some(details)
            }),
    {
        broadcast use {
            lemma_field_push,
            lemma_field_empty,
            lemma_field_with_opt,
            lemma_same_name,
        };

        reveal_strlit("id");
        reveal_strlit("type");
        reveal_strlit("created_at");
        reveal_strlit("completed_at");
        reveal_strlit("canceled_at");
        reveal_strlit("processed_at");
        reveal_strlit("account_id");
        reveal_strlit("user_id");
        reveal_strlit("user_nonce");
        reveal_strlit("amount");
        reveal_strlit("currency");
        reveal_strlit("details");
        lemma_initials("id"@);
        lemma_initials("type"@);
        lemma_initials("created_at"@);
        lemma_initials("completed_at"@);
        lemma_initials("canceled_at"@);
        lemma_initials("processed_at"@);
        lemma_initials("account_id"@);
        lemma_initials("user_id"@);
        lemma_initials("user_nonce"@);
        lemma_initials("amount"@);
        lemma_initials("currency"@);
        lemma_initials("details"@);
    }

    /// The fields that the transfer is written as.
    pub open spec fn encoded_fields(a: TransferView) -> Fields {
        Self::assemble(
            uuid_value(a.id),
            token_value(a._type),
            instant_value(a.created_at),
            opt_instant_value(a.completed_at),
            opt_instant_value(a.canceled_at),
            opt_instant_value(a.processed_at),
            uuid_value(a.account_id),
            ValueView::Text(a.user_id),
            opt_text_value(a.user_nonce),
            decimal_value(a.amount),
            opt_text_value(a.currency),
            TransferDetails::encode_spec(a.details),
        )
    }

    /// The payload that the transfer is written as.
    pub open spec fn encode_spec(a: TransferView) -> ValueView {
        ValueView::Object(Self::encoded_fields(a))
    }

    /// Decodes a transfer from its payload.
    pub fn decode(value: &Value) -> (r: Result<Transfer, DecodeError>)
        ensures
            decoded(r) == Self::decode_spec(value@),
    {
        let o = as_object(value, "transfer")?;
        let id = uuid_field(o, "id")?;
        let _type = token_field::<TransferType>(o, "type")?;
        let created_at = offset_instant_field(o, "created_at")?;
        let completed_at = opt_offset_instant_field(o, "completed_at")?;
        let canceled_at = opt_offset_instant_field(o, "canceled_at")?;
        let processed_at = opt_offset_instant_field(o, "processed_at")?;
        let account_id = uuid_field(o, "account_id")?;
        let user_id = text_field(o, "user_id")?;
        let user_nonce = opt_text_field(o, "user_nonce")?;
        let amount = decimal_field(o, "amount")?;
        let currency = opt_text_field(o, "currency")?;
        let details = TransferDetails::field(o, "details")?;
        Ok(Transfer { id, _type, created_at, completed_at, canceled_at, processed_at, account_id, user_id, user_nonce, amount, currency, details })
    }

    /// Writes the transfer as a payload, which decodes back to the same transfer.
    pub fn encode(&self) -> (value: Value)
        ensures
            value@ == Self::encode_spec(self@),
            Self::decode_spec(value@) == Ok::<TransferView, DecodeErrorView>(self@),
    {
        broadcast use lemma_object_view;

        let mut o = no_fields();
        put_uuid(&mut o, "id", self.id);
        put_token(&mut o, "type", self._type);
        put_instant(&mut o, "created_at", self.created_at);
        put_opt_instant(&mut o, "completed_at", self.completed_at);
        put_opt_instant(&mut o, "canceled_at", self.canceled_at);
        put_opt_instant(&mut o, "processed_at", self.processed_at);
        put_uuid(&mut o, "account_id", self.account_id);
        put_text(&mut o, "user_id", &self.user_id);
        put_opt_text(&mut o, "user_nonce", &self.user_nonce);
        put_decimal(&mut o, "amount", self.amount);
        put_opt_text(&mut o, "currency", &self.currency);
        put(&mut o, "details", self.details.encode());
        proof {
            Self::lemma_assembled(
                uuid_value(self@.id),
                token_value(self@._type),
                instant_value(self@.created_at),
                opt_instant_value(self@.completed_at),
                opt_instant_value(self@.canceled_at),
                opt_instant_value(self@.processed_at),
                uuid_value(self@.account_id),
                ValueView::Text(self@.user_id),
                opt_text_value(self@.user_nonce),
                decimal_value(self@.amount),
                opt_text_value(self@.currency),
                TransferDetails::encode_spec(self@.details),
            );
        }
        Value::Object(o)
    }
}

/// The volume traded in a product over the trailing thirty days.
#[derive(Clone, Debug, PartialEq)]
pub struct TrailingVolume {
    pub product_id: String,
    pub exchange_volume: Decimal,
    pub volume: Decimal,
    pub recorded_at: Instant,
}

/// What [`TrailingVolume`] holds, as mathematical values.
pub struct TrailingVolumeView {
    pub product_id: Seq<char>,
    pub exchange_volume: DecimalView,
    pub volume: DecimalView,
    pub recorded_at: InstantView,
}

impl View for TrailingVolume {
    type V = TrailingVolumeView;

    open spec fn view(&self) -> TrailingVolumeView {
        TrailingVolumeView {
            product_id: self.product_id@,
            exchange_volume: self.exchange_volume@,
            volume: self.volume@,
            recorded_at: self.recorded_at@,
        }
    }
}

impl TrailingVolume {
    /// The trailing volume that an object's fields denote: the first error met in the
    /// order of the fields below, or else the record of their values.
    pub open spec fn fields_spec(o: Fields) -> Result<TrailingVolumeView, DecodeErrorView> {
        if text_at(o, "product_id"@) is Err {
            Err(text_at(o, "product_id"@)->Err_0)
        } else if decimal_at(o, "exchange_volume"@) is Err {
            Err(decimal_at(o, "exchange_volume"@)->Err_0)
        } else if decimal_at(o, "volume"@) is Err {
            Err(decimal_at(o, "volume"@)->Err_0)
        } else if instant_at(o, "recorded_at"@) is Err {
            Err(instant_at(o, "recorded_at"@)->Err_0)
        } else {
            Ok(
                TrailingVolumeView {
                    product_id: text_at(o, "product_id"@)->Ok_0,
                    exchange_volume: decimal_at(o, "exchange_volume"@)->Ok_0,
                    volume: decimal_at(o, "volume"@)->Ok_0,
                    recorded_at: instant_at(o, "recorded_at"@)->Ok_0,
                },
            )
        }
    }

    /// The trailing volume that a payload denotes.
    pub open spec fn decode_spec(v: ValueView) -> Result<TrailingVolumeView, DecodeErrorView> {
        match object_of(v, "trailing_volume"@) {
            Ok(o) => Self::fields_spec(o),
            Err(e) => Err(e),
        }
    }

    /// The fields of a trailing volume in wire order, given how each is written.
    pub open spec fn assemble(
        product_id: ValueView,
        exchange_volume: ValueView,
        volume: ValueView,
        recorded_at: ValueView,
    ) -> Fields {
        let o = Fields::empty();
        let o = o.push(("product_id"@, product_id));
        let o = o.push(("exchange_volume"@, exchange_volume));
        let o = o.push(("volume"@, volume));
        let o = o.push(("recorded_at"@, recorded_at));
        o
    }

    /// Among the assembled fields each name finds its own value.
    pub proof fn lemma_assembled(
        product_id: ValueView,
        exchange_volume: ValueView,
        volume: ValueView,
        recorded_at: ValueView,
    )
        ensures
            ({
                let o = Self::assemble(product_id, exchange_volume, volume, recorded_at);
                &&& field(o, "product_id"@) == Some(product_id)
                &&& field(o, "exchange_volume"@) == Some(exchange_volume)
                &&& field(o, "volume"@) == Some(volume)
                &&& field(o, "recorded_at"@) == Some(recorded_at)
            }),
    {
        broadcast use {
            lemma_field_push,
            lemma_field_empty,
            lemma_field_with_opt,
            lemma_same_name,
        };

        reveal_strlit("product_id");
        reveal_strlit("exchange_volume");
        reveal_strlit("volume");
        reveal_strlit("recorded_at");
        lemma_initials("product_id"@);
        lemma_initials("exchange_volume"@);
        lemma_initials("volume"@);
        lemma_initials("recorded_at"@);
    }

    /// The fields that the trailing volume is written as.
    pub open spec fn encoded_fields(a: TrailingVolumeView) -> Fields {
        Self::assemble(
            ValueView::Text(a.product_id),
            decimal_value(a.exchange_volume),
            decimal_value(a.volume),
            instant_value(a.recorded_at),
        )
    }

    /// The payload that the trailing volume is written as.
    pub open spec fn encode_spec(a: TrailingVolumeView) -> ValueView {
        ValueView::Object(Self::encoded_fields(a))
    }

    /// Decodes a trailing volume from its payload.
    pub fn decode(value: &Value) -> (r: Result<TrailingVolume, DecodeError>)
        ensures
            decoded(r) == Self::decode_spec(value@),
    {
        let o = as_object(value, "trailing_volume")?;
        let product_id = text_field(o, "product_id")?;
        let exchange_volume = decimal_field(o, "exchange_volume")?;
        let volume = decimal_field(o, "volume")?;
        let recorded_at = instant_field(o, "recorded_at")?;
        Ok(TrailingVolume { product_id, exchange_volume, volume, recorded_at })
    }

    /// Writes the trailing volume as a payload, which decodes back to the same trailing volume.
    pub fn encode(&self) -> (value: Value)
        ensures
            value@ == Self::encode_spec(self@),
            Self::decode_spec(value@) == Ok::<TrailingVolumeView, DecodeErrorView>(self@),
    {
        broadcast use lemma_object_view;

        let mut o = no_fields();
        put_text(&mut o, "product_id", &self.product_id);
        put_decimal(&mut o, "exchange_volume", self.exchange_volume);
        put_decimal(&mut o, "volume", self.volume);
        put_instant(&mut o, "recorded_at", self.recorded_at);
        proof {
            Self::lemma_assembled(
                ValueView::Text(self@.product_id),
                decimal_value(self@.exchange_volume),
                decimal_value(self@.volume),
                instant_value(self@.recorded_at),
            );
        }
        Value::Object(o)
    }
}

/// The fee rates that apply to an account, and the volume they rest on.
#[derive(Clone, Debug, PartialEq)]
pub struct Fees {
    pub maker_fee_rate: Decimal,
    pub taker_fee_rate: Decimal,
    pub usd_volume: Decimal,
}

/// What [`Fees`] holds, as mathematical values.
pub struct FeesView {
    pub maker_fee_rate: DecimalView,
    pub taker_fee_rate: DecimalView,
    pub usd_volume: DecimalView,
}

impl View for Fees {
    type V = FeesView;

    open spec fn view(&self) -> FeesView {
        FeesView {
            maker_fee_rate: self.maker_fee_rate@,
            taker_fee_rate: self.taker_fee_rate@,
            usd_volume: self.usd_volume@,
        }
    }
}

impl Fees {
    /// The fee schedule that an object's fields denote: the first error met in the
    /// order of the fields below, or else the record of their values.
    pub open spec fn fields_spec(o: Fields) -> Result<FeesView, DecodeErrorView> {
        if decimal_at(o, "maker_fee_rate"@) is Err {
            Err(decimal_at(o, "maker_fee_rate"@)->Err_0)
        } else if decimal_at(o, "taker_fee_rate"@) is Err {
            Err(decimal_at(o, "taker_fee_rate"@)->Err_0)
        } else if decimal_at(o, "usd_volume"@) is Err {
            Err(decimal_at(o, "usd_volume"@)->Err_0)
        } else {
            Ok(
                FeesView {
                    maker_fee_rate: decimal_at(o, "maker_fee_rate"@)->Ok_0,
                    taker_fee_rate: decimal_at(o, "taker_fee_rate"@)->Ok_0,
                    usd_volume: decimal_at(o, "usd_volume"@)->Ok_0,
                },
            )
        }
    }

    /// The fee schedule that a payload denotes.
    pub open spec fn decode_spec(v: ValueView) -> Result<FeesView, DecodeErrorView> {
        match object_of(v, "fees"@) {
            Ok(o) => Self::fields_spec(o),
            Err(e) => Err(e),
        }
    }

    /// The fields of a fee schedule in wire order, given how each is written.
    pub open spec fn assemble(
        maker_fee_rate: ValueView,
        taker_fee_rate: ValueView,
        usd_volume: ValueView,
    ) -> Fields {
        let o = Fields::empty();
        let o = o.push(("maker_fee_rate"@, maker_fee_rate));
        let o = o.push(("taker_fee_rate"@, taker_fee_rate));
        let o = o.push(("usd_volume"@, usd_volume));
        o
    }

    /// Among the assembled fields each name finds its own value.
    pub proof fn lemma_assembled(
        maker_fee_rate: ValueView,
        taker_fee_rate: ValueView,
        usd_volume: ValueView,
    )
        ensures
            ({
                let o = Self::assemble(maker_fee_rate, taker_fee_rate, usd_volume);
                &&& field(o, "maker_fee_rate"@) == Some(maker_fee_rate)
                &&& field(o, "taker_fee_rate"@) == Some(taker_fee_rate)
                &&& field(o, "usd_volume"@) == Some(usd_volume)
            }),
    {
        broadcast use {
            lemma_field_push,
            lemma_field_empty,
            lemma_field_with_opt,
            lemma_same_name,
        };

        reveal_strlit("maker_fee_rate");
        reveal_strlit("taker_fee_rate");
        reveal_strlit("usd_volume");
        lemma_initials("maker_fee_rate"@);
        lemma_initials("taker_fee_rate"@);
        lemma_initials("usd_volume"@);
    }

    /// The fields that the fee schedule is written as.
    pub open spec fn encoded_fields(a: FeesView) -> Fields {
        Self::assemble(
            decimal_value(a.maker_fee_rate),
            decimal_value(a.taker_fee_rate),
            decimal_value(a.usd_volume),
        )
    }

    /// The payload that the fee schedule is written as.
    pub open spec fn encode_spec(a: FeesView) -> ValueView {
        ValueView::Object(Self::encoded_fields(a))
    }

    /// Decodes a fee schedule from its payload.
    pub fn decode(value: &Value) -> (r: Result<Fees, DecodeError>)
        ensures
            decoded(r) == Self::decode_spec(value@),
    {
        let o = as_object(value, "fees")?;
        let maker_fee_rate = decimal_field(o, "maker_fee_rate")?;
        let taker_fee_rate = decimal_field(o, "taker_fee_rate")?;
        let usd_volume = decimal_field(o, "usd_volume")?;
        Ok(Fees { maker_fee_rate, taker_fee_rate, usd_volume })
    }

    /// Writes the fee schedule as a payload, which decodes back to the same fee schedule.
    pub fn encode(&self) -> (value: Value)
        ensures
            value@ == Self::encode_spec(self@),
            Self::decode_spec(value@) == Ok::<FeesView, DecodeErrorView>(self@),
    {
        broadcast use lemma_object_view;

        let mut o = no_fields();
        put_decimal(&mut o, "maker_fee_rate", self.maker_fee_rate);
        put_decimal(&mut o, "taker_fee_rate", self.taker_fee_rate);
        put_decimal(&mut o, "usd_volume", self.usd_volume);
        proof {
            Self::lemma_assembled(
                decimal_value(self@.maker_fee_rate),
                decimal_value(self@.taker_fee_rate),
                decimal_value(self@.usd_volume),
            );
        }
        Value::Object(o)
    }
}

} // verus!
