use vstd::prelude::*;

use vstd::string::StringSliceAdditionalSpecFns;

use crate::keyed::Duplicate;

verus! {

/// Status code of the call-value checks.
pub const PAYMENT_CHECK_STATUS: u64 = 10;

/// Identifier reported for the native currency.
pub const MOAX_TOKEN_NAME: &'static str = "MOAX";

pub const TOO_MANY_TRANSFERS_MESSAGE: &'static str = "too many token transfers";

pub const NON_PAYABLE_MESSAGE: &'static str = "non-payable function";

/// A failure that aborts a call frame: a status code and a message.
#[derive(Debug)]
pub struct TxPanic {
    pub status: u64,
    pub message: Vec<u8>,
}

impl TxPanic {
    pub open spec fn is_too_many_transfers(&self) -> bool {
        self.status == PAYMENT_CHECK_STATUS && self.message@ == TOO_MANY_TRANSFERS_MESSAGE.spec_bytes()
    }

    pub open spec fn is_non_payable(&self) -> bool {
        self.status == PAYMENT_CHECK_STATUS && self.message@ == NON_PAYABLE_MESSAGE.spec_bytes()
    }

    fn too_many_transfers() -> (r: TxPanic)
        ensures
            r.is_too_many_transfers(),
    {
        TxPanic { status: PAYMENT_CHECK_STATUS, message: TOO_MANY_TRANSFERS_MESSAGE.as_bytes_vec() }
    }

    fn non_payable() -> (r: TxPanic)
        ensures
            r.is_non_payable(),
    {
        TxPanic { status: PAYMENT_CHECK_STATUS, message: NON_PAYABLE_MESSAGE.as_bytes_vec() }
    }
}

/// Whether a token nonce denotes a fungible or a distinguishable unit.
#[derive(Clone, Copy, Debug, PartialEq, Eq, Structural)]
pub enum DctTokenType {
    Fungible,
    NonFungible,
}

/// One token transfer descriptor attached to a call.
#[derive(Debug)]
pub struct TxTokenTransfer {
    pub token_identifier: Vec<u8>,
    pub nonce: u64,
    pub value: u128,
}

pub struct TokenTransferView {
    pub token_identifier: Seq<u8>,
    pub nonce: u64,
    pub value: u128,
}

impl View for TxTokenTransfer {
    type V = TokenTransferView;

    open spec fn view(&self) -> TokenTransferView {
        TokenTransferView { token_identifier: self.token_identifier@, nonce: self.nonce, value: self.value }
    }
}

/// What a call frame was invoked with: its parties and the value it carries.
#[derive(Debug)]
pub struct TxInput {
    pub from: Vec<u8>,
    pub to: Vec<u8>,
    pub moax_value: u128,
    pub dct_values: Vec<TxTokenTransfer>,
    pub func_name: Vec<u8>,
}

impl TxInput {
    pub open spec fn transfers(&self) -> Seq<TokenTransferView> {
        self.dct_values@.map_values(|d: TxTokenTransfer| d@)
    }

    pub fn dct_num_transfers(&self) -> (r: usize)
        ensures
            r == self.transfers().len(),
    {
        self.dct_values.len()
    }

    pub fn moax_value(&self) -> (r: u128)
        ensures
            r == self.moax_value,
    {
        self.moax_value
    }

    /// Amount of the transfer at `index`; 0 past the end.
    pub fn dct_value_by_index(&self, index: usize) -> (r: u128)
        ensures
            index < self.transfers().len() ==> r == self.transfers()[index as int].value,
            index >= self.transfers().len() ==> r == 0,
    {
        if index < self.dct_values.len() {
            self.dct_values[index].value
        } else {
            0
        }
    }

    /// Token of the transfer at `index`; the native currency's name past the end.
    pub fn token_by_index(&self, index: usize) -> (r: Vec<u8>)
        ensures
            index < self.transfers().len() ==> r@ == self.transfers()[index as int].token_identifier,
            index >= self.transfers().len() ==> r@ == MOAX_TOKEN_NAME.spec_bytes(),
    {
        if index < self.dct_values.len() {
            self.dct_values[index].token_identifier.duplicate()
        } else {
            MOAX_TOKEN_NAME.as_bytes_vec()
        }
    }

    /// Nonce of the transfer at `index`; 0 past the end.
    pub fn dct_token_nonce_by_index(&self, index: usize) -> (r: u64)
        ensures
            index < self.transfers().len() ==> r == self.transfers()[index as int].nonce,
            index >= self.transfers().len() ==> r == 0,
    {
        if index < self.dct_values.len() {
            self.dct_values[index].nonce
        } else {
            0
        }
    }

    pub fn dct_token_type_by_index(&self, index: usize) -> (r: DctTokenType)
        ensures
            index < self.transfers().len() && self.transfers()[index as int].nonce != 0 ==> r
                == DctTokenType::NonFungible,
            index >= self.transfers().len() || self.transfers()[index as int].nonce == 0 ==> r
                == DctTokenType::Fungible,
    {
        if self.dct_token_nonce_by_index(index) == 0 {
            DctTokenType::Fungible
        } else {
            DctTokenType::NonFungible
        }
    }

    /// Fails when the call carries more than one token transfer.
    pub fn fail_if_more_than_one_dct_transfer(&self) -> (r: Result<(), TxPanic>)
        ensures
            self.transfers().len() <= 1 <==> r is Ok,
            r matches Err(p) ==> p.is_too_many_transfers(),
    {
        if self.dct_num_transfers() > 1 {
            Err(TxPanic::too_many_transfers())
        } else {
            Ok(())
        }
    }

    /// Amount of the single token transfer (0 when there is none).
    pub fn dct_value(&self) -> (r: Result<u128, TxPanic>)
        ensures
            self.transfers().len() == 0 ==> r == Ok::<u128, TxPanic>(0),
            self.transfers().len() == 1 ==> r == Ok::<u128, TxPanic>(self.transfers()[0].value),
            self.transfers().len() > 1 ==> (r matches Err(p) && p.is_too_many_transfers()),
    {
        self.fail_if_more_than_one_dct_transfer()?;
        Ok(self.dct_value_by_index(0))
    }

    /// Token of the single token transfer (the native currency's name when there is none).
    pub fn token(&self) -> (r: Result<Vec<u8>, TxPanic>)
        ensures
            self.transfers().len() == 0 ==> (r matches Ok(t) && t@ == MOAX_TOKEN_NAME.spec_bytes()),
            self.transfers().len() == 1 ==> (r matches Ok(t) && t@ == self.transfers()[0].token_identifier),
            self.transfers().len() > 1 ==> (r matches Err(p) && p.is_too_many_transfers()),
    {
        self.fail_if_more_than_one_dct_transfer()?;
        Ok(self.token_by_index(0))
    }

    pub fn dct_token_nonce(&self) -> (r: Result<u64, TxPanic>)
        ensures
            self.transfers().len() == 0 ==> r == Ok::<u64, TxPanic>(0),
            self.transfers().len() == 1 ==> r == Ok::<u64, TxPanic>(self.transfers()[0].nonce),
            self.transfers().len() > 1 ==> (r matches Err(p) && p.is_too_many_transfers()),
    {
        self.fail_if_more_than_one_dct_transfer()?;
        Ok(self.dct_token_nonce_by_index(0))
    }

    pub fn dct_token_type(&self) -> (r: Result<DctTokenType, TxPanic>)
        ensures
            self.transfers().len() == 0 ==> r == Ok::<DctTokenType, TxPanic>(DctTokenType::Fungible),
            self.transfers().len() == 1 ==> r == Ok::<DctTokenType, TxPanic>(
                if self.transfers()[0].nonce == 0 {
                    DctTokenType::Fungible
                } else {
                    DctTokenType::NonFungible
                },
            ),
            self.transfers().len() > 1 ==> (r matches Err(p) && p.is_too_many_transfers()),
    {
        self.fail_if_more_than_one_dct_transfer()?;
        Ok(self.dct_token_type_by_index(0))
    }

    /// Fails when the call carries native value, or token value through its
    /// single transfer; with several transfers the single-transfer check fails first.
    pub fn check_not_payable(&self) -> (r: Result<(), TxPanic>)
        ensures
            r is Ok <==> (self.moax_value == 0 && self.transfers().len() <= 1 && (
            self.transfers().len() == 1 ==> self.transfers()[0].value == 0)),
            self.moax_value > 0 ==> (r matches Err(p) && p.is_non_payable()),
            self.moax_value == 0 && self.transfers().len() > 1 ==> (r matches Err(p) && p.is_too_many_transfers()),
            self.moax_value == 0 && self.transfers().len() == 1 && self.transfers()[0].value > 0
                ==> (r matches Err(p) && p.is_non_payable()),
    {
        if self.moax_value() > 0 {
            return Err(TxPanic::non_payable());
        }
        let v = self.dct_value()?;
        if v > 0 {
            return Err(TxPanic::non_payable());
        }
        Ok(())
    }
}

} // verus!
