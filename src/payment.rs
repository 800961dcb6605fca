use vstd::prelude::*;

use crate::keyed::Duplicate;

verus! {

/// One token payment: token identifier, nonce and amount.
#[derive(Debug)]
pub struct DctTokenPayment {
    pub token_identifier: Vec<u8>,
    pub token_nonce: u64,
    pub amount: u128,
}

pub struct PaymentView {
    pub token_identifier: Seq<u8>,
    pub token_nonce: u64,
    pub amount: u128,
}

impl View for DctTokenPayment {
    type V = PaymentView;

    open spec fn view(&self) -> PaymentView {
        PaymentView {
            token_identifier: self.token_identifier@,
            token_nonce: self.token_nonce,
            amount: self.amount,
        }
    }
}

impl DctTokenPayment {
    pub fn new(token_identifier: Vec<u8>, token_nonce: u64, amount: u128) -> (r: DctTokenPayment)
        ensures
            r.token_identifier == token_identifier,
            r.token_nonce == token_nonce,
            r.amount == amount,
    {
        DctTokenPayment { token_identifier, token_nonce, amount }
    }
}

/// A payment read from, and written as, three separate arguments: token
/// identifier, nonce and amount, rather than one encoded value.
pub struct DctTokenPaymentMultiArg {
    obj: DctTokenPayment,
}

impl View for DctTokenPaymentMultiArg {
    type V = PaymentView;

    closed spec fn view(&self) -> PaymentView {
        self.obj@
    }
}

impl From<DctTokenPayment> for DctTokenPaymentMultiArg {
    fn from(obj: DctTokenPayment) -> (r: DctTokenPaymentMultiArg) {
        DctTokenPaymentMultiArg { obj }
    }
}

impl vstd::std_specs::convert::FromSpecImpl<DctTokenPayment> for DctTokenPaymentMultiArg {
    open spec fn obeys_from_spec() -> bool {
        true
    }

    closed spec fn from_spec(v: DctTokenPayment) -> DctTokenPaymentMultiArg {
        DctTokenPaymentMultiArg { obj: v }
    }
}

impl DctTokenPaymentMultiArg {
    pub fn wrap(obj: DctTokenPayment) -> (r: DctTokenPaymentMultiArg)
        ensures
            r@ == obj@,
    {
        DctTokenPaymentMultiArg { obj }
    }

    pub fn into_dct_token_payment(self) -> (r: DctTokenPayment)
        ensures
            r@ == self@,
    {
        self.obj
    }

    /// Builds the payment from its three arguments, in order.
    pub fn from_args(token_identifier: Vec<u8>, token_nonce: u64, amount: u128) -> (r:
        DctTokenPaymentMultiArg)
        ensures
            r@ == (PaymentView { token_identifier: token_identifier@, token_nonce, amount }),
    {
        DctTokenPaymentMultiArg { obj: DctTokenPayment::new(token_identifier, token_nonce, amount) }
    }

    /// The three results the payment is written as, in order.
    pub fn to_results(&self) -> (r: (Vec<u8>, u64, u128))
        ensures
            r.0@ == self@.token_identifier,
            r.1 == self@.token_nonce,
            r.2 == self@.amount,
    {
        (self.obj.token_identifier.duplicate(), self.obj.token_nonce, self.obj.amount)
    }

    /// Always true: the type spans several arguments or results.
    pub fn is_multi_arg_or_result() -> (r: bool)
        ensures
            r,
    {
        true
    }
}

} // verus!
