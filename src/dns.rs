use vstd::prelude::*;

use vstd::string::StringSliceAdditionalSpecFns;

use crate::call_value::TxPanic;
use crate::keyed::{bytes_equal, Duplicate};

verus! {

/// Status code of a failure signalled by contract logic.
pub const USER_ERROR_STATUS: u64 = 4;

pub const ONLY_OWNER_MESSAGE: &'static str = "only owner can call dnsRegister";

pub const REGISTER_ENDPOINT: &'static str = "register";

/// A call to be made to another contract once the current one ends.
#[derive(Debug)]
pub struct AsyncCall {
    pub to: Vec<u8>,
    pub endpoint: Vec<u8>,
    pub args: Vec<Vec<u8>>,
    pub moax_payment: u128,
}

/// Proxy of the DNS contract at `address`.
pub struct Dns {
    pub address: Vec<u8>,
}

impl Dns {
    /// The call registering `name`, paid with `payment` native units.
    pub fn register(&self, name: &Vec<u8>, payment: u128) -> (r: AsyncCall)
        ensures
            r.to@ == self.address@,
            r.endpoint@ == REGISTER_ENDPOINT.spec_bytes(),
            r.args@.len() == 1,
            r.args@[0]@ == name@,
            r.moax_payment == payment,
    {
        let mut args: Vec<Vec<u8>> = Vec::new();
        args.push(name.duplicate());
        AsyncCall {
            to: self.address.duplicate(),
            endpoint: REGISTER_ENDPOINT.as_bytes_vec(),
            args,
            moax_payment: payment,
        }
    }
}

/// Username registration through a DNS contract, for the contract owned by `owner`.
pub struct DnsModule {
    pub owner: Vec<u8>,
}

impl DnsModule {
    /// Lets the owner register `name` with the DNS contract at `dns_address`,
    /// forwarding the payment; anyone else is refused.
    pub fn dns_register(&self, caller: &Vec<u8>, dns_address: &Vec<u8>, name: &Vec<u8>, payment: u128) -> (r:
        Result<AsyncCall, TxPanic>)
        ensures
            caller@ != self.owner@ ==> (r matches Err(p) && p.status == USER_ERROR_STATUS
                && p.message@ == ONLY_OWNER_MESSAGE.spec_bytes()),
            caller@ == self.owner@ ==> (r matches Ok(c) && c.to@ == dns_address@
                && c.endpoint@ == REGISTER_ENDPOINT.spec_bytes() && c.args@.len() == 1
                && c.args@[0]@ == name@ && c.moax_payment == payment),
    {
        if !bytes_equal(caller, &self.owner) {
            return Err(TxPanic { status: USER_ERROR_STATUS, message: ONLY_OWNER_MESSAGE.as_bytes_vec() });
        }
        let proxy = Dns { address: dns_address.duplicate() };
        Ok(proxy.register(name, payment))
    }
}

} // verus!
