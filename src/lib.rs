pub mod call_value;
pub mod dns;
pub mod keyed;
pub mod laws;
pub mod ledger;
pub mod payment;
pub mod tx;
