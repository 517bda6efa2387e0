use vstd::prelude::*;
use vstd::string::StringSliceAdditionalSpecFns;

use crate::text::{scale_encode_str, scale_encoded};
use vstd::wrapping::u64_specs;

verus! {

/// The route of a message to a service method: the scale-encoded service
/// name followed by the scale-encoded method name.
pub fn route(service: &str, method: &str) -> (r: Vec<u8>)
    requires
        service.spec_bytes().len() <= u32::MAX,
        method.spec_bytes().len() <= u32::MAX,
    ensures
        r@ == scale_encoded(service.spec_bytes()) + scale_encoded(method.spec_bytes()),
{
    let mut r = scale_encode_str(service);
    let mut m = scale_encode_str(method);
    r.append(&mut m);
    r
}

/// `percent` percent of `available` gas, rounded down (the product wraps as
/// the programs are built).
pub fn share_of_gas(available: u64, percent: u64) -> (r: u64)
    ensures
        r == u64_specs::wrapping_mul(available, percent) / 100,
{
    available.wrapping_mul(percent) / 100
}

/// A message a program sends to itself after a delay.
pub struct SelfMessage {
    /// The encoded route of the method to call.
    pub payload: Vec<u8>,
    pub gas_limit: u64,
    /// The delay in blocks.
    pub delay: u32,
}

/// The call of `service::method` on the program itself, `delay` blocks
/// later, with four fifths of the gas that is left.
pub fn delayed_self_call(service: &str, method: &str, gas_available: u64, delay: u32) -> (r: SelfMessage)
    requires
        service.spec_bytes().len() <= u32::MAX,
        method.spec_bytes().len() <= u32::MAX,
    ensures
        r.payload@ == scale_encoded(service.spec_bytes()) + scale_encoded(method.spec_bytes()),
        r.gas_limit == u64_specs::wrapping_mul(gas_available, 80) / 100,
        r.delay == delay,
{
    SelfMessage { payload: route(service, method), gas_limit: share_of_gas(gas_available, 80), delay }
}

/// The bytes of an ASCII text are its characters, one each.
pub proof fn lemma_ascii_bytes(s: &str)
    requires
        vstd::string::is_ascii(s),
    ensures
        s.spec_bytes().len() == s@.len(),
{
    vstd::string::is_ascii_spec_bytes(s);
}

} // verus!
