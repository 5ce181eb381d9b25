//! What the session asks of the protocol engine before it hands over a plan.

use vstd::prelude::*;
use crate::text::decimal;

verus! {

/// First of the link addresses that the protocol reserves: broadcast
/// addresses, the self address and the reserved block all lie from here up.
pub const RESERVED_START: u16 = 0xFFF0;

/// Whether `value` can be the link address of a master or an outstation.
pub open spec fn is_endpoint_address(value: u16) -> bool {
    value < RESERVED_START
}

/// The engine's words for a link address that it refuses.
pub open spec fn special_address_text(value: u16) -> Seq<char> {
    "special address ("@ + decimal(value as nat)
        + ") may not be used as a master or outstation address"@
}

/// Asks the engine whether `value` can be the link address of a master or an
/// outstation, and for its words if not.
///
/// Trusted: calls `dnp3::link::EndpointAddress::try_new`, which accepts every
/// address below `0xFFF0` and refuses the rest (the three broadcast
/// addresses, the self address and the reserved block) with a
/// `SpecialAddressError`, whose `Display` writes the address in decimal
/// inside the sentence given by [`special_address_text`].
#[verifier::external_body]
pub(crate) fn check_endpoint_address(value: u16) -> (res: Result<(), String>)
    ensures
        res is Ok <==> is_endpoint_address(value),
        res matches Err(text) ==> text@ == special_address_text(value),
{
    match dnp3::link::EndpointAddress::try_new(value) {
        Ok(_) => Ok(()),
        Err(e) => Err(e.to_string()),
    }
}

} // verus!
