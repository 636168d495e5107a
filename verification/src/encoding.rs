//! A reference call encoder: the order-creation call of the coretime
//! marketplace runtime, encoded as two call indices followed by the
//! parachain identifier and the order requirements, each integer in
//! fixed-width little-endian form.

use vstd::prelude::*;

use crate::types::CallEncoder;
use crate::types::OrderRequirements;
use crate::types::ParaId;

verus! {

/// The little-endian bytes of a 16-bit integer.
pub open spec fn u16_le(x: u16) -> Seq<u8> {
    seq![(x % 256) as u8, ((x / 256) % 256) as u8]
}

/// The little-endian bytes of a 32-bit integer.
pub open spec fn u32_le(x: u32) -> Seq<u8> {
    seq![
        (x % 256) as u8,
        ((x / 256) % 256) as u8,
        ((x / 65536) % 256) as u8,
        ((x / 16777216) % 256) as u8,
    ]
}

/// Appends the little-endian bytes of a 16-bit integer.
fn push_u16_le(out: &mut Vec<u8>, x: u16)
    ensures
        final(out)@ == old(out)@ + u16_le(x),
{
    out.push((x % 256) as u8);
    out.push(((x / 256) % 256) as u8);
    assert(out@ =~= old(out)@ + u16_le(x));
}

/// Appends the little-endian bytes of a 32-bit integer.
fn push_u32_le(out: &mut Vec<u8>, x: u32)
    ensures
        final(out)@ == old(out)@ + u32_le(x),
{
    out.push((x % 256) as u8);
    out.push(((x / 256) % 256) as u8);
    out.push(((x / 65536) % 256) as u8);
    out.push(((x / 16777216) % 256) as u8);
    assert(out@ =~= old(out)@ + u32_le(x));
}

/// The index of the orders pallet within the marketplace runtime's call
/// enumeration.
pub const ORDERS_PALLET_INDEX: u8 = 92;

/// The index of the order-creation call within the orders pallet.
pub const CREATE_ORDER_CALL_INDEX: u8 = 0;

/// The parachain for which the encoded calls create orders.
pub const ORDER_PARA_ID: ParaId = 2001;

/// A reference encoder for the marketplace runtime's order-creation call.
pub struct OrderCallEncoder;

impl CallEncoder for OrderCallEncoder {
    open spec fn spec_order_creation_call(order_requirements: OrderRequirements) -> Seq<u8> {
        seq![ORDERS_PALLET_INDEX, CREATE_ORDER_CALL_INDEX] + u32_le(ORDER_PARA_ID) + u32_le(
            order_requirements.begin,
        ) + u32_le(order_requirements.end) + u16_le(order_requirements.core_occupancy)
    }

    fn order_creation_call(order_requirements: OrderRequirements) -> (call: Vec<u8>) {
        let mut call: Vec<u8> = Vec::new();
        call.push(ORDERS_PALLET_INDEX);
        call.push(CREATE_ORDER_CALL_INDEX);
        push_u32_le(&mut call, ORDER_PARA_ID);
        push_u32_le(&mut call, order_requirements.begin);
        push_u32_le(&mut call, order_requirements.end);
        push_u16_le(&mut call, order_requirements.core_occupancy);
        assert(call@ =~= Self::spec_order_creation_call(order_requirements));
        call
    }
}

} // verus!
