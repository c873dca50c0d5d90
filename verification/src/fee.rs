//! The two fee-parameter blocks of a pair: the static configuration chosen
//! at pool creation and the dynamic state driven by trading activity, each
//! with its exact on-chain byte layout.

use vstd::prelude::*;
use vstd::bytes::{
    lemma_auto_spec_u16_to_from_le_bytes, lemma_auto_spec_u32_to_from_le_bytes,
    lemma_auto_spec_u64_to_from_le_bytes, spec_u16_from_le_bytes, spec_u16_to_le_bytes,
    spec_u32_from_le_bytes, spec_u32_to_le_bytes, spec_u64_from_le_bytes, spec_u64_to_le_bytes,
    u16_from_le_bytes, u16_to_le_bytes, u32_from_le_bytes, u32_to_le_bytes, u64_from_le_bytes,
    u64_to_le_bytes,
};
use vstd::slice::slice_subrange;

verus! {

/// Immutable fee configuration of a pool.
#[derive(Clone, Copy, Debug, PartialEq, Eq, Structural)]
pub struct StaticFeeParameters {
    pub base_factor: u16,
    pub filter_period: u16,
    pub decay_period: u16,
    pub reduction_factor: u16,
    pub variable_fee_control: u32,
    pub max_volatility_accumulator: u32,
    pub protocol_share: u16,
}

/// Mutable fee state: when the references were last moved, how volatile
/// trading has recently been, and the bin the volatility is measured from.
#[derive(Clone, Copy, Debug, PartialEq, Eq, Structural)]
pub struct DynamicFeeParameters {
    pub time_last_updated: u64,
    pub volatility_accumulator: u32,
    pub volatility_reference: u32,
    pub id_reference: u32,
}

/// The 20-byte layout of the static parameters:
/// `base_factor(2) | filter_period(2) | decay_period(2) |
/// reduction_factor(2) | variable_fee_control(4) |
/// max_volatility_accumulator(4) | protocol_share(2) | padding(2)`.
pub open spec fn spec_static_fee_bytes(parameters: StaticFeeParameters) -> Seq<u8> {
    spec_u16_to_le_bytes(parameters.base_factor) + spec_u16_to_le_bytes(parameters.filter_period)
        + spec_u16_to_le_bytes(parameters.decay_period) + spec_u16_to_le_bytes(
        parameters.reduction_factor,
    ) + spec_u32_to_le_bytes(parameters.variable_fee_control) + spec_u32_to_le_bytes(
        parameters.max_volatility_accumulator,
    ) + spec_u16_to_le_bytes(parameters.protocol_share) + seq![0u8, 0u8]
}

/// The static parameters encoded by 20 bytes; `None` on any other length.
/// The two padding bytes are ignored.
pub open spec fn spec_unpack_static_fee(data: Seq<u8>) -> Option<StaticFeeParameters> {
    if data.len() != 20 {
        None
    } else {
        Some(
            StaticFeeParameters {
                base_factor: spec_u16_from_le_bytes(data.subrange(0, 2)),
                filter_period: spec_u16_from_le_bytes(data.subrange(2, 4)),
                decay_period: spec_u16_from_le_bytes(data.subrange(4, 6)),
                reduction_factor: spec_u16_from_le_bytes(data.subrange(6, 8)),
                variable_fee_control: spec_u32_from_le_bytes(data.subrange(8, 12)),
                max_volatility_accumulator: spec_u32_from_le_bytes(data.subrange(12, 16)),
                protocol_share: spec_u16_from_le_bytes(data.subrange(16, 18)),
            },
        )
    }
}

/// The 24-byte layout of the dynamic parameters:
/// `time_last_updated(8) | volatility_accumulator(4) |
/// volatility_reference(4) | id_reference(4) | padding(4)`.
pub open spec fn spec_dynamic_fee_bytes(parameters: DynamicFeeParameters) -> Seq<u8> {
    spec_u64_to_le_bytes(parameters.time_last_updated) + spec_u32_to_le_bytes(
        parameters.volatility_accumulator,
    ) + spec_u32_to_le_bytes(parameters.volatility_reference) + spec_u32_to_le_bytes(
        parameters.id_reference,
    ) + seq![0u8, 0u8, 0u8, 0u8]
}

/// The dynamic parameters encoded by 24 bytes; `None` on any other length.
/// The four padding bytes are ignored.
pub open spec fn spec_unpack_dynamic_fee(data: Seq<u8>) -> Option<DynamicFeeParameters> {
    if data.len() != 24 {
        None
    } else {
        Some(
            DynamicFeeParameters {
                time_last_updated: spec_u64_from_le_bytes(data.subrange(0, 8)),
                volatility_accumulator: spec_u32_from_le_bytes(data.subrange(8, 12)),
                volatility_reference: spec_u32_from_le_bytes(data.subrange(12, 16)),
                id_reference: spec_u32_from_le_bytes(data.subrange(16, 20)),
            },
        )
    }
}

impl StaticFeeParameters {
    /// Serialise into the 20-byte account layout.
    pub fn pack(&self) -> (r: Vec<u8>)
        ensures
            r@ == spec_static_fee_bytes(*self),
            r@.len() == 20,
    {
        proof {
            lemma_auto_spec_u16_to_from_le_bytes();
            lemma_auto_spec_u32_to_from_le_bytes();
        }
        let mut out = u16_to_le_bytes(self.base_factor);
        let mut filter_period_bytes = u16_to_le_bytes(self.filter_period);
        let mut decay_period_bytes = u16_to_le_bytes(self.decay_period);
        let mut reduction_factor_bytes = u16_to_le_bytes(self.reduction_factor);
        let mut variable_fee_control_bytes = u32_to_le_bytes(self.variable_fee_control);
        let mut max_volatility_accumulator_bytes = u32_to_le_bytes(
            self.max_volatility_accumulator,
        );
        let mut protocol_share_bytes = u16_to_le_bytes(self.protocol_share);
        out.append(&mut filter_period_bytes);
        out.append(&mut decay_period_bytes);
        out.append(&mut reduction_factor_bytes);
        out.append(&mut variable_fee_control_bytes);
        out.append(&mut max_volatility_accumulator_bytes);
        out.append(&mut protocol_share_bytes);
        out.push(0);
        out.push(0);
        proof {
            assert(out@ =~= spec_static_fee_bytes(*self));
        }
        out
    }

    /// Read the static parameters back from their 20-byte layout.
    pub fn unpack(data: &[u8]) -> (r: Option<StaticFeeParameters>)
        ensures
            r == spec_unpack_static_fee(data@),
    {
        if data.len() != 20 {
            return None;
        }
        Some(
            StaticFeeParameters {
                base_factor: u16_from_le_bytes(slice_subrange(data, 0, 2)),
                filter_period: u16_from_le_bytes(slice_subrange(data, 2, 4)),
                decay_period: u16_from_le_bytes(slice_subrange(data, 4, 6)),
                reduction_factor: u16_from_le_bytes(slice_subrange(data, 6, 8)),
                variable_fee_control: u32_from_le_bytes(slice_subrange(data, 8, 12)),
                max_volatility_accumulator: u32_from_le_bytes(slice_subrange(data, 12, 16)),
                protocol_share: u16_from_le_bytes(slice_subrange(data, 16, 18)),
            },
        )
    }
}

impl DynamicFeeParameters {
    /// Serialise into the 24-byte account layout.
    pub fn pack(&self) -> (r: Vec<u8>)
        ensures
            r@ == spec_dynamic_fee_bytes(*self),
            r@.len() == 24,
    {
        proof {
            lemma_auto_spec_u32_to_from_le_bytes();
            lemma_auto_spec_u64_to_from_le_bytes();
        }
        let mut out = u64_to_le_bytes(self.time_last_updated);
        let mut volatility_accumulator_bytes = u32_to_le_bytes(self.volatility_accumulator);
        let mut volatility_reference_bytes = u32_to_le_bytes(self.volatility_reference);
        let mut id_reference_bytes = u32_to_le_bytes(self.id_reference);
        out.append(&mut volatility_accumulator_bytes);
        out.append(&mut volatility_reference_bytes);
        out.append(&mut id_reference_bytes);
        out.push(0);
        out.push(0);
        out.push(0);
        out.push(0);
        proof {
            assert(out@ =~= spec_dynamic_fee_bytes(*self));
        }
        out
    }

    /// Read the dynamic parameters back from their 24-byte layout.
    pub fn unpack(data: &[u8]) -> (r: Option<DynamicFeeParameters>)
        ensures
            r == spec_unpack_dynamic_fee(data@),
    {
        if data.len() != 24 {
            return None;
        }
        Some(
            DynamicFeeParameters {
                time_last_updated: u64_from_le_bytes(slice_subrange(data, 0, 8)),
                volatility_accumulator: u32_from_le_bytes(slice_subrange(data, 8, 12)),
                volatility_reference: u32_from_le_bytes(slice_subrange(data, 12, 16)),
                id_reference: u32_from_le_bytes(slice_subrange(data, 16, 20)),
            },
        )
    }
}

/// Packing then unpacking the static parameters gives them back.
pub proof fn lemma_static_fee_pack_roundtrip(parameters: StaticFeeParameters)
    ensures
        spec_unpack_static_fee(spec_static_fee_bytes(parameters)) == Some(parameters),
{
    lemma_auto_spec_u16_to_from_le_bytes();
    lemma_auto_spec_u32_to_from_le_bytes();
    let data = spec_static_fee_bytes(parameters);
    assert(data.subrange(0, 2) =~= spec_u16_to_le_bytes(parameters.base_factor));
    assert(data.subrange(2, 4) =~= spec_u16_to_le_bytes(parameters.filter_period));
    assert(data.subrange(4, 6) =~= spec_u16_to_le_bytes(parameters.decay_period));
    assert(data.subrange(6, 8) =~= spec_u16_to_le_bytes(parameters.reduction_factor));
    assert(data.subrange(8, 12) =~= spec_u32_to_le_bytes(parameters.variable_fee_control));
    assert(data.subrange(12, 16) =~= spec_u32_to_le_bytes(
        parameters.max_volatility_accumulator,
    ));
    assert(data.subrange(16, 18) =~= spec_u16_to_le_bytes(parameters.protocol_share));
}

/// Packing then unpacking the dynamic parameters gives them back.
pub proof fn lemma_dynamic_fee_pack_roundtrip(parameters: DynamicFeeParameters)
    ensures
        spec_unpack_dynamic_fee(spec_dynamic_fee_bytes(parameters)) == Some(parameters),
{
    lemma_auto_spec_u32_to_from_le_bytes();
    lemma_auto_spec_u64_to_from_le_bytes();
    let data = spec_dynamic_fee_bytes(parameters);
    assert(data.subrange(0, 8) =~= spec_u64_to_le_bytes(parameters.time_last_updated));
    assert(data.subrange(8, 12) =~= spec_u32_to_le_bytes(parameters.volatility_accumulator));
    assert(data.subrange(12, 16) =~= spec_u32_to_le_bytes(parameters.volatility_reference));
    assert(data.subrange(16, 20) =~= spec_u32_to_le_bytes(parameters.id_reference));
}

} // verus!
