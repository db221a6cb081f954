//! Fixed-layout configuration blobs attached to a deployment.
//!
//! Every blob is a sequence of unsigned 64-bit little-endian fields with no
//! padding; a blob of any other length is malformed and fails with
//! `InvalidConfig`.

use vstd::prelude::*;

use crate::errors::CurveError;

verus! {

/// Byte length of an encoded [`CurveConfig`].
pub const CURVE_CONFIG_LEN: usize = 16;

/// Byte length of an encoded [`VaultConfig`].
pub const VAULT_CONFIG_LEN: usize = 16;

/// Byte length of an encoded [`DistributorConfig`].
pub const DISTRIBUTOR_CONFIG_LEN: usize = 24;

/// Curve parameters chosen by the deployer.
#[derive(Clone, Copy, Debug, PartialEq, Eq, Structural)]
pub struct CurveConfig {
    /// Stored reserve ratio of the curve.
    pub reserve_ratio: u64,
    /// Initial price parameter of the curve, in base units.
    pub initial_price: u64,
}

/// Vesting parameters of the self-token vault.
#[derive(Clone, Copy, Debug, PartialEq, Eq, Structural)]
pub struct VaultConfig {
    /// Start of the vesting schedule, as a timestamp.
    pub start_time: u64,
    /// Length of the vesting schedule, in seconds.
    pub vesting_duration: u64,
}

/// Drip-distribution parameters of the supporter pool.
#[derive(Clone, Copy, Debug, PartialEq, Eq, Structural)]
pub struct DistributorConfig {
    /// Scaled units released per drip day.
    pub daily_drip_amount: u64,
    /// Seconds between two drips.
    pub drip_interval: u64,
    /// Number of drip days planned.
    pub total_days: u64,
}

/// The unsigned 64-bit little-endian integer at `off`.
pub open spec fn spec_le_u64(bytes: Seq<u8>, off: int) -> int {
    bytes[off] + bytes[off + 1] * 0x100 + bytes[off + 2] * 0x1_0000 + bytes[off + 3] * 0x100_0000
        + bytes[off + 4] * 0x1_0000_0000 + bytes[off + 5] * 0x100_0000_0000 + bytes[off
        + 6] * 0x1_0000_0000_0000 + bytes[off + 7] * 0x100_0000_0000_0000
}

/// The decoding of a well-formed curve-config blob.
pub open spec fn spec_curve_config(bytes: Seq<u8>) -> CurveConfig {
    CurveConfig {
        reserve_ratio: spec_le_u64(bytes, 0) as u64,
        initial_price: spec_le_u64(bytes, 8) as u64,
    }
}

/// The decoding of a well-formed vault-config blob.
pub open spec fn spec_vault_config(bytes: Seq<u8>) -> VaultConfig {
    VaultConfig {
        start_time: spec_le_u64(bytes, 0) as u64,
        vesting_duration: spec_le_u64(bytes, 8) as u64,
    }
}

/// The decoding of a well-formed distributor-config blob.
pub open spec fn spec_distributor_config(bytes: Seq<u8>) -> DistributorConfig {
    DistributorConfig {
        daily_drip_amount: spec_le_u64(bytes, 0) as u64,
        drip_interval: spec_le_u64(bytes, 8) as u64,
        total_days: spec_le_u64(bytes, 16) as u64,
    }
}

/// Read the unsigned 64-bit little-endian integer at `off`.
fn read_le_u64(bytes: &Vec<u8>, off: usize) -> (r: u64)
    requires
        off + 8 <= bytes@.len() <= usize::MAX,
    ensures
        r == spec_le_u64(bytes@, off as int),
{
    (bytes[off] as u64) + (bytes[off + 1] as u64) * 0x100 + (bytes[off + 2] as u64) * 0x1_0000 + (
    bytes[off + 3] as u64) * 0x100_0000 + (bytes[off + 4] as u64) * 0x1_0000_0000 + (bytes[off
        + 5] as u64) * 0x100_0000_0000 + (bytes[off + 6] as u64) * 0x1_0000_0000_0000 + (bytes[off
        + 7] as u64) * 0x100_0000_0000_0000
}

/// Decode a curve-config blob: two 64-bit little-endian fields.
pub fn decode_curve_config(bytes: &Vec<u8>) -> (r: Result<CurveConfig, CurveError>)
    ensures
        bytes@.len() == CURVE_CONFIG_LEN ==> r == Ok::<CurveConfig, CurveError>(
            spec_curve_config(bytes@),
        ),
        bytes@.len() != CURVE_CONFIG_LEN ==> r == Err::<CurveConfig, CurveError>(
            CurveError::InvalidConfig,
        ),
{
    if bytes.len() != CURVE_CONFIG_LEN {
        return Err(CurveError::InvalidConfig);
    }
    Ok(CurveConfig { reserve_ratio: read_le_u64(bytes, 0), initial_price: read_le_u64(bytes, 8) })
}

/// Decode a vault-config blob: two 64-bit little-endian fields.
pub fn decode_vault_config(bytes: &Vec<u8>) -> (r: Result<VaultConfig, CurveError>)
    ensures
        bytes@.len() == VAULT_CONFIG_LEN ==> r == Ok::<VaultConfig, CurveError>(
            spec_vault_config(bytes@),
        ),
        bytes@.len() != VAULT_CONFIG_LEN ==> r == Err::<VaultConfig, CurveError>(
            CurveError::InvalidConfig,
        ),
{
    if bytes.len() != VAULT_CONFIG_LEN {
        return Err(CurveError::InvalidConfig);
    }
    Ok(VaultConfig { start_time: read_le_u64(bytes, 0), vesting_duration: read_le_u64(bytes, 8) })
}

/// Decode a distributor-config blob: three 64-bit little-endian fields.
pub fn decode_distributor_config(bytes: &Vec<u8>) -> (r: Result<DistributorConfig, CurveError>)
    ensures
        bytes@.len() == DISTRIBUTOR_CONFIG_LEN ==> r == Ok::<DistributorConfig, CurveError>(
            spec_distributor_config(bytes@),
        ),
        bytes@.len() != DISTRIBUTOR_CONFIG_LEN ==> r == Err::<DistributorConfig, CurveError>(
            CurveError::InvalidConfig,
        ),
{
    if bytes.len() != DISTRIBUTOR_CONFIG_LEN {
        return Err(CurveError::InvalidConfig);
    }
    Ok(
        DistributorConfig {
            daily_drip_amount: read_le_u64(bytes, 0),
            drip_interval: read_le_u64(bytes, 8),
            total_days: read_le_u64(bytes, 16),
        },
    )
}

} // verus!
