use curve_amm::config::{decode_curve_config, decode_distributor_config, decode_vault_config};
use curve_amm::errors::CurveError;

fn le_blob(fields: &[u64]) -> Vec<u8> {
    let mut out = Vec::new();
    for f in fields {
        out.extend_from_slice(&f.to_le_bytes());
    }
    out
}

#[test]
fn curve_config_decodes_little_endian_fields() {
    let cfg = decode_curve_config(&le_blob(&[0x0102_0304_0506_0708, 42])).unwrap();
    assert_eq!(cfg.reserve_ratio, 0x0102_0304_0506_0708);
    assert_eq!(cfg.initial_price, 42);
}

#[test]
fn vault_config_decodes_little_endian_fields() {
    let cfg = decode_vault_config(&le_blob(&[1_700_000_000, 86_400])).unwrap();
    assert_eq!(cfg.start_time, 1_700_000_000);
    assert_eq!(cfg.vesting_duration, 86_400);
}

#[test]
fn distributor_config_decodes_little_endian_fields() {
    let cfg = decode_distributor_config(&le_blob(&[5, 6, 7])).unwrap();
    assert_eq!(cfg.daily_drip_amount, 5);
    assert_eq!(cfg.drip_interval, 6);
    assert_eq!(cfg.total_days, 7);
}

#[test]
fn wrong_length_blobs_are_invalid() {
    assert_eq!(
        decode_curve_config(&vec![0u8; 15]),
        Err(CurveError::InvalidConfig)
    );
    assert_eq!(
        decode_vault_config(&vec![0u8; 17]),
        Err(CurveError::InvalidConfig)
    );
    assert_eq!(
        decode_distributor_config(&vec![0u8; 0]),
        Err(CurveError::InvalidConfig)
    );
}

#[test]
fn max_value_fields_round_trip() {
    let cfg = decode_curve_config(&le_blob(&[u64::MAX, u64::MAX])).unwrap();
    assert_eq!(cfg.reserve_ratio, u64::MAX);
    assert_eq!(cfg.initial_price, u64::MAX);
}
