use marinade_rate::state::{
    parse_marinade_state, state_account_bytes, DecodeError, MarinadeState, STATE_LAYOUT_LEN,
};

fn sample_state() -> MarinadeState {
    MarinadeState {
        total_active_balance: 0x0123_4567_89ab_cdef,
        emergency_cooling_down: 42,
        available_reserve_balance: u64::MAX,
        circulating_ticket_balance: 7,
        msol_supply: 1_000_000_000,
        msol_price: 1_084_000_000,
    }
}

#[test]
fn round_trip_reproduces_fields() {
    let s = sample_state();
    let bytes = state_account_bytes(&s);
    assert_eq!(bytes.len(), STATE_LAYOUT_LEN);
    let decoded = parse_marinade_state(bytes.as_slice()).expect("layout-length buffer decodes");
    assert_eq!(decoded, s);
}

#[test]
fn rejects_every_truncation() {
    let s = sample_state();
    let bytes = state_account_bytes(&s);
    for cut in 0..STATE_LAYOUT_LEN {
        let r = parse_marinade_state(&bytes[..cut]);
        assert_eq!(r, Err(DecodeError::BufferTooShort));
    }
}

#[test]
fn decodes_little_endian_fields_at_fixed_offsets() {
    let mut bytes = vec![0u8; STATE_LAYOUT_LEN];
    // total_active_balance = 0x0102 little-endian at offset 0
    bytes[0] = 0x02;
    bytes[1] = 0x01;
    // emergency_cooling_down = 3 at offset 8
    bytes[8] = 3;
    // available_reserve_balance = 4 at offset 16
    bytes[16] = 4;
    // circulating_ticket_balance = 5 at offset 24
    bytes[24] = 5;
    // msol_supply = 0x0100000000 at offset 32
    bytes[36] = 1;
    // msol_price = 6 at offset 40
    bytes[40] = 6;
    let s = parse_marinade_state(&bytes).expect("exact-length buffer decodes");
    assert_eq!(s.total_active_balance, 0x0102);
    assert_eq!(s.emergency_cooling_down, 3);
    assert_eq!(s.available_reserve_balance, 4);
    assert_eq!(s.circulating_ticket_balance, 5);
    assert_eq!(s.msol_supply, 0x0100000000);
    assert_eq!(s.msol_price, 6);
}

#[test]
fn longer_buffer_still_decodes() {
    let s = sample_state();
    let mut bytes = state_account_bytes(&s);
    bytes.extend_from_slice(&[0xee; 100]);
    let decoded = parse_marinade_state(bytes.as_slice()).expect("longer buffer decodes");
    assert_eq!(decoded, s);
}
