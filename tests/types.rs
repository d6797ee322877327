use rodbus::error::{InvalidRequest, ResponseParseError};
use rodbus::types::{
    AddressRange, CoilState, Indexed, RegisterValue, UnitId, COIL_OFF, COIL_ON, MAX_BINARY_BITS,
    MAX_REGISTERS,
};

#[test]
fn register_ranges_in_bounds_pass() {
    for count in 1..=125u16 {
        assert_eq!(AddressRange::new(0, count).check_validity_for_registers(), Ok(()));
        let start = 65535 - (count - 1);
        assert_eq!(AddressRange::new(start, count).check_validity_for_registers(), Ok(()));
    }
}

#[test]
fn bit_ranges_in_bounds_pass() {
    assert_eq!(AddressRange::new(0, 2000).check_validity_for_bits(), Ok(()));
    assert_eq!(AddressRange::new(63536, 2000).check_validity_for_bits(), Ok(()));
    assert_eq!(AddressRange::new(65535, 1).check_validity_for_bits(), Ok(()));
    assert_eq!(AddressRange::new(0, 126).check_validity_for_bits(), Ok(()));
}

#[test]
fn zero_count_is_refused_for_any_start() {
    for start in [0u16, 1, 100, 65500, 65535] {
        let r = AddressRange::new(start, 0);
        assert_eq!(r.check_validity_for_registers(), Err(InvalidRequest::CountOfZero));
        assert_eq!(r.check_validity_for_bits(), Err(InvalidRequest::CountOfZero));
    }
}

#[test]
fn overflowing_range_is_refused() {
    let r = AddressRange::new(65500, 100);
    assert_eq!(r.check_validity_for_registers(), Err(InvalidRequest::AddressOverflow(65500, 100)));
    assert_eq!(r.check_validity_for_bits(), Err(InvalidRequest::AddressOverflow(65500, 100)));
    assert_eq!(
        AddressRange::new(65535, 2).check_validity_for_bits(),
        Err(InvalidRequest::AddressOverflow(65535, 2))
    );
}

#[test]
fn too_many_registers_is_refused() {
    assert_eq!(
        AddressRange::new(0, 126).check_validity_for_registers(),
        Err(InvalidRequest::CountTooBigForType(126, 125))
    );
    assert_eq!(
        AddressRange::new(0, 2001).check_validity_for_bits(),
        Err(InvalidRequest::CountTooBigForType(2001, 2000))
    );
    assert_eq!(MAX_REGISTERS, 125);
    assert_eq!(MAX_BINARY_BITS, 2000);
}

#[test]
fn overflow_is_reported_before_size() {
    assert_eq!(
        AddressRange::new(65535, 3000).check_validity_for_registers(),
        Err(InvalidRequest::AddressOverflow(65535, 3000))
    );
}

#[test]
fn coil_state_round_trip() {
    assert_eq!(CoilState::from_bool(true).to_u16(), 0xFF00);
    assert_eq!(CoilState::from_bool(false).to_u16(), 0x0000);
    assert_eq!(CoilState::from_u16(0xFF00), Ok(CoilState::On));
    assert_eq!(CoilState::from_u16(0x0000), Ok(CoilState::Off));
    assert_eq!(COIL_ON, 0xFF00);
    assert_eq!(COIL_OFF, 0x0000);
    for b in [true, false] {
        let s = CoilState::from_bool(b);
        assert_eq!(CoilState::from_u16(s.to_u16()), Ok(s));
    }
}

#[test]
fn unknown_coil_values_are_refused() {
    for v in [0x0001u16, 0x00FF, 0xFF01, 0xFFFF, 0x8000, 0x0100] {
        assert_eq!(CoilState::from_u16(v), Err(ResponseParseError::UnknownCoilState(v)));
    }
}

#[test]
fn unit_ids() {
    assert_eq!(UnitId::new(17).value(), 17);
    assert_eq!(UnitId::new(0).value(), 0);
    assert_eq!(UnitId::default().value(), 0xFF);
}

#[test]
fn plain_values() {
    assert_eq!(RegisterValue::new(0xBEEF).value, 0xBEEF);
    let i = Indexed::new(7, CoilState::On);
    assert_eq!(i.index, 7);
    assert_eq!(i.value, CoilState::On);
    let r = AddressRange::new(3, 4);
    assert_eq!((r.start, r.count), (3, 4));
}
