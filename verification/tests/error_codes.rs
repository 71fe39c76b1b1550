use rpi_ws281x_c::ErrorCode;

const ALL: [(ErrorCode, i32); 15] = [
    (ErrorCode::Success, 0),
    (ErrorCode::Generic, -1),
    (ErrorCode::OutOfMemory, -2),
    (ErrorCode::HwNotSupported, -3),
    (ErrorCode::MemLock, -4),
    (ErrorCode::Mmap, -5),
    (ErrorCode::MapRegisters, -6),
    (ErrorCode::GpioInit, -7),
    (ErrorCode::PwmSetup, -8),
    (ErrorCode::MailboxDevice, -9),
    (ErrorCode::Dma, -10),
    (ErrorCode::IllegalGpio, -11),
    (ErrorCode::PcmSetup, -12),
    (ErrorCode::SpiSetup, -13),
    (ErrorCode::SpiTransfer, -14),
];

#[test]
fn numeric_values_match_hardware_codes() {
    for (e, c) in ALL {
        assert_eq!(e.code(), c);
    }
}

#[test]
fn numeric_round_trip() {
    for (e, c) in ALL {
        assert_eq!(ErrorCode::from_code(c), e);
        assert_eq!(ErrorCode::from_code(e.code()), e);
    }
}

#[test]
fn unknown_values_fall_back_to_generic() {
    assert_eq!(ErrorCode::from_code(-15), ErrorCode::Generic);
    assert_eq!(ErrorCode::from_code(-99), ErrorCode::Generic);
    assert_eq!(ErrorCode::from_code(1), ErrorCode::Generic);
    assert_eq!(ErrorCode::from_code(i32::MIN), ErrorCode::Generic);
}
