use mos6502::bus::bus;
use mos6502::cpu::CPU_6502;
use mos6502::flags::FLAGS_6502;
use mos6502::flags::StatusFlags;

#[test]
fn set_flag_and_get_flag_agree() {
    let mut core = CPU_6502::new(bus::new());
    assert_eq!(core.get_flag(FLAGS_6502::C), 0);
    core.set_flag(FLAGS_6502::C, true);
    assert_eq!(core.get_flag(FLAGS_6502::C), 1);
    core.set_flag(FLAGS_6502::C, false);
    assert_eq!(core.get_flag(FLAGS_6502::C), 0);
    core.set_flag(FLAGS_6502::N, true);
    core.set_flag(FLAGS_6502::V, true);
    assert_eq!(core.get_flag(FLAGS_6502::N), 1);
    assert_eq!(core.get_flag(FLAGS_6502::V), 1);
    assert_eq!(core.get_flag(FLAGS_6502::Z), 0);
}

#[test]
fn status_byte_reflects_each_flag_bit() {
    let mut core = CPU_6502::new(bus::new());
    // Power-on: Interrupt-disable (0x04) and Unused (0x20).
    assert_eq!(core.status_byte(), 0x24);
    core.set_flag(FLAGS_6502::C, true);
    assert_eq!(core.status_byte(), 0x25);
    core.set_flag(FLAGS_6502::Z, true);
    assert_eq!(core.status_byte(), 0x27);
    core.set_flag(FLAGS_6502::D, true);
    assert_eq!(core.status_byte(), 0x2F);
    core.set_flag(FLAGS_6502::B, true);
    assert_eq!(core.status_byte(), 0x3F);
    core.set_flag(FLAGS_6502::V, true);
    assert_eq!(core.status_byte(), 0x7F);
    core.set_flag(FLAGS_6502::N, true);
    assert_eq!(core.status_byte(), 0xFF);
}

#[test]
fn status_byte_pack_unpack_round_trip() {
    for byte in [0x00u8, 0x01, 0x24, 0x5A, 0xA5, 0xFF] {
        let flags = StatusFlags::from_byte(byte);
        assert_eq!(flags.to_byte(), byte);
    }
}
