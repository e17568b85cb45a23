use emu6502::cpu::CPU;
use emu6502::errors::EmuError;

// LDA (0XA9) TESTS
#[test]
fn cpu_test_0xa9_lda_immediate_load_data() {
    let mut cpu = CPU::new();
    cpu.load_and_run(vec![0xa9, 0x45, 0x00]).unwrap();
    assert_eq!(
        cpu.register_a, 0x45,
        "Register A should be holding 0x45, got 0x{:02x}",
        cpu.register_a
    );
    assert!(
        cpu.status & 0b0000_0010 == 0b0000_0000,
        "Zero flag should be 0, got 1"
    );
    assert!(
        cpu.status & 0b1000_0000 == 0b0000_0000,
        "Negative flag should be 0, got 1"
    );
}

#[test]
fn cpu_test_0xa9_lda_zero_flag() {
    let mut cpu = CPU::new();
    cpu.load_and_run(vec![0xa9, 0x00, 0x00]).unwrap();
    assert_eq!(
        cpu.register_a, 0x00,
        "Register A should be holding 0x00, got 0x{:02x}",
        cpu.register_a
    );
    assert!(
        cpu.status & 0b0000_0010 == 0b0000_0010,
        "Zero flag should be 1, got 0"
    );
    assert!(
        cpu.status & 0b1000_0000 == 0b0000_0000,
        "Negative flag should be 0, got 1"
    );
}

#[test]
fn cpu_test_0xa9_lda_negative_flag() {
    let mut cpu = CPU::new();
    cpu.load_and_run(vec![0xa9, 0x80, 0x00]).unwrap();
    assert_eq!(
        cpu.register_a, 0x80,
        "Register A should be holding 0x80, got 0x{:02x}",
        cpu.register_a
    );
    assert!(
        cpu.status & 0b0000_0010 == 0b0000_0000,
        "Zero flag should be 0, got 1"
    );
    assert!(
        cpu.status & 0b1000_0000 == 0b1000_0000,
        "Negative flag should be 1, got 0"
    );
}

#[test]
fn cpu_test_0xa9_lda_zero_then_negative_flag() {
    let mut cpu = CPU::new();
    cpu.load_and_run(vec![0xa9, 0x00, 0xa9, 0x80, 0x00]).unwrap();
    assert_eq!(
        cpu.register_a, 0x80,
        "Register A should be holding 0x80, got 0x{:02x}",
        cpu.register_a
    );
    assert!(
        cpu.status & 0b0000_0010 == 0b0000_0000,
        "Zero flag should be 0, got 1"
    );
    assert!(
        cpu.status & 0b1000_0000 == 0b1000_0000,
        "Negative flag should be 1, got 0"
    );
}

// TAX (0XAA) TESTS
#[test]
fn cpu_test_0xaa_tax_immediate_load_data() {
    let mut cpu = CPU::new();
    cpu.load_and_run(vec![0xa9, 0x45, 0xaa, 0x00]).unwrap();
    assert_eq!(
        cpu.register_x, 0x45,
        "Register X should be holding 0x45, got 0x{:02x}",
        cpu.register_x
    );
    assert!(
        cpu.status & 0b0000_0010 == 0b0000_0000,
        "Zero flag should be 0, got 1"
    );
    assert!(
        cpu.status & 0b1000_0000 == 0b0000_0000,
        "Negative flag should be 0, got 1"
    );
}

#[test]
fn cpu_test_0xaa_tax_zero_flag() {
    let mut cpu = CPU::new();
    cpu.load_and_run(vec![0xa9, 0x00, 0xaa, 0x00]).unwrap();
    assert_eq!(
        cpu.register_x, 0x00,
        "Register X should be holding 0x00, got 0x{:02x}",
        cpu.register_x
    );
    assert!(
        cpu.status & 0b0000_0010 == 0b0000_0010,
        "Zero flag should be 1, got 0"
    );
    assert!(
        cpu.status & 0b1000_0000 == 0b0000_0000,
        "Negative flag should be 0, got 1"
    );
}

#[test]
fn cpu_test_0xaa_tax_negative_flag() {
    let mut cpu = CPU::new();
    cpu.load_and_run(vec![0xa9, 0x80, 0xaa, 0x00]).unwrap();
    assert_eq!(
        cpu.register_x, 0x80,
        "Register X should be holding 0x80, got 0x{:02x}",
        cpu.register_x
    );
    assert!(
        cpu.status & 0b0000_0010 == 0b0000_0000,
        "Zero flag should be 0, got 1"
    );
    assert!(
        cpu.status & 0b1000_0000 == 0b1000_0000,
        "Negative flag should be 1, got 0"
    );
}

// INX (0XE8) TESTS
#[test]
fn cpu_test_5_ops_working_together() {
    let mut cpu = CPU::new();
    cpu.load_and_run(vec![0xa9, 0xc0, 0xaa, 0xe8, 0x00]).unwrap();
    assert_eq!(cpu.register_x, 0xc1)
}

#[test]
fn cpu_test_inx_overflow() {
    let mut cpu = CPU::new();
    cpu.load_and_run(vec![0xa9, 0xff, 0xaa, 0xe8, 0xe8, 0x00]).unwrap();

    assert_eq!(cpu.register_x, 1)
}

#[test]
fn cpu_test_inx_to_0x80_sets_negative_clears_zero() {
    let mut cpu = CPU::new();
    cpu.load_and_run(vec![0xa9, 0x7f, 0xaa, 0xe8, 0x00]).unwrap();
    assert_eq!(cpu.register_x, 0x80);
    assert!(cpu.status & 0b0000_0010 == 0b0000_0000);
    assert!(cpu.status & 0b1000_0000 == 0b1000_0000);
}

#[test]
fn cpu_test_inx_wrap_to_zero_sets_zero_flag() {
    let mut cpu = CPU::new();
    cpu.load_and_run(vec![0xa9, 0xff, 0xaa, 0xe8, 0x00]).unwrap();
    assert_eq!(cpu.register_x, 0x00);
    assert!(cpu.status & 0b0000_0010 == 0b0000_0010);
    assert!(cpu.status & 0b1000_0000 == 0b0000_0000);
}

#[test]
fn cpu_test_load_then_reset_round_trip() {
    let mut cpu = CPU::new();
    cpu.load(vec![0xa9, 0x45, 0x00]).unwrap();
    cpu.reset();
    assert_eq!(cpu.program_counter, 0x8000);
    assert_eq!(cpu.register_a, 0);
    assert_eq!(cpu.register_x, 0);
    assert_eq!(cpu.register_y, 0);
    assert_eq!(cpu.status, 0);
}

#[test]
fn cpu_test_lda_overwrites_prior_flags_and_keeps_other_bits() {
    let mut cpu = CPU::new();
    cpu.load(vec![0xa9, 0x45, 0x00]).unwrap();
    cpu.reset();
    cpu.status = 0b1111_1111;
    cpu.run().unwrap();
    // Zero and Negative are cleared by the load of 0x45; bits 0, 2..6 stay.
    assert_eq!(cpu.status, 0b0111_1101);
}

#[test]
fn cpu_test_brk_halts_immediately() {
    let mut cpu = CPU::new();
    // Bytes after the break opcode are never fetched: 0xFF would otherwise
    // be reported as an unimplemented opcode.
    cpu.load_and_run(vec![0xa9, 0x45, 0x00, 0xff, 0xff]).unwrap();
    assert_eq!(cpu.register_a, 0x45);
    assert_eq!(cpu.program_counter, 0x8003);
}

#[test]
fn cpu_test_unimplemented_opcode_is_reported() {
    let mut cpu = CPU::new();
    let err = cpu.load_and_run(vec![0x40]).unwrap_err();
    assert_eq!(
        err,
        EmuError::UnimplementedOpcode {
            opcode: 0x40,
            program_counter: 0x8000
        }
    );
}

#[test]
fn cpu_test_load_too_long_is_rejected() {
    let mut cpu = CPU::new();
    let err = cpu.load(vec![0xe8; 0x8001]).unwrap_err();
    assert_eq!(err, EmuError::OutOfBoundsLoad { len: 0x8001 });
    // The CPU was left untouched; a program that fits still runs.
    cpu.load_and_run(vec![0xa9, 0x45, 0x00]).unwrap();
    assert_eq!(cpu.register_a, 0x45);
}

#[test]
fn cpu_test_load_of_exactly_0x8000_bytes_fits() {
    let mut cpu = CPU::new();
    // An all-zero image of the full 0x8000 bytes of room: the first byte is
    // the break opcode, so the run halts at once.
    cpu.load_and_run(vec![0x00; 0x8000]).unwrap();
    assert_eq!(cpu.program_counter, 0x8001);
}
