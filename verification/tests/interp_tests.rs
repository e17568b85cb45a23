use emu6502::errors::EmuError;
use emu6502::interp::CPU;

// LDA (0XA9) TESTS
#[test]
fn main_test_0xa9_lda_immediate_load_data() {
    let mut cpu = CPU::new();
    cpu.interpret(vec![0xa9, 0x45, 0x00]).unwrap();
    assert_eq!(
        cpu.register_a, 0x45,
        "Register A should be holding 0x45, got 0x{:02x}",
        cpu.register_a
    );
    assert!(
        cpu.status & 0b0000_0010 == 0b0000_0000,
        "Zero flag should be 0, got 1"
    );
    assert!(
        cpu.status & 0b1000_0000 == 0b0000_0000,
        "Negative flag should be 0, got 1"
    );
}

#[test]
fn main_test_0xa9_lda_zero_flag() {
    let mut cpu = CPU::new();
    cpu.interpret(vec![0xa9, 0x00, 0x00]).unwrap();
    assert_eq!(
        cpu.register_a, 0x00,
        "Register A should be holding 0x00, got 0x{:02x}",
        cpu.register_a
    );
    assert!(
        cpu.status & 0b0000_0010 == 0b0000_0010,
        "Zero flag should be 1, got 0"
    );
    assert!(
        cpu.status & 0b1000_0000 == 0b0000_0000,
        "Negative flag should be 0, got 1"
    );
}

#[test]
fn main_test_0xa9_lda_negative_flag() {
    let mut cpu = CPU::new();
    cpu.interpret(vec![0xa9, 0x80, 0x00]).unwrap();
    assert_eq!(
        cpu.register_a, 0x80,
        "Register A should be holding 0x80, got 0x{:02x}",
        cpu.register_a
    );
    assert!(
        cpu.status & 0b0000_0010 == 0b0000_0000,
        "Zero flag should be 0, got 1"
    );
    assert!(
        cpu.status & 0b1000_0000 == 0b1000_0000,
        "Negative flag should be 1, got 0"
    );
}

#[test]
fn main_test_0xa9_lda_zero_then_negative_flag() {
    let mut cpu = CPU::new();
    cpu.interpret(vec![0xa9, 0x00, 0xa9, 0x80, 0x00]).unwrap();
    assert_eq!(
        cpu.register_a, 0x80,
        "Register A should be holding 0x80, got 0x{:02x}",
        cpu.register_a
    );
    assert!(
        cpu.status & 0b0000_0010 == 0b0000_0000,
        "Zero flag should be 0, got 1"
    );
    assert!(
        cpu.status & 0b1000_0000 == 0b1000_0000,
        "Negative flag should be 1, got 0"
    );
}

// TAX (0XAA) TESTS
#[test]
fn main_test_0xaa_tax_immediate_load_data() {
    let mut cpu = CPU::new();
    cpu.register_a = 0x45;
    cpu.interpret(vec![0xaa, 0x00]).unwrap();
    assert_eq!(
        cpu.register_x, 0x45,
        "Register X should be holding 0x45, got 0x{:02x}",
        cpu.register_x
    );
    assert!(
        cpu.status & 0b0000_0010 == 0b0000_0000,
        "Zero flag should be 0, got 1"
    );
    assert!(
        cpu.status & 0b1000_0000 == 0b0000_0000,
        "Negative flag should be 0, got 1"
    );
}

#[test]
fn main_test_0xaa_tax_zero_flag() {
    let mut cpu = CPU::new();
    cpu.register_a = 0x00;
    cpu.interpret(vec![0xaa, 0x00]).unwrap();
    assert_eq!(
        cpu.register_x, 0x00,
        "Register X should be holding 0x00, got 0x{:02x}",
        cpu.register_x
    );
    assert!(
        cpu.status & 0b0000_0010 == 0b0000_0010,
        "Zero flag should be 1, got 0"
    );
    assert!(
        cpu.status & 0b1000_0000 == 0b0000_0000,
        "Negative flag should be 0, got 1"
    );
}

#[test]
fn main_test_0xaa_tax_negative_flag() {
    let mut cpu = CPU::new();
    cpu.register_a = 0x80;
    cpu.interpret(vec![0xaa, 0x00]).unwrap();
    assert_eq!(
        cpu.register_x, 0x80,
        "Register X should be holding 0x80, got 0x{:02x}",
        cpu.register_x
    );
    assert!(
        cpu.status & 0b0000_0010 == 0b0000_0000,
        "Zero flag should be 0, got 1"
    );
    assert!(
        cpu.status & 0b1000_0000 == 0b1000_0000,
        "Negative flag should be 1, got 0"
    );
}

// INX (0XE8) TESTS
#[test]
fn main_test_5_ops_working_together() {
    let mut cpu = CPU::new();
    cpu.interpret(vec![0xa9, 0xc0, 0xaa, 0xe8, 0x00]).unwrap();
    assert_eq!(cpu.register_x, 0xc1)
}

#[test]
fn main_test_inx_overflow() {
    let mut cpu = CPU::new();
    cpu.register_x = 0xff;
    cpu.interpret(vec![0xe8, 0xe8, 0x00]).unwrap();

    assert_eq!(cpu.register_x, 1)
}

#[test]
fn main_test_lda_overwrites_prior_flags_and_keeps_other_bits() {
    let mut cpu = CPU::new();
    cpu.status = 0b1111_1111;
    cpu.interpret(vec![0xa9, 0x45, 0x00]).unwrap();
    // Zero and Negative are cleared by the load of 0x45; bits 0, 2..6 stay.
    assert_eq!(cpu.status, 0b0111_1101);
}

#[test]
fn main_test_unimplemented_opcode_is_reported() {
    let mut cpu = CPU::new();
    let err = cpu.interpret(vec![0xa9, 0x01, 0x40]).unwrap_err();
    assert_eq!(
        err,
        EmuError::UnimplementedOpcode {
            opcode: 0x40,
            program_counter: 2
        }
    );
    // The work done before the bad opcode is kept.
    assert_eq!(cpu.register_a, 0x01);
    assert_eq!(cpu.program_counter, 3);
}

#[test]
fn main_test_brk_halts_immediately() {
    let mut cpu = CPU::new();
    cpu.interpret(vec![0x00, 0xff, 0xff]).unwrap();
    assert_eq!(cpu.program_counter, 1);
    assert_eq!(cpu.register_a, 0);
    assert_eq!(cpu.status, 0);
}
