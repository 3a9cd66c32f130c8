use riscv_emu::processor::cs_register::ControlAndStatusRegister;
use riscv_emu::processor::register::XRegisters;

#[test]
fn write_then_read_nonzero_register() {
    let mut regs = XRegisters::new();
    for i in 1..32u32 {
        regs.write(i, 0x1000 + i);
    }
    for i in 1..32u32 {
        assert_eq!(regs.read(i), 0x1000 + i);
    }
}

#[test]
fn register_zero_discards_writes() {
    let mut regs = XRegisters::new();
    regs.write(0, 0xDEAD_BEEF);
    assert_eq!(regs.read(0), 0);
}

#[test]
fn stack_pointer_starts_at_top_of_memory() {
    let regs = XRegisters::new();
    assert_eq!(regs.read(2), 0x8010_0000);
    assert_eq!(regs.read(1), 0);
    assert_eq!(regs.read(31), 0);
}

#[test]
fn csr_write_then_read() {
    let mut csr = ControlAndStatusRegister::new();
    assert_eq!(csr.read(0x305), 0);
    csr.write(0x305, 0xDEAD_BEEF);
    csr.write(4095, 7);
    assert_eq!(csr.read(0x305), 0xDEAD_BEEF);
    assert_eq!(csr.read(4095), 7);
    assert_eq!(csr.read(0x342), 0);
}
