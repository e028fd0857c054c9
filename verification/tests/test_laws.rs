use kompusim::bus::Bus;
use kompusim::ram::Ram;
use kompusim::rv64i_cpu::{ExecEvent, RV64ICpu};
use kompusim::uart::{Device, Uart};

/// A CPU whose RAM covers 0..0x1000 and holds `words` from address 0.
fn cpu_with_program(words: &[u32]) -> RV64ICpu {
    let mut ram = Ram::new(0, 0x1000);
    let mut bytes: Vec<u8> = Vec::new();
    for w in words {
        bytes.extend_from_slice(&w.to_le_bytes());
    }
    ram.load_image(0, &bytes).unwrap();
    let mut bus = Bus::new();
    bus.attach_ram(ram);
    RV64ICpu::new(bus)
}

// addi x1, x0, 5
const ADDI_X1_5: u32 = 0x0050_0093;
// addi x2, x0, 0x100
const ADDI_X2_256: u32 = 0x1000_0113;
// sd x1, 8(x2)
const SD_X1_8_X2: u32 = 0x0011_3423;
// ld x3, 8(x2)
const LD_X3_8_X2: u32 = 0x0081_3183;

#[test]
fn law_store_then_load_gives_value_back() {
    let mut cpu = cpu_with_program(&[ADDI_X1_5, ADDI_X2_256, SD_X1_8_X2, LD_X3_8_X2]);
    assert_eq!(cpu.exec_continue(4), ExecEvent::MaxInstructions(16));
    assert_eq!(cpu.get_regs().x[3], 5);
    assert_eq!(cpu.bus.read64(0x108), 5);
}

#[test]
fn law_x0_stays_zero() {
    // addi x0, x0, 5
    let mut cpu = cpu_with_program(&[0x0050_0013]);
    cpu.exec_continue(1);
    assert_eq!(cpu.get_regs().x[0], 0);
    assert_eq!(cpu.get_pc(), 4);
}

#[test]
fn law_compressed_instruction_moves_pc_by_2() {
    let mut ram = Ram::new(0, 0x100);
    // c.li x1, 1
    ram.load_image(0, &[0x85, 0x40]).unwrap();
    let mut bus = Bus::new();
    bus.attach_ram(ram);
    let mut cpu = RV64ICpu::new(bus);
    cpu.exec_continue(1);
    assert_eq!(cpu.get_pc(), 2);
    assert_eq!(cpu.get_regs().x[1], 1);
}

#[test]
fn law_unrecognized_instruction_is_recorded() {
    let mut cpu = cpu_with_program(&[0x0000_007f, ADDI_X1_5]);
    cpu.exec_continue(1);
    let errors = cpu.take_errors();
    assert_eq!(errors.len(), 1);
    assert_eq!(errors[0].pc, 0);
    assert_eq!(errors[0].instr, 0x7f);
    assert!(!errors[0].rvc);
    assert_eq!(cpu.get_regs().x[1], 0);
    assert!(cpu.take_errors().is_empty());
}

#[test]
fn law_running_in_pieces_equals_running_at_once() {
    let prog = [ADDI_X1_5, ADDI_X2_256, SD_X1_8_X2, LD_X3_8_X2];
    let mut a = cpu_with_program(&prog);
    let mut b = cpu_with_program(&prog);
    a.exec_continue(1);
    a.exec_continue(3);
    b.exec_continue(4);
    assert_eq!(a.get_regs().x, b.get_regs().x);
    assert_eq!(a.get_pc(), b.get_pc());
    assert_eq!(a.get_num_exec_instr(), b.get_num_exec_instr());
}

#[test]
fn law_breakpoint_stops_execution() {
    let mut cpu = cpu_with_program(&[ADDI_X1_5, ADDI_X2_256, SD_X1_8_X2, LD_X3_8_X2]);
    cpu.add_breakpoint(8);
    assert_eq!(cpu.exec_continue(100), ExecEvent::Breakpoint(8));
    assert_eq!(cpu.get_num_exec_instr(), 2);
    assert_eq!(cpu.get_regs().x[2], 0x100);
}

#[test]
fn law_fault_outside_memory() {
    let mut cpu = cpu_with_program(&[ADDI_X1_5]);
    cpu.regs.pc = 0x2000;
    assert_eq!(cpu.exec_continue(10), ExecEvent::Fault(0x2000));
    assert_eq!(cpu.get_num_exec_instr(), 0);
}

#[test]
fn law_bus_write_then_read() {
    let mut bus = Bus::new();
    bus.attach_ram(Ram::new(0x1000, 0x100));
    bus.write64(0x1010, 0x1122_3344_5566_7788);
    assert_eq!(bus.read64(0x1010), 0x1122_3344_5566_7788);
    assert_eq!(bus.read32(0x1010), 0x5566_7788);
    assert_eq!(bus.read8(0x1017), 0x11);
    bus.write8(0x1011, 0xaa);
    assert_eq!(bus.read8(0x1011), 0xaa);
    assert_eq!(bus.read8(0x1010), 0x88);
}

#[test]
fn law_uart_output_in_order() {
    let mut bus = Bus::new();
    bus.attach_ram(Ram::new(0x8000_0000, 0x100));
    bus.attach_device(Device::new(Uart::new("0".to_string()), 0x1001_0000, 0x20));
    bus.write32(0x1001_0000, 'h' as u32);
    bus.write32(0x1001_0000, 0x100 + 'i' as u32);
    assert_eq!(bus.take_device_output(), vec![b'h', b'i']);
    assert!(bus.take_device_output().is_empty());
}

#[test]
fn hex_parsing_limits() {
    use_hex();
}

fn use_hex() {
    assert_eq!(kompusim::rv64i_disasm::hex_to_u32("0xffff_ffff"), Ok(0xffff_ffff));
    assert!(kompusim::rv64i_disasm::hex_to_u32("0x1_0000_0000").is_err());
    assert!(kompusim::rv64i_disasm::hex_to_u32("zz").is_err());
    assert!(kompusim::rv64i_disasm::hex_to_u32("").is_err());
    assert_eq!(kompusim::rv64i_disasm::hex_to_u32("+ff"), Ok(0xff));
    assert_eq!(kompusim::rv64i_disasm::hex_to_u64("0x0x10"), Ok(0x10));
    assert!(kompusim::rv64i_disasm::hex_to_u64("0x1_0000_0000_0000_0000").is_err());
}

#[test]
fn law_xor_twice_gives_value_back() {
    use_bits();
}

fn use_bits() {
    let x: u64 = 0x1234_5678_9abc_def0;
    let y = kompusim::bits::BitOps::xor(x, 11, 4);
    assert_eq!(y, 0x1234_5678_9abc_d100);
    assert_eq!(kompusim::bits::BitOps::xor(y, 11, 4), x);
    assert_eq!(
        kompusim::bits::BitOps::rst_bits(y, 11, 4),
        kompusim::bits::BitOps::rst_bits(x, 11, 4)
    );
}

#[test]
fn law_ram_write64_little_endian_bytes() {
    let mut ram = Ram::new(0x1000, 0x20);
    ram.write64(0x1008, 0x0102_0304_0506_0708);
    for i in 0..8u64 {
        assert_eq!(ram.read8(0x1008 + i), (0x0102_0304_0506_0708u64 >> (8 * i)) as u8);
    }
    assert_eq!(ram.read8(0x1007), 0);
    assert_eq!(ram.read8(0x1010), 0);
    assert_eq!(ram.read64(0x1008), 0x0102_0304_0506_0708);
}

#[test]
fn law_x0_reads_zero_after_writes() {
    let mut cpu = cpu_with_program(&[]);
    cpu.regs_w64(0, 7);
    assert_eq!(cpu.regs_r64(0), 0);
    cpu.regs_w64(5, 7);
    assert_eq!(cpu.regs_r64(5), 7);
    assert_eq!(cpu.regs_r64(0), 0);
}

#[test]
fn bus_can_get_ram_spans() {
    let mut bus = Bus::new();
    bus.attach_ram(Ram::new(0x1000, 0x100));
    assert!(bus.can_get_ram(0x1000, 0x100));
    assert!(bus.get_ram(0x1000, 0x100).is_some());
    assert!(!bus.can_get_ram(u64::MAX, 2));
    // no region covers it: get_ram answers None
    assert!(bus.can_get_ram(0x5000, 0x10));
    assert!(bus.get_ram(0x5000, 0x10).is_none());
}

#[test]
fn law_any_breakpoint_stops_execution() {
    let mut cpu = cpu_with_program(&[ADDI_X1_5, ADDI_X2_256, SD_X1_8_X2, LD_X3_8_X2]);
    cpu.add_breakpoint(0x100);
    cpu.add_breakpoint(12);
    cpu.enable_tracing(true);
    assert_eq!(cpu.exec_continue(100), ExecEvent::Breakpoint(12));
    assert_eq!(cpu.get_num_exec_instr(), 3);
    assert!(cpu.tracing());
}

#[test]
fn law_untaken_compressed_branch_moves_pc_by_2() {
    let mut ram = Ram::new(0, 0x100);
    // c.beqz x8, +8 with x8 != 0: not taken
    ram.load_image(0, &[0x01, 0xc4]).unwrap();
    let mut bus = Bus::new();
    bus.attach_ram(ram);
    let mut cpu = RV64ICpu::new(bus);
    cpu.regs.x[8] = 1;
    cpu.exec_continue(1);
    assert_eq!(cpu.get_pc(), 2);
    assert_eq!(cpu.get_num_exec_instr(), 1);
}
