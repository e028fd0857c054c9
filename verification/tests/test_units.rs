use kompusim::alu::{Imm, I12, I13, I21};
use kompusim::bits::BitOps;
use kompusim::bus::Bus;
use kompusim::rv64i_16b_dec::disasm_16b;
use kompusim::rv64i_dec::i_i_type_imm12;
use kompusim::rv64i_disasm::{disasm, hex_to_u64, u32_bin4};
use kompusim::rvc_disasm::disasm_rvc;

#[test]
fn alu_test_imm12() {
    assert!((u64::MAX).add_i12(I12::from(0_i16)) == u64::MAX);
    // overflow
    assert!((u64::MAX).add_i12(I12::from(1_i16)) == u64::MIN);

    assert!((u64::MAX).add_i12(I12::from(-1_i16)) == u64::MAX - 1);
    assert!((u64::MAX).add_i12(I12::from(0xfff_u16)) == u64::MAX - 1);

    assert!(5000_u64.add_i12(I12::from(0x800_u16)) == 5000 - 2048);
    assert!(5000_u64.add_i12(I12::from(-2048_i16)) == 5000 - 2048);

    assert!(5000_000_u64.add_i12(I12::from(0x7ff_u16)) == 5000_000 + 2047);

    assert!((u64::MAX).add_i12(I12::from_i16(0)) == u64::MAX);
    assert!((u64::MAX).add_i12(I12::from_i16(1)) == u64::MIN);
    assert!((u64::MAX).add_i12(I12::from_i16(-1)) == u64::MAX - 1);
    assert!((u64::MAX).add_i12(I12::from_u16(0xfff)) == u64::MAX - 1);
    assert!(5000_u64.add_i12(I12::from_u16(0x800)) == 5000 - 2048);
    assert!(5000_u64.add_i12(I12::from_i16(-2048)) == 5000 - 2048);
    assert!(5000_000_u64.add_i12(I12::from_u16(0x7ff)) == 5000_000 + 2047);
}

#[test]
fn alu_test_imm13() {
    assert!((u64::MAX).add_i13(I13::from(0_i16)) == u64::MAX);
    // overflow
    assert!((u64::MAX).add_i13(I13::from(1_i16)) == u64::MIN);

    assert!((u64::MAX).add_i13(I13::from(-1_i16)) == u64::MAX - 1);
    assert!((u64::MAX).add_i13(I13::from(0x1fff_u16)) == u64::MAX - 1);

    assert!(5000_u64.add_i13(I13::from(0x1000_u16)) == 5000 - 4096);
    assert!(5000_u64.add_i13(I13::from(-4096_i16)) == 5000 - 4096);

    assert!(5000_000_u64.add_i13(I13::from(0xfff_u16)) == 5000_000 + 4095);

    assert!((u64::MAX).add_i13(I13::from_i16(0)) == u64::MAX);
    assert!((u64::MAX).add_i13(I13::from_i16(1)) == u64::MIN);
    assert!((u64::MAX).add_i13(I13::from_i16(-1)) == u64::MAX - 1);
    assert!((u64::MAX).add_i13(I13::from_u16(0x1fff)) == u64::MAX - 1);
    assert!(5000_u64.add_i13(I13::from_u16(0x1000)) == 5000 - 4096);
    assert!(5000_u64.add_i13(I13::from_i16(-4096)) == 5000 - 4096);
    assert!(5000_000_u64.add_i13(I13::from_u16(0xfff)) == 5000_000 + 4095);
}

#[test]
fn alu_test_imm21() {
    assert!((u64::MAX).add_i21(I21::from(0_i32)) == u64::MAX);
    // overflow
    assert!((u64::MAX).add_i21(I21::from(1_i32)) == u64::MIN);

    assert!((u64::MAX).add_i21(I21::from(-1_i32)) == u64::MAX - 1);
    assert!((u64::MAX).add_i21(I21::from(0x1f_ffff_u32)) == u64::MAX - 1);

    assert!(5000_000_u64.add_i21(I21::from(0x10_0000_u32)) == 5000_000 - 1024 * 1024);
    assert!(5000_000_u64.add_i21(I21::from(-1024_i32 * 1024)) == 5000_000 - 1024 * 1024);

    assert!(5000_000_u64.add_i21(I21::from(0x7ff)) == 5000_000 + 2047);

    assert!((u64::MAX).add_i21(I21::from_i32(0)) == u64::MAX);
    assert!((u64::MAX).add_i21(I21::from_i32(1)) == u64::MIN);
    assert!((u64::MAX).add_i21(I21::from_i32(-1)) == u64::MAX - 1);
    assert!((u64::MAX).add_i21(I21::from_u32(0x1f_ffff)) == u64::MAX - 1);
    assert!(5000_000_u64.add_i21(I21::from_u32(0x10_0000)) == 5000_000 - 1024 * 1024);
    assert!(5000_000_u64.add_i21(I21::from_i32(-1024 * 1024)) == 5000_000 - 1024 * 1024);
    assert!(5000_000_u64.add_i21(I21::from_u32(0x7ff)) == 5000_000 + 2047);
}

#[test]
fn test_bit_ops() {
    // test keyword 'as'
    assert!(-1_i32 as u32 == u32::MAX);

    // u8
    assert!(0b_0000_1100_u8.bits(3, 2) == 0x3_u8);
    assert!(0b_0000_1100_u8.bits(7, 0) == 0xc_u8);
    assert!(0b_1111_1111_u8.bits(7, 7) == 0x1_u8);

    // .bit()
    assert!(0b_0001_u16.bit(0));
    assert!(!0b_0001_u16.bit(1));
    assert!(!0b_0001_u16.bit(15));

    // u16
    assert!(0b_00000000_00000111_u16.bits(2, 0) == 0b_111_u16);
    assert!(0b_00000000_00000110_u16.bits(2, 1) == 0b_11_u16);
    assert!(0b_10000000_00000000_u16.bits(15, 15) == 1_u16);
    assert!(0xffff_u16.bits(15, 0) == 0xffff_u16);
    assert!(0b_0110_u16.bits(2, 1) != 0b_01_u16);
    assert!(0xffff_u16.bits(15, 0) != 0xfffe_u16);
    // xor
    assert!(0xffff_u16.xor(11, 8) == 0xf0ff);
    assert!(0xffff_u16.xor(3, 0) == 0xfff0);
    assert!(0x0000_u16.xor(7, 7) == 0x0080);
    assert!(0x0000_u16.xor(15, 15) == 0x8000);
    assert!(0xaaaa_u16.xor(15, 0) == 0x5555);

    // i16
    assert_eq!(1_i16.bits(0, 0), 1);
    assert_eq!(0xa5_i16.bits(7, 4), 0xa);
    assert_eq!(0x33_i16.bits(1, 1), 1);
    assert_eq!(0x33_i16.bits(5, 5), 1);
    assert_eq!((-1_i16).bits(15, 0), -1);

    // u32
    assert!(0xffff_ff0f_u32.bits(11, 0) == 0xf0f_u32);
    assert!(0x8fff_0f0f_u32.bits(31, 31) == 1_u32);

    assert!(0b0010_1001_1000_0110_0011.bits(14, 12) == 0b_001_u32);
    //              ^^^
    assert!(0xffff_ffff_u32.xor(11, 8) == 0xffff_f0ff_u32);
    assert!(0xffff_ffff_u32.xor(3, 0) == 0xffff_fff0_u32);
    assert!(0x0000_8000_u32.xor(15, 15) == 0);
    assert!(0xaaaa_5555_u32.xor(15, 0) == 0xaaaa_aaaa_u32);
    assert!(0xaaaa_5555_u32.xor(31, 0) == 0x5555_aaaa_u32);
    assert!(0xffff_ffff_u32.xor(0, 0) == 0xffff_fffe_u32);

    // u64
    assert!(u64::MAX.bits(11, 0) == 0xfff_u64);
    assert!(u64::MAX.xor(0, 0) == 0xffff_ffff_ffff_fffe);
    assert!(u64::MAX.rst_bits(0, 0) == 0xffff_ffff_ffff_fffe);
}

#[test]
fn test_u16_bit() {
    assert!(0b_0001_u16.bit(0) == true);
    assert!(0b_0001_u16.bit(1) == false);
    assert!(0b_0001_u16.bit(15) == false);

    // u16
    assert!(0b_00000000_00000111_u16.bits(2, 0) == 0b_111_u16);
    assert!(0b_00000000_00000110_u16.bits(2, 1) == 0b_11_u16);
    assert!(0b_10000000_00000000_u16.bits(15, 15) == 1_u16);
    assert!(0xffff_u16.bits(15, 0) == 0xffff_u16);
    assert!(0b_0110_u16.bits(2, 1) != 0b_01_u16);
    assert!(0xffff_u16.bits(15, 0) != 0xfffe_u16);
    // xor
    assert!(0xffff_u16.xor(11, 8) == 0xf0ff);
    assert!(0xffff_u16.xor(3, 0) == 0xfff0);
    assert!(0x0000_u16.xor(7, 7) == 0x0080);
    assert!(0x0000_u16.xor(15, 15) == 0x8000);
    assert!(0xaaaa_u16.xor(15, 0) == 0x5555);

    // u32
    assert!(0xffff_ff0f_u32.bits(11, 0) == 0xf0f_u32);
    assert!(0x8fff_0f0f_u32.bits(31, 31) == 1_u32);

    assert!(0b0010_1001_1000_0110_0011.bits(14, 12) == 0b_001_u32);
    //              ^^^
    assert!(0xffff_ffff_u32.xor(11, 8) == 0xffff_f0ff_u32);
    assert!(0xffff_ffff_u32.xor(3, 0) == 0xffff_fff0_u32);
    assert!(0x0000_8000_u32.xor(15, 15) == 0);
    assert!(0xaaaa_5555_u32.xor(15, 0) == 0xaaaa_aaaa_u32);
    assert!(0xaaaa_5555_u32.xor(31, 0) == 0x5555_aaaa_u32);
}

#[test]
pub fn bus_test_ram_read_write() {
    let mut bus = Bus::new_with_ram(0, 4 * 1024);
    assert!(bus.read8(0) == 0);
    bus.write8(1, 0x55);
    assert!(bus.read8(1) == 0x55)
}

#[test]
pub fn bus_test_read32_le() {
    let mut bus = Bus::new_with_ram(0, 4 * 1024);
    bus.write8(0, 0xef);
    bus.write8(1, 0xbe);
    bus.write8(2, 0xad);
    bus.write8(3, 0xde);
    let v: u32 = bus.read32(0);
    assert!(v == 0xdeadbeef);
}

#[test]
pub fn test_write32_le() {
    let mut bus = Bus::new_with_ram(0, 4 * 1024);
    bus.write32(0, 0x_dead_beef);
    assert!(bus.read8(0) == 0xef);
    assert!(bus.read8(1) == 0xbe);
    assert!(bus.read8(2) == 0xad);
    assert!(bus.read8(3) == 0xde);
}

#[test]
fn test_load_image_from_static() {
    let bin = [0x55_u8; 1024];
    let mut bus = Bus::new_with_ram(0, 4 * 1024);
    bus.load_image(0x4, &bin).unwrap();
    assert!(bus.read32(0x4) == 0x5555_5555);
    assert!(bus.read32(0x0) == 0x0000_0000);
}

#[test]
fn rv64i_cpu_test_instr_decode_immidiates() {
    let imm12 = i_i_type_imm12(0xffff_ffff);
    assert!(imm12.0 == -1);

    let imm12 = i_i_type_imm12(0x800f_ffff);
    assert!(imm12.0 == -2048);

    let imm12 = i_i_type_imm12(0x0fff_ffff);
    assert!(imm12.0 == 255);
}

#[test]
fn test_u32_bin4() {
    assert_eq!(
        u32_bin4(0x_1234_abcd),
        "0001_0010_0011_0100_1010_1011_1100_1101".to_string()
    );
    assert_eq!(
        u32_bin4(0x_ffff_a5a5),
        "1111_1111_1111_1111_1010_0101_1010_0101".to_string()
    );
    assert_eq!(hex_to_u64("0x1234abcd").unwrap(), 0x1234_abcd);
    assert_eq!(hex_to_u64("0x1234_abcd").unwrap(), 0x1234_abcd);
    assert_eq!(
        hex_to_u64("0x0101_1234_abcd0000").unwrap(),
        0x0101_1234_abcd_0000
    );
    assert_eq!(hex_to_u64("__1__").unwrap(), 0x0000_0000_0000_0001);
}

#[test]
fn test_disasm() {
    assert_eq!(disasm(0x_fcc4_6783, 0x0), "lwu x15, -52(x8)");
    assert_eq!(disasm(0x_0002_b303, 0x0), "ld x6, 0(x5)");
    assert_eq!(disasm(0x_fd84_3783, 0x0), "ld x15, -40(x8)");
    assert_eq!(disasm(0x_fef4_3423, 0x0), "sd x15, -24(x8)");
    assert_eq!(disasm(0x_0330_000f, 0x0), "fence rw, rw");
    assert_eq!(disasm(0x_3400_5073, 0x0), "csrrwi x0, mscratch, 0");
    assert_eq!(disasm(0x_3052_10f3, 0x0), "csrrw x1, mtvec, x4");
    assert_eq!(disasm(0x_0187_979b, 0x0), "slliw x15, x15, 0x18");
    assert_eq!(disasm(0x_01f6_d71b, 0x0), "srliw x14, x13, 0x1f");
    assert_eq!(disasm(0x_0007_d563, 0x1f30a), "bge x15, x0, 0x1f314");
    assert_eq!(
        disasm(0x_04e7_f563, 0x_8001_dd5a),
        "bgeu x15, x14, 0x8001dda4"
    );
    assert_eq!(
        disasm(0x_00e7_e463, 0x_8001_dd3e),
        "bltu x15, x14, 0x8001dd46"
    );
    assert_eq!(disasm(0x_40f7_07bb, 0x0), "subw x15, x14, x15");
    assert_eq!(disasm(0x_0027_9713, 0x0), "slli x14, x15, 0x2");
    assert_eq!(disasm(0x_8006b713, 0x0), "sltiu x14, x13, -2048");
    assert_eq!(disasm(0x_f0f6c713, 0x0), "xori x14, x13, -241");
    assert_eq!(disasm(0x_70f6_f713, 0x0), "andi x14, x13, 1807");
    assert_eq!(disasm(0x_1050_0073, 0x0), "wfi");
}

#[test]
fn test_disasm_rvc_cli() {
    assert_eq!(disasm_rvc(0x_4085, 0x0), "c.li x1, 1".to_owned());
    assert_eq!(disasm_rvc(0x_517d, 0x0), "c.li x2, -1".to_string());
    assert_eq!(disasm_rvc(0x_8082, 0x0), "c.jr x1".to_string());
    assert_eq!(disasm_rvc(0x_9086, 0x0), "c.add x1, x1".to_string());
    assert_eq!(disasm_rvc(0x_9fb9, 0x0), "c.addw x15, x14".to_string());
    assert_eq!(disasm_rvc(0x_9f99, 0x0), "c.subw x15, x14".to_string());
    assert_eq!(disasm_rvc(0x_037e, 0x0), "c.slli x6, 0x1f".to_string());
    assert_eq!(disasm_rvc(0x_9301, 0x0), "c.srli x14, 0x20".to_string());
    assert_eq!(disasm_rvc(0x_a001, 0x0), "c.j 0".to_string());
    assert_eq!(disasm_rvc(0x_b7ed, 0x8000003a), "c.j 80000024".to_string());
    assert_eq!(disasm_rvc(0x_0505, 0x0), "c.addi x10, 1".to_string());
    assert_eq!(disasm_rvc(0x_60fd, 0x0), "c.lui x1, 0x1f");
    assert_eq!(disasm_rvc(0x_7175, 0x0), "c.addi16sp x2, -144");
    assert_eq!(disasm_rvc(0x_e122, 0x0), "c.sdsp x8, 128(x2)");
    assert_eq!(disasm_rvc(0x_6422, 0x0), "c.ldsp x8, 8(x2)");
    assert_eq!(disasm_rvc(0x_0900, 0x0), "c.addi4spn x8, x2, 144");
    assert_eq!(disasm_rvc(0x_892e, 0x0), "c.mv x18, x11");
    assert_eq!(disasm_rvc(0x_cf81, 0x_8000_3700), "c.beqz x15, 0x80003718");
    assert_eq!(disasm_rvc(0x_fbfd, 0x_8000_3710), "c.bnez x15, 0x80003706");
    assert_eq!(disasm_rvc(0x_2781, 0x0), "c.addiw x15, 0");
    assert_eq!(disasm_rvc(0x_8fd9, 0x0), "c.or x15, x14");
    assert_eq!(disasm_rvc(0x_8ff5, 0x0), "c.and x15, x13");
    assert_eq!(disasm_rvc(0x_8b9d, 0x0), "c.andi x15, 7");
    assert_eq!(disasm_rvc(0x_7d3c, 0x0), "c.ld x15, 120(x10)");
    assert_eq!(disasm_rvc(0x_c7d8, 0x0), "c.sw x14, 12(x15)");
    assert_eq!(disasm_rvc(0x_fff8, 0x0), "c.sd x14, 248(x15)");
    assert_eq!(disasm_rvc(0x_4ffc, 0x0), "c.lw x15, 92(x15)");
}

#[test]
fn test_disasm_16b_cli() {
    assert_eq!(disasm_16b(0x_4085, 0x0), "c.li x1, 1".to_owned());
    assert_eq!(disasm_16b(0x_517d, 0x0), "c.li x2, -1".to_owned())
}
