use kompusim::hexdump::hex_dump_text;
use kompusim::pmem::Pmem;
use kompusim::ram::Ram;
use kompusim::rv64i_disasm::reg_hex;
use kompusim::tui::{
    align16, align16_nonzero, classify_command, dump_mem, parse_command, parse_dm, parse_pr,
    print_instr_listing, CommandLine, TuiMenuCmd,
};

#[test]
pub fn test_pmem_dump() {
    let pmem = Pmem::default();
    let b = pmem.read8(0);
    assert!(b == 0)
}

#[test]
pub fn pmem_test_read32_le() {
    let mut m = Pmem::default();
    m.alloc_region(0, 1024);
    m.write8(0, 0xef);
    m.write8(1, 0xbe);
    m.write8(2, 0xad);
    m.write8(3, 0xde);
    let v: u32 = m.read32(0);
    assert!(v == 0xdeadbeef);
}

#[test]
fn test_tui_dm() {
    assert!(parse_dm("dm 0x1000 1000") == Some((0x1000, 1000)));
    assert!(parse_dm("dm 0x0 1") == Some((0x0, 1)));
    assert!(parse_dm("dm  0x2000   3000") == Some((0x2000, 3000)));
    assert!(parse_dm("dm 	 0x4000 	  10") == Some((0x4000, 10)));

    assert!(parse_pr("pr x1") == Some(1));
    assert!(parse_pr("pr s11") == Some(27));
    assert!(parse_pr("pr	    x15 ") == Some(15));
    assert!(parse_pr("pr x32") == None);

    assert!(parse_command("".to_string()) == None);
    assert!(parse_command("c".to_string()) == Some(TuiMenuCmd::Continue));
    assert!(
        parse_command("dm 0x800000c0 16".to_string()) == Some(TuiMenuCmd::DumpMem(0x800000c0, 16))
    );
    assert!(parse_command("li 16".to_string()) == Some(TuiMenuCmd::ListInstr(-4, 16)));

    assert!(reg_hex(0x1234_5678_9abc_def0) == "1234_5678_9abc_def0".to_string());
    assert!(reg_hex(0x1234) == "0000_0000_0000_1234".to_string());
    assert!(reg_hex(0xF234_0000_0000_0000) == "f234_0000_0000_0000".to_string());
}

#[test]
fn tui_align16() {
    assert_eq!(align16(0x1234), 0x1230);
    assert_eq!(align16(0xf), 0);
    assert_eq!(align16_nonzero(0xf), 16);
    assert_eq!(align16_nonzero(33), 32);
}

#[test]
fn tui_classify_command() {
    assert_eq!(classify_command(""), CommandLine::Empty);
    assert_eq!(classify_command("h"), CommandLine::Help);
    assert_eq!(classify_command("dm 0x10"), CommandLine::BadDumpMem);
    assert_eq!(classify_command("zz"), CommandLine::Unrecognized);
    assert_eq!(classify_command("s"), CommandLine::Cmd(TuiMenuCmd::Step));
    assert_eq!(classify_command("pr"), CommandLine::Cmd(TuiMenuCmd::PrintAllRegisters));
    assert_eq!(classify_command("li"), CommandLine::Cmd(TuiMenuCmd::ListInstr(-4, 10)));
}

#[test]
fn tui_dump_mem_lines() {
    let mut bytes: Vec<u8> = Vec::new();
    for i in 0..32u8 {
        bytes.push(0x30 + i);
    }
    let text = dump_mem(Some(&bytes[..]), 0x8000_0004, 32);
    let expected = "0000000080000000  30 31 32 33 34 35 36 37  38 39 3a 3b 3c 3d 3e 3f | 0123456789:;<=>? |\n\
                    0000000080000010  40 41 42 43 44 45 46 47  48 49 4a 4b 4c 4d 4e 4f ";
    assert_eq!(text, expected);
    assert_eq!(dump_mem(None, 0, 16), "Wrong address or size");
}

#[test]
fn hex_dump_short_last_line() {
    let bytes: Vec<u8> = vec![0x41, 0x00, 0x7f, 0x20, 0, 0, 0, 0, 0, 0, 0, 0, 0, 0, 0, 0];
    let text = hex_dump_text(&bytes[..], 0x100, 3, 16, true);
    let expected = format!(
        "0000000000000100  41 00 7f {}| A.. |\n0000000000000113 ",
        " ".repeat(1 + 3 * 13)
    );
    assert_eq!(text, expected);
}

#[test]
fn ram_dump_hex_starts_at_ram_start() {
    let mut ram = Ram::new(0x1000, 64);
    ram.write8(0x1000, 0x61);
    let text = ram.dump_hex(0x1005, 0);
    let expected = format!("0000000000001000 | {} |\n0000000000001010 ", "");
    assert_eq!(text, expected);
    let text = ram.dump_hex(0x1000, 1);
    let expected = format!(
        "0000000000001000  61 {}| a |\n0000000000001011 ",
        " ".repeat(1 + 3 * 15)
    );
    assert_eq!(text, expected);
}

#[test]
fn pmem_dump_hex_and_load() {
    let mut m = Pmem::default();
    m.alloc_region(0, 64);
    assert_eq!(m.load_bin_file(0, &[0x68, 0x69]), Ok(()));
    assert_eq!(m.read8(0), 0x68);
    assert_eq!(m.read8(1), 0x69);
    assert_eq!(m.load_bin_file(60, &[1, 2, 3, 4, 5]), Err("region is too small"));
    let text = m.dump_hex(0, 2);
    let expected = format!(
        "0000000000000000  68 69 {}| hi |\n0000000000000012 ",
        " ".repeat(1 + 3 * 14)
    );
    assert_eq!(text, expected);
}

#[test]
fn pmem_find_mem_region_mut_writes_through() {
    let mut m = Pmem::default();
    m.alloc_region(0, 16);
    if let Some(r) = m.find_mem_region_mut(2, 4) {
        r.m[2] = 7;
    }
    assert_eq!(m.read8(2), 7);
    assert!(m.find_mem_region_mut(8, 32).is_none());
    assert!(m.find_mem_region(0, 16).is_some());
}

#[test]
fn tui_listing_marks_pc() {
    let lines = print_instr_listing(vec![0x00000013, 0x00000013], 0x100, 0x104);
    assert_eq!(lines.len(), 2);
    assert!(lines[0].starts_with("  0x00000100 | 0x00000013 | "));
    assert!(lines[1].starts_with("→ 0x00000104 | 0x00000013 | "));
}

#[test]
fn tui_pr_a_registers_end_at_a7() {
    assert_eq!(parse_pr("pr a7"), Some(17));
    assert_eq!(parse_pr("pr a0"), Some(10));
    assert_eq!(parse_pr("pr a8"), None);
    assert_eq!(parse_pr("pr a30"), None);
}
