use kompusim::gui::{
    grid_row_reg, reg_hi_color, BaseURegs, DemoImage, InstrCache, InstrCacheIterator,
    InstrDecoder, InstrList, LoadDemo, RegHighlight, SimState, StatusControl, StatusControlCmd,
    DEFAULT_START_ADDRESS, EXE_INSTRUCTIONS_THEN_POLL, sim_action, sim_next_state, SimAction,
    SimCmdKind,
};
use kompusim::rv64i_cpu::RV64IURegs;
use kompusim::rv64i_disasm::disasm;

fn sample_bytes() -> Vec<u8> {
    vec![0x13, 0, 0, 0, 0x01, 0x00, 0x93, 0x00, 0x10, 0x00, 0x00, 0x00]
}

#[test]
fn gui_iterator_splits_instructions() {
    let mut it = InstrCacheIterator { instr_bytes: sample_bytes(), curr_addr: 0x100, curr_byte: 0 };
    assert_eq!(it.next(), Some((0x100, 0x0000_0013)));
    assert_eq!(it.next(), Some((0x104, 0x0001)));
    assert_eq!(it.next(), Some((0x106, 0x0010_0093)));
    assert_eq!(it.next(), Some((0x10a, 0x0000)));
    assert_eq!(it.next(), None);
}

#[test]
fn gui_iterator_drops_last_word_at_the_end() {
    let mut it = InstrCacheIterator { instr_bytes: vec![0x13, 0, 0, 0], curr_addr: 0, curr_byte: 0 };
    assert_eq!(it.next(), None);
}

#[test]
fn gui_instr_cache_rows() {
    let mut cache = InstrCache::default();
    let bytes = sample_bytes();
    cache.update_cache(0x100, &bytes);
    assert_eq!(cache.disasm.len(), 4);
    let (a, ah, ih, m) = cache.get_disasm(0);
    assert_eq!(a, 0x100);
    assert_eq!(ah, "0000_0000_0000_0100");
    assert_eq!(ih, "0000_0013");
    assert_eq!(m, disasm(0x13, 0x100));
    let (a, _, ih, _) = cache.get_disasm(1);
    assert_eq!(a, 0x104);
    assert_eq!(ih, "0001");
    // the same bytes at another address leave the cache as it was
    cache.update_cache(0x200, &bytes);
    assert_eq!(cache.start_address, 0x100);
}

#[test]
fn gui_status_buttons() {
    assert_eq!(StatusControl::buttons_enabled(SimState::Initializing), (false, false, false));
    assert_eq!(StatusControl::buttons_enabled(SimState::Running), (false, true, true));
    let mut sc = StatusControl::default();
    assert_eq!(
        sc.show_if_opened(SimState::Running, true, Some(StatusControlCmd::Run)),
        None
    );
    assert_eq!(
        sc.show_if_opened(SimState::Stopped, false, Some(StatusControlCmd::Run)),
        Some(StatusControlCmd::Run)
    );
    assert!(!sc.window_open);
    assert_eq!(sc.show_if_opened(SimState::Stopped, true, Some(StatusControlCmd::Step)), None);
    sc.open();
    assert!(sc.window_open);
}

#[test]
fn gui_register_highlight() {
    let used = (Some(3), Some(4), Some(3));
    assert_eq!(reg_hi_color(3, used), Some(RegHighlight::Written));
    assert_eq!(reg_hi_color(4, used), Some(RegHighlight::Read));
    assert_eq!(reg_hi_color(5, used), None);
}

#[test]
fn gui_register_rows() {
    let mut regs = RV64IURegs::default();
    regs.x[1] = 0x1234;
    regs.pc = 0x8000_0000;
    let (name, abi, val) = grid_row_reg(&regs, 1);
    assert_eq!(name, "x1");
    assert_eq!(abi, "ra");
    assert_eq!(val, "0000_0000_0000_1234");
    let mut w = BaseURegs::default();
    // addi x1, x0, 1
    let rows = w.show_if_opened(&regs, 0x0010_0093, true);
    assert_eq!(rows.len(), 33);
    assert_eq!(rows[1].3, Some(RegHighlight::Written));
    assert_eq!(rows[0].3, Some(RegHighlight::Read));
    assert_eq!(rows[32].0, "pc");
    assert_eq!(rows[32].2, "0000_0000_8000_0000");
    w.window_open = false;
    assert_eq!(w.show_if_opened(&regs, 0x0010_0093, true).len(), 0);
}

#[test]
fn gui_instr_decoder_refresh() {
    let mut d = InstrDecoder::default();
    d.show_if_opened(0x100, 0x0010_0093, true);
    assert_eq!(d.cached_instr_hex, "0010_0093");
    assert_eq!(d.cached_instr_disasm, disasm(0x0010_0093, 0x100));
    assert_eq!(d.cached_address, 0x100);
    d.show_if_opened(0x104, 0x13, false);
    assert!(!d.window_open);
    d.show_if_opened(0x108, 0x13, true);
    assert_eq!(d.cached_address, 0x104);
}

#[test]
fn gui_instr_list_follows_pc() {
    let mut l = InstrList::default();
    assert_eq!(l.get_start_addr(), DEFAULT_START_ADDRESS);
    assert_eq!(l.get_num_instr(), 64);
    let bytes = sample_bytes();
    l.show_if_opened((&bytes, 0x100), 0x200, true);
    assert_eq!(l.get_start_addr(), 0x200 - 8);
    l.show_if_opened((&bytes, 0x100), 0x104, true);
    assert_eq!(l.get_start_addr(), 0x200 - 8);
}

#[test]
fn gui_load_demo_pick() {
    let demo = DemoImage {
        name: "Empty binary",
        descriptoin: "One zero byte",
        load_address: 0x8000_0000,
        breakpoint: 0x8000_0014,
        image: b"\x00",
    };
    let mut ld = LoadDemo { window_open: true, demos: vec![demo], selected_demo: 0 };
    assert!(ld.show_pick_demo(true, false).is_none());
    assert!(ld.window_open);
    let picked = ld.show_pick_demo(true, true).unwrap();
    assert_eq!(picked.load_address, 0x8000_0000);
    assert!(!ld.window_open);
    assert!(ld.show_pick_demo(true, true).is_none());
}

#[test]
fn gui_simulator_decisions() {
    assert_eq!(
        sim_action(SimState::Running, SimCmdKind::NoCmd),
        SimAction::Execute(EXE_INSTRUCTIONS_THEN_POLL)
    );
    assert_eq!(sim_action(SimState::Stopped, SimCmdKind::NoCmd), SimAction::Nothing);
    assert_eq!(sim_action(SimState::Stopped, SimCmdKind::Step), SimAction::Execute(1));
    assert_eq!(sim_action(SimState::Stopped, SimCmdKind::Stop), SimAction::Exit);
    assert_eq!(sim_action(SimState::Stopped, SimCmdKind::Disasm), SimAction::Nothing);
    assert_eq!(
        sim_next_state(SimState::Running, SimCmdKind::NoCmd, true),
        (SimState::StoppedBreakpoint, true)
    );
    assert_eq!(
        sim_next_state(SimState::Running, SimCmdKind::NoCmd, false),
        (SimState::Running, false)
    );
    assert_eq!(
        sim_next_state(SimState::Stopped, SimCmdKind::Continue, false),
        (SimState::Running, false)
    );
    assert_eq!(
        sim_next_state(SimState::Stopped, SimCmdKind::Step, false),
        (SimState::Stopped, true)
    );
    assert_eq!(
        sim_next_state(SimState::InitializedReady, SimCmdKind::LoadImage, false),
        (SimState::Stopped, true)
    );
    assert_eq!(
        sim_next_state(SimState::Stopped, SimCmdKind::AddBreakpoint, false),
        (SimState::Stopped, false)
    );
}

#[test]
fn gui_follow_pc_low_pc_inside_cache() {
    let mut l = InstrList::default();
    let bytes = sample_bytes();
    // pc below 8 but inside the cached bytes: the wanted start stays
    l.follow_pc(&bytes, 0, 4);
    assert_eq!(l.get_start_addr(), DEFAULT_START_ADDRESS);
}
