//! What the windows of the graphical front end show and remember, apart from drawing.
use crate::rv64i_cpu::{low16, RV64IURegs};
use crate::rv64i_disasm::{
    asm_text, disasm, disasm_get_used_regs, instr_hex, reg_hex, reg_idx2abi, rv64i_used_regs,
    u32_bin4, u32_bin4_text, u32_hex4, u32_hex4_text, u64_hex4, u64_hex4_text, abi_name,
};
use crate::rvc_disasm::rvc_used_regs;
use vstd::string::StringExecFns;
use crate::ram::le32_from_bytes;
use crate::rvc_dec::{instr_is_rvc, is_rvc};
use crate::text::{hex_str, pad0, push_reg, reg_name};
use vstd::prelude::*;

verus! {

/// Where the simulator is in its life.
#[derive(PartialEq, Eq, Debug, Clone, Copy)]
pub enum SimState {
    /// The simulator transitions to Initialized state after first init phase
    Initializing,
    InitializedReady,
    StoppedBreakpoint,
    Stopped,
    Running,
}

/// The number of instructions the simulator runs before it looks for a new command.
pub const EXE_INSTRUCTIONS_THEN_POLL: u64 = 102400;

/// A command sent to the simulator loop, without its arguments.
#[derive(PartialEq, Eq, Debug, Clone, Copy)]
pub enum SimCmdKind {
    /// No command came while running.
    NoCmd,
    Continue,
    Step,
    Stop,
    LoadImage,
    Disasm,
    SetRamSz,
    AddBreakpoint,
}

/// What the simulator loop does with the CPU for a command.
#[derive(PartialEq, Eq, Debug, Clone, Copy)]
pub enum SimAction {
    /// Leave the CPU as it is.
    Nothing,
    /// Run up to this many instructions.
    Execute(u64),
    /// Leave the loop.
    Exit,
}

/// What the simulator loop does with the CPU on command `cmd` in state `state`: running
/// goes on in chunks while no command comes, `Continue` starts a chunk, `Step` runs one
/// instruction, `Stop` leaves; the other commands do not run the CPU.
pub fn sim_action(state: SimState, cmd: SimCmdKind) -> (r: SimAction)
    ensures
        r == match cmd {
            SimCmdKind::NoCmd => if state == SimState::Running {
                SimAction::Execute(EXE_INSTRUCTIONS_THEN_POLL)
            } else {
                SimAction::Nothing
            },
            SimCmdKind::Continue => SimAction::Execute(EXE_INSTRUCTIONS_THEN_POLL),
            SimCmdKind::Step => SimAction::Execute(1),
            SimCmdKind::Stop => SimAction::Exit,
            _ => SimAction::Nothing,
        },
{
    match cmd {
        SimCmdKind::NoCmd => match state {
            SimState::Running => SimAction::Execute(EXE_INSTRUCTIONS_THEN_POLL),
            _ => SimAction::Nothing,
        },
        SimCmdKind::Continue => SimAction::Execute(EXE_INSTRUCTIONS_THEN_POLL),
        SimCmdKind::Step => SimAction::Execute(1),
        SimCmdKind::Stop => SimAction::Exit,
        _ => SimAction::Nothing,
    }
}

/// The simulator's state after command `cmd` in state `state`, given whether the run it made
/// stopped at a breakpoint, and whether the front end is told of the new state: a run that
/// hits a breakpoint stops there, `Continue` otherwise leaves it running, a step and a loaded
/// image leave it stopped.
pub fn sim_next_state(state: SimState, cmd: SimCmdKind, hit_breakpoint: bool) -> (r: (
    SimState,
    bool,
))
    ensures
        r == match cmd {
            SimCmdKind::NoCmd => if state == SimState::Running && hit_breakpoint {
                (SimState::StoppedBreakpoint, true)
            } else {
                (state, false)
            },
            SimCmdKind::Continue => if hit_breakpoint {
                (SimState::StoppedBreakpoint, true)
            } else {
                (SimState::Running, false)
            },
            SimCmdKind::Step => (SimState::Stopped, true),
            SimCmdKind::LoadImage => (SimState::Stopped, true),
            _ => (state, false),
        },
{
    match cmd {
        SimCmdKind::NoCmd => match state {
            SimState::Running => if hit_breakpoint {
                (SimState::StoppedBreakpoint, true)
            } else {
                (state, false)
            },
            _ => (state, false),
        },
        SimCmdKind::Continue => if hit_breakpoint {
            (SimState::StoppedBreakpoint, true)
        } else {
            (SimState::Running, false)
        },
        SimCmdKind::Step => (SimState::Stopped, true),
        SimCmdKind::LoadImage => (SimState::Stopped, true),
        _ => (state, false),
    }
}

/// A command given with the buttons of the status window.
#[derive(PartialEq, Eq, Debug, Clone, Copy)]
pub enum StatusControlCmd {
    Run,
    Stop,
    Step,
}

/// The status and control window.
pub struct StatusControl {
    /// Is window open or not
    pub window_open: bool,
}

impl Default for StatusControl {
    fn default() -> (r: Self)
        ensures
            r.window_open,
    {
        StatusControl { window_open: true }
    }
}

impl StatusControl {
    pub fn open(&mut self)
        ensures
            final(self).window_open,
    {
        self.window_open = true;
    }

    /// Which of the Run, Stop and Step buttons can be pressed in `sim_state`.
    pub fn buttons_enabled(sim_state: SimState) -> (r: (bool, bool, bool))
        ensures
            r == match sim_state {
                SimState::Initializing => (false, false, false),
                SimState::InitializedReady => (true, false, true),
                SimState::Running => (false, true, true),
                SimState::Stopped => (true, false, true),
                SimState::StoppedBreakpoint => (true, false, true),
            },
    {
        match sim_state {
            SimState::Initializing => (false, false, false),
            SimState::InitializedReady => (true, false, true),
            SimState::Running => (false, true, true),
            SimState::Stopped => (true, false, true),
            SimState::StoppedBreakpoint => (true, false, true),
        }
    }
}

/// The command a click on the button of `clicked` gives in `sim_state`: none where the
/// button is disabled.
pub open spec fn enabled_click(sim_state: SimState, clicked: Option<StatusControlCmd>) -> Option<
    StatusControlCmd,
> {
    let (run, stop, step) = match sim_state {
        SimState::Initializing => (false, false, false),
        SimState::InitializedReady => (true, false, true),
        SimState::Running => (false, true, true),
        SimState::Stopped => (true, false, true),
        SimState::StoppedBreakpoint => (true, false, true),
    };
    match clicked {
        Some(StatusControlCmd::Run) => if run {
            Some(StatusControlCmd::Run)
        } else {
            None
        },
        Some(StatusControlCmd::Stop) => if stop {
            Some(StatusControlCmd::Stop)
        } else {
            None
        },
        Some(StatusControlCmd::Step) => if step {
            Some(StatusControlCmd::Step)
        } else {
            None
        },
        None => None,
    }
}

impl StatusControl {
    /// One frame of the window, given what the user did in it: whether it is still open and
    /// which button was clicked. Gives the command of an enabled button; a closed window gives
    /// none and stays as it is.
    pub fn show_if_opened(
        &mut self,
        sim_state: SimState,
        window_opened: bool,
        clicked: Option<StatusControlCmd>,
    ) -> (r: Option<StatusControlCmd>)
        ensures
            !old(self).window_open ==> r is None && final(self).window_open == old(self).window_open,
            old(self).window_open ==> r == enabled_click(sim_state, clicked)
                && final(self).window_open == window_opened,
    {
        if !self.window_open {
            return None;
        }
        let (run_btn_en, stop_btn_en, step_btn_en) = StatusControl::buttons_enabled(sim_state);
        let command = match clicked {
            Some(StatusControlCmd::Run) => if run_btn_en {
                Some(StatusControlCmd::Run)
            } else {
                None
            },
            Some(StatusControlCmd::Stop) => if stop_btn_en {
                Some(StatusControlCmd::Stop)
            } else {
                None
            },
            Some(StatusControlCmd::Step) => if step_btn_en {
                Some(StatusControlCmd::Step)
            } else {
                None
            },
            None => None,
        };
        self.window_open = window_opened;
        command
    }
}

/// The window of the base unprivileged integer registers.
pub struct BaseURegs {
    /// Is window open or not
    pub window_open: bool,
}

impl Default for BaseURegs {
    fn default() -> (r: Self)
        ensures
            r.window_open,
    {
        BaseURegs { window_open: true }
    }
}

impl BaseURegs {
    pub fn open(&mut self)
        ensures
            final(self).window_open,
    {
        self.window_open = true;
    }
}

/// How a register is highlighted: the one written, or one read.
#[derive(PartialEq, Eq, Debug, Clone, Copy)]
pub enum RegHighlight {
    Written,
    Read,
}

/// The highlight of register `reg_idx`, given the registers an instruction uses
/// (read, read, written); writing wins over reading.
pub open spec fn reg_highlight(reg_idx: u8, in_out_regs: (Option<u8>, Option<u8>, Option<u8>)) -> Option<
    RegHighlight,
> {
    if in_out_regs.2 == Some(reg_idx) {
        Some(RegHighlight::Written)
    } else if in_out_regs.0 == Some(reg_idx) || in_out_regs.1 == Some(reg_idx) {
        Some(RegHighlight::Read)
    } else {
        None
    }
}

/// The highlight of register `reg_idx`, given the registers an instruction uses
/// (read, read, written).
pub fn reg_hi_color(reg_idx: u8, in_out_regs: (Option<u8>, Option<u8>, Option<u8>)) -> (r: Option<
    RegHighlight,
>)
    ensures
        r == reg_highlight(reg_idx, in_out_regs),
{
    if let Some(write_reg) = in_out_regs.2 {
        if write_reg == reg_idx {
            return Some(RegHighlight::Written);
        }
    }
    if let Some(read_reg0) = in_out_regs.0 {
        if read_reg0 == reg_idx {
            return Some(RegHighlight::Read);
        }
    }
    if let Some(read_reg1) = in_out_regs.1 {
        if read_reg1 == reg_idx {
            return Some(RegHighlight::Read);
        }
    }
    None
}

/// The three cells of a register's row: its name, its ABI name and its value.
pub fn grid_row_reg(regs: &RV64IURegs, ri: u8) -> (r: (String, &'static str, String))
    requires
        ri < 32,
    ensures
        r.0@ == reg_name(ri),
        r.1@ == abi_name(ri),
        r.2@ == u64_hex4_text(regs.x@[ri as int]),
{
    let mut name = String::new();
    push_reg(&mut name, ri);
    assert(name@ =~= reg_name(ri));
    (name, reg_idx2abi(ri), reg_hex(regs.x[ri as usize]))
}

/// The row of register `ri` in the register window: its name, ABI name and value, and its
/// highlight for an instruction using `used` registers.
pub open spec fn reg_row(regs: &RV64IURegs, ri: u8, used: (Option<u8>, Option<u8>, Option<u8>)) -> (
    Seq<char>,
    Seq<char>,
    Seq<char>,
    Option<RegHighlight>,
) {
    (reg_name(ri), abi_name(ri), u64_hex4_text(regs.x@[ri as int]), reg_highlight(ri, used))
}

impl BaseURegs {
    /// One frame of the window, given whether the user left it open: the rows of `x0`-`x31`
    /// and of the PC, highlighted for the registers that `instr` uses; a closed window shows
    /// nothing and stays as it is.
    pub fn show_if_opened(&mut self, regs: &RV64IURegs, instr: u32, window_opened: bool) -> (r: Vec<
        (String, &'static str, String, Option<RegHighlight>),
    >)
        ensures
            !old(self).window_open ==> r@.len() == 0 && final(self).window_open == old(
                self,
            ).window_open,
            old(self).window_open ==> {
                &&& final(self).window_open == window_opened
                &&& r@.len() == 33
                &&& forall|i: int|
                    0 <= i < 32 ==> {
                        let row = #[trigger] r@[i];
                        (row.0@, row.1@, row.2@, row.3) == reg_row(
                            regs,
                            i as u8,
                            if is_rvc(instr) {
                                rvc_used_regs(low16(instr))
                            } else {
                                rv64i_used_regs(instr)
                            },
                        )
                    }
                &&& r@[32].0@ == "pc"@
                &&& r@[32].1@ == ""@
                &&& r@[32].2@ == u64_hex4_text(regs.pc)
                &&& r@[32].3 is None
            },
    {
        let mut rows: Vec<(String, &'static str, String, Option<RegHighlight>)> = Vec::new();
        if !self.window_open {
            return rows;
        }
        let used_regs = disasm_get_used_regs(instr);
        let mut i: u8 = 0;
        while i < 32
            invariant
                i <= 32,
                rows@.len() == i,
                used_regs == if is_rvc(instr) {
                    rvc_used_regs(low16(instr))
                } else {
                    rv64i_used_regs(instr)
                },
                forall|k: int|
                    0 <= k < i ==> {
                        let row = #[trigger] rows@[k];
                        (row.0@, row.1@, row.2@, row.3) == reg_row(regs, k as u8, used_regs)
                    },
            decreases 32 - i,
        {
            let (name, abi, val) = grid_row_reg(regs, i);
            rows.push((name, abi, val, reg_hi_color(i, used_regs)));
            i = i + 1;
        }
        rows.push((String::from_str("pc"), "", reg_hex(regs.pc), None));
        self.window_open = window_opened;
        rows
    }
}

/// The instruction decoder window, with the texts of the instruction it last showed.
pub struct InstrDecoder {
    /// Is window open or not
    pub window_open: bool,
    pub cached_address: u64,
    pub cached_instruction: u32,
    pub cached_instr_hex: String,
    pub cached_instr_disasm: String,
    pub cached_instr_binary: String,
}

impl Default for InstrDecoder {
    fn default() -> (r: Self)
        ensures
            r.window_open,
            r.cached_address == 0,
            r.cached_instruction == 0,
            r.cached_instr_hex@ == Seq::<char>::empty(),
            r.cached_instr_disasm@ == Seq::<char>::empty(),
            r.cached_instr_binary@ == Seq::<char>::empty(),
    {
        InstrDecoder {
            window_open: true,
            cached_address: 0,
            cached_instruction: 0,
            cached_instr_hex: String::new(),
            cached_instr_disasm: String::new(),
            cached_instr_binary: String::new(),
        }
    }
}

impl InstrDecoder {
    pub fn open(&mut self)
        ensures
            final(self).window_open,
            final(self).cached_address == old(self).cached_address,
            final(self).cached_instruction == old(self).cached_instruction,
    {
        self.window_open = true;
    }

    /// Brings the texts up to date for `instruction` at `address`; they are computed again only
    /// when either changed.
    pub fn refresh(&mut self, address: u64, instruction: u32)
        ensures
            final(self).window_open == old(self).window_open,
            final(self).cached_address == address,
            final(self).cached_instruction == instruction,
            (address != old(self).cached_address || instruction != old(self).cached_instruction)
                ==> {
                &&& final(self).cached_instr_hex@ == u32_hex4_text(instruction)
                &&& final(self).cached_instr_disasm@ == asm_text(instruction, address)
                &&& final(self).cached_instr_binary@ == u32_bin4_text(instruction)
            },
            (address == old(self).cached_address && instruction == old(self).cached_instruction)
                ==> {
                &&& final(self).cached_instr_hex@ == old(self).cached_instr_hex@
                &&& final(self).cached_instr_disasm@ == old(self).cached_instr_disasm@
                &&& final(self).cached_instr_binary@ == old(self).cached_instr_binary@
            },
    {
        if address != self.cached_address || instruction != self.cached_instruction {
            self.cached_instr_hex = u32_hex4(instruction);
            self.cached_instr_disasm = disasm(instruction, address);
            self.cached_instr_binary = u32_bin4(instruction);
            self.cached_address = address;
            self.cached_instruction = instruction;
        }
    }
}

impl InstrDecoder {
    /// One frame of the window, given whether the user left it open: an open window brings its
    /// texts up to date for `instruction` at `address`; a closed one changes nothing else.
    pub fn show_if_opened(&mut self, address: u64, instruction: u32, window_opened: bool)
        ensures
            final(self).window_open == if old(self).window_open {
                window_opened
            } else {
                false
            },
            old(self).window_open ==> final(self).cached_address == address
                && final(self).cached_instruction == instruction,
            old(self).window_open && (address != old(self).cached_address || instruction != old(
                self,
            ).cached_instruction) ==> {
                &&& final(self).cached_instr_hex@ == u32_hex4_text(instruction)
                &&& final(self).cached_instr_disasm@ == asm_text(instruction, address)
                &&& final(self).cached_instr_binary@ == u32_bin4_text(instruction)
            },
            !old(self).window_open || (address == old(self).cached_address && instruction == old(
                self,
            ).cached_instruction) ==> {
                &&& final(self).cached_instr_hex@ == old(self).cached_instr_hex@
                &&& final(self).cached_instr_disasm@ == old(self).cached_instr_disasm@
                &&& final(self).cached_instr_binary@ == old(self).cached_instr_binary@
            },
            !old(self).window_open ==> final(self).cached_address == old(self).cached_address
                && final(self).cached_instruction == old(self).cached_instruction,
    {
        if self.window_open {
            self.refresh(address, instruction);
            self.window_open = window_opened;
        }
    }
}

/// The address where the instruction list starts by default.
pub const DEFAULT_START_ADDRESS: u64 = 0x8000_0000;

/// Whether the word at `pos` of `bytes` starts a 32-bit (not compressed) instruction.
pub open spec fn starts_32b(bytes: Seq<u8>, pos: int) -> bool {
    bytes[pos] % 4 == 3
}

/// Whether the instructions of `bytes` from `pos` on can be read: none of them is a
/// compressed one cut off by the end of the bytes.
pub open spec fn split_ok(bytes: Seq<u8>, addr: u64, pos: int) -> bool
    decreases bytes.len() - pos,
{
    if pos < 0 || pos >= bytes.len() {
        true
    } else if starts_32b(bytes, pos) {
        pos + 4 >= bytes.len() || (addr + 4 <= u64::MAX && split_ok(bytes, (addr + 4) as u64, pos + 4))
    } else {
        pos + 1 < bytes.len() && addr + 2 <= u64::MAX && split_ok(bytes, (addr + 2) as u64, pos + 2)
    }
}

/// The instructions of `bytes` from `pos` on, each with its address (`addr` for the first):
/// a 32-bit one needs a byte beyond its own four, else the listing ends there.
pub open spec fn split_instrs(bytes: Seq<u8>, addr: u64, pos: int) -> Seq<(u64, u32)>
    decreases bytes.len() - pos,
{
    if pos < 0 || pos >= bytes.len() {
        Seq::empty()
    } else if starts_32b(bytes, pos) {
        if pos + 4 >= bytes.len() {
            Seq::empty()
        } else {
            seq![
                (
                    addr,
                    (bytes[pos] + bytes[pos + 1] * 0x100 + bytes[pos + 2] * 0x1_0000 + bytes[pos
                        + 3] * 0x100_0000) as u32,
                ),
            ] + split_instrs(bytes, (addr + 4) as u64, pos + 4)
        }
    } else if pos + 2 > bytes.len() {
        Seq::empty()
    } else {
        seq![(addr, (bytes[pos] + bytes[pos + 1] * 0x100) as u32)] + split_instrs(
            bytes,
            (addr + 2) as u64,
            pos + 2,
        )
    }
}

/// Walks instruction bytes and gives each instruction with its address.
pub struct InstrCacheIterator {
    pub instr_bytes: Vec<u8>,
    pub curr_addr: u64,
    pub curr_byte: usize,
}

impl InstrCacheIterator {
    /// The 32-bit instruction at the current byte.
    fn get_instr(&self) -> (r: u32)
        requires
            self.curr_byte + 4 <= self.instr_bytes.len(),
        ensures
            r == (self.instr_bytes@[self.curr_byte as int] + self.instr_bytes@[self.curr_byte + 1]
                * 0x100 + self.instr_bytes@[self.curr_byte + 2] * 0x1_0000 + self.instr_bytes@[
                self.curr_byte + 3] * 0x100_0000) as u32,
    {
        let c = self.curr_byte;
        le32_from_bytes(
            self.instr_bytes[c] as u32,
            self.instr_bytes[c + 1] as u32,
            self.instr_bytes[c + 2] as u32,
            self.instr_bytes[c + 3] as u32,
        )
    }

    /// The 16-bit compressed instruction at the current byte.
    fn get_rvc_instr(&self) -> (r: u32)
        requires
            self.curr_byte + 2 <= self.instr_bytes.len(),
        ensures
            r == (self.instr_bytes@[self.curr_byte as int] + self.instr_bytes@[self.curr_byte + 1]
                * 0x100) as u32,
    {
        let c = self.curr_byte;
        le32_from_bytes(self.instr_bytes[c] as u32, self.instr_bytes[c + 1] as u32, 0, 0)
    }

    /// Whether the current byte starts a 32-bit instruction.
    fn instr_is_32b(&self) -> (r: bool)
        requires
            self.curr_byte < self.instr_bytes@.len(),
        ensures
            r == starts_32b(self.instr_bytes@, self.curr_byte as int),
    {
        !instr_is_rvc(self.instr_bytes[self.curr_byte] as u32)
    }

    /// The next instruction and its address.
    pub fn next(&mut self) -> (r: Option<(u64, u32)>)
        requires
            split_ok(old(self).instr_bytes@, old(self).curr_addr, old(self).curr_byte as int),
        ensures
            final(self).instr_bytes@ == old(self).instr_bytes@,
            split_ok(final(self).instr_bytes@, final(self).curr_addr, final(self).curr_byte as int),
            r is None ==> final(self).curr_byte == old(self).curr_byte && final(self).curr_addr
                == old(self).curr_addr,
            r is Some ==> old(self).curr_byte < final(self).curr_byte,
            r is Some ==> final(self).curr_byte <= final(self).instr_bytes@.len(),
            ({
                let rest = split_instrs(
                    old(self).instr_bytes@,
                    old(self).curr_addr,
                    old(self).curr_byte as int,
                );
                match r {
                    None => rest.len() == 0,
                    Some(item) => rest.len() > 0 && rest[0] == item && split_instrs(
                        final(self).instr_bytes@,
                        final(self).curr_addr,
                        final(self).curr_byte as int,
                    ) == rest.drop_first(),
                }
            }),
    {
        let ghost rest = split_instrs(self.instr_bytes@, self.curr_addr, self.curr_byte as int);
        if self.curr_byte >= self.instr_bytes.len() {
            return None;
        }
        if self.instr_is_32b() {
            if self.instr_bytes.len() - self.curr_byte <= 4 {
                return None;
            }
            let ret_val = (self.curr_addr, self.get_instr());
            self.curr_addr = self.curr_addr + 4;
            self.curr_byte = self.curr_byte + 4;
            assert(rest.drop_first() =~= split_instrs(
                self.instr_bytes@,
                self.curr_addr,
                self.curr_byte as int,
            ));
            Some(ret_val)
        } else {
            let ret_val = (self.curr_addr, self.get_rvc_instr());
            self.curr_addr = self.curr_addr + 2;
            self.curr_byte = self.curr_byte + 2;
            assert(rest.drop_first() =~= split_instrs(
                self.instr_bytes@,
                self.curr_addr,
                self.curr_byte as int,
            ));
            Some(ret_val)
        }
    }
}

/// The text of an instruction word in hexadecimal, as `instr_hex` gives it.
pub open spec fn instr_hex_text(instr: u32) -> Seq<char> {
    if is_rvc(instr) {
        pad0(hex_str(low16(instr) as nat), 4)
    } else {
        u32_hex4_text(instr)
    }
}

/// A row of the instruction list: address, address text, word text and assembly text.
pub open spec fn instr_row(item: (u64, u32)) -> (u64, Seq<char>, Seq<char>, Seq<char>) {
    (item.0, u64_hex4_text(item.0), instr_hex_text(item.1), asm_text(item.1, item.0))
}

/// The text of a row.
pub open spec fn row_view(row: (u64, String, String, String)) -> (u64, Seq<char>, Seq<char>, Seq<
    char,
>) {
    (row.0, row.1@, row.2@, row.3@)
}

/// The disassembled instructions of the instruction list, kept until the bytes change.
pub struct InstrCache {
    pub instructions: Vec<u8>,
    pub start_address: u64,
    /// (instr_addr, instr_addr_hex_str, instr_hex_str, instr_mnemonic_str)
    pub disasm: Vec<(u64, String, String, String)>,
}

impl Default for InstrCache {
    fn default() -> (r: Self)
        ensures
            r.instructions@ == Seq::<u8>::empty(),
            r.start_address == 0,
            r.disasm@ == Seq::<(u64, String, String, String)>::empty(),
    {
        InstrCache { instructions: Vec::new(), start_address: 0, disasm: Vec::new() }
    }
}

impl InstrCache {
    /// Disassembles `new_instructions` placed at `start_addr`, unless they are the bytes already
    /// cached.
    pub fn update_cache(&mut self, start_addr: u64, new_instructions: &Vec<u8>)
        requires
            old(self).instructions@ != new_instructions@ ==> split_ok(new_instructions@, start_addr, 0),
        ensures
            old(self).instructions@ == new_instructions@ ==> *final(self) == *old(self),
            old(self).instructions@ != new_instructions@ ==> {
                &&& final(self).start_address == start_addr
                &&& final(self).instructions@ == new_instructions@
                &&& final(self).disasm@.len() == split_instrs(new_instructions@, start_addr, 0).len()
                &&& forall|k: int|
                    0 <= k < final(self).disasm@.len() ==> #[trigger] row_view(
                        final(self).disasm@[k],
                    ) == instr_row(split_instrs(new_instructions@, start_addr, 0)[k])
            },
    {
        if self.instructions.len() == new_instructions.len() {
            let mut same = true;
            let mut i: usize = 0;
            while i < new_instructions.len()
                invariant
                    i <= new_instructions@.len(),
                    self.instructions@.len() == new_instructions@.len(),
                    same <==> forall|k: int| 0 <= k < i ==> self.instructions@[k] == new_instructions@[k],
                decreases new_instructions@.len() - i,
            {
                if self.instructions[i] != new_instructions[i] {
                    same = false;
                }
                i = i + 1;
            }
            if same {
                assert(self.instructions@ =~= new_instructions@);
                return;
            }
        }
        self.start_address = start_addr;
        let mut bytes: Vec<u8> = Vec::new();
        let mut j: usize = 0;
        while j < new_instructions.len()
            invariant
                j <= new_instructions@.len(),
                bytes@ == new_instructions@.subrange(0, j as int),
            decreases new_instructions@.len() - j,
        {
            bytes.push(new_instructions[j]);
            j = j + 1;
            assert(bytes@ =~= new_instructions@.subrange(0, j as int));
        }
        assert(bytes@ =~= new_instructions@);
        let mut it = InstrCacheIterator { instr_bytes: bytes, curr_addr: start_addr, curr_byte: 0 };
        let ghost all = split_instrs(new_instructions@, start_addr, 0);
        let mut rows: Vec<(u64, String, String, String)> = Vec::new();
        loop
            invariant
                it.instr_bytes@ == new_instructions@,
                split_ok(it.instr_bytes@, it.curr_addr, it.curr_byte as int),
                rows@.len() + split_instrs(it.instr_bytes@, it.curr_addr, it.curr_byte as int).len()
                    == all.len(),
                forall|k: int|
                    0 <= k < rows@.len() ==> #[trigger] row_view(rows@[k]) == instr_row(all[k]),
                split_instrs(it.instr_bytes@, it.curr_addr, it.curr_byte as int) == all.subrange(
                    rows@.len() as int,
                    all.len() as int,
                ),
            ensures
                it.instr_bytes@ == new_instructions@,
                rows@.len() == all.len(),
                forall|k: int|
                    0 <= k < rows@.len() ==> #[trigger] row_view(rows@[k]) == instr_row(all[k]),
            decreases it.instr_bytes@.len() - it.curr_byte,
        {
            match it.next() {
                Some((instr_addr, instr)) => {
                    let addr_hex = u64_hex4(instr_addr);
                    let ihex = instr_hex(instr);
                    let mnemonic = disasm(instr, instr_addr);
                    rows.push((instr_addr, addr_hex, ihex, mnemonic));
                },
                None => break,
            }
        }
        self.instructions = it.instr_bytes;
        self.disasm = rows;
    }

    /// Row `index` of the instruction list.
    pub fn get_disasm(&self, index: usize) -> (r: (u64, &str, &str, &str))
        requires
            index < self.disasm@.len(),
        ensures
            r.0 == self.disasm@[index as int].0,
            r.1@ == self.disasm@[index as int].1@,
            r.2@ == self.disasm@[index as int].2@,
            r.3@ == self.disasm@[index as int].3@,
    {
        let row = &self.disasm[index];
        (row.0, row.1.as_str(), row.2.as_str(), row.3.as_str())
    }
}

/// The start address that cache `c` has once it took `bytes` placed at `start_addr`: the
/// cache keeps its own when it already holds those bytes.
pub open spec fn cached_start(c: InstrCache, bytes: Seq<u8>, start_addr: u64) -> u64 {
    if c.instructions@ == bytes {
        c.start_address
    } else {
        start_addr
    }
}

/// The instruction list window.
pub struct InstrList {
    /// Is window open or not
    pub open: bool,
    pub font_size: usize,
    /// User setting - start address of instructions
    pub user_start_addr: u64,
    /// User setting - number of instructions
    pub user_num_instr: u64,
    pub instr_cache: InstrCache,
}

impl Default for InstrList {
    fn default() -> (r: Self)
        ensures
            r.open,
            r.font_size == 0,
            r.user_start_addr == DEFAULT_START_ADDRESS,
            r.user_num_instr == 64,
    {
        InstrList {
            open: true,
            font_size: 0,
            user_start_addr: DEFAULT_START_ADDRESS,
            user_num_instr: 64,
            instr_cache: InstrCache::default(),
        }
    }
}

impl InstrList {
    pub fn open(&mut self)
        ensures
            final(self).open,
            final(self).user_start_addr == old(self).user_start_addr,
            final(self).user_num_instr == old(self).user_num_instr,
    {
        self.open = true;
    }

    /// The first address the user wants listed.
    pub fn get_start_addr(&self) -> (r: u64)
        ensures
            r == self.user_start_addr,
    {
        self.user_start_addr
    }

    /// How many instructions the user wants listed.
    pub fn get_num_instr(&self) -> (r: u64)
        ensures
            r == self.user_num_instr,
    {
        self.user_num_instr
    }

    /// Takes the bytes at `start_addr` into the cache and moves the wanted start address so that
    /// the PC stays in view: to 8 bytes before the PC when the PC lies beyond the cached bytes
    /// by more than 8, or before them.
    pub fn follow_pc(&mut self, instructions: &Vec<u8>, start_addr: u64, pc: u64)
        requires
            old(self).instr_cache.instructions@ != instructions@ ==> split_ok(
                instructions@,
                start_addr,
                0,
            ),
            8 + cached_start(old(self).instr_cache, instructions@, start_addr)
                + instructions@.len() <= u64::MAX,
            pc < cached_start(old(self).instr_cache, instructions@, start_addr) ==> pc >= 8,
        ensures
            final(self).open == old(self).open,
            final(self).instr_cache.start_address == cached_start(
                old(self).instr_cache,
                instructions@,
                start_addr,
            ),
            final(self).user_num_instr == old(self).user_num_instr,
            ({
                let c = final(self).instr_cache;
                final(self).user_start_addr == if pc > 8 + c.start_address + c.instructions@.len()
                    || pc < c.start_address {
                    (pc - 8) as u64
                } else {
                    old(self).user_start_addr
                }
            }),
            old(self).instr_cache.instructions@ != instructions@
                ==> final(self).instr_cache.start_address == start_addr,
            final(self).instr_cache.instructions@ == instructions@,
    {
        self.instr_cache.update_cache(start_addr, instructions);
        let len = self.instr_cache.instructions.len() as u64;
        if pc > 8 + self.instr_cache.start_address + len {
            self.user_start_addr = pc - 8;
        }
        if pc < self.instr_cache.start_address {
            self.user_start_addr = pc - 8;
        }
    }
}

impl InstrList {
    /// One frame of the window, given the bytes at `start_addr` and whether the user left the
    /// window open: an open window lists the bytes and follows the PC (see `follow_pc`); a
    /// closed one changes nothing else.
    pub fn show_if_opened(&mut self, instructions: (&Vec<u8>, u64), pc: u64, window_opened: bool)
        requires
            old(self).open ==> {
                let start = cached_start(old(self).instr_cache, instructions.0@, instructions.1);
                &&& old(self).instr_cache.instructions@ != instructions.0@ ==> split_ok(
                    instructions.0@,
                    instructions.1,
                    0,
                )
                &&& 8 + start + instructions.0@.len() <= u64::MAX
                &&& pc < start ==> pc >= 8
            },
        ensures
            final(self).open == if old(self).open {
                window_opened
            } else {
                false
            },
            final(self).user_num_instr == old(self).user_num_instr,
            !old(self).open ==> final(self).user_start_addr == old(self).user_start_addr
                && final(self).instr_cache == old(self).instr_cache,
            old(self).open ==> {
                let c = final(self).instr_cache;
                &&& c.instructions@ == instructions.0@
                &&& final(self).user_start_addr == if pc > 8 + c.start_address
                    + c.instructions@.len() || pc < c.start_address {
                    (pc - 8) as u64
                } else {
                    old(self).user_start_addr
                }
            },
    {
        if self.open {
            self.follow_pc(instructions.0, instructions.1, pc);
            self.open = window_opened;
        }
    }
}

/// A program that can be loaded from the demo window.
#[derive(Copy, Clone)]
pub struct DemoImage {
    pub name: &'static str,
    pub descriptoin: &'static str,
    pub load_address: u64,
    pub breakpoint: u64,
    pub image: &'static [u8],
}

/// The demo window.
pub struct LoadDemo {
    /// Is window open or not
    pub window_open: bool,
    pub demos: Vec<DemoImage>,
    pub selected_demo: usize,
}

impl LoadDemo {
    /// One frame of the window, given what the user did in it: whether it is still open and
    /// whether Load was clicked. Load closes the window and gives the selected demo; a closed
    /// window gives nothing and stays as it is.
    pub fn show_pick_demo(&mut self, window_opened: bool, load_clicked: bool) -> (r: Option<
        DemoImage,
    >)
        requires
            old(self).window_open ==> old(self).selected_demo < old(self).demos@.len(),
        ensures
            final(self).demos@ == old(self).demos@,
            final(self).selected_demo == old(self).selected_demo,
            !old(self).window_open ==> r is None && !final(self).window_open,
            old(self).window_open && load_clicked ==> r == Some(
                old(self).demos@[old(self).selected_demo as int],
            ) && !final(self).window_open,
            old(self).window_open && !load_clicked ==> r is None && final(self).window_open
                == window_opened,
    {
        if !self.window_open {
            return None;
        }
        if load_clicked {
            self.window_open = false;
            Some(self.demos[self.selected_demo])
        } else {
            self.window_open = window_opened;
            None
        }
    }

    pub fn open(&mut self)
        ensures
            final(self).window_open,
            final(self).selected_demo == old(self).selected_demo,
    {
        self.window_open = true;
    }
}

} // verus!
