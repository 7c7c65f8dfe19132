use r0vm_core::addr::{ByteAddr, WordAddr};
use r0vm_core::context::Risc0Context;
use r0vm_core::error::{ContextError, ExecError};
use r0vm_core::machine::{ControlTransfer, EmuContext, Emulator, Risc0Machine};
use r0vm_core::model::{DecodedInstruction, Hook, Instruction};
use r0vm_core::platform::{
    CycleState, TrapCause, ECALL_DISPATCH_ADDR, HOST_ECALL_POSEIDON2, HOST_ECALL_TERMINATE,
    KERNEL_END_ADDR, KERNEL_START_ADDR, MACHINE_REGS_ADDR, MEPC_ADDR, REG_A0, REG_A1, REG_A7,
    REG_MAX, REG_ZERO, SUSPEND_MODE_ADDR, SUSPEND_PC_ADDR, SYSCALL_MAX, TRAP_DISPATCH_ADDR,
    USER_END_ADDR, USER_REGS_ADDR, USER_START_ADDR, ZERO_PAGE_END_ADDR,
};
use r0vm_core::store::{Record, RecordingContext};

const USER_PC: u32 = 0x0002_0000;
const KERNEL_PC: u32 = 0xc000_0400;
const HANDLER: u32 = 0xc000_1000;
const TRAP_HANDLER: u32 = 0xc000_2000;

fn user_reg(idx: usize) -> WordAddr {
    WordAddr(USER_REGS_ADDR / 4 + idx as u32)
}

fn machine_reg(idx: usize) -> WordAddr {
    WordAddr(MACHINE_REGS_ADDR / 4 + idx as u32)
}

fn ecall_row(idx: u32) -> WordAddr {
    WordAddr(ECALL_DISPATCH_ADDR / 4 + idx)
}

fn trap_row(cause: TrapCause) -> WordAddr {
    WordAddr(TRAP_DISPATCH_ADDR / 4 + cause.as_u32())
}

fn user_machine() -> RecordingContext {
    let mut ctx = RecordingContext::new(ByteAddr(USER_PC), 0, Vec::new());
    ctx.set_word(trap_row(TrapCause::EnvironmentCallFromUserMode), TRAP_HANDLER);
    ctx
}

fn kernel_machine() -> RecordingContext {
    RecordingContext::new(ByteAddr(KERNEL_PC), 1, Vec::new())
}

fn cycles(ctx: &RecordingContext) -> Vec<(CycleState, CycleState)> {
    let mut out = Vec::new();
    for record in ctx.records() {
        if let Record::Cycle { cur, next, s0, s1, s2 } = record {
            assert_eq!((*s0, *s1, *s2), (0, 0, 0));
            out.push((*cur, *next));
        }
    }
    out
}

#[test]
fn user_ecall_enters_its_handler() {
    let mut ctx = user_machine();
    ctx.set_word(user_reg(REG_A7), 5);
    ctx.set_word(ecall_row(5), HANDLER);
    assert_eq!(Risc0Machine { ctx: &mut ctx }.ecall(), Ok(true));
    assert_eq!(ctx.get_pc(), ByteAddr(HANDLER));
    assert_eq!(ctx.get_machine_mode(), 1);
    assert_eq!(ctx.word(WordAddr(MEPC_ADDR / 4)), USER_PC);
    assert_eq!(
        ctx.records(),
        &vec![
            Record::Load { addr: user_reg(REG_A7), word: 5 },
            Record::Load { addr: ecall_row(5), word: HANDLER },
            Record::Store { addr: WordAddr(MEPC_ADDR / 4), word: USER_PC },
        ]
    );
    assert!(ctx.hooks().is_empty());
}

fn assert_trapped(ctx: &RecordingContext) {
    assert_eq!(ctx.get_pc(), ByteAddr(TRAP_HANDLER));
    assert_eq!(ctx.get_machine_mode(), 1);
    assert_eq!(ctx.word(WordAddr(MEPC_ADDR / 4)), USER_PC);
    assert_eq!(
        ctx.hooks(),
        &vec![Hook::TrapRewind, Hook::Trap(TrapCause::EnvironmentCallFromUserMode)]
    );
}

#[test]
fn user_ecall_beyond_the_table_is_trapped() {
    for number in [SYSCALL_MAX, SYSCALL_MAX + 1, u32::MAX] {
        let mut ctx = user_machine();
        ctx.set_word(user_reg(REG_A7), number);
        assert_eq!(Risc0Machine { ctx: &mut ctx }.ecall(), Ok(false));
        assert_trapped(&ctx);
        // the table of ecall handlers is not even read
        assert_eq!(
            ctx.records(),
            &vec![
                Record::Load { addr: user_reg(REG_A7), word: number },
                Record::Hook(Hook::TrapRewind),
                Record::Load {
                    addr: trap_row(TrapCause::EnvironmentCallFromUserMode),
                    word: TRAP_HANDLER
                },
                Record::Store { addr: WordAddr(MEPC_ADDR / 4), word: USER_PC },
                Record::Hook(Hook::Trap(TrapCause::EnvironmentCallFromUserMode)),
            ]
        );
    }
}

#[test]
fn last_row_of_the_table_is_served() {
    let mut ctx = user_machine();
    ctx.set_word(user_reg(REG_A7), SYSCALL_MAX - 1);
    ctx.set_word(ecall_row(SYSCALL_MAX - 1), HANDLER);
    assert_eq!(Risc0Machine { ctx: &mut ctx }.ecall(), Ok(true));
    assert_eq!(ctx.get_pc(), ByteAddr(HANDLER));
}

#[test]
fn user_ecall_to_a_misaligned_handler_is_trapped() {
    for target in [HANDLER + 1, HANDLER + 2, HANDLER + 3] {
        let mut ctx = user_machine();
        ctx.set_word(user_reg(REG_A7), 3);
        ctx.set_word(ecall_row(3), target);
        assert_eq!(Risc0Machine { ctx: &mut ctx }.ecall(), Ok(false));
        assert_trapped(&ctx);
    }
}

#[test]
fn user_ecall_to_a_handler_below_the_kernel_is_trapped() {
    for target in [0, USER_START_ADDR, KERNEL_START_ADDR - 4] {
        let mut ctx = user_machine();
        ctx.set_word(user_reg(REG_A7), 0);
        ctx.set_word(ecall_row(0), target);
        assert_eq!(Risc0Machine { ctx: &mut ctx }.ecall(), Ok(false));
        assert_trapped(&ctx);
    }
}

#[test]
fn user_ecall_to_the_first_word_of_the_kernel_is_served() {
    let mut ctx = user_machine();
    ctx.set_word(user_reg(REG_A7), 0);
    ctx.set_word(ecall_row(0), KERNEL_START_ADDR);
    assert_eq!(Risc0Machine { ctx: &mut ctx }.ecall(), Ok(true));
    assert_eq!(ctx.get_pc(), ByteAddr(KERNEL_START_ADDR));
}

#[test]
fn user_ecall_handler_above_the_kernel_is_served() {
    let mut ctx = user_machine();
    ctx.set_word(user_reg(REG_A7), 0);
    ctx.set_word(ecall_row(0), KERNEL_END_ADDR);
    assert_eq!(Risc0Machine { ctx: &mut ctx }.ecall(), Ok(true));
    assert_eq!(ctx.get_pc(), ByteAddr(KERNEL_END_ADDR));
}

#[test]
fn refused_ecall_with_a_bad_trap_table_is_fatal() {
    let mut ctx = RecordingContext::new(ByteAddr(USER_PC), 0, Vec::new());
    ctx.set_word(user_reg(REG_A7), SYSCALL_MAX);
    ctx.set_word(trap_row(TrapCause::EnvironmentCallFromUserMode), 0x4000);
    assert_eq!(
        Risc0Machine { ctx: &mut ctx }.ecall(),
        Err(ExecError::InvalidTrapAddress(
            ByteAddr(0x4000),
            TrapCause::EnvironmentCallFromUserMode
        ))
    );
}

#[test]
fn trap_enters_the_handler_of_its_cause() {
    let causes = [
        (TrapCause::InstructionAddressMisaligned, 0),
        (TrapCause::InstructionAccessFault, 1),
        (TrapCause::IllegalInstruction(0xdead_beef), 2),
        (TrapCause::Breakpoint, 3),
        (TrapCause::LoadAddressMisaligned, 4),
        (TrapCause::LoadAccessFault(ByteAddr(8)), 5),
        (TrapCause::StoreAddressMisaligned(ByteAddr(9)), 6),
        (TrapCause::StoreAccessFault, 7),
        (TrapCause::EnvironmentCallFromUserMode, 8),
    ];
    for (cause, row) in causes {
        assert_eq!(cause.as_u32(), row);
        let mut ctx = RecordingContext::new(ByteAddr(USER_PC), 0, Vec::new());
        ctx.set_word(WordAddr(TRAP_DISPATCH_ADDR / 4 + row), TRAP_HANDLER + 16 * row);
        assert_eq!(Risc0Machine { ctx: &mut ctx }.trap(cause), Ok(false));
        assert_eq!(ctx.get_pc(), ByteAddr(TRAP_HANDLER + 16 * row));
        assert_eq!(ctx.get_machine_mode(), 1);
        assert_eq!(ctx.word(WordAddr(MEPC_ADDR / 4)), USER_PC);
        assert_eq!(ctx.hooks(), &vec![Hook::TrapRewind, Hook::Trap(cause)]);
    }
}

#[test]
fn trap_with_a_bad_table_entry_is_fatal() {
    for target in [TRAP_HANDLER + 2, KERNEL_START_ADDR - 4, KERNEL_END_ADDR, 0] {
        let mut ctx = RecordingContext::new(ByteAddr(USER_PC), 0, Vec::new());
        ctx.set_word(trap_row(TrapCause::Breakpoint), target);
        assert_eq!(
            Risc0Machine { ctx: &mut ctx }.trap(TrapCause::Breakpoint),
            Err(ExecError::InvalidTrapAddress(ByteAddr(target), TrapCause::Breakpoint))
        );
        assert_eq!(ctx.get_pc(), ByteAddr(USER_PC));
        assert_eq!(ctx.get_machine_mode(), 0);
    }
    let mut ctx = RecordingContext::new(ByteAddr(USER_PC), 0, Vec::new());
    ctx.set_word(trap_row(TrapCause::Breakpoint), KERNEL_END_ADDR - 4);
    assert_eq!(Risc0Machine { ctx: &mut ctx }.trap(TrapCause::Breakpoint), Ok(false));
}

#[test]
fn trap_in_machine_mode_is_fatal() {
    let mut ctx = kernel_machine();
    ctx.set_word(trap_row(TrapCause::StoreAccessFault), TRAP_HANDLER);
    assert_eq!(
        Risc0Machine { ctx: &mut ctx }.trap(TrapCause::StoreAccessFault),
        Err(ExecError::IllegalTrap)
    );
    assert_eq!(ctx.get_pc(), ByteAddr(KERNEL_PC));
    assert_eq!(ctx.get_machine_mode(), 1);
    assert_eq!(ctx.word(WordAddr(MEPC_ADDR / 4)), 0);
    // the owner is asked to rewind, the table row is loaded, and that is all
    assert_eq!(
        ctx.records(),
        &vec![
            Record::Hook(Hook::TrapRewind),
            Record::Load { addr: trap_row(TrapCause::StoreAccessFault), word: TRAP_HANDLER },
        ]
    );
    // with a bad table entry the trap is fatal too, by the entry
    let mut ctx = kernel_machine();
    ctx.set_word(trap_row(TrapCause::StoreAccessFault), 3);
    assert_eq!(
        Risc0Machine { ctx: &mut ctx }.trap(TrapCause::StoreAccessFault),
        Err(ExecError::InvalidTrapAddress(ByteAddr(3), TrapCause::StoreAccessFault))
    );
    assert_eq!(ctx.get_pc(), ByteAddr(KERNEL_PC));
    assert_eq!(ctx.get_machine_mode(), 1);
    assert_eq!(ctx.hooks(), &vec![Hook::TrapRewind]);
    let mut ctx = kernel_machine();
    assert_eq!(
        Risc0Machine { ctx: &mut ctx }.enter_trap(ByteAddr(TRAP_HANDLER)),
        Err(ExecError::IllegalTrap)
    );
    assert!(ctx.records().is_empty());
}

#[test]
fn mret_returns_behind_the_saved_instruction() {
    let mut ctx = kernel_machine();
    ctx.set_word(WordAddr(MEPC_ADDR / 4), USER_PC);
    assert_eq!(Risc0Machine { ctx: &mut ctx }.mret(), Ok(true));
    assert_eq!(ctx.get_pc(), ByteAddr(USER_PC + 4));
    assert_eq!(ctx.get_machine_mode(), 0);
}

#[test]
fn mret_in_user_mode_is_fatal() {
    let mut ctx = user_machine();
    ctx.set_word(WordAddr(MEPC_ADDR / 4), USER_PC);
    assert_eq!(Risc0Machine { ctx: &mut ctx }.mret(), Err(ExecError::IllegalMret));
    assert_eq!(ctx.get_pc(), ByteAddr(USER_PC));
    assert!(ctx.records().is_empty());
}

#[test]
fn mret_past_the_end_of_the_address_space_is_fatal() {
    let mut ctx = kernel_machine();
    ctx.set_word(WordAddr(MEPC_ADDR / 4), 0xffff_fffc);
    assert_eq!(
        Risc0Machine { ctx: &mut ctx }.mret(),
        Err(ExecError::AddressOverflow(ByteAddr(0xffff_fffc)))
    );
}

#[test]
fn ecall_then_mret_comes_back() {
    let mut ctx = user_machine();
    ctx.set_word(user_reg(REG_A7), 1);
    ctx.set_word(ecall_row(1), HANDLER);
    assert_eq!(Risc0Machine { ctx: &mut ctx }.ecall(), Ok(true));
    assert_eq!(Risc0Machine { ctx: &mut ctx }.mret(), Ok(true));
    assert_eq!(ctx.get_pc(), ByteAddr(USER_PC + 4));
    assert_eq!(ctx.get_machine_mode(), 0);
}

#[test]
fn terminate_hands_over_the_user_registers() {
    let mut ctx = kernel_machine();
    ctx.set_word(machine_reg(REG_A7), HOST_ECALL_TERMINATE);
    ctx.set_word(machine_reg(REG_A0), 111);
    ctx.set_word(user_reg(REG_A0), 7);
    ctx.set_word(user_reg(REG_A1), 9);
    assert_eq!(Risc0Machine { ctx: &mut ctx }.ecall(), Ok(false));
    assert_eq!(
        ctx.records(),
        &vec![
            Record::Load { addr: machine_reg(REG_A7), word: HOST_ECALL_TERMINATE },
            Record::Cycle {
                cur: CycleState::MachineEcall,
                next: CycleState::Terminate,
                s0: 0,
                s1: 0,
                s2: 0
            },
            Record::Load { addr: user_reg(REG_A0), word: 7 },
            Record::Load { addr: user_reg(REG_A1), word: 9 },
            Record::Terminate { a0: 7, a1: 9 },
            Record::Cycle {
                cur: CycleState::Terminate,
                next: CycleState::Suspend,
                s0: 0,
                s1: 0,
                s2: 0
            },
        ]
    );
    assert_eq!(ctx.get_pc(), ByteAddr(KERNEL_PC));
}

#[test]
fn poseidon_entry_moves_on_and_reports() {
    let mut ctx = kernel_machine();
    ctx.set_word(machine_reg(REG_A7), HOST_ECALL_POSEIDON2);
    assert_eq!(Risc0Machine { ctx: &mut ctx }.ecall(), Ok(false));
    assert_eq!(ctx.get_pc(), ByteAddr(KERNEL_PC + 4));
    assert_eq!(cycles(&ctx), vec![(CycleState::MachineEcall, CycleState::PoseidonEntry)]);
}

#[test]
fn unknown_machine_ecall_is_fatal() {
    for number in [4, 5, 100, u32::MAX] {
        let mut ctx = kernel_machine();
        ctx.set_word(machine_reg(REG_A7), number);
        assert_eq!(Risc0Machine { ctx: &mut ctx }.ecall(), Err(ExecError::Unimplemented(number)));
        assert_eq!(ctx.get_pc(), ByteAddr(KERNEL_PC));
    }
}

#[test]
fn program_counter_cannot_pass_the_end() {
    let mut ctx = RecordingContext::new(ByteAddr(0xffff_fffc), 1, Vec::new());
    assert_eq!(
        Risc0Machine { ctx: &mut ctx }.next_pc(),
        Err(ExecError::AddressOverflow(ByteAddr(0xffff_fffc)))
    );
    assert_eq!(ctx.get_pc(), ByteAddr(0xffff_fffc));
    let mut ctx = RecordingContext::new(ByteAddr(0xffff_fff8), 1, Vec::new());
    assert_eq!(Risc0Machine { ctx: &mut ctx }.next_pc(), Ok(()));
    assert_eq!(ctx.get_pc(), ByteAddr(0xffff_fffc));
}

#[test]
fn suspend_then_resume_round_trips() {
    for (pc, mode) in [(USER_PC, 0), (KERNEL_PC, 1), (0, 0), (u32::MAX, u32::MAX), (4, 7)] {
        let mut ctx = RecordingContext::new(ByteAddr(pc), mode, Vec::new());
        assert_eq!(Risc0Machine::suspend(&mut ctx), Ok(()));
        assert_eq!(ctx.word(WordAddr(SUSPEND_PC_ADDR / 4)), pc);
        assert_eq!(ctx.word(WordAddr(SUSPEND_MODE_ADDR / 4)), mode);
        assert_eq!(ctx.hooks(), &vec![Hook::Suspend]);
        ctx.set_pc(ByteAddr(0x1234_5678));
        ctx.set_machine_mode(mode.wrapping_add(1));
        assert_eq!(Risc0Machine::resume(&mut ctx), Ok(()));
        assert_eq!(ctx.get_pc(), ByteAddr(pc));
        assert_eq!(ctx.get_machine_mode(), mode);
        assert_eq!(ctx.hooks(), &vec![Hook::Suspend, Hook::Resume]);
        assert_eq!(
            ctx.records(),
            &vec![
                Record::Store { addr: WordAddr(SUSPEND_PC_ADDR / 4), word: pc },
                Record::Store { addr: WordAddr(SUSPEND_MODE_ADDR / 4), word: mode },
                Record::Hook(Hook::Suspend),
                Record::Load { addr: WordAddr(SUSPEND_PC_ADDR / 4), word: pc },
                Record::Load { addr: WordAddr(SUSPEND_MODE_ADDR / 4), word: mode },
                Record::Hook(Hook::Resume),
            ]
        );
    }
}

#[test]
fn writes_of_the_zero_register_are_never_read() {
    for mode in [0, 1] {
        let mut ctx = RecordingContext::new(ByteAddr(USER_PC), mode, Vec::new());
        let mut machine = Risc0Machine { ctx: &mut ctx };
        assert_eq!(machine.store_register(REG_ZERO, 0xdead_beef), Ok(()));
        assert_eq!(machine.load_register(REG_ZERO), Ok(0));
        for idx in 0..REG_MAX {
            assert_eq!(ctx.word(user_reg(idx)), 0);
            assert_eq!(ctx.word(machine_reg(idx)), 0);
        }
        let base = if mode == 0 { USER_REGS_ADDR } else { MACHINE_REGS_ADDR };
        assert_eq!(ctx.word(WordAddr(base / 4 + 2 * REG_MAX as u32)), 0xdead_beef);
        // read in the other mode too
        ctx.set_machine_mode(1 - mode);
        assert_eq!(Risc0Machine { ctx: &mut ctx }.load_register(REG_ZERO), Ok(0));
    }
}

#[test]
fn registers_live_in_the_bank_of_the_mode() {
    let mut ctx = RecordingContext::new(ByteAddr(USER_PC), 0, Vec::new());
    assert_eq!(Risc0Machine { ctx: &mut ctx }.store_register(REG_A1, 21), Ok(()));
    assert_eq!(ctx.word(user_reg(REG_A1)), 21);
    assert_eq!(ctx.word(machine_reg(REG_A1)), 0);
    ctx.set_machine_mode(1);
    assert_eq!(Risc0Machine { ctx: &mut ctx }.load_register(REG_A1), Ok(0));
    assert_eq!(Risc0Machine { ctx: &mut ctx }.store_register(REG_A1, 42), Ok(()));
    assert_eq!(ctx.word(machine_reg(REG_A1)), 42);
    assert_eq!(Risc0Machine { ctx: &mut ctx }.load_register(REG_A1), Ok(42));
    ctx.set_machine_mode(0);
    assert_eq!(Risc0Machine { ctx: &mut ctx }.load_register(REG_A1), Ok(21));
}

#[test]
fn access_checks_follow_the_mode() {
    let mut user = RecordingContext::new(ByteAddr(USER_PC), 0, Vec::new());
    let mut kernel = RecordingContext::new(ByteAddr(KERNEL_PC), 1, Vec::new());
    let user = Risc0Machine { ctx: &mut user };
    let kernel = Risc0Machine { ctx: &mut kernel };
    // fetch: never from the zero page, in user mode not from the kernel
    for machine in [&user, &kernel] {
        assert!(!machine.check_insn_load(ByteAddr(0)));
        assert!(!machine.check_insn_load(ByteAddr(ZERO_PAGE_END_ADDR - 4)));
        assert!(machine.check_insn_load(ByteAddr(ZERO_PAGE_END_ADDR)));
        assert!(machine.check_insn_load(ByteAddr(KERNEL_START_ADDR - 4)));
    }
    assert!(!user.check_insn_load(ByteAddr(KERNEL_START_ADDR)));
    assert!(!user.check_insn_load(ByteAddr(u32::MAX)));
    assert!(kernel.check_insn_load(ByteAddr(KERNEL_START_ADDR)));
    assert!(kernel.check_insn_load(ByteAddr(u32::MAX)));
    // data: anywhere in machine mode, in user mode only in user memory
    for addr in [0, USER_START_ADDR - 1, USER_END_ADDR, KERNEL_START_ADDR, u32::MAX] {
        assert!(!user.check_data_load(ByteAddr(addr)));
        assert!(!user.check_data_store(ByteAddr(addr)));
        assert!(kernel.check_data_load(ByteAddr(addr)));
        assert!(kernel.check_data_store(ByteAddr(addr)));
    }
    for addr in [USER_START_ADDR, USER_PC, USER_END_ADDR - 1] {
        assert!(user.check_data_load(ByteAddr(addr)));
        assert!(user.check_data_store(ByteAddr(addr)));
        assert!(kernel.check_data_load(ByteAddr(addr)));
    }
}

#[test]
fn instruction_hooks_are_passed_on() {
    let insn = Instruction { opcode: 0x33, func3: 0, func7: 0x20 };
    let decoded = DecodedInstruction { insn: 0x4000_0033, rd: 1, rs1: 2, rs2: 3 };
    let mut ctx = user_machine();
    let mut machine = Risc0Machine { ctx: &mut ctx };
    assert_eq!(machine.on_insn_decoded(&insn, &decoded), Ok(()));
    assert_eq!(machine.on_normal_end(&insn, &decoded), Ok(()));
    assert_eq!(machine.get_pc(), ByteAddr(USER_PC));
    machine.set_pc(ByteAddr(USER_PC + 8));
    assert_eq!(ctx.get_pc(), ByteAddr(USER_PC + 8));
    assert_eq!(
        ctx.records(),
        &vec![Record::InsnStart { insn, decoded }, Record::InsnEnd { insn, decoded }]
    );
}

struct EcallThenReturn {
    steps: u32,
}

impl Emulator for EcallThenReturn {
    fn step<C: Risc0Context>(
        &mut self,
        machine: &mut Risc0Machine<C>,
    ) -> Result<(), ExecError> {
        self.steps += 1;
        if self.steps % 2 == 1 {
            machine.ecall().map(|_| ())
        } else {
            machine.mret().map(|_| ())
        }
    }
}

#[test]
fn step_lets_the_decoder_drive_the_machine() {
    let mut ctx = user_machine();
    ctx.set_word(user_reg(REG_A7), 2);
    ctx.set_word(ecall_row(2), HANDLER);
    let mut emu = EcallThenReturn { steps: 0 };
    assert_eq!(Risc0Machine::step(&mut emu, &mut ctx), Ok(()));
    assert_eq!(ctx.get_pc(), ByteAddr(HANDLER));
    assert_eq!(ctx.get_machine_mode(), 1);
    assert_eq!(Risc0Machine::step(&mut emu, &mut ctx), Ok(()));
    assert_eq!(ctx.get_pc(), ByteAddr(USER_PC + 4));
    assert_eq!(ctx.get_machine_mode(), 0);
    // a fault of the machine unwinds out of the step
    assert_eq!(Risc0Machine::step(&mut emu, &mut ctx), Ok(()));
    ctx.set_machine_mode(0);
    assert_eq!(Risc0Machine::step(&mut emu, &mut ctx), Err(ExecError::IllegalMret));
}

#[test]
fn step_executes_one_control_transfer() {
    let mut ctx = user_machine();
    ctx.set_word(user_reg(REG_A7), 2);
    ctx.set_word(ecall_row(2), HANDLER);
    let mut ecall = ControlTransfer::Ecall;
    assert_eq!(Risc0Machine::step(&mut ecall, &mut ctx), Ok(()));
    assert_eq!(ecall, ControlTransfer::Ecall);
    assert_eq!(ctx.get_pc(), ByteAddr(HANDLER));
    assert_eq!(ctx.get_machine_mode(), 1);
    // in machine mode a trap is fatal, and the fault comes out of the step
    ctx.set_word(trap_row(TrapCause::Breakpoint), TRAP_HANDLER);
    let mut trap = ControlTransfer::Trap(TrapCause::Breakpoint);
    assert_eq!(Risc0Machine::step(&mut trap, &mut ctx), Err(ExecError::IllegalTrap));
    let mut mret = ControlTransfer::Mret;
    assert_eq!(Risc0Machine::step(&mut mret, &mut ctx), Ok(()));
    assert_eq!(ctx.get_pc(), ByteAddr(USER_PC + 4));
    assert_eq!(ctx.get_machine_mode(), 0);
    assert_eq!(Risc0Machine::step(&mut mret, &mut ctx), Err(ExecError::IllegalMret));
    assert_eq!(Risc0Machine::step(&mut trap, &mut ctx), Ok(()));
    assert_eq!(ctx.get_pc(), ByteAddr(TRAP_HANDLER));
    assert_eq!(ctx.word(WordAddr(MEPC_ADDR / 4)), USER_PC + 4);
}

#[test]
fn kept_hooks_never_refuse() {
    let mut ctx = user_machine();
    assert_eq!(ctx.suspend(), Ok(()));
    assert_eq!(ctx.resume(), Ok(()));
    assert_eq!(
        ctx.records(),
        &vec![Record::Hook(Hook::Suspend), Record::Hook(Hook::Resume)]
    );
    assert_eq!(ctx.get_pc(), ByteAddr(USER_PC));
}

#[test]
fn register_past_the_end_of_the_address_space_is_a_fault() {
    let mut ctx = user_machine();
    let last = WordAddr(0x3fff_ffff);
    assert_eq!(ctx.load_register(last, 1), Err(ContextError::AddressFault(last)));
    assert_eq!(ctx.store_register(last, 1, 5), Err(ContextError::AddressFault(last)));
    assert_eq!(ctx.load_register(WordAddr(0), usize::MAX), Err(ContextError::AddressFault(WordAddr(0))));
    assert!(ctx.records().is_empty());
    assert_eq!(ctx.store_register(last, 0, 5), Ok(()));
    assert_eq!(ctx.load_register(WordAddr(0x3fff_fff0), 15), Ok(5));
    assert_eq!(
        ctx.records(),
        &vec![Record::Store { addr: last, word: 5 }, Record::Load { addr: last, word: 5 }]
    );
}

#[test]
fn ecall_with_the_largest_number_goes_to_the_trap_handler() {
    let mut ctx = RecordingContext::new(ByteAddr(0x0002_0000), 0, Vec::new());
    ctx.set_word(user_reg(REG_A7), 0xffff_ffff);
    ctx.set_word(trap_row(TrapCause::EnvironmentCallFromUserMode), KERNEL_START_ADDR + 0x40);
    assert_eq!(Risc0Machine { ctx: &mut ctx }.ecall(), Ok(false));
    assert_eq!(ctx.get_pc(), ByteAddr(KERNEL_START_ADDR + 0x40));
    assert_eq!(ctx.get_machine_mode(), 1);
    assert_eq!(ctx.word(WordAddr(MEPC_ADDR / 4)), 0x0002_0000);
}

#[test]
fn taken_trap_tells_the_owner_first_and_last() {
    let mut ctx = user_machine();
    ctx.set_word(trap_row(TrapCause::Breakpoint), TRAP_HANDLER);
    assert_eq!(Risc0Machine { ctx: &mut ctx }.trap(TrapCause::Breakpoint), Ok(false));
    assert_eq!(
        ctx.records(),
        &vec![
            Record::Hook(Hook::TrapRewind),
            Record::Load { addr: trap_row(TrapCause::Breakpoint), word: TRAP_HANDLER },
            Record::Store { addr: WordAddr(MEPC_ADDR / 4), word: USER_PC },
            Record::Hook(Hook::Trap(TrapCause::Breakpoint)),
        ]
    );
}

#[test]
fn dispatch_follows_the_table_as_it_stands() {
    let mut ctx = user_machine();
    ctx.set_word(trap_row(TrapCause::Breakpoint), TRAP_HANDLER + 8);
    assert_eq!(Risc0Machine { ctx: &mut ctx }.dispatch_trap(TrapCause::Breakpoint), Ok(false));
    assert_eq!(ctx.get_pc(), ByteAddr(TRAP_HANDLER + 8));
    assert_eq!(ctx.hooks(), &vec![Hook::Trap(TrapCause::Breakpoint)]);
    let mut ctx = user_machine();
    ctx.set_word(trap_row(TrapCause::Breakpoint), TRAP_HANDLER + 9);
    assert_eq!(
        Risc0Machine { ctx: &mut ctx }.dispatch_trap(TrapCause::Breakpoint),
        Err(ExecError::InvalidTrapAddress(ByteAddr(TRAP_HANDLER + 9), TrapCause::Breakpoint))
    );
    assert_eq!(ctx.get_pc(), ByteAddr(USER_PC));
    assert_eq!(ctx.get_machine_mode(), 0);
    assert_eq!(ctx.word(WordAddr(MEPC_ADDR / 4)), 0);
    assert!(ctx.hooks().is_empty());
}

#[test]
fn machine_return_that_cannot_move_on_leaves_the_machine() {
    let mut ctx = kernel_machine();
    ctx.set_word(WordAddr(MEPC_ADDR / 4), 0xffff_fffd);
    assert_eq!(
        Risc0Machine { ctx: &mut ctx }.mret(),
        Err(ExecError::AddressOverflow(ByteAddr(0xffff_fffd)))
    );
    assert_eq!(ctx.get_pc(), ByteAddr(KERNEL_PC));
    assert_eq!(ctx.get_machine_mode(), 1);
}
