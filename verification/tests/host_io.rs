use r0vm_core::addr::{ByteAddr, WordAddr};
use r0vm_core::context::Risc0Context;
use r0vm_core::error::{ExecError, HostIo};
use r0vm_core::hostio::{check_transfer, head_bytes, next_io_state};
use r0vm_core::machine::{EmuContext, Risc0Machine};
use r0vm_core::platform::{
    CycleState, HOST_ECALL_READ, HOST_ECALL_WRITE, MACHINE_REGS_ADDR, MAX_IO_BYTES, REG_A0,
    REG_A1, REG_A2, REG_A7, SAFE_WRITE_ADDR,
};
use r0vm_core::store::{Record, RecordingContext};

const PC: u32 = 0xc000_0100;

fn machine_reg(idx: usize) -> WordAddr {
    WordAddr(MACHINE_REGS_ADDR / 4 + idx as u32)
}

fn io_request(number: u32, fd: u32, ptr: u32, len: u32, input: Vec<u8>) -> RecordingContext {
    let mut ctx = RecordingContext::new(ByteAddr(PC), 1, input);
    ctx.set_word(machine_reg(REG_A7), number);
    ctx.set_word(machine_reg(REG_A0), fd);
    ctx.set_word(machine_reg(REG_A1), ptr);
    ctx.set_word(machine_reg(REG_A2), len);
    ctx
}

fn cycles(ctx: &RecordingContext) -> Vec<(CycleState, CycleState, u32, u32, u32)> {
    let mut out = Vec::new();
    for record in ctx.records() {
        if let Record::Cycle { cur, next, s0, s1, s2 } = record {
            out.push((*cur, *next, *s0, *s1, *s2));
        }
    }
    out
}

fn stores(ctx: &RecordingContext) -> Vec<(u32, u32)> {
    let mut out = Vec::new();
    for record in ctx.records() {
        if let Record::Store { addr, word } = record {
            out.push((addr.0, *word));
        }
    }
    out
}

fn loads(ctx: &RecordingContext) -> Vec<u32> {
    let mut out = Vec::new();
    for record in ctx.records() {
        if let Record::Load { addr, .. } = record {
            out.push(addr.0);
        }
    }
    out
}

#[test]
fn aligned_read_of_two_words() {
    let input = vec![0x11, 0x22, 0x33, 0x44, 0x55, 0x66, 0x77, 0x88];
    let mut ctx = io_request(HOST_ECALL_READ, 1, 0x1000, 8, input);
    let r = Risc0Machine { ctx: &mut ctx }.ecall();
    assert_eq!(r, Ok(false));
    assert_eq!(ctx.word(WordAddr(0x1000 / 4)), 0x4433_2211);
    assert_eq!(ctx.word(WordAddr(0x1004 / 4)), 0x8877_6655);
    assert_eq!(ctx.word(machine_reg(REG_A0)), 8);
    assert_eq!(ctx.get_pc(), ByteAddr(PC + 4));
    assert_eq!(
        cycles(&ctx),
        vec![
            (CycleState::MachineEcall, CycleState::HostReadSetup, 0, 0, 0),
            (CycleState::HostReadSetup, CycleState::HostReadWords, 0x1000 / 4, 0, 8),
            (CycleState::HostReadWords, CycleState::Decode, 0x1008 / 4, 0, 0),
        ]
    );
    // register A0, two data words, two padding slots of the batch
    assert_eq!(
        stores(&ctx),
        vec![
            (machine_reg(REG_A0).0, 8),
            (0x1000 / 4, 0x4433_2211),
            (0x1004 / 4, 0x8877_6655),
            (SAFE_WRITE_ADDR / 4, 0),
            (SAFE_WRITE_ADDR / 4, 0),
        ]
    );
}

#[test]
fn misaligned_write_of_three_bytes() {
    let mut ctx = io_request(HOST_ECALL_WRITE, 1, 0x2001, 3, Vec::new());
    ctx.set_word(WordAddr(0x2000 / 4), 0xccbb_aa99);
    ctx.set_word(WordAddr(0x2004 / 4), 0x1234_56dd);
    let r = Risc0Machine { ctx: &mut ctx }.ecall();
    assert_eq!(r, Ok(false));
    assert_eq!(ctx.output(), &vec![0xaa, 0xbb, 0xcc]);
    assert_eq!(ctx.word(machine_reg(REG_A0)), 3);
    assert_eq!(ctx.get_pc(), ByteAddr(PC + 4));
    assert_eq!(
        cycles(&ctx),
        vec![
            (CycleState::MachineEcall, CycleState::HostWrite, 0, 0, 0),
            (CycleState::HostWrite, CycleState::Decode, 0, 0, 0),
        ]
    );
    // only the four argument registers are loaded: the span is peeked
    assert_eq!(
        loads(&ctx),
        vec![
            machine_reg(REG_A7).0,
            machine_reg(REG_A0).0,
            machine_reg(REG_A1).0,
            machine_reg(REG_A2).0
        ]
    );
    assert!(ctx.records().contains(&Record::HostWrite { fd: 1, data: vec![0xaa, 0xbb, 0xcc], written: 3 }));
    assert_eq!(ctx.word(WordAddr(0x2000 / 4)), 0xccbb_aa99);
}

#[test]
fn write_spanning_two_words() {
    let mut ctx = io_request(HOST_ECALL_WRITE, 1, 0x2002, 3, Vec::new());
    ctx.set_word(WordAddr(0x2000 / 4), 0x0403_0201);
    ctx.set_word(WordAddr(0x2004 / 4), 0x0807_0605);
    assert_eq!(Risc0Machine { ctx: &mut ctx }.ecall(), Ok(false));
    assert_eq!(ctx.output(), &vec![3, 4, 5]);
}

#[test]
fn empty_read_goes_straight_to_decode() {
    let mut ctx = io_request(HOST_ECALL_READ, 7, 0x1003, 0, vec![1, 2, 3]);
    assert_eq!(Risc0Machine { ctx: &mut ctx }.ecall(), Ok(false));
    assert_eq!(ctx.word(machine_reg(REG_A0)), 0);
    assert_eq!(ctx.get_pc(), ByteAddr(PC + 4));
    assert_eq!(
        cycles(&ctx),
        vec![
            (CycleState::MachineEcall, CycleState::HostReadSetup, 0, 0, 0),
            (CycleState::HostReadSetup, CycleState::Decode, 0x1000 / 4, 3, 0),
        ]
    );
    assert_eq!(stores(&ctx), vec![(machine_reg(REG_A0).0, 0)]);
}

#[test]
fn empty_write_goes_straight_to_decode() {
    let mut ctx = io_request(HOST_ECALL_WRITE, 7, 0x1003, 0, Vec::new());
    assert_eq!(Risc0Machine { ctx: &mut ctx }.ecall(), Ok(false));
    assert_eq!(ctx.word(machine_reg(REG_A0)), 0);
    assert_eq!(ctx.get_pc(), ByteAddr(PC + 4));
    assert_eq!(
        cycles(&ctx),
        vec![
            (CycleState::MachineEcall, CycleState::HostWrite, 0, 0, 0),
            (CycleState::HostWrite, CycleState::Decode, 0, 0, 0),
        ]
    );
}

#[test]
fn short_read_below_a_word_uses_bytes_only() {
    // three bytes at offset 3: one byte ends the first word, two start the next
    let mut ctx = io_request(HOST_ECALL_READ, 1, 0x1003, 3, vec![0xa1, 0xa2, 0xa3, 0xa4]);
    ctx.set_word(WordAddr(0x1000 / 4), 0x0403_0201);
    ctx.set_word(WordAddr(0x1004 / 4), 0x0807_0605);
    ctx.set_word(WordAddr(0x1008 / 4), 0x0c0b_0a09);
    assert_eq!(Risc0Machine { ctx: &mut ctx }.ecall(), Ok(false));
    assert_eq!(ctx.word(WordAddr(0x1000 / 4)), 0xa103_0201);
    assert_eq!(ctx.word(WordAddr(0x1004 / 4)), 0x0807_a3a2);
    assert_eq!(ctx.word(WordAddr(0x1008 / 4)), 0x0c0b_0a09);
    assert_eq!(ctx.word(WordAddr(SAFE_WRITE_ADDR / 4)), 0);
    assert_eq!(ctx.word(machine_reg(REG_A0)), 3);
    assert_eq!(ctx.get_pc(), ByteAddr(PC + 4));
    assert_eq!(
        cycles(&ctx),
        vec![
            (CycleState::MachineEcall, CycleState::HostReadSetup, 0, 0, 0),
            (CycleState::HostReadSetup, CycleState::HostReadBytes, 0x1000 / 4, 3, 3),
            (CycleState::HostReadBytes, CycleState::HostReadBytes, 0x1004 / 4, 0, 2),
            (CycleState::HostReadBytes, CycleState::Decode, 0x1004 / 4, 2, 0),
        ]
    );
    // every data store is a read-modify-write of one byte
    assert_eq!(
        stores(&ctx),
        vec![
            (machine_reg(REG_A0).0, 3),
            (0x1000 / 4, 0xa103_0201),
            (0x1004 / 4, 0x0807_06a2),
            (0x1004 / 4, 0x0807_a3a2),
        ]
    );
}

#[test]
fn host_gives_fewer_bytes_than_asked() {
    let mut ctx = io_request(HOST_ECALL_READ, 1, 0x1000, 8, vec![9, 8, 7, 6, 5]);
    assert_eq!(Risc0Machine { ctx: &mut ctx }.ecall(), Ok(false));
    assert_eq!(ctx.word(machine_reg(REG_A0)), 5);
    assert_eq!(ctx.word(WordAddr(0x1000 / 4)), 0x0607_0809);
    assert_eq!(ctx.word(WordAddr(0x1004 / 4)), 0x0000_0005);
    assert_eq!(
        cycles(&ctx),
        vec![
            (CycleState::MachineEcall, CycleState::HostReadSetup, 0, 0, 0),
            (CycleState::HostReadSetup, CycleState::HostReadWords, 0x1000 / 4, 0, 5),
            (CycleState::HostReadWords, CycleState::HostReadBytes, 0x1004 / 4, 0, 1),
            (CycleState::HostReadBytes, CycleState::Decode, 0x1004 / 4, 1, 0),
        ]
    );
}

#[test]
fn long_read_is_cut_into_batches() {
    // 2 head bytes, 5 words (a full batch of 4 and a batch of 1), 1 tail byte
    let input: Vec<u8> = (1..=23).collect();
    let mut ctx = io_request(HOST_ECALL_READ, 1, 0x1002, 23, input);
    assert_eq!(Risc0Machine { ctx: &mut ctx }.ecall(), Ok(false));
    assert_eq!(ctx.word(WordAddr(0x1000 / 4)), 0x0201_0000);
    assert_eq!(ctx.word(WordAddr(0x1004 / 4)), 0x0605_0403);
    assert_eq!(ctx.word(WordAddr(0x1014 / 4)), 0x1615_1413);
    assert_eq!(ctx.word(WordAddr(0x1018 / 4)), 0x0000_0017);
    assert_eq!(
        cycles(&ctx),
        vec![
            (CycleState::MachineEcall, CycleState::HostReadSetup, 0, 0, 0),
            (CycleState::HostReadSetup, CycleState::HostReadBytes, 0x1000 / 4, 2, 23),
            (CycleState::HostReadBytes, CycleState::HostReadWords, 0x1004 / 4, 0, 21),
            (CycleState::HostReadWords, CycleState::HostReadWords, 0x1014 / 4, 0, 5),
            (CycleState::HostReadWords, CycleState::HostReadBytes, 0x1018 / 4, 0, 1),
            (CycleState::HostReadBytes, CycleState::Decode, 0x1018 / 4, 1, 0),
        ]
    );
    let padding = stores(&ctx).iter().filter(|s| s.0 == SAFE_WRITE_ADDR / 4).count();
    assert_eq!(padding, 3);
    assert_eq!(ctx.get_pc(), ByteAddr(PC + 4));
}

#[test]
fn span_past_the_end_of_the_address_space_is_refused() {
    let mut ctx = io_request(HOST_ECALL_READ, 1, 0xffff_fffe, 2, vec![1, 2]);
    assert_eq!(
        Risc0Machine { ctx: &mut ctx }.ecall(),
        Err(ExecError::InvalidLength(HostIo::Read, 2))
    );
    let mut ctx = io_request(HOST_ECALL_WRITE, 1, 0xffff_fffe, 2, Vec::new());
    assert_eq!(
        Risc0Machine { ctx: &mut ctx }.ecall(),
        Err(ExecError::InvalidLength(HostIo::Write, 2))
    );
    assert_eq!(ctx.get_pc(), ByteAddr(PC));
    assert_eq!(ctx.word(machine_reg(REG_A0)), 1);
    assert!(stores(&ctx).is_empty());
    assert!(ctx.output().is_empty());
}

#[test]
fn transfer_longer_than_the_limit_is_refused() {
    let mut ctx = io_request(HOST_ECALL_READ, 1, 0x1000, MAX_IO_BYTES + 1, Vec::new());
    assert_eq!(
        Risc0Machine { ctx: &mut ctx }.ecall(),
        Err(ExecError::LengthTooBig(HostIo::Read, MAX_IO_BYTES + 1))
    );
    let mut ctx = io_request(HOST_ECALL_WRITE, 1, 0x1000, MAX_IO_BYTES + 1, Vec::new());
    assert_eq!(
        Risc0Machine { ctx: &mut ctx }.ecall(),
        Err(ExecError::LengthTooBig(HostIo::Write, MAX_IO_BYTES + 1))
    );
    let mut ctx = io_request(HOST_ECALL_WRITE, 1, 0x1000, MAX_IO_BYTES, Vec::new());
    assert_eq!(Risc0Machine { ctx: &mut ctx }.ecall(), Ok(false));
    assert_eq!(ctx.output().len(), MAX_IO_BYTES as usize);
}

#[test]
fn only_the_bytes_that_the_host_gave_are_delivered() {
    let mut ctx = RecordingContext::new(ByteAddr(PC), 1, Vec::new());
    let buffer = [1u8, 2, 3, 4, 5, 6, 7, 8];
    let r = Risc0Machine { ctx: &mut ctx }.deliver_read(ByteAddr(0x3000), &buffer, 6);
    assert_eq!(r, Ok(false));
    assert_eq!(ctx.word(WordAddr(0x3000 / 4)), 0x0403_0201);
    assert_eq!(ctx.word(WordAddr(0x3004 / 4)), 0x0000_0605);
    assert_eq!(ctx.word(machine_reg(REG_A0)), 6);
    assert_eq!(ctx.get_pc(), ByteAddr(PC + 4));
}

#[test]
fn a_full_batch_has_no_padding() {
    let mut ctx = RecordingContext::new(ByteAddr(PC), 1, Vec::new());
    ctx.set_word(WordAddr(SAFE_WRITE_ADDR / 4), 0x5555_5555);
    let buffer: Vec<u8> = (0..32).collect();
    let r = Risc0Machine { ctx: &mut ctx }.deliver_read(ByteAddr(0x3000), &buffer, 32);
    assert_eq!(r, Ok(false));
    assert_eq!(ctx.word(WordAddr(SAFE_WRITE_ADDR / 4)), 0x5555_5555);
    assert_eq!(
        cycles(&ctx),
        vec![
            (CycleState::HostReadSetup, CycleState::HostReadWords, 0x3000 / 4, 0, 32),
            (CycleState::HostReadWords, CycleState::HostReadWords, 0x3010 / 4, 0, 16),
            (CycleState::HostReadWords, CycleState::Decode, 0x3020 / 4, 0, 0),
        ]
    );
    for i in 0..8u32 {
        let b = 4 * i;
        let word = u32::from_le_bytes([b as u8, b as u8 + 1, b as u8 + 2, b as u8 + 3]);
        assert_eq!(ctx.word(WordAddr(0x3000 / 4 + i)), word);
    }
}

#[test]
fn read_at_the_end_of_the_address_space() {
    let mut ctx = io_request(HOST_ECALL_READ, 1, 0xffff_fffd, 2, vec![0xaa, 0xbb]);
    assert_eq!(Risc0Machine { ctx: &mut ctx }.ecall(), Ok(false));
    assert_eq!(ctx.word(WordAddr(0x3fff_ffff)), 0x00bb_aa00);
    assert_eq!(
        cycles(&ctx),
        vec![
            (CycleState::MachineEcall, CycleState::HostReadSetup, 0, 0, 0),
            (CycleState::HostReadSetup, CycleState::HostReadBytes, 0x3fff_ffff, 1, 2),
            (CycleState::HostReadBytes, CycleState::Decode, 0x3fff_ffff, 3, 0),
        ]
    );
}

#[test]
fn program_counter_at_the_end_stops_a_read() {
    let mut ctx = RecordingContext::new(ByteAddr(0xffff_fffc), 1, Vec::new());
    let r = Risc0Machine { ctx: &mut ctx }.deliver_read(ByteAddr(0x3000), &[1, 2], 2);
    assert_eq!(r, Err(ExecError::AddressOverflow(ByteAddr(0xffff_fffc))));
    let r = Risc0Machine { ctx: &mut ctx }.finish_write(2);
    assert_eq!(r, Err(ExecError::AddressOverflow(ByteAddr(0xffff_fffc))));
}

#[test]
fn bytes_are_stored_by_read_modify_write() {
    let mut ctx = RecordingContext::new(ByteAddr(PC), 1, Vec::new());
    ctx.set_word(WordAddr(0x400), 0x4433_2211);
    let mut machine = Risc0Machine { ctx: &mut ctx };
    assert_eq!(machine.store_u8(ByteAddr(0x1002), 0xee), Ok(()));
    assert_eq!(machine.peek_u8(ByteAddr(0x1000)), Ok(0x11));
    assert_eq!(machine.peek_u8(ByteAddr(0x1001)), Ok(0x22));
    assert_eq!(machine.peek_u8(ByteAddr(0x1002)), Ok(0xee));
    assert_eq!(machine.peek_u8(ByteAddr(0x1003)), Ok(0x44));
    assert_eq!(
        ctx.records(),
        &vec![
            Record::Load { addr: WordAddr(0x400), word: 0x4433_2211 },
            Record::Store { addr: WordAddr(0x400), word: 0x44ee_2211 },
        ]
    );
}

#[test]
fn next_state_depends_on_alignment_and_length() {
    for ptr in [0x1000, 0x1001, 0x1002, 0x1003] {
        assert_eq!(next_io_state(ByteAddr(ptr), 0), CycleState::Decode);
    }
    for rlen in [1, 2, 3] {
        assert_eq!(next_io_state(ByteAddr(0x1000), rlen), CycleState::HostReadBytes);
    }
    for rlen in [4, 5, 16, 1024] {
        assert_eq!(next_io_state(ByteAddr(0x1000), rlen), CycleState::HostReadWords);
        assert_eq!(next_io_state(ByteAddr(0x1001), rlen), CycleState::HostReadBytes);
        assert_eq!(next_io_state(ByteAddr(0x1003), rlen), CycleState::HostReadBytes);
    }
    assert_eq!(head_bytes(ByteAddr(0x1000), 9), 0);
    assert_eq!(head_bytes(ByteAddr(0x1001), 9), 3);
    assert_eq!(head_bytes(ByteAddr(0x1002), 9), 2);
    assert_eq!(head_bytes(ByteAddr(0x1003), 9), 1);
    assert_eq!(head_bytes(ByteAddr(0x1001), 2), 2);
    assert_eq!(head_bytes(ByteAddr(0x1001), 0), 0);
    assert_eq!(check_transfer(HostIo::Read, ByteAddr(0x1000), 0), Ok(()));
    assert_eq!(check_transfer(HostIo::Read, ByteAddr(0x1000), MAX_IO_BYTES), Ok(()));
    assert_eq!(
        check_transfer(HostIo::Write, ByteAddr(0xffff_ffff), 1),
        Err(ExecError::InvalidLength(HostIo::Write, 1))
    );
    assert_eq!(check_transfer(HostIo::Write, ByteAddr(0xffff_ffff), 0), Ok(()));
    // a span that is both too long and past the end is an invalid length
    assert_eq!(
        check_transfer(HostIo::Read, ByteAddr(0xffff_0000), 0x1_0000),
        Err(ExecError::InvalidLength(HostIo::Read, 0x1_0000))
    );
}

#[test]
fn refused_read_does_not_ask_the_host() {
    for (ptr, len) in [(0xffff_fff0u32, 0x11u32), (0x1000, MAX_IO_BYTES + 1), (u32::MAX, u32::MAX)] {
        let mut ctx = io_request(HOST_ECALL_READ, 5, ptr, len, vec![1, 2, 3, 4]);
        let r = Risc0Machine { ctx: &mut ctx }.ecall();
        assert!(matches!(
            r,
            Err(ExecError::InvalidLength(HostIo::Read, _)) | Err(ExecError::LengthTooBig(HostIo::Read, _))
        ));
        assert_eq!(ctx.get_pc(), ByteAddr(PC));
        assert_eq!(ctx.word(machine_reg(REG_A0)), 5);
        assert!(stores(&ctx).is_empty());
        assert_eq!(
            cycles(&ctx),
            vec![(CycleState::MachineEcall, CycleState::HostReadSetup, 0, 0, 0)]
        );
        assert_eq!(ctx.records().len(), 5);
    }
}

#[test]
fn read_that_cannot_move_on_has_delivered_all() {
    let mut ctx = RecordingContext::new(ByteAddr(0xffff_fffc), 1, Vec::new());
    let r = Risc0Machine { ctx: &mut ctx }.deliver_read(ByteAddr(0x3001), &[1, 2, 3, 4, 5, 6, 7, 8], 8);
    assert_eq!(r, Err(ExecError::AddressOverflow(ByteAddr(0xffff_fffc))));
    assert_eq!(ctx.get_pc(), ByteAddr(0xffff_fffc));
    assert_eq!(ctx.word(machine_reg(REG_A0)), 8);
    assert_eq!(ctx.word(WordAddr(0x3000 / 4)), 0x0302_0100);
    assert_eq!(ctx.word(WordAddr(0x3004 / 4)), 0x0706_0504);
    assert_eq!(ctx.word(WordAddr(0x3008 / 4)), 0x0000_0008);
    // every report but the return to decoding
    assert_eq!(
        cycles(&ctx),
        vec![
            (CycleState::HostReadSetup, CycleState::HostReadBytes, 0x3000 / 4, 1, 8),
            (CycleState::HostReadBytes, CycleState::HostReadWords, 0x3004 / 4, 0, 5),
            (CycleState::HostReadWords, CycleState::HostReadBytes, 0x3008 / 4, 0, 1),
        ]
    );
    let mut ctx = RecordingContext::new(ByteAddr(0xffff_fffc), 1, Vec::new());
    let r = Risc0Machine { ctx: &mut ctx }.finish_write(9);
    assert_eq!(r, Err(ExecError::AddressOverflow(ByteAddr(0xffff_fffc))));
    assert_eq!(ctx.word(machine_reg(REG_A0)), 9);
    assert!(cycles(&ctx).is_empty());
}
