//! SPI commands of the MCP2515 CAN controller.

use vstd::prelude::*;

verus! {

/// Filters and masks of the two receive buffers.
#[derive(Clone, Copy, Debug, PartialEq, Eq, Structural)]
pub enum AcceptanceFilter {
    /// Associated with receive buffer 0.
    Filter0,
    /// Associated with receive buffer 0.
    Filter1,
    /// Associated with receive buffer 1.
    Filter2,
    /// Associated with receive buffer 1.
    Filter3,
    /// Associated with receive buffer 1.
    Filter4,
    /// Associated with receive buffer 1.
    Filter5,
    /// Associated with receive buffer 0.
    Mask0,
    /// Associated with receive buffer 1.
    Mask1,
}

pub open spec fn filter_address(f: AcceptanceFilter) -> u8 {
    match f {
        AcceptanceFilter::Filter0 => 0x00,
        AcceptanceFilter::Filter1 => 0x04,
        AcceptanceFilter::Filter2 => 0x08,
        AcceptanceFilter::Filter3 => 0x10,
        AcceptanceFilter::Filter4 => 0x14,
        AcceptanceFilter::Filter5 => 0x18,
        AcceptanceFilter::Mask0 => 0x20,
        AcceptanceFilter::Mask1 => 0x24,
    }
}

impl AcceptanceFilter {
    /// The address of the filter's first register.
    pub fn address(&self) -> (r: u8)
        ensures
            r == filter_address(*self),
    {
        match self {
            AcceptanceFilter::Filter0 => 0x00,
            AcceptanceFilter::Filter1 => 0x04,
            AcceptanceFilter::Filter2 => 0x08,
            AcceptanceFilter::Filter3 => 0x10,
            AcceptanceFilter::Filter4 => 0x14,
            AcceptanceFilter::Filter5 => 0x18,
            AcceptanceFilter::Mask0 => 0x20,
            AcceptanceFilter::Mask1 => 0x24,
        }
    }
}

/// Transmit buffers.
#[derive(Clone, Copy, Debug, PartialEq, Eq, Structural)]
pub enum TxBuffer {
    TXB0,
    TXB1,
    TXB2,
}

impl TxBuffer {
    /// The buffer's number.
    pub fn index(&self) -> (r: u8)
        ensures
            r == match *self {
                TxBuffer::TXB0 => 0u8,
                TxBuffer::TXB1 => 1u8,
                TxBuffer::TXB2 => 2u8,
            },
    {
        match self {
            TxBuffer::TXB0 => 0,
            TxBuffer::TXB1 => 1,
            TxBuffer::TXB2 => 2,
        }
    }
}

/// Receive buffers.
#[derive(Clone, Copy, Debug, PartialEq, Eq, Structural)]
pub enum RxBuffer {
    RXB0,
    RXB1,
}

impl RxBuffer {
    /// The buffer's number.
    pub fn index(&self) -> (r: u8)
        ensures
            r == match *self {
                RxBuffer::RXB0 => 0u8,
                RxBuffer::RXB1 => 1u8,
            },
    {
        match self {
            RxBuffer::RXB0 => 0,
            RxBuffer::RXB1 => 1,
        }
    }
}

/// Instructions of the controller.
#[derive(Clone, Copy, Debug, PartialEq, Eq, Structural)]
pub enum Instruction {
    /// Resets the registers to their defaults and enters configuration mode.
    Reset,
    /// Reads registers from the given address on.
    Read,
    /// Writes registers from the given address on.
    Write,
    /// Starts transmission of the transmit buffers selected by the low bits.
    Rts,
    /// Reads the transmit and receive status bits.
    ReadStatus,
    /// Sets or clears single bits of a register.
    BitModify,
    /// Reads which filter matched and the type of the received message.
    RxStatus,
    /// Reads a receive buffer from one of four positions.
    ReadRxBuffer,
    /// Loads a transmit buffer from one of six positions.
    LoadTxBuffer,
}

pub open spec fn instruction_code(i: Instruction) -> u8 {
    match i {
        Instruction::Reset => 0b1100_0000,
        Instruction::Read => 0b0000_0011,
        Instruction::Write => 0b0000_0010,
        Instruction::Rts => 0b1000_0000,
        Instruction::ReadStatus => 0b1010_0000,
        Instruction::BitModify => 0b0000_0101,
        Instruction::RxStatus => 0b1011_0000,
        Instruction::ReadRxBuffer => 0b1001_0000,
        Instruction::LoadTxBuffer => 0b0100_0000,
    }
}

impl Instruction {
    /// The instruction byte.
    pub fn code(&self) -> (r: u8)
        ensures
            r == instruction_code(*self),
    {
        match self {
            Instruction::Reset => 0b1100_0000,
            Instruction::Read => 0b0000_0011,
            Instruction::Write => 0b0000_0010,
            Instruction::Rts => 0b1000_0000,
            Instruction::ReadStatus => 0b1010_0000,
            Instruction::BitModify => 0b0000_0101,
            Instruction::RxStatus => 0b1011_0000,
            Instruction::ReadRxBuffer => 0b1001_0000,
            Instruction::LoadTxBuffer => 0b0100_0000,
        }
    }
}

/// The instruction bytes are those of the controller's data sheet: the
/// buffer-selecting instructions (request to send, read RX buffer, load TX
/// buffer) leave their three low bits free for the buffer selection, and
/// no two instructions share a byte.
pub proof fn lemma_instruction_codes(a: Instruction, b: Instruction)
    ensures
        instruction_code(Instruction::Rts) & 0x07u8 == 0,
        instruction_code(Instruction::ReadRxBuffer) & 0x07u8 == 0,
        instruction_code(Instruction::LoadTxBuffer) & 0x07u8 == 0,
        instruction_code(Instruction::Rts) & 0xF8u8 == 0x80u8,
        instruction_code(Instruction::ReadRxBuffer) & 0xF8u8 == 0x90u8,
        instruction_code(Instruction::LoadTxBuffer) & 0xF8u8 == 0x40u8,
        a != b ==> instruction_code(a) != instruction_code(b),
{
    let rts = instruction_code(Instruction::Rts);
    let rd = instruction_code(Instruction::ReadRxBuffer);
    let ld = instruction_code(Instruction::LoadTxBuffer);
    assert(rts == 0x80u8 && rd == 0x90u8 && ld == 0x40u8);
    assert(0x80u8 & 0x07u8 == 0 && 0x90u8 & 0x07u8 == 0 && 0x40u8 & 0x07u8 == 0) by (bit_vector);
    assert(0x80u8 & 0xF8u8 == 0x80u8 && 0x90u8 & 0xF8u8 == 0x90u8 && 0x40u8 & 0xF8u8 == 0x40u8)
        by (bit_vector);
}

/// Each filter and mask occupies its own four identifier registers: the
/// first-register addresses are multiples of four, below 0x28, and distinct.
pub proof fn lemma_filter_addresses(a: AcceptanceFilter, b: AcceptanceFilter)
    ensures
        filter_address(a) % 4 == 0,
        filter_address(a) < 0x28,
        a != b ==> filter_address(a) != filter_address(b),
{
}

/// The reset command.
pub fn reset_command() -> (r: [u8; 1])
    ensures
        r@ == seq![instruction_code(Instruction::Reset)],
{
    let r = [Instruction::Reset.code()];
    assert(r@ =~= seq![instruction_code(Instruction::Reset)]);
    r
}

/// The command that reads registers from `start_address` on; the registers
/// are clocked out after it.
pub fn read_registers_command(start_address: u8) -> (r: [u8; 2])
    ensures
        r@ == seq![instruction_code(Instruction::Read), start_address],
{
    let r = [Instruction::Read.code(), start_address];
    assert(r@ =~= seq![instruction_code(Instruction::Read), start_address]);
    r
}

/// The command that writes `value` to the register at `address`.
pub fn write_register_command(address: u8, value: u8) -> (r: [u8; 3])
    ensures
        r@ == seq![instruction_code(Instruction::Write), address, value],
{
    let r = [Instruction::Write.code(), address, value];
    assert(r@ =~= seq![instruction_code(Instruction::Write), address, value]);
    r
}

/// The command that writes registers from `start_address` on; the values
/// are sent after it.
pub fn write_registers_command(start_address: u8) -> (r: [u8; 2])
    ensures
        r@ == seq![instruction_code(Instruction::Write), start_address],
{
    let r = [Instruction::Write.code(), start_address];
    assert(r@ =~= seq![instruction_code(Instruction::Write), start_address]);
    r
}

/// The command that writes an acceptance filter; the identifier header is
/// sent after it.
pub fn set_filter_command(filter: AcceptanceFilter) -> (r: [u8; 2])
    ensures
        r@ == seq![instruction_code(Instruction::Write), filter_address(filter)],
{
    write_registers_command(filter.address())
}

} // verus!
