//! Non-blocking transmit primitives for the UART and USART transceivers.
//!
//! Each primitive is a single-slot handshake: it looks at the transmitter-empty
//! flag of the status register and, only when the flag is set, touches the
//! transmit holding register.

use vstd::prelude::*;

verus! {

/// Bit of `UART_SR` and `US_CSR` that is set while the transmitter is empty.
pub const TXEMPTY_MASK: u32 = 0x200;

/// Whether a status register value has its transmitter-empty flag set.
pub open spec fn tx_empty(sr: u32) -> bool {
    sr & TXEMPTY_MASK != 0
}

/// Serial error.
#[derive(Debug, Clone, Copy, PartialEq, Eq, Structural)]
pub enum Error {
    /// Buffer overrun
    Overrun,
}

/// Failure of a non-blocking operation: either it could not make progress
/// yet and should be retried unchanged, or it failed for good.
#[derive(Debug, Clone, Copy, PartialEq, Eq, Structural)]
pub enum NbError {
    /// A hard transport error.
    Other(Error),
    /// Nothing happened; call again later with the same arguments.
    WouldBlock,
}

/// Outcome of a non-blocking serial operation.
pub type NbResult = Result<(), NbError>;

/// The registers of a UART that the transmit path uses.
#[derive(Debug, Clone, Copy, PartialEq, Eq, Structural)]
pub struct UartRegisterBlock {
    /// Status register `UART_SR`.
    pub uart_sr: u32,
    /// Transmit holding register `UART_THR`.
    pub uart_thr: u32,
}

/// The registers of a USART that the transmit path uses.
#[derive(Debug, Clone, Copy, PartialEq, Eq, Structural)]
pub struct UsartRegisterBlock {
    /// Channel status register `US_CSR`, in USART mode.
    pub us_csr: u32,
    /// Transmit holding register `US_THR`.
    pub us_thr: u32,
}

/// Registers of a UART after a `write` of `word`, with its outcome.
pub open spec fn uart_write_spec(b: UartRegisterBlock, word: u8) -> (UartRegisterBlock, NbResult) {
    if tx_empty(b.uart_sr) {
        (UartRegisterBlock { uart_thr: word as u32, ..b }, Ok(()))
    } else {
        (b, Err(NbError::WouldBlock))
    }
}

/// Registers of a USART after a `write` of `word`, with its outcome.
pub open spec fn usart_write_spec(b: UsartRegisterBlock, word: u8) -> (UsartRegisterBlock, NbResult) {
    if tx_empty(b.us_csr) {
        (UsartRegisterBlock { us_thr: word as u32, ..b }, Ok(()))
    } else {
        (b, Err(NbError::WouldBlock))
    }
}

/// Outcome of a `flush` on a transmitter with status register `sr`.
pub open spec fn flush_spec(sr: u32) -> NbResult {
    if tx_empty(sr) {
        Ok(())
    } else {
        Err(NbError::WouldBlock)
    }
}

/// Registers and outcomes after `n` writes of `word` in a row on a UART.
pub open spec fn uart_write_times(b: UartRegisterBlock, word: u8, n: nat) -> (UartRegisterBlock, Seq<NbResult>)
    decreases n,
{
    if n == 0 {
        (b, Seq::empty())
    } else {
        let (b1, r1) = uart_write_spec(b, word);
        let (bn, rs) = uart_write_times(b1, word, (n - 1) as nat);
        (bn, seq![r1] + rs)
    }
}

/// Registers and outcomes after `n` writes of `word` in a row on a USART.
pub open spec fn usart_write_times(b: UsartRegisterBlock, word: u8, n: nat) -> (UsartRegisterBlock, Seq<NbResult>)
    decreases n,
{
    if n == 0 {
        (b, Seq::empty())
    } else {
        let (b1, r1) = usart_write_spec(b, word);
        let (bn, rs) = usart_write_times(b1, word, (n - 1) as nat);
        (bn, seq![r1] + rs)
    }
}

/// Whether the transmitter-empty flag is set in `sr`.
fn txempty_bit_is_set(sr: u32) -> (r: bool)
    ensures
        r == tx_empty(sr),
{
    sr & TXEMPTY_MASK != 0
}

/// Writes `word` to a UART's holding register if its transmitter is empty.
///
/// Otherwise leaves the registers as they are and reports `WouldBlock`.
pub fn write_uart(regs: &mut UartRegisterBlock, word: u8) -> (r: NbResult)
    ensures
        (*final(regs), r) == uart_write_spec(*old(regs), word),
{
    if !txempty_bit_is_set(regs.uart_sr) {
        Err(NbError::WouldBlock)
    } else {
        regs.uart_thr = word as u32;
        Ok(())
    }
}

/// Writes `word` to a USART's holding register if its transmitter is empty.
///
/// Otherwise leaves the registers as they are and reports `WouldBlock`.
pub fn write_usart(regs: &mut UsartRegisterBlock, word: u8) -> (r: NbResult)
    ensures
        (*final(regs), r) == usart_write_spec(*old(regs), word),
{
    if !txempty_bit_is_set(regs.us_csr) {
        Err(NbError::WouldBlock)
    } else {
        regs.us_thr = (word as u16) as u32;
        Ok(())
    }
}

/// Succeeds once a UART's transmitter is empty; reads only.
pub fn flush_uart(regs: &UartRegisterBlock) -> (r: NbResult)
    ensures
        r == flush_spec(regs.uart_sr),
{
    if !txempty_bit_is_set(regs.uart_sr) {
        Err(NbError::WouldBlock)
    } else {
        Ok(())
    }
}

/// Succeeds once a USART's transmitter is empty; reads only.
pub fn flush_usart(regs: &UsartRegisterBlock) -> (r: NbResult)
    ensures
        r == flush_spec(regs.us_csr),
{
    if !txempty_bit_is_set(regs.us_csr) {
        Err(NbError::WouldBlock)
    } else {
        Ok(())
    }
}

/// A write leaves the registers untouched while the transmitter-empty flag is
/// clear, and otherwise changes the holding register alone, to the byte.
pub proof fn lemma_write_single_register(u: UartRegisterBlock, s: UsartRegisterBlock, word: u8)
    ensures
        !tx_empty(u.uart_sr) ==> uart_write_spec(u, word) == (u, Err::<(), NbError>(NbError::WouldBlock)),
        tx_empty(u.uart_sr) ==> uart_write_spec(u, word).0.uart_sr == u.uart_sr
            && uart_write_spec(u, word).0.uart_thr == word as u32,
        !tx_empty(s.us_csr) ==> usart_write_spec(s, word) == (s, Err::<(), NbError>(NbError::WouldBlock)),
        tx_empty(s.us_csr) ==> usart_write_spec(s, word).0.us_csr == s.us_csr
            && usart_write_spec(s, word).0.us_thr == word as u32,
{
}

/// Writing the same byte again and again to a UART whose transmitter-empty
/// flag stays clear reports `WouldBlock` every time and changes nothing.
pub proof fn lemma_uart_write_blocked_repeat(b: UartRegisterBlock, word: u8, n: nat)
    requires
        !tx_empty(b.uart_sr),
    ensures
        uart_write_times(b, word, n).0 == b,
        uart_write_times(b, word, n).1 =~= Seq::new(n, |i: int| Err::<(), NbError>(NbError::WouldBlock)),
    decreases n,
{
    if n > 0 {
        lemma_uart_write_blocked_repeat(b, word, (n - 1) as nat);
    }
}

/// Writing the same byte again and again to a USART whose transmitter-empty
/// flag stays clear reports `WouldBlock` every time and changes nothing.
pub proof fn lemma_usart_write_blocked_repeat(b: UsartRegisterBlock, word: u8, n: nat)
    requires
        !tx_empty(b.us_csr),
    ensures
        usart_write_times(b, word, n).0 == b,
        usart_write_times(b, word, n).1 =~= Seq::new(n, |i: int| Err::<(), NbError>(NbError::WouldBlock)),
    decreases n,
{
    if n > 0 {
        lemma_usart_write_blocked_repeat(b, word, (n - 1) as nat);
    }
}

/// A serial transceiver, driven through its transmit registers.
pub struct Serial<P> {
    peripheral: P,
}

impl<P> Serial<P> {
    /// The registers this transceiver drives.
    pub closed spec fn registers(&self) -> P {
        self.peripheral
    }

    /// Takes ownership of a transceiver's registers.
    pub fn new(peripheral: P) -> (r: Self)
        ensures
            r.registers() == peripheral,
    {
        Serial { peripheral }
    }

    /// Gives the registers back.
    pub fn free(self) -> (r: P)
        ensures
            r == self.registers(),
    {
        self.peripheral
    }
}

impl Serial<UartRegisterBlock> {
    /// Sends one byte if the transmitter is empty, else reports `WouldBlock`.
    pub fn write(&mut self, word: u8) -> (r: NbResult)
        ensures
            (final(self).registers(), r) == uart_write_spec(old(self).registers(), word),
    {
        write_uart(&mut self.peripheral, word)
    }

    /// Succeeds once the transmitter is empty, else reports `WouldBlock`.
    pub fn flush(&mut self) -> (r: NbResult)
        ensures
            final(self).registers() == old(self).registers(),
            r == flush_spec(old(self).registers().uart_sr),
    {
        flush_uart(&self.peripheral)
    }
}

impl Serial<UsartRegisterBlock> {
    /// Sends one byte if the transmitter is empty, else reports `WouldBlock`.
    pub fn write(&mut self, word: u8) -> (r: NbResult)
        ensures
            (final(self).registers(), r) == usart_write_spec(old(self).registers(), word),
    {
        write_usart(&mut self.peripheral, word)
    }

    /// Succeeds once the transmitter is empty, else reports `WouldBlock`.
    pub fn flush(&mut self) -> (r: NbResult)
        ensures
            final(self).registers() == old(self).registers(),
            r == flush_spec(old(self).registers().us_csr),
    {
        flush_usart(&self.peripheral)
    }
}

} // verus!
