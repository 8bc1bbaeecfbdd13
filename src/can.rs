//! Binding of the MCAN controllers to the platform.
//!
//! A [`Dependencies`] value is the proof, for whoever drives the controller,
//! that its clock gate is open, that its CAN clock is no faster than the host
//! clock, and that the transmit and receive pins it holds are wired to that very
//! controller. Which pins may serve which controller is a relation between
//! types ([`TxPin`], [`RxPin`]): a pin that is not wired to the controller does
//! not type-check.

use vstd::prelude::*;
use crate::clocks::{gate_bit, HostClock, Pck, Pck5, PeripheralIdentifier};
use crate::pio::{Pin, PeripheralA, PeripheralB, PeripheralC, PB2, PB3, PC12, PC14, PD12, PD28};

verus! {

/// The configuration registers of the bus matrix that place the message RAM
/// of each CAN controller.
#[derive(Debug, Clone, Copy, PartialEq, Eq, Structural)]
pub struct Matrix {
    /// `CCFG_CAN0`: bits 31:16 hold `CAN0DMABA`.
    pub ccfg_can0: u32,
    /// `CCFG_SYSIO`: bits 31:16 hold `CAN1DMABA`.
    pub ccfg_sysio: u32,
}

/// The upper half of a 32-bit register.
pub open spec fn upper_half(w: u32) -> u16 {
    (w >> 16u32) as u16
}

/// Start of a message RAM window whose base field holds `field`: the field
/// is the upper 16 bits of the address.
pub open spec fn message_ram_base(field: u16) -> int {
    field as int * 0x10000
}

impl Matrix {
    /// Field `CAN0DMABA` of `CCFG_CAN0`.
    pub fn can0dmaba(&self) -> (r: u16)
        ensures
            r == upper_half(self.ccfg_can0),
    {
        (self.ccfg_can0 >> 16u32) as u16
    }

    /// Field `CAN1DMABA` of `CCFG_SYSIO`.
    pub fn can1dmaba(&self) -> (r: u16)
        ensures
            r == upper_half(self.ccfg_sysio),
    {
        (self.ccfg_sysio >> 16u32) as u16
    }
}

/// Start of the message RAM window whose base field holds `field`.
fn message_ram_start(field: u16) -> (r: usize)
    ensures
        r as int == message_ram_base(field),
{
    (field as usize) * 0x10000
}

/// Register block handle of `MCAN0`.
pub struct MCAN0;

/// Register block handle of `MCAN1`.
pub struct MCAN1;

/// Metadata for a CAN peripheral.
pub trait CanMeta {
    /// Corresponding register block handle.
    type REG;

    /// Identifier that gates the peripheral's clock.
    spec fn spec_pid() -> PeripheralIdentifier;

    /// The configuration field that places this peripheral's message RAM.
    spec fn spec_dmaba(matrix: Matrix) -> u16;

    /// Identifier that gates the peripheral's clock.
    fn pid() -> (r: PeripheralIdentifier)
        ensures
            r == Self::spec_pid(),
    ;

    /// Address of the beginning of the message RAM this peripheral may use.
    fn eligible_message_ram_start(matrix: &Matrix) -> (r: usize)
        ensures
            r as int == message_ram_base(Self::spec_dmaba(*matrix)),
    ;
}

/// Identity type for `MCAN0`: a tag for types, never built.
pub struct Can0 {
    #[allow(dead_code)]
    never: (),
}

impl CanMeta for Can0 {
    type REG = MCAN0;

    open spec fn spec_pid() -> PeripheralIdentifier {
        PeripheralIdentifier::MCAN0
    }

    open spec fn spec_dmaba(matrix: Matrix) -> u16 {
        upper_half(matrix.ccfg_can0)
    }

    fn pid() -> (r: PeripheralIdentifier) {
        PeripheralIdentifier::MCAN0
    }

    fn eligible_message_ram_start(matrix: &Matrix) -> (r: usize) {
        message_ram_start(matrix.can0dmaba())
    }
}

/// Identity type for `MCAN1`: a tag for types, never built.
pub struct Can1 {
    #[allow(dead_code)]
    never: (),
}

impl CanMeta for Can1 {
    type REG = MCAN1;

    open spec fn spec_pid() -> PeripheralIdentifier {
        PeripheralIdentifier::MCAN1
    }

    open spec fn spec_dmaba(matrix: Matrix) -> u16 {
        upper_half(matrix.ccfg_sysio)
    }

    fn pid() -> (r: PeripheralIdentifier) {
        PeripheralIdentifier::MCAN1
    }

    fn eligible_message_ram_start(matrix: &Matrix) -> (r: usize) {
        message_ram_start(matrix.can1dmaba())
    }
}

/// A pin, in its multiplexer mode, that can be the receive line of
/// `ValidFor`.
pub trait RxPin {
    /// The CAN peripheral this pin is wired to.
    type ValidFor: CanMeta;
}

/// A pin, in its multiplexer mode, that can be the transmit line of
/// `ValidFor`.
pub trait TxPin {
    /// The CAN peripheral this pin is wired to.
    type ValidFor: CanMeta;
}

impl RxPin for Pin<PB3, PeripheralA> {
    type ValidFor = Can0;
}

impl TxPin for Pin<PB2, PeripheralA> {
    type ValidFor = Can0;
}

/// Receive line of `MCAN1` on 144-pin packages.
impl RxPin for Pin<PC12, PeripheralC> {
    type ValidFor = Can1;
}

/// Receive line of `MCAN1` on 100-pin packages.
impl RxPin for Pin<PD28, PeripheralB> {
    type ValidFor = Can1;
}

/// Transmit line of `MCAN1` on 144-pin packages.
impl TxPin for Pin<PC14, PeripheralC> {
    type ValidFor = Can1;
}

/// Transmit line of `MCAN1` on 100-pin and 144-pin packages.
impl TxPin for Pin<PD12, PeripheralB> {
    type ValidFor = Can1;
}

/// Refusal to build a [`Dependencies`].
#[derive(Debug, Clone, Copy, PartialEq, Eq, Structural)]
pub enum ClockError {
    /// The CAN clock runs faster than the host clock.
    CanClockTooFast,
}

/// Everything that must be in place before `Id`'s controller can be driven.
///
/// Its existence means that the controller's clock gate was opened, that its
/// CAN clock is no faster than the host clock, and that the pins it holds are
/// wired to it.
pub struct Dependencies<Id: CanMeta, Tx, Rx> {
    #[allow(dead_code)]
    reg: Id::REG,
    eligible_message_ram_start: usize,
    #[allow(dead_code)]
    pins: (Tx, Rx),
    host_clock_freq: u32,
    can_clock_freq: u32,
}

impl<Id: CanMeta, Tx, Rx> Dependencies<Id, Tx, Rx> {
    /// The CAN clock is never faster than the host clock.
    #[verifier::type_invariant]
    spec fn clocks_ordered(&self) -> bool {
        self.can_clock_freq <= self.host_clock_freq
    }

    /// Host clock frequency in hertz, as read at construction.
    pub closed spec fn spec_host_clock(&self) -> u32 {
        self.host_clock_freq
    }

    /// CAN clock frequency in hertz, as read at construction.
    pub closed spec fn spec_can_clock(&self) -> u32 {
        self.can_clock_freq
    }

    /// Start of the message RAM window, as resolved at construction.
    pub closed spec fn spec_ram_start(&self) -> usize {
        self.eligible_message_ram_start
    }

    /// Host clock frequency in hertz.
    pub fn host_clock(&self) -> (r: u32)
        ensures
            r == self.spec_host_clock(),
    {
        self.host_clock_freq
    }

    /// CAN clock frequency in hertz; never above the host clock's.
    pub fn can_clock(&self) -> (r: u32)
        ensures
            r == self.spec_can_clock(),
            r <= self.spec_host_clock(),
    {
        proof {
            use_type_invariant(self);
        }
        self.can_clock_freq
    }

    /// Address of the beginning of the message RAM the controller may use.
    pub fn eligible_message_ram_start(&self) -> (r: usize)
        ensures
            r == self.spec_ram_start(),
    {
        self.eligible_message_ram_start
    }
}

impl<Id: CanMeta, Tx: TxPin<ValidFor = Id>, Rx: RxPin<ValidFor = Id>> Dependencies<Id, Tx, Rx> {
    /// Opens the controller's clock gate, reads both clocks and, when the CAN
    /// clock is no faster than the host clock, resolves the message RAM window
    /// and builds the token.
    ///
    /// When the CAN clock is faster, nothing happens beyond the opened gate and
    /// `CanClockTooFast` comes back.
    ///
    /// The caller must keep the matrix field read here (`CAN0DMABA` or
    /// `CAN1DMABA`) unchanged while the token exists.
    pub fn try_new(
        reg: Id::REG,
        matrix: &Matrix,
        pins: (Tx, Rx),
        pck: &Pck<Pck5>,
        hclk: &mut HostClock,
    ) -> (r: Result<Self, ClockError>)
        ensures
            final(hclk).freq_hz == old(hclk).freq_hz,
            final(hclk).pcer == old(hclk).pcer | gate_bit(Id::spec_pid()),
            r is Err <==> pck.freq_hz > old(hclk).freq_hz,
            r is Err ==> r == Err::<Self, ClockError>(ClockError::CanClockTooFast),
            r matches Ok(d) ==> d.spec_host_clock() == old(hclk).freq_hz
                && d.spec_can_clock() == pck.freq_hz
                && d.spec_ram_start() as int == message_ram_base(Id::spec_dmaba(*matrix)),
    {
        hclk.enable_peripheral(Id::pid());
        let host_clock_freq: u32 = hclk.freq();
        let can_clock_freq: u32 = pck.freq();
        if can_clock_freq > host_clock_freq {
            return Err(ClockError::CanClockTooFast);
        }
        Ok(Self::assemble(reg, matrix, pins, host_clock_freq, can_clock_freq))
    }

    /// Builds the token for a CAN clock that is known to be no faster than the
    /// host clock: opens the controller's clock gate, reads both clocks and
    /// resolves the message RAM window.
    ///
    /// The caller must keep the matrix field read here (`CAN0DMABA` or
    /// `CAN1DMABA`) unchanged while the token exists.
    pub fn new(
        reg: Id::REG,
        matrix: &Matrix,
        pins: (Tx, Rx),
        pck: &Pck<Pck5>,
        hclk: &mut HostClock,
    ) -> (r: Self)
        requires
            pck.freq_hz <= old(hclk).freq_hz,
        ensures
            final(hclk).freq_hz == old(hclk).freq_hz,
            final(hclk).pcer == old(hclk).pcer | gate_bit(Id::spec_pid()),
            r.spec_host_clock() == old(hclk).freq_hz,
            r.spec_can_clock() == pck.freq_hz,
            r.spec_ram_start() as int == message_ram_base(Id::spec_dmaba(*matrix)),
    {
        hclk.enable_peripheral(Id::pid());
        let host_clock_freq: u32 = hclk.freq();
        let can_clock_freq: u32 = pck.freq();
        Self::assemble(reg, matrix, pins, host_clock_freq, can_clock_freq)
    }

    /// Resolves the message RAM window and stores it with the clocks read.
    fn assemble(
        reg: Id::REG,
        matrix: &Matrix,
        pins: (Tx, Rx),
        host_clock_freq: u32,
        can_clock_freq: u32,
    ) -> (r: Self)
        requires
            can_clock_freq <= host_clock_freq,
        ensures
            r.spec_host_clock() == host_clock_freq,
            r.spec_can_clock() == can_clock_freq,
            r.spec_ram_start() as int == message_ram_base(Id::spec_dmaba(*matrix)),
    {
        Dependencies {
            reg,
            eligible_message_ram_start: Id::eligible_message_ram_start(matrix),
            pins,
            host_clock_freq,
            can_clock_freq,
        }
    }
}

} // verus!
