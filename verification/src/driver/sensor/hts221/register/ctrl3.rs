//! Control register 3: the data-ready output pin.

use vstd::prelude::*;
use vstd::std_specs::convert::FromSpecImpl;

verus! {

/// The address of the register on the sensor.
pub const CTRL_REG3: u8 = 0x22;

/// The bit that selects the level of the data-ready pin.
pub const ACTIVE_LOW: u8 = 0b1000_0000;

/// The bit that selects the output stage of the data-ready pin.
pub const OPEN_DRAIN: u8 = 0b0100_0000;

/// The bit that routes the data-ready signal to the pin.
pub const ENABLE: u8 = 0b0000_0100;

/// The output stage of the data-ready pin.
#[derive(Debug, Copy, Clone, PartialEq, Eq, Structural)]
pub enum ReadyMode {
    PushPull,
    OpenDrain,
}

/// The level at which the data-ready pin signals.
#[derive(Debug, Copy, Clone, PartialEq, Eq, Structural)]
pub enum ActiveState {
    High,
    Low,
}

/// The settings held in the register.
#[derive(Debug, Copy, Clone, PartialEq, Eq, Structural)]
pub struct Ctrl3 {
    pub active: ActiveState,
    pub mode: ReadyMode,
    pub enable: bool,
}

impl Ctrl3 {
    /// The register's contents for these settings: one bit for each setting,
    /// every other bit zero.
    pub open spec fn bits(self) -> u8 {
        (if self.active == ActiveState::Low {
            ACTIVE_LOW
        } else {
            0u8
        }) | (if self.mode == ReadyMode::OpenDrain {
            OPEN_DRAIN
        } else {
            0u8
        }) | (if self.enable {
            ENABLE
        } else {
            0u8
        })
    }

    /// The settings that a register with contents `byte` holds.
    pub open spec fn of_bits(byte: u8) -> Ctrl3 {
        Ctrl3 {
            active: if byte & ACTIVE_LOW != 0 {
                ActiveState::Low
            } else {
                ActiveState::High
            },
            mode: if byte & OPEN_DRAIN != 0 {
                ReadyMode::OpenDrain
            } else {
                ReadyMode::PushPull
            },
            enable: byte & ENABLE != 0,
        }
    }

    /// Settings that are written to the register are read back unchanged.
    pub proof fn lemma_settings_round_trip(self)
        ensures
            Ctrl3::of_bits(self.bits()) == self,
    {
        let a: u8 = if self.active == ActiveState::Low { ACTIVE_LOW } else { 0u8 };
        let m: u8 = if self.mode == ReadyMode::OpenDrain { OPEN_DRAIN } else { 0u8 };
        let e: u8 = if self.enable { ENABLE } else { 0u8 };
        assert((a | m | e) & 0b1000_0000u8 == a && (a | m | e) & 0b0100_0000u8 == m && (a | m | e)
            & 0b0000_0100u8 == e) by (bit_vector)
            requires
                a == 0u8 || a == 0b1000_0000u8,
                m == 0u8 || m == 0b0100_0000u8,
                e == 0u8 || e == 0b0000_0100u8,
        ;
    }

    /// Of a register's contents the three setting bits are kept, and no other.
    pub proof fn lemma_bits_round_trip(byte: u8)
        ensures
            Ctrl3::of_bits(byte).bits() == byte & (ACTIVE_LOW | OPEN_DRAIN | ENABLE),
    {
        let a: u8 = if byte & ACTIVE_LOW != 0 { ACTIVE_LOW } else { 0u8 };
        let m: u8 = if byte & OPEN_DRAIN != 0 { OPEN_DRAIN } else { 0u8 };
        let e: u8 = if byte & ENABLE != 0 { ENABLE } else { 0u8 };
        assert(a | m | e == byte & (0b1000_0000u8 | 0b0100_0000u8 | 0b0000_0100u8))
            by (bit_vector)
            requires
                a == (if byte & 0b1000_0000u8 != 0 { 0b1000_0000u8 } else { 0u8 }),
                m == (if byte & 0b0100_0000u8 != 0 { 0b0100_0000u8 } else { 0u8 }),
                e == (if byte & 0b0000_0100u8 != 0 { 0b0000_0100u8 } else { 0u8 }),
        ;
    }

    /// The bytes that ask the sensor for the register's contents.
    pub fn read_command() -> (command: [u8; 1])
        ensures
            command@ == seq![CTRL_REG3],
    {
        [CTRL_REG3]
    }

    /// The bytes that set the register to `reg`.
    pub fn write_command(reg: Ctrl3) -> (command: [u8; 2])
        ensures
            command@ == seq![CTRL_REG3, reg.bits()],
    {
        [CTRL_REG3, u8::from(reg)]
    }

    pub fn active_state(&mut self, active_state: ActiveState) -> (reg: &mut Self)
        ensures
            *reg == (Ctrl3 { active: active_state, ..*old(self) }),
            *final(self) == *final(reg),
    {
        self.active = active_state;
        self
    }

    pub fn enable(&mut self, enable: bool) -> (reg: &mut Self)
        ensures
            *reg == (Ctrl3 { enable, ..*old(self) }),
            *final(self) == *final(reg),
    {
        self.enable = enable;
        self
    }

    pub fn ready_mode(&mut self, ready_mode: ReadyMode) -> (reg: &mut Self)
        ensures
            *reg == (Ctrl3 { mode: ready_mode, ..*old(self) }),
            *final(self) == *final(reg),
    {
        self.mode = ready_mode;
        self
    }
}

impl From<u8> for ReadyMode {
    fn from(byte: u8) -> (mode: ReadyMode) {
        if (byte & OPEN_DRAIN) != 0 {
            ReadyMode::OpenDrain
        } else {
            ReadyMode::PushPull
        }
    }
}

impl FromSpecImpl<u8> for ReadyMode {
    open spec fn obeys_from_spec() -> bool {
        true
    }

    open spec fn from_spec(byte: u8) -> ReadyMode {
        Ctrl3::of_bits(byte).mode
    }
}

impl From<ReadyMode> for u8 {
    fn from(ready_mode: ReadyMode) -> (byte: u8) {
        match ready_mode {
            ReadyMode::PushPull => 0b0000_0000,
            ReadyMode::OpenDrain => OPEN_DRAIN,
        }
    }
}

impl FromSpecImpl<ReadyMode> for u8 {
    open spec fn obeys_from_spec() -> bool {
        true
    }

    open spec fn from_spec(ready_mode: ReadyMode) -> u8 {
        if ready_mode == ReadyMode::OpenDrain {
            OPEN_DRAIN
        } else {
            0u8
        }
    }
}

impl From<u8> for ActiveState {
    fn from(byte: u8) -> (active: ActiveState) {
        if (byte & ACTIVE_LOW) != 0 {
            ActiveState::Low
        } else {
            ActiveState::High
        }
    }
}

impl FromSpecImpl<u8> for ActiveState {
    open spec fn obeys_from_spec() -> bool {
        true
    }

    open spec fn from_spec(byte: u8) -> ActiveState {
        Ctrl3::of_bits(byte).active
    }
}

impl From<ActiveState> for u8 {
    fn from(active_state: ActiveState) -> (byte: u8) {
        match active_state {
            ActiveState::High => 0b0000_0000,
            ActiveState::Low => ACTIVE_LOW,
        }
    }
}

impl FromSpecImpl<ActiveState> for u8 {
    open spec fn obeys_from_spec() -> bool {
        true
    }

    open spec fn from_spec(active_state: ActiveState) -> u8 {
        if active_state == ActiveState::Low {
            ACTIVE_LOW
        } else {
            0u8
        }
    }
}

impl From<u8> for Ctrl3 {
    fn from(byte: u8) -> (reg: Ctrl3) {
        Ctrl3 {
            active: ActiveState::from(byte),
            mode: ReadyMode::from(byte),
            enable: (byte & ENABLE) != 0,
        }
    }
}

impl FromSpecImpl<u8> for Ctrl3 {
    open spec fn obeys_from_spec() -> bool {
        true
    }

    open spec fn from_spec(byte: u8) -> Ctrl3 {
        Ctrl3::of_bits(byte)
    }
}

impl From<Ctrl3> for u8 {
    fn from(reg: Ctrl3) -> (byte: u8) {
        u8::from(reg.active) | u8::from(reg.mode) | if reg.enable {
            ENABLE
        } else {
            0b000
        }
    }
}

impl FromSpecImpl<Ctrl3> for u8 {
    open spec fn obeys_from_spec() -> bool {
        true
    }

    open spec fn from_spec(reg: Ctrl3) -> u8 {
        reg.bits()
    }
}

} // verus!
