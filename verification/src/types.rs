//! Common constants and enumerations.

use vstd::prelude::*;

verus! {

/// Default TCP port.
pub const DEFAULT_PORT: u16 = 2404;

/// Default port for connections wrapped in TLS.
pub const DEFAULT_TLS_PORT: u16 = 19998;

/// Qualifier of interrogation: station interrogation.
pub const QOI_STATION: u8 = 20;

/// Cause of transmission of an ASDU.
#[derive(Debug, Clone, Copy, PartialEq, Eq, Hash, Structural)]
pub enum CauseOfTransmission {
    /// Periodic, cyclic transmission
    Periodic,
    /// Background scan
    Background,
    /// Spontaneous transmission
    Spontaneous,
    /// Initialized
    Initialized,
    /// Interrogation request
    Request,
    /// Activation
    Activation,
    /// Activation confirmation
    ActivationCon,
    /// Deactivation
    Deactivation,
    /// Deactivation confirmation
    DeactivationCon,
    /// Activation termination
    ActivationTermination,
    /// Return information caused by a remote command
    ReturnRemote,
    /// Return information caused by a local command
    ReturnLocal,
    /// Interrogated by station interrogation
    InterrogatedByStation,
    /// Unknown type identification
    UnknownType,
    /// Unknown cause of transmission
    UnknownCot,
    /// Unknown common address
    UnknownCa,
    /// Unknown information object address
    UnknownIoa,
}

impl CauseOfTransmission {
    /// The number that stands for this cause on the wire (six bits).
    pub open spec fn raw_value(self) -> u32 {
        match self {
            Self::Periodic => 1,
            Self::Background => 2,
            Self::Spontaneous => 3,
            Self::Initialized => 4,
            Self::Request => 5,
            Self::Activation => 6,
            Self::ActivationCon => 7,
            Self::Deactivation => 8,
            Self::DeactivationCon => 9,
            Self::ActivationTermination => 10,
            Self::ReturnRemote => 11,
            Self::ReturnLocal => 12,
            Self::InterrogatedByStation => 20,
            Self::UnknownType => 44,
            Self::UnknownCot => 45,
            Self::UnknownCa => 46,
            Self::UnknownIoa => 47,
        }
    }

    /// The cause that a wire value stands for, if it stands for one.
    pub open spec fn of_raw(raw: u32) -> Option<CauseOfTransmission> {
        if exists|c: CauseOfTransmission| c.raw_value() == raw {
            Some(choose|c: CauseOfTransmission| c.raw_value() == raw)
        } else {
            None
        }
    }

    /// The wire value of a cause stands for that cause.
    pub proof fn of_raw_value(self)
        ensures
            Self::of_raw(self.raw_value()) == Some(self),
    {
        let c = choose|c: CauseOfTransmission| c.raw_value() == self.raw_value();
        cause_raw_value_injective(c, self);
    }

    /// Convert to the wire value.
    #[verifier::when_used_as_spec(raw_value)]
    pub fn as_raw(self) -> (raw: u32)
        ensures
            raw == self.raw_value(),
            1 <= raw < 64,
    {
        match self {
            Self::Periodic => 1,
            Self::Background => 2,
            Self::Spontaneous => 3,
            Self::Initialized => 4,
            Self::Request => 5,
            Self::Activation => 6,
            Self::ActivationCon => 7,
            Self::Deactivation => 8,
            Self::DeactivationCon => 9,
            Self::ActivationTermination => 10,
            Self::ReturnRemote => 11,
            Self::ReturnLocal => 12,
            Self::InterrogatedByStation => 20,
            Self::UnknownType => 44,
            Self::UnknownCot => 45,
            Self::UnknownCa => 46,
            Self::UnknownIoa => 47,
        }
    }

    /// The cause that a wire value stands for, if it stands for one:
    /// `Some(c)` exactly when `c` is the cause whose wire value is `raw`.
    pub fn from_raw(raw: u32) -> (r: Option<Self>)
        ensures
            r matches Some(c) ==> c.raw_value() == raw,
            r is None ==> forall|c: CauseOfTransmission| c.raw_value() != raw,
            r == Self::of_raw(raw),
    {
        let r = Self::lookup(raw);
        proof {
            if let Some(c) = r {
                c.of_raw_value();
            }
        }
        r
    }

    fn lookup(raw: u32) -> (r: Option<Self>)
        ensures
            r matches Some(c) ==> c.raw_value() == raw,
            r is None ==> forall|c: CauseOfTransmission| c.raw_value() != raw,
    {
        match raw {
            1 => Some(Self::Periodic),
            2 => Some(Self::Background),
            3 => Some(Self::Spontaneous),
            4 => Some(Self::Initialized),
            5 => Some(Self::Request),
            6 => Some(Self::Activation),
            7 => Some(Self::ActivationCon),
            8 => Some(Self::Deactivation),
            9 => Some(Self::DeactivationCon),
            10 => Some(Self::ActivationTermination),
            11 => Some(Self::ReturnRemote),
            12 => Some(Self::ReturnLocal),
            20 => Some(Self::InterrogatedByStation),
            44 => Some(Self::UnknownType),
            45 => Some(Self::UnknownCot),
            46 => Some(Self::UnknownCa),
            47 => Some(Self::UnknownIoa),
            _ => None,
        }
    }
}

/// ASDU type identification.
#[derive(Debug, Clone, Copy, PartialEq, Eq, Hash, Structural)]
pub enum TypeId {
    /// Single-point information (M_SP_NA_1)
    SinglePoint,
    /// Single-point information with CP56Time2a time tag (M_SP_TB_1)
    SinglePointTime,
    /// Double-point information (M_DP_NA_1)
    DoublePoint,
    /// Double-point information with CP56Time2a time tag (M_DP_TB_1)
    DoublePointTime,
    /// Step position information (M_ST_NA_1)
    StepPosition,
    /// Bitstring of 32 bits (M_BO_NA_1)
    Bitstring32,
    /// Measured value, normalized (M_ME_NA_1)
    MeasuredNormalized,
    /// Measured value, scaled (M_ME_NB_1)
    MeasuredScaled,
    /// Measured value, scaled, with CP56Time2a time tag (M_ME_TE_1)
    MeasuredScaledTime,
    /// Measured value, short floating point (M_ME_NC_1)
    MeasuredFloat,
    /// Measured value, short floating point, with CP56Time2a time tag (M_ME_TF_1)
    MeasuredFloatTime,
    /// Integrated totals (M_IT_NA_1)
    IntegratedTotals,
    /// End of initialization (M_EI_NA_1)
    EndOfInit,
    /// Single command (C_SC_NA_1)
    SingleCommand,
    /// Single command with CP56Time2a time tag (C_SC_TA_1)
    SingleCommandTime,
    /// Double command (C_DC_NA_1)
    DoubleCommand,
    /// Regulating step command (C_RC_NA_1)
    RegulatingStep,
    /// Set point command, normalized (C_SE_NA_1)
    SetpointNormalized,
    /// Set point command, scaled (C_SE_NB_1)
    SetpointScaled,
    /// Set point command, short floating point (C_SE_NC_1)
    SetpointFloat,
    /// Interrogation command (C_IC_NA_1)
    Interrogation,
    /// Counter interrogation command (C_CI_NA_1)
    CounterInterrogation,
    /// Read command (C_RD_NA_1)
    Read,
    /// Clock synchronization command (C_CS_NA_1)
    ClockSync,
    /// Test command (C_TS_NA_1)
    TestCommand,
    /// Test command with CP56Time2a time tag (C_TS_TA_1)
    TestCommandTime,
    /// Reset process command (C_RP_NA_1)
    ResetProcess,
}

impl TypeId {
    /// The type identification octet.
    pub open spec fn raw_value(self) -> u32 {
        match self {
            Self::SinglePoint => 1,
            Self::SinglePointTime => 30,
            Self::DoublePoint => 3,
            Self::DoublePointTime => 31,
            Self::StepPosition => 5,
            Self::Bitstring32 => 7,
            Self::MeasuredNormalized => 9,
            Self::MeasuredScaled => 11,
            Self::MeasuredScaledTime => 35,
            Self::MeasuredFloat => 13,
            Self::MeasuredFloatTime => 36,
            Self::IntegratedTotals => 15,
            Self::EndOfInit => 70,
            Self::SingleCommand => 45,
            Self::SingleCommandTime => 58,
            Self::DoubleCommand => 46,
            Self::RegulatingStep => 47,
            Self::SetpointNormalized => 48,
            Self::SetpointScaled => 49,
            Self::SetpointFloat => 50,
            Self::Interrogation => 100,
            Self::CounterInterrogation => 101,
            Self::Read => 102,
            Self::ClockSync => 103,
            Self::TestCommand => 104,
            Self::TestCommandTime => 107,
            Self::ResetProcess => 105,
        }
    }

    /// The type that an octet identifies, if it identifies a supported one.
    pub open spec fn of_raw(raw: u32) -> Option<TypeId> {
        if exists|t: TypeId| t.raw_value() == raw {
            Some(choose|t: TypeId| t.raw_value() == raw)
        } else {
            None
        }
    }

    /// The octet of a type identifies that type.
    pub proof fn of_raw_value(self)
        ensures
            Self::of_raw(self.raw_value()) == Some(self),
    {
        let c = choose|t: TypeId| t.raw_value() == self.raw_value();
        type_id_raw_value_injective(c, self);
    }

    /// The standard's name of the type.
    pub open spec fn name_of(self) -> Seq<char> {
        match self {
            Self::SinglePoint => "M_SP_NA_1"@,
            Self::SinglePointTime => "M_SP_TB_1"@,
            Self::DoublePoint => "M_DP_NA_1"@,
            Self::DoublePointTime => "M_DP_TB_1"@,
            Self::StepPosition => "M_ST_NA_1"@,
            Self::Bitstring32 => "M_BO_NA_1"@,
            Self::MeasuredNormalized => "M_ME_NA_1"@,
            Self::MeasuredScaled => "M_ME_NB_1"@,
            Self::MeasuredScaledTime => "M_ME_TE_1"@,
            Self::MeasuredFloat => "M_ME_NC_1"@,
            Self::MeasuredFloatTime => "M_ME_TF_1"@,
            Self::IntegratedTotals => "M_IT_NA_1"@,
            Self::EndOfInit => "M_EI_NA_1"@,
            Self::SingleCommand => "C_SC_NA_1"@,
            Self::SingleCommandTime => "C_SC_TA_1"@,
            Self::DoubleCommand => "C_DC_NA_1"@,
            Self::RegulatingStep => "C_RC_NA_1"@,
            Self::SetpointNormalized => "C_SE_NA_1"@,
            Self::SetpointScaled => "C_SE_NB_1"@,
            Self::SetpointFloat => "C_SE_NC_1"@,
            Self::Interrogation => "C_IC_NA_1"@,
            Self::CounterInterrogation => "C_CI_NA_1"@,
            Self::Read => "C_RD_NA_1"@,
            Self::ClockSync => "C_CS_NA_1"@,
            Self::TestCommand => "C_TS_NA_1"@,
            Self::TestCommandTime => "C_TS_TA_1"@,
            Self::ResetProcess => "C_RP_NA_1"@,
        }
    }

    /// Whether the type travels in control direction (commands to the
    /// controlled station).
    pub open spec fn is_command(self) -> bool {
        45 <= self.raw_value() <= 69 || 100 <= self.raw_value() <= 107
    }

    /// Convert to the type identification octet.
    #[verifier::when_used_as_spec(raw_value)]
    pub fn as_raw(self) -> (raw: u32)
        ensures
            raw == self.raw_value(),
            1 <= raw <= 107,
    {
        match self {
            Self::SinglePoint => 1,
            Self::SinglePointTime => 30,
            Self::DoublePoint => 3,
            Self::DoublePointTime => 31,
            Self::StepPosition => 5,
            Self::Bitstring32 => 7,
            Self::MeasuredNormalized => 9,
            Self::MeasuredScaled => 11,
            Self::MeasuredScaledTime => 35,
            Self::MeasuredFloat => 13,
            Self::MeasuredFloatTime => 36,
            Self::IntegratedTotals => 15,
            Self::EndOfInit => 70,
            Self::SingleCommand => 45,
            Self::SingleCommandTime => 58,
            Self::DoubleCommand => 46,
            Self::RegulatingStep => 47,
            Self::SetpointNormalized => 48,
            Self::SetpointScaled => 49,
            Self::SetpointFloat => 50,
            Self::Interrogation => 100,
            Self::CounterInterrogation => 101,
            Self::Read => 102,
            Self::ClockSync => 103,
            Self::TestCommand => 104,
            Self::TestCommandTime => 107,
            Self::ResetProcess => 105,
        }
    }

    /// The type that an octet identifies, if it identifies a supported one:
    /// `Some(t)` exactly when `t` is the type whose octet is `raw`.
    pub fn from_raw(raw: u32) -> (r: Option<Self>)
        ensures
            r matches Some(t) ==> t.raw_value() == raw,
            r is None ==> forall|t: TypeId| t.raw_value() != raw,
            r == Self::of_raw(raw),
    {
        let r = Self::lookup(raw);
        proof {
            if let Some(t) = r {
                t.of_raw_value();
            }
        }
        r
    }

    fn lookup(raw: u32) -> (r: Option<Self>)
        ensures
            r matches Some(t) ==> t.raw_value() == raw,
            r is None ==> forall|t: TypeId| t.raw_value() != raw,
    {
        match raw {
            1 => Some(Self::SinglePoint),
            30 => Some(Self::SinglePointTime),
            3 => Some(Self::DoublePoint),
            31 => Some(Self::DoublePointTime),
            5 => Some(Self::StepPosition),
            7 => Some(Self::Bitstring32),
            9 => Some(Self::MeasuredNormalized),
            11 => Some(Self::MeasuredScaled),
            35 => Some(Self::MeasuredScaledTime),
            13 => Some(Self::MeasuredFloat),
            36 => Some(Self::MeasuredFloatTime),
            15 => Some(Self::IntegratedTotals),
            70 => Some(Self::EndOfInit),
            45 => Some(Self::SingleCommand),
            58 => Some(Self::SingleCommandTime),
            46 => Some(Self::DoubleCommand),
            47 => Some(Self::RegulatingStep),
            48 => Some(Self::SetpointNormalized),
            49 => Some(Self::SetpointScaled),
            50 => Some(Self::SetpointFloat),
            100 => Some(Self::Interrogation),
            101 => Some(Self::CounterInterrogation),
            102 => Some(Self::Read),
            103 => Some(Self::ClockSync),
            104 => Some(Self::TestCommand),
            107 => Some(Self::TestCommandTime),
            105 => Some(Self::ResetProcess),
            _ => None,
        }
    }

    /// Get the name of this type ID.
    pub fn name(self) -> (s: &'static str)
        ensures
            s@ == self.name_of(),
    {
        match self {
            Self::SinglePoint => "M_SP_NA_1",
            Self::SinglePointTime => "M_SP_TB_1",
            Self::DoublePoint => "M_DP_NA_1",
            Self::DoublePointTime => "M_DP_TB_1",
            Self::StepPosition => "M_ST_NA_1",
            Self::Bitstring32 => "M_BO_NA_1",
            Self::MeasuredNormalized => "M_ME_NA_1",
            Self::MeasuredScaled => "M_ME_NB_1",
            Self::MeasuredScaledTime => "M_ME_TE_1",
            Self::MeasuredFloat => "M_ME_NC_1",
            Self::MeasuredFloatTime => "M_ME_TF_1",
            Self::IntegratedTotals => "M_IT_NA_1",
            Self::EndOfInit => "M_EI_NA_1",
            Self::SingleCommand => "C_SC_NA_1",
            Self::SingleCommandTime => "C_SC_TA_1",
            Self::DoubleCommand => "C_DC_NA_1",
            Self::RegulatingStep => "C_RC_NA_1",
            Self::SetpointNormalized => "C_SE_NA_1",
            Self::SetpointScaled => "C_SE_NB_1",
            Self::SetpointFloat => "C_SE_NC_1",
            Self::Interrogation => "C_IC_NA_1",
            Self::CounterInterrogation => "C_CI_NA_1",
            Self::Read => "C_RD_NA_1",
            Self::ClockSync => "C_CS_NA_1",
            Self::TestCommand => "C_TS_NA_1",
            Self::TestCommandTime => "C_TS_TA_1",
            Self::ResetProcess => "C_RP_NA_1",
        }
    }
}

/// Quality flag octets, one bit each.
/// Overflow
pub const QUALITY_OVERFLOW: u8 = 0x01;

/// Reserved (bit 1)
pub const QUALITY_RESERVED1: u8 = 0x02;

/// Reserved (bit 2)
pub const QUALITY_RESERVED2: u8 = 0x04;

/// Elapsed time invalid
pub const QUALITY_ELAPSED_TIME_INVALID: u8 = 0x08;

/// Blocked
pub const QUALITY_BLOCKED: u8 = 0x10;

/// Substituted
pub const QUALITY_SUBSTITUTED: u8 = 0x20;

/// Not topical
pub const QUALITY_NOT_TOPICAL: u8 = 0x40;

/// Invalid
pub const QUALITY_INVALID: u8 = 0x80;

/// Quality descriptor of an information object: a set of flags in one octet.
/// No flag set means good quality.
#[derive(Debug, Clone, Copy, PartialEq, Eq, Hash, Structural)]
pub struct Quality {
    /// The flags as one octet.
    pub bits: u8,
}

impl Quality {
    /// Good quality: the empty set of flags.
    pub fn good() -> (q: Self)
        ensures
            q.bits == 0,
    {
        Quality { bits: 0 }
    }

    /// The flag "overflow" alone.
    pub fn overflow() -> (q: Self)
        ensures
            q.bits == QUALITY_OVERFLOW,
    {
        Quality { bits: QUALITY_OVERFLOW }
    }

    /// The flag "reserved (bit 1)" alone.
    pub fn reserved1() -> (q: Self)
        ensures
            q.bits == QUALITY_RESERVED1,
    {
        Quality { bits: QUALITY_RESERVED1 }
    }

    /// The flag "reserved (bit 2)" alone.
    pub fn reserved2() -> (q: Self)
        ensures
            q.bits == QUALITY_RESERVED2,
    {
        Quality { bits: QUALITY_RESERVED2 }
    }

    /// The flag "elapsed time invalid" alone.
    pub fn elapsed_time_invalid() -> (q: Self)
        ensures
            q.bits == QUALITY_ELAPSED_TIME_INVALID,
    {
        Quality { bits: QUALITY_ELAPSED_TIME_INVALID }
    }

    /// The flag "blocked" alone.
    pub fn blocked() -> (q: Self)
        ensures
            q.bits == QUALITY_BLOCKED,
    {
        Quality { bits: QUALITY_BLOCKED }
    }

    /// The flag "substituted" alone.
    pub fn substituted() -> (q: Self)
        ensures
            q.bits == QUALITY_SUBSTITUTED,
    {
        Quality { bits: QUALITY_SUBSTITUTED }
    }

    /// The flag "not topical" alone.
    pub fn not_topical() -> (q: Self)
        ensures
            q.bits == QUALITY_NOT_TOPICAL,
    {
        Quality { bits: QUALITY_NOT_TOPICAL }
    }

    /// The flag "invalid" alone.
    pub fn invalid() -> (q: Self)
        ensures
            q.bits == QUALITY_INVALID,
    {
        Quality { bits: QUALITY_INVALID }
    }

    /// The empty set of flags.
    pub fn empty() -> (q: Self)
        ensures
            q.bits == 0,
    {
        Quality { bits: 0 }
    }

    /// The set of all flags.
    pub fn all() -> (q: Self)
        ensures
            q.bits == 0xff,
    {
        Quality { bits: 0xff }
    }

    /// Get the flags as one octet.
    pub fn bits(&self) -> (b: u8)
        ensures
            b == self.bits,
    {
        self.bits
    }

    /// The set that an octet stands for. Every bit of the octet is a flag,
    /// so every octet stands for a set.
    pub fn from_bits(bits: u8) -> (r: Option<Self>)
        ensures
            r matches Some(q) && q.bits == bits,
    {
        Some(Quality { bits })
    }

    /// The set that an octet stands for, without the bits that are no flag.
    /// Every bit of the octet is a flag, so none is taken out.
    pub fn from_bits_truncate(bits: u8) -> (q: Self)
        ensures
            q.bits == bits,
    {
        Quality { bits }
    }

    /// Whether no flag is set.
    pub fn is_empty(&self) -> (b: bool)
        ensures
            b == (self.bits == 0),
    {
        self.bits == 0
    }

    /// Whether the quality is good, that is, no flag is set.
    pub fn is_good(&self) -> (b: bool)
        ensures
            b == (self.bits == 0),
    {
        self.bits == 0
    }

    /// Whether every flag of `other` is set in `self`.
    pub fn contains(&self, other: Quality) -> (b: bool)
        ensures
            b == (self.bits & other.bits == other.bits),
    {
        self.bits & other.bits == other.bits
    }

    /// Whether some flag of `other` is set in `self`.
    pub fn intersects(&self, other: Quality) -> (b: bool)
        ensures
            b == (self.bits & other.bits != 0),
    {
        self.bits & other.bits != 0
    }

    /// The flags set in `self` or in `other`.
    pub fn union(self, other: Quality) -> (q: Self)
        ensures
            q.bits == self.bits | other.bits,
    {
        Quality { bits: self.bits | other.bits }
    }

    /// The flags set in `self` and in `other`.
    pub fn intersection(self, other: Quality) -> (q: Self)
        ensures
            q.bits == self.bits & other.bits,
    {
        Quality { bits: self.bits & other.bits }
    }

    /// The flags set in `self` and not in `other`.
    pub fn difference(self, other: Quality) -> (q: Self)
        ensures
            q.bits == self.bits & !other.bits,
    {
        Quality { bits: self.bits & !other.bits }
    }

    /// Set the flags of `other`.
    pub fn insert(&mut self, other: Quality)
        ensures
            final(self).bits == old(self).bits | other.bits,
    {
        self.bits = self.bits | other.bits;
    }

    /// Clear the flags of `other`.
    pub fn remove(&mut self, other: Quality)
        ensures
            final(self).bits == old(self).bits & !other.bits,
    {
        self.bits = self.bits & !other.bits;
    }
}

impl Default for Quality {
    fn default() -> (q: Self)
        ensures
            q.bits == 0,
    {
        Quality { bits: 0 }
    }
}

/// Connection events for the client.
#[derive(Debug, Clone, Copy, PartialEq, Eq, Hash, Structural)]
pub enum ConnectionEvent {
    /// TCP connection opened
    Opened,
    /// TCP connection closed
    Closed,
    /// Connection attempt failed
    Failed,
    /// Received STARTDT confirmation
    StartDtCon,
    /// Received STOPDT confirmation
    StopDtCon,
}

impl ConnectionEvent {
    /// The number that stands for this event.
    pub open spec fn raw_value(self) -> u32 {
        match self {
            Self::Opened => 0,
            Self::Closed => 1,
            Self::StartDtCon => 2,
            Self::StopDtCon => 3,
            Self::Failed => 4,
        }
    }

    /// The event that a number stands for, if it stands for one:
    /// `Some(e)` exactly when `e` is the event whose number is `raw`.
    pub fn from_raw(raw: u32) -> (r: Option<Self>)
        ensures
            r matches Some(e) ==> e.raw_value() == raw,
            r is None ==> forall|e: ConnectionEvent| e.raw_value() != raw,
    {
        match raw {
            0 => Some(Self::Opened),
            1 => Some(Self::Closed),
            2 => Some(Self::StartDtCon),
            3 => Some(Self::StopDtCon),
            4 => Some(Self::Failed),
            _ => None,
        }
    }
}

/// Peer connection events for the server.
#[derive(Debug, Clone, Copy, PartialEq, Eq, Hash, Structural)]
pub enum PeerConnectionEvent {
    /// Connection opened
    Opened,
    /// Connection closed
    Closed,
    /// Connection activated (STARTDT received)
    Activated,
    /// Connection deactivated (STOPDT received)
    Deactivated,
}

impl PeerConnectionEvent {
    /// The number that stands for this event.
    pub open spec fn raw_value(self) -> u32 {
        match self {
            Self::Opened => 0,
            Self::Closed => 1,
            Self::Activated => 2,
            Self::Deactivated => 3,
        }
    }

    /// The event that a number stands for, if it stands for one:
    /// `Some(e)` exactly when `e` is the event whose number is `raw`.
    pub fn from_raw(raw: u32) -> (r: Option<Self>)
        ensures
            r matches Some(e) ==> e.raw_value() == raw,
            r is None ==> forall|e: PeerConnectionEvent| e.raw_value() != raw,
    {
        match raw {
            0 => Some(Self::Opened),
            1 => Some(Self::Closed),
            2 => Some(Self::Activated),
            3 => Some(Self::Deactivated),
            _ => None,
        }
    }
}

/// How the server admits peers to data transfer.
#[derive(Debug, Clone, Copy, PartialEq, Eq, Hash, Structural)]
pub enum ServerMode {
    /// Single redundancy group (default): one active peer at a time
    SingleRedundancyGroup,
    /// Every connection is a redundancy group of its own
    ConnectionIsRedundancyGroup,
    /// Several redundancy groups, one active peer in each
    MultipleRedundancyGroups,
}

impl ServerMode {
    /// The number that stands for this mode.
    pub open spec fn raw_value(self) -> u32 {
        match self {
            Self::SingleRedundancyGroup => 0,
            Self::ConnectionIsRedundancyGroup => 1,
            Self::MultipleRedundancyGroups => 2,
        }
    }

    /// Convert to the number that stands for this mode.
    #[verifier::when_used_as_spec(raw_value)]
    pub fn as_raw(self) -> (raw: u32)
        ensures
            raw == self.raw_value(),
    {
        match self {
            Self::SingleRedundancyGroup => 0,
            Self::ConnectionIsRedundancyGroup => 1,
            Self::MultipleRedundancyGroups => 2,
        }
    }
}

impl Default for ServerMode {
    fn default() -> (m: Self)
        ensures
            m == ServerMode::SingleRedundancyGroup,
    {
        ServerMode::SingleRedundancyGroup
    }
}

/// The wire value identifies the cause: two causes with one wire value are
/// the same cause.
pub proof fn cause_raw_value_injective(a: CauseOfTransmission, b: CauseOfTransmission)
    requires
        a.raw_value() == b.raw_value(),
    ensures
        a == b,
{
}

/// The type identification octet identifies the type: two types with one
/// octet are the same type.
pub proof fn type_id_raw_value_injective(a: TypeId, b: TypeId)
    requires
        a.raw_value() == b.raw_value(),
    ensures
        a == b,
{
}

} // verus!
