//! The one-octet and four-octet codes of TWAMP-Control.

use vstd::prelude::*;

verus! {

/// A Server's answer to a request (RFC 4656 section 3.3).
#[derive(Clone, Copy, Debug, PartialEq, Eq, Structural)]
pub enum Accept {
    Accepted,
    Failure,
    InternalError,
    NotSupported,
    PermanentResourceLimitation,
    TemporaryResourceLimitation,
}

/// The octet that carries `a`.
pub open spec fn accept_code(a: Accept) -> u8 {
    match a {
        Accept::Accepted => 0,
        Accept::Failure => 1,
        Accept::InternalError => 2,
        Accept::NotSupported => 3,
        Accept::PermanentResourceLimitation => 4,
        Accept::TemporaryResourceLimitation => 5,
    }
}

/// The value an octet carries, if it names one.
pub open spec fn accept_of(v: u8) -> Option<Accept> {
    if v == 0 {
        Some(Accept::Accepted)
    } else if v == 1 {
        Some(Accept::Failure)
    } else if v == 2 {
        Some(Accept::InternalError)
    } else if v == 3 {
        Some(Accept::NotSupported)
    } else if v == 4 {
        Some(Accept::PermanentResourceLimitation)
    } else if v == 5 {
        Some(Accept::TemporaryResourceLimitation)
    } else {
        None
    }
}

impl Accept {
    pub fn code(self) -> (r: u8)
        ensures
            r == accept_code(self),
    {
        match self {
            Accept::Accepted => 0,
            Accept::Failure => 1,
            Accept::InternalError => 2,
            Accept::NotSupported => 3,
            Accept::PermanentResourceLimitation => 4,
            Accept::TemporaryResourceLimitation => 5,
        }
    }

    pub fn from_code(v: u8) -> (r: Option<Accept>)
        ensures
            r == accept_of(v),
    {
        if v == 0 {
            Some(Accept::Accepted)
        } else if v == 1 {
            Some(Accept::Failure)
        } else if v == 2 {
            Some(Accept::InternalError)
        } else if v == 3 {
            Some(Accept::NotSupported)
        } else if v == 4 {
            Some(Accept::PermanentResourceLimitation)
        } else if v == 5 {
            Some(Accept::TemporaryResourceLimitation)
        } else {
            None
        }
    }

    pub fn is_ok(self) -> (r: bool)
        ensures
            r == (self == Accept::Accepted),
    {
        matches!(self, Accept::Accepted)
    }
}

impl Default for Accept {
    fn default() -> (r: Accept)
        ensures
            r == Accept::Accepted,
    {
        Accept::Accepted
    }
}

impl From<Accept> for u8 {
    fn from(a: Accept) -> (r: u8) {
        a.code()
    }
}

impl vstd::std_specs::convert::FromSpecImpl<Accept> for u8 {
    open spec fn obeys_from_spec() -> bool {
        true
    }

    open spec fn from_spec(a: Accept) -> u8 {
        accept_code(a)
    }
}

/// Security modes of a TWAMP session (RFC 4656 section 3.1, RFC 5618).
#[derive(Clone, Copy, Debug, PartialEq, Eq, Structural)]
pub enum SecurityMode {
    Reserved,
    Unauthenticated,
    Authenticated,
    Encrypted,
    EncryptedControlUnauthTest,
}

/// The bit that stands for `m` in a mode field; zero for `Reserved`.
pub open spec fn mode_bits(m: SecurityMode) -> u32 {
    match m {
        SecurityMode::Reserved => 0,
        SecurityMode::Unauthenticated => 1,
        SecurityMode::Authenticated => 2,
        SecurityMode::Encrypted => 4,
        SecurityMode::EncryptedControlUnauthTest => 8,
    }
}

/// The mode a selected-mode field names, if it names exactly one.
pub open spec fn mode_of(v: u32) -> Option<SecurityMode> {
    if v == 0 {
        Some(SecurityMode::Reserved)
    } else if v == 1 {
        Some(SecurityMode::Unauthenticated)
    } else if v == 2 {
        Some(SecurityMode::Authenticated)
    } else if v == 4 {
        Some(SecurityMode::Encrypted)
    } else if v == 8 {
        Some(SecurityMode::EncryptedControlUnauthTest)
    } else {
        None
    }
}

impl SecurityMode {
    pub fn bits(self) -> (r: u32)
        ensures
            r == mode_bits(self),
    {
        match self {
            SecurityMode::Reserved => 0,
            SecurityMode::Unauthenticated => 1,
            SecurityMode::Authenticated => 2,
            SecurityMode::Encrypted => 4,
            SecurityMode::EncryptedControlUnauthTest => 8,
        }
    }

    pub fn from_bits(v: u32) -> (r: Option<SecurityMode>)
        ensures
            r == mode_of(v),
    {
        if v == 0 {
            Some(SecurityMode::Reserved)
        } else if v == 1 {
            Some(SecurityMode::Unauthenticated)
        } else if v == 2 {
            Some(SecurityMode::Authenticated)
        } else if v == 4 {
            Some(SecurityMode::Encrypted)
        } else if v == 8 {
            Some(SecurityMode::EncryptedControlUnauthTest)
        } else {
            None
        }
    }
}

impl Default for SecurityMode {
    fn default() -> (r: SecurityMode)
        ensures
            r == SecurityMode::Unauthenticated,
    {
        SecurityMode::Unauthenticated
    }
}

impl From<SecurityMode> for u32 {
    fn from(m: SecurityMode) -> (r: u32) {
        m.bits()
    }
}

impl vstd::std_specs::convert::FromSpecImpl<SecurityMode> for u32 {
    open spec fn obeys_from_spec() -> bool {
        true
    }

    open spec fn from_spec(m: SecurityMode) -> u32 {
        mode_bits(m)
    }
}

/// Command numbers of TWAMP-Control (RFC 5357 section 8.4).
#[derive(Clone, Copy, Debug, PartialEq, Eq, Structural)]
pub enum CommandNumber {
    Forbidden,
    StartSessions,
    StopSessions,
    RequestTwSession,
    Experimentation,
}

pub open spec fn command_code(c: CommandNumber) -> u8 {
    match c {
        CommandNumber::Forbidden => 1,
        CommandNumber::StartSessions => 2,
        CommandNumber::StopSessions => 3,
        CommandNumber::RequestTwSession => 5,
        CommandNumber::Experimentation => 6,
    }
}

impl CommandNumber {
    pub fn code(self) -> (r: u8)
        ensures
            r == command_code(self),
    {
        match self {
            CommandNumber::Forbidden => 1,
            CommandNumber::StartSessions => 2,
            CommandNumber::StopSessions => 3,
            CommandNumber::RequestTwSession => 5,
            CommandNumber::Experimentation => 6,
        }
    }
}

impl From<CommandNumber> for u8 {
    fn from(c: CommandNumber) -> (r: u8) {
        c.code()
    }
}

impl vstd::std_specs::convert::FromSpecImpl<CommandNumber> for u8 {
    open spec fn obeys_from_spec() -> bool {
        true
    }

    open spec fn from_spec(c: CommandNumber) -> u8 {
        command_code(c)
    }
}

/// Names of the TWAMP-Control messages, used to say which one an error concerns.
#[derive(Clone, Copy, Debug, PartialEq, Eq, Structural)]
pub enum ControlMessages {
    ServerGreeting,
    SetUpResponse,
    ServerStart,
    RequestTwSession,
    AcceptSession,
    StartSessions,
    StartAck,
    StopSessions,
}

/// Why a byte image is not a message of the expected shape.
#[derive(Clone, Copy, Debug, PartialEq, Eq, Structural)]
pub enum WireError {
    /// The image is not the size of the message.
    Length,
    /// A Must-Be-Zero field holds a one bit.
    MustBeZero,
    /// The command number is not the one of the message.
    Command,
    /// The Accept octet names no Accept value.
    Accept,
    /// The mode field names no single security mode.
    Mode,
    /// The error estimate is malformed (its multiplier is zero).
    ErrorEstimate,
}

/// Well-known TCP port of TWAMP-Control (RFC 8545).
pub const TWAMP_CONTROL_WELL_KNOWN_PORT: u16 = 862;

/// Well-known UDP port of TWAMP-Test (RFC 8545).
pub const TWAMP_TEST_WELL_KNOWN_PORT: u16 = 863;

} // verus!
