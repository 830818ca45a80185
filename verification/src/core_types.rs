//! Plain values exchanged with the host core: the fixed clock reading, the
//! action hooks a function can be registered for, service modes, and syslog
//! levels.

use vstd::prelude::*;

verus! {

/// The current time as the host core fixes it: seconds and microseconds.
/// The host guarantees the reading is monotonic within a scheduler tick.
#[derive(Debug, Copy, Clone)]
pub struct Time {
    pub sec: u64,
    pub usec: u64,
}

/// The hooks an action can be registered for.
#[derive(Debug, Copy, Clone)]
pub enum Action {
    TcpReq,
    TcpRes,
    HttpReq,
    HttpRes,
    HttpAfterRes,
}

impl Action {
    /// The configuration keyword of the hook.
    pub open spec fn spec_str(self) -> Seq<char> {
        match self {
            Action::TcpReq => "tcp-req"@,
            Action::TcpRes => "tcp-res"@,
            Action::HttpReq => "http-req"@,
            Action::HttpRes => "http-res"@,
            Action::HttpAfterRes => "http-after-res"@,
        }
    }

    /// The configuration keyword of the hook, as the host expects it in a
    /// registration call.
    pub fn as_str(&self) -> (s: &'static str)
        ensures
            s@ == self.spec_str(),
    {
        match self {
            Action::TcpReq => "tcp-req",
            Action::TcpRes => "tcp-res",
            Action::HttpReq => "http-req",
            Action::HttpRes => "http-res",
            Action::HttpAfterRes => "http-after-res",
        }
    }
}

/// The mode a registered service runs in.
#[derive(Debug, Copy, Clone)]
pub enum ServiceMode {
    Tcp,
    Http,
}

impl ServiceMode {
    /// The configuration keyword of the mode.
    pub open spec fn spec_str(self) -> Seq<char> {
        match self {
            ServiceMode::Tcp => "tcp"@,
            ServiceMode::Http => "http"@,
        }
    }

    /// The configuration keyword of the mode, as the host expects it in a
    /// service registration call.
    pub fn as_str(&self) -> (s: &'static str)
        ensures
            s@ == self.spec_str(),
    {
        match self {
            ServiceMode::Tcp => "tcp",
            ServiceMode::Http => "http",
        }
    }
}

/// Syslog severity of a log line.
#[derive(Debug, Copy, Clone)]
pub enum LogLevel {
    Emerg,
    Alert,
    Crit,
    Error,
    Warning,
    Notice,
    Info,
    Debug,
}

impl LogLevel {
    /// The numeric syslog severity, `Emerg` being 0 and `Debug` 7.
    pub open spec fn spec_code(self) -> u8 {
        match self {
            LogLevel::Emerg => 0,
            LogLevel::Alert => 1,
            LogLevel::Crit => 2,
            LogLevel::Error => 3,
            LogLevel::Warning => 4,
            LogLevel::Notice => 5,
            LogLevel::Info => 6,
            LogLevel::Debug => 7,
        }
    }

    /// The numeric syslog severity handed to the host.
    pub fn code(&self) -> (c: u8)
        ensures
            c == self.spec_code(),
    {
        match self {
            LogLevel::Emerg => 0,
            LogLevel::Alert => 1,
            LogLevel::Crit => 2,
            LogLevel::Error => 3,
            LogLevel::Warning => 4,
            LogLevel::Notice => 5,
            LogLevel::Info => 6,
            LogLevel::Debug => 7,
        }
    }
}

} // verus!
