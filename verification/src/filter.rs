//! Plain values of the filter callback interface: the method mask a filter
//! subscribes with, the result codes its callbacks hand back to the host,
//! and the policy that turns a callback outcome into the host-visible code.

use vstd::prelude::*;

verus! {

/// Methods a filter can subscribe to, as a bit mask.
pub struct FilterMethod;

impl FilterMethod {
    pub const START_ANALYZE: u8 = 0b00000001;

    pub const END_ANALYZE: u8 = 0b00000010;

    pub const HTTP_HEADERS: u8 = 0b00000100;

    pub const HTTP_PAYLOAD: u8 = 0b00001000;

    pub const HTTP_END: u8 = 0b00010000;

    pub const ALL: u8 = 255;
}

/// Whether a filter's method mask subscribes to a method.
pub fn method_enabled(methods: u8, method: u8) -> (r: bool)
    ensures
        r == (methods & method != 0),
{
    methods & method != 0
}

/// A code that filter callback functions may return.
#[derive(Debug, Clone, Copy, PartialEq, Eq, Structural)]
pub enum FilterResult {
    /// A filtering step is finished for filter.
    Continue,
    /// A filtering step must be paused, waiting for more data or for an
    /// external event depending on filter.
    Wait,
    /// Trigger a error
    Error,
}

impl FilterResult {
    /// The numeric code the host understands for the result.
    pub open spec fn spec_code(self) -> i8 {
        match self {
            FilterResult::Continue => 1i8,
            FilterResult::Wait => 0i8,
            FilterResult::Error => -1i8,
        }
    }

    /// The numeric code handed to the host: continue 1, wait 0, error -1.
    pub fn code(&self) -> (c: i8)
        ensures
            c == self.spec_code(),
    {
        match self {
            FilterResult::Continue => 1,
            FilterResult::Wait => 0,
            FilterResult::Error => -1,
        }
    }
}

/// The meaning of `process_result`.
pub open spec fn spec_process_result(res: Option<FilterResult>, continue_if_error: bool) -> Option<
    i8,
> {
    match res {
        Some(fr) => Some(fr.spec_code()),
        None => if continue_if_error {
            Some(FilterResult::Continue.spec_code())
        } else {
            None
        },
    }
}

/// Turns a filter callback's outcome into the code reported to the host.
/// `None` stands for a failed callback: under the continue-if-error policy
/// the failure is only logged and the stream continues; otherwise it is
/// propagated and `None` comes back.
pub fn process_result(res: Option<FilterResult>, continue_if_error: bool) -> (r: Option<i8>)
    ensures
        r == spec_process_result(res, continue_if_error),
{
    match res {
        Some(fr) => Some(fr.code()),
        None => if continue_if_error {
            Some(FilterResult::Continue.code())
        } else {
            None
        },
    }
}

} // verus!
