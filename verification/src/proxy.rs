//! Proxy introspection values: the capability and mode keywords the host
//! reports, parsed into plain enums.

use vstd::prelude::*;
use vstd::string::StrSliceExecFns;

verus! {

/// What a proxy can do, per the host's capability keyword.
#[derive(Debug, Clone, Copy, PartialEq, Eq, Structural)]
pub enum ProxyCapability {
    Frontend,
    Backend,
    Proxy,
    Ruleset,
}

/// The traffic mode of a proxy, per the host's mode keyword.
#[derive(Debug, Clone, Copy, PartialEq, Eq, Structural)]
pub enum ProxyMode {
    Tcp,
    Http,
    Health,
    Unknown,
}

/// Whether two strings hold the same characters.
fn str_eq(a: &str, b: &str) -> (r: bool)
    ensures
        r == (a@ == b@),
{
    let n = a.unicode_len();
    if n != b.unicode_len() {
        return false;
    }
    let mut i: usize = 0;
    while i < n
        invariant
            i <= n,
            n == a@.len(),
            n == b@.len(),
            forall|j: int| 0 <= j < i ==> a@[j] == b@[j],
        decreases n - i,
    {
        if a.get_char(i) != b.get_char(i) {
            return false;
        }
        i = i + 1;
    }
    proof {
        assert(a@ =~= b@);
    }
    true
}

/// The meaning of `ProxyCapability::parse`.
pub open spec fn spec_capability_of(s: Seq<char>) -> ProxyCapability {
    if s == "frontend"@ {
        ProxyCapability::Frontend
    } else if s == "backend"@ {
        ProxyCapability::Backend
    } else if s == "proxy"@ {
        ProxyCapability::Proxy
    } else {
        ProxyCapability::Ruleset
    }
}

/// The meaning of `ProxyMode::parse`.
pub open spec fn spec_mode_of(s: Seq<char>) -> ProxyMode {
    if s == "tcp"@ {
        ProxyMode::Tcp
    } else if s == "http"@ {
        ProxyMode::Http
    } else if s == "health"@ {
        ProxyMode::Health
    } else {
        ProxyMode::Unknown
    }
}

impl ProxyCapability {
    /// Parses the host's capability keyword; anything unrecognized is a
    /// ruleset.
    pub fn parse(s: &str) -> (c: ProxyCapability)
        ensures
            c == spec_capability_of(s@),
    {
        if str_eq(s, "frontend") {
            ProxyCapability::Frontend
        } else if str_eq(s, "backend") {
            ProxyCapability::Backend
        } else if str_eq(s, "proxy") {
            ProxyCapability::Proxy
        } else {
            ProxyCapability::Ruleset
        }
    }
}

impl ProxyMode {
    /// Parses the host's mode keyword; anything unrecognized is `Unknown`.
    pub fn parse(s: &str) -> (m: ProxyMode)
        ensures
            m == spec_mode_of(s@),
    {
        if str_eq(s, "tcp") {
            ProxyMode::Tcp
        } else if str_eq(s, "http") {
            ProxyMode::Http
        } else if str_eq(s, "health") {
            ProxyMode::Health
        } else {
            ProxyMode::Unknown
        }
    }
}

} // verus!
