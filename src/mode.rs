use vstd::prelude::*;

verus! {

/// The routing the user asked for: the system proxy, the virtual interface, or both.
#[derive(Clone, Copy, Debug, PartialEq, Eq, Structural)]
pub enum ConnectionMode {
    System,
    Tun,
    Combine,
}

/// The mode that a textual request selects: an exact, case-sensitive match on
/// `system`, `tun` or `combine`, and `System` for any other text.
pub open spec fn mode_from_text(s: Seq<char>) -> ConnectionMode {
    if s == "tun"@ {
        ConnectionMode::Tun
    } else if s == "combine"@ {
        ConnectionMode::Combine
    } else {
        ConnectionMode::System
    }
}

/// The canonical name of a mode, as it is written in the stored configuration.
pub open spec fn mode_name(m: ConnectionMode) -> Seq<char> {
    match m {
        ConnectionMode::System => "System"@,
        ConnectionMode::Tun => "Tun"@,
        ConnectionMode::Combine => "Combine"@,
    }
}

/// The lower-case name of a mode, as the user interface writes it.
pub open spec fn mode_label(m: ConnectionMode) -> Seq<char> {
    match m {
        ConnectionMode::System => "system"@,
        ConnectionMode::Tun => "tun"@,
        ConnectionMode::Combine => "combine"@,
    }
}

/// Whether the mode routes traffic through the virtual interface.
pub open spec fn uses_tun(m: ConnectionMode) -> bool {
    m == ConnectionMode::Tun || m == ConnectionMode::Combine
}

/// Whether the mode routes traffic through the system proxy setting.
pub open spec fn uses_system_proxy(m: ConnectionMode) -> bool {
    m == ConnectionMode::System || m == ConnectionMode::Combine
}

impl ConnectionMode {
    /// Whether `self` is the same mode as `mode`.
    pub fn is(&self, mode: ConnectionMode) -> (r: bool)
        ensures
            r == (*self == mode),
    {
        *self == mode
    }

    /// The canonical name of the mode (`System`, `Tun` or `Combine`).
    pub fn name(&self) -> (r: String)
        ensures
            r@ == mode_name(*self),
    {
        match self {
            ConnectionMode::System => "System".to_owned(),
            ConnectionMode::Tun => "Tun".to_owned(),
            ConnectionMode::Combine => "Combine".to_owned(),
        }
    }

    /// The name in lower case, as the user interface writes it.
    pub fn label(&self) -> (r: String)
        ensures
            r@ == mode_label(*self),
            mode_from_text(r@) == *self,
    {
        proof {
            reveal_strlit("system");
            reveal_strlit("tun");
            reveal_strlit("combine");
            assert("system"@.len() == 6 && "tun"@.len() == 3 && "combine"@.len() == 7);
        }
        match self {
            ConnectionMode::System => "system".to_owned(),
            ConnectionMode::Tun => "tun".to_owned(),
            ConnectionMode::Combine => "combine".to_owned(),
        }
    }

    /// The mode that `text` selects (see `mode_from_text`).
    pub fn from_text(text: &str) -> (r: ConnectionMode)
        ensures
            r == mode_from_text(text@),
    {
        let owned = text.to_owned();
        if owned == "tun".to_owned() {
            ConnectionMode::Tun
        } else if owned == "combine".to_owned() {
            ConnectionMode::Combine
        } else {
            ConnectionMode::System
        }
    }
}

impl Default for ConnectionMode {
    fn default() -> (r: ConnectionMode)
        ensures
            r == ConnectionMode::System,
    {
        ConnectionMode::System
    }
}

} // verus!
