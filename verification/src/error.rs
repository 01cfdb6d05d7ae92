//! The errors that the switch reports, and the exact text they carry.

use vstd::prelude::*;

verus! {

/// What can go wrong when a switch is set up or a frame is read.
#[derive(Debug, PartialEq, Eq)]
pub enum SwitchrError {
    /// The bytes are not an Ethernet frame that the switch can use.
    ParseError(String),
    /// The configuration breaks the named constraint.
    BadConfig(String),
    /// The number is no VLAN identifier.
    InvalidVlan,
}

/// The decimal digit for `d`, where `d < 10`.
pub open spec fn digit(d: nat) -> char {
    if d == 0 {
        '0'
    } else if d == 1 {
        '1'
    } else if d == 2 {
        '2'
    } else if d == 3 {
        '3'
    } else if d == 4 {
        '4'
    } else if d == 5 {
        '5'
    } else if d == 6 {
        '6'
    } else if d == 7 {
        '7'
    } else if d == 8 {
        '8'
    } else {
        '9'
    }
}

/// `n` written in decimal, without sign or leading zeros.
pub open spec fn decimal(n: nat) -> Seq<char>
    decreases n,
{
    if n < 10 {
        seq![digit(n)]
    } else {
        decimal(n / 10).push(digit(n % 10))
    }
}

/// The text of the error for a configuration without ports.
pub open spec fn no_ports_message() -> Seq<char> {
    "No ports provided"@
}

/// The text of the error for a VLAN that names the port `port`, which the
/// configuration does not have.
pub open spec fn invalid_port_message(port: nat) -> Seq<char> {
    "Invalid port "@ + decimal(port)
}

/// The text of the error for a frame that ends before its header does.
pub open spec fn short_frame_message() -> Seq<char> {
    "Frame too short"@
}

/// The text of the error for an 802.1Q tag that carries VLAN 0.
pub open spec fn null_vlan_message() -> Seq<char> {
    "VLAN tag without a VLAN"@
}

/// The digit `d` as text.
fn digit_text(d: usize) -> (text: &'static str)
    requires
        d < 10,
    ensures
        text@ == seq![digit(d as nat)],
{
    proof {
        reveal_strlit("0");
        reveal_strlit("1");
        reveal_strlit("2");
        reveal_strlit("3");
        reveal_strlit("4");
        reveal_strlit("5");
        reveal_strlit("6");
        reveal_strlit("7");
        reveal_strlit("8");
        reveal_strlit("9");
    }
    let text = if d == 0 {
        "0"
    } else if d == 1 {
        "1"
    } else if d == 2 {
        "2"
    } else if d == 3 {
        "3"
    } else if d == 4 {
        "4"
    } else if d == 5 {
        "5"
    } else if d == 6 {
        "6"
    } else if d == 7 {
        "7"
    } else if d == 8 {
        "8"
    } else {
        "9"
    };
    text
}

/// Appends `n`, written in decimal, to `text`.
fn append_decimal(text: &mut String, n: usize)
    ensures
        final(text)@ == old(text)@ + decimal(n as nat),
    decreases n,
{
    if n >= 10 {
        append_decimal(text, n / 10);
    }
    text.append(digit_text(n % 10));
}

impl SwitchrError {
    /// The error for a configuration without ports.
    pub fn no_ports() -> (e: Self)
        ensures
            e matches SwitchrError::BadConfig(text) && text@ == no_ports_message(),
    {
        SwitchrError::BadConfig(String::from_str("No ports provided"))
    }

    /// The error for a VLAN that names a port beyond the last one.
    pub fn invalid_port(port: usize) -> (e: Self)
        ensures
            e matches SwitchrError::BadConfig(text) && text@ == invalid_port_message(port as nat),
    {
        let mut text = String::from_str("Invalid port ");
        append_decimal(&mut text, port);
        SwitchrError::BadConfig(text)
    }

    /// The error for a frame that ends before its header does.
    pub fn short_frame() -> (e: Self)
        ensures
            e matches SwitchrError::ParseError(text) && text@ == short_frame_message(),
    {
        SwitchrError::ParseError(String::from_str("Frame too short"))
    }

    /// The error for an 802.1Q tag that carries VLAN 0.
    pub fn null_vlan() -> (e: Self)
        ensures
            e matches SwitchrError::ParseError(text) && text@ == null_vlan_message(),
    {
        SwitchrError::ParseError(String::from_str("VLAN tag without a VLAN"))
    }

    /// The text that the error carries; for a bad VLAN number, a fixed one.
    pub fn message(&self) -> (text: String)
        ensures
            text@ == self.message_spec(),
    {
        match self {
            SwitchrError::ParseError(text) => text.clone(),
            SwitchrError::BadConfig(text) => text.clone(),
            SwitchrError::InvalidVlan => String::from_str("Invalid VLAN"),
        }
    }

    /// What `message` returns.
    pub open spec fn message_spec(&self) -> Seq<char> {
        match self {
            SwitchrError::ParseError(text) => text@,
            SwitchrError::BadConfig(text) => text@,
            SwitchrError::InvalidVlan => "Invalid VLAN"@,
        }
    }
}

} // verus!
