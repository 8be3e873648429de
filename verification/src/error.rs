//! The error taxonomy of the reader, and the text each error renders to.

use vstd::prelude::*;
use vstd::string::StringExecFns;

verus! {

/// Every failure the engine can surface to a caller.
///
/// Each variant carries a human-readable message; structural errors name the
/// offending offset or type tag in it.
#[derive(Debug, Clone, PartialEq, Eq)]
pub enum MaxMindDBError {
    AddressNotFoundError(String),
    InvalidDatabaseError(String),
    IoError(String),
    MapError(String),
    DecodingError(String),
    InvalidNetworkError(String),
}

/// The decimal digit character for `d`.
pub open spec fn spec_digit_char(d: int) -> char {
    if d == 0 {
        '0'
    } else if d == 1 {
        '1'
    } else if d == 2 {
        '2'
    } else if d == 3 {
        '3'
    } else if d == 4 {
        '4'
    } else if d == 5 {
        '5'
    } else if d == 6 {
        '6'
    } else if d == 7 {
        '7'
    } else if d == 8 {
        '8'
    } else {
        '9'
    }
}

/// The decimal rendering of `n`, most significant digit first, no sign and no
/// leading zeros (except for `n == 0`, which renders as "0").
pub open spec fn spec_decimal(n: nat) -> Seq<char>
    decreases n,
{
    if n < 10 {
        seq![spec_digit_char(n as int)]
    } else {
        spec_decimal(n / 10) + seq![spec_digit_char((n % 10) as int)]
    }
}

/// A one-character string slice holding the digit `d`.
fn digit_str(d: u64) -> (r: &'static str)
    requires
        d < 10,
    ensures
        r@ == seq![spec_digit_char(d as int)],
{
    proof {
        reveal_strlit("0");
        reveal_strlit("1");
        reveal_strlit("2");
        reveal_strlit("3");
        reveal_strlit("4");
        reveal_strlit("5");
        reveal_strlit("6");
        reveal_strlit("7");
        reveal_strlit("8");
        reveal_strlit("9");
    }
    let r: &'static str = if d == 0 {
        "0"
    } else if d == 1 {
        "1"
    } else if d == 2 {
        "2"
    } else if d == 3 {
        "3"
    } else if d == 4 {
        "4"
    } else if d == 5 {
        "5"
    } else if d == 6 {
        "6"
    } else if d == 7 {
        "7"
    } else {
        "8"
    };
    let r: &'static str = if d == 9 { "9" } else { r };
    proof {
        assert(r@ =~= seq![spec_digit_char(d as int)]);
    }
    r
}

/// Renders `n` in decimal.
pub fn u64_to_string(n: u64) -> (s: String)
    ensures
        s@ == spec_decimal(n as nat),
    decreases n,
{
    if n < 10 {
        digit_str(n).to_owned()
    } else {
        let high = u64_to_string(n / 10);
        let s = high.concat(digit_str(n % 10));
        proof {
            assert(s@ =~= spec_decimal(n as nat));
        }
        s
    }
}

impl MaxMindDBError {
    /// The message carried by the error, whatever its kind.
    pub fn message(&self) -> (m: &String)
        ensures
            m@ == self.spec_message(),
    {
        match self {
            MaxMindDBError::AddressNotFoundError(msg) => msg,
            MaxMindDBError::InvalidDatabaseError(msg) => msg,
            MaxMindDBError::IoError(msg) => msg,
            MaxMindDBError::MapError(msg) => msg,
            MaxMindDBError::DecodingError(msg) => msg,
            MaxMindDBError::InvalidNetworkError(msg) => msg,
        }
    }

    /// The message carried by the error.
    pub open spec fn spec_message(&self) -> Seq<char> {
        match self {
            MaxMindDBError::AddressNotFoundError(msg) => msg@,
            MaxMindDBError::InvalidDatabaseError(msg) => msg@,
            MaxMindDBError::IoError(msg) => msg@,
            MaxMindDBError::MapError(msg) => msg@,
            MaxMindDBError::DecodingError(msg) => msg@,
            MaxMindDBError::InvalidNetworkError(msg) => msg@,
        }
    }

    /// What `display_string` prints before the message of each kind.
    pub open spec fn spec_kind_prefix(&self) -> Seq<char> {
        match self {
            MaxMindDBError::AddressNotFoundError(_) => "AddressNotFoundError: "@,
            MaxMindDBError::InvalidDatabaseError(_) => "InvalidDatabaseError: "@,
            MaxMindDBError::IoError(_) => "IoError: "@,
            MaxMindDBError::MapError(_) => "MapError: "@,
            MaxMindDBError::DecodingError(_) => "DecodingError: "@,
            MaxMindDBError::InvalidNetworkError(_) => "InvalidNetworkError: "@,
        }
    }

    /// The error rendered as text: the kind's name, a colon, and the message.
    pub fn display_string(&self) -> (s: String)
        ensures
            s@ == self.spec_kind_prefix() + self.spec_message(),
    {
        let prefix: &'static str = match self {
            MaxMindDBError::AddressNotFoundError(_) => "AddressNotFoundError: ",
            MaxMindDBError::InvalidDatabaseError(_) => "InvalidDatabaseError: ",
            MaxMindDBError::IoError(_) => "IoError: ",
            MaxMindDBError::MapError(_) => "MapError: ",
            MaxMindDBError::DecodingError(_) => "DecodingError: ",
            MaxMindDBError::InvalidNetworkError(_) => "InvalidNetworkError: ",
        };
        prefix.to_owned().concat(self.message().as_str())
    }
}

} // verus!
