use vstd::prelude::*;
use vstd::string::*;

verus! {

// ---------------------------------------------------------------------------
// The receiver's port
// ---------------------------------------------------------------------------

/// The port the receiver listens on when none is given.
pub const DEFAULT_PORT: u16 = 8888;

/// Whether `c` is an ASCII decimal digit.
pub open spec fn is_digit(c: char) -> bool {
    '0' <= c && c <= '9'
}

/// The value of a run of decimal digits.
pub open spec fn digits_value(cs: Seq<char>) -> nat
    decreases cs.len(),
{
    if cs.len() == 0 {
        0
    } else {
        digits_value(cs.drop_last()) * 10 + ((cs.last() as nat) - 48) as nat
    }
}

/// The digits of a number as `u16::from_str` takes them: after one optional
/// `+`.
pub open spec fn unsigned_digits(cs: Seq<char>) -> Seq<char> {
    if cs.len() > 0 && cs[0] == '+' {
        cs.drop_first()
    } else {
        cs
    }
}

/// What `u16::from_str` gives: the value of an optional `+` followed by at
/// least one decimal digit and nothing else, if it fits in 16 bits.
pub open spec fn spec_parse_u16(cs: Seq<char>) -> Option<u16> {
    let d = unsigned_digits(cs);
    if d.len() > 0 && (forall|i: int| 0 <= i < d.len() ==> #[trigger] is_digit(d[i]))
        && digits_value(d) <= u16::MAX {
        Some(digits_value(d) as u16)
    } else {
        None
    }
}

/// `str::parse::<u16>`: the number written in `s`, if `s` is an optional `+`
/// followed by decimal digits only and the number fits in 16 bits, as the
/// documentation of `FromStr` for the integer types says.
#[verifier::external_body]
fn parse_u16(s: &str) -> (r: Option<u16>)
    ensures
        r == spec_parse_u16(s@),
{
    s.parse::<u16>().ok()
}

/// Why the port given to the receiver was refused.
#[derive(Debug)]
pub enum PortError {
    /// The argument, which is not a number.
    NotANumber(String),
    /// Port 0 was given.
    Zero,
}

impl PortError {
    pub open spec fn spec_message(&self) -> Seq<char> {
        match self {
            PortError::NotANumber(s) => "Port must be a number but '"@ + s@ + "' was supplied"@,
            PortError::Zero => "Port cannot be zero"@,
        }
    }

    /// The message that the receiver exits with.
    pub fn to_string(&self) -> (s: String)
        ensures
            s@ == self.spec_message(),
    {
        match self {
            PortError::NotANumber(arg) => {
                let mut s = String::from_str("Port must be a number but '");
                s.append(arg.as_str());
                s.append("' was supplied");
                s
            },
            PortError::Zero => String::from_str("Port cannot be zero"),
        }
    }
}

/// What the port argument gives.
pub open spec fn spec_port(arg: Option<Seq<char>>) -> Result<u16, Seq<char>> {
    match arg {
        None => Ok(DEFAULT_PORT),
        Some(s) => match spec_parse_u16(s) {
            None => Err("Port must be a number but '"@ + s + "' was supplied"@),
            Some(p) => if p == 0 {
                Err("Port cannot be zero"@)
            } else {
                Ok(p)
            },
        },
    }
}

/// The port to listen on: `DEFAULT_PORT` when none is given; else the number
/// given, which must be a 16-bit number other than 0.
pub fn parse_port(arg: Option<&str>) -> (r: Result<u16, PortError>)
    ensures
        match arg {
            None => r == Ok::<u16, PortError>(DEFAULT_PORT),
            Some(s) => match spec_parse_u16(s@) {
                None => r matches Err(PortError::NotANumber(a)) && a@ == s@,
                Some(p) => if p == 0 {
                    r matches Err(PortError::Zero)
                } else {
                    r == Ok::<u16, PortError>(p)
                },
            },
        },
        match r {
            Ok(p) => spec_port(
                match arg {
                    Some(s) => Some(s@),
                    None => None,
                },
            ) == Ok::<u16, Seq<char>>(p),
            Err(e) => spec_port(
                match arg {
                    Some(s) => Some(s@),
                    None => None,
                },
            ) == Err::<u16, Seq<char>>(e.spec_message()),
        },
{
    match arg {
        None => Ok(DEFAULT_PORT),
        Some(s) => match parse_u16(s) {
            None => Err(PortError::NotANumber(String::from_str(s))),
            Some(p) => {
                if p == 0 {
                    Err(PortError::Zero)
                } else {
                    Ok(p)
                }
            },
        },
    }
}

// ---------------------------------------------------------------------------
// The sender's configuration file
// ---------------------------------------------------------------------------

/// Which configuration file the sender uses.
#[derive(Debug, Clone, Copy, PartialEq, Eq, Structural)]
pub enum ConfigChoice {
    /// The file given on the command line.
    Given,
    /// The file given on the command line does not exist: an error.
    GivenMissing,
    /// `config.ron` in the configuration directory.
    Ron,
    /// `config.toml` in the configuration directory.
    Toml,
    /// Neither exists: create an empty `config.ron` and use it.
    CreateRon,
}

/// The configuration file to use. `given` tells, when a path was given on the
/// command line, whether it is a file; a given path wins. Otherwise
/// `config.ron` is preferred to `config.toml`, and when neither is a file an
/// empty `config.ron` is created.
pub fn choose_config(given: Option<bool>, ron_is_file: bool, toml_is_file: bool) -> (c: ConfigChoice)
    ensures
        c == match given {
            Some(true) => ConfigChoice::Given,
            Some(false) => ConfigChoice::GivenMissing,
            None => if ron_is_file {
                ConfigChoice::Ron
            } else if toml_is_file {
                ConfigChoice::Toml
            } else {
                ConfigChoice::CreateRon
            },
        },
{
    match given {
        Some(true) => ConfigChoice::Given,
        Some(false) => ConfigChoice::GivenMissing,
        None => {
            if ron_is_file {
                ConfigChoice::Ron
            } else if toml_is_file {
                ConfigChoice::Toml
            } else {
                ConfigChoice::CreateRon
            }
        },
    }
}

/// The name a peer introduces itself with: its host name, or `fallback` when
/// the host name cannot be had.
pub fn local_name(hostname: Option<String>, fallback: &str) -> (name: String)
    ensures
        name@ == match hostname {
            Some(h) => h@,
            None => fallback@,
        },
{
    match hostname {
        Some(h) => h,
        None => String::from_str(fallback),
    }
}

} // verus!
