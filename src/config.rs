use vstd::prelude::*;

verus! {

/// The port used when the environment names none.
pub const DEFAULT_PORT: u16 = 3000;

pub open spec fn is_digit(c: char) -> bool {
    '0' <= c && c <= '9'
}

pub open spec fn digit_value(c: char) -> nat {
    ((c as u32) - ('0' as u32)) as nat
}

pub open spec fn all_digits(s: Seq<char>) -> bool {
    forall|i: int| 0 <= i < s.len() ==> is_digit(#[trigger] s[i])
}

/// The value of a string of decimal digits, most significant first.
pub open spec fn decimal_value(s: Seq<char>) -> nat
    decreases s.len(),
{
    if s.len() == 0 {
        0
    } else {
        decimal_value(s.drop_last()) * 10 + digit_value(s.last())
    }
}

/// The port that a text names: a non-empty run of decimal digits whose value
/// lies in [1, 65535].
pub open spec fn port_of(s: Seq<char>) -> Option<u16> {
    if s.len() > 0 && all_digits(s) && 1 <= decimal_value(s) <= 65535 {
        Some(decimal_value(s) as u16)
    } else {
        None
    }
}

/// Reads a port number written in decimal.
pub fn parse_port(s: &str) -> (r: Option<u16>)
    ensures
        r == port_of(s@),
{
    let mut value: u32 = 0;
    let mut too_large = false;
    let mut empty = true;
    for c in it: s.chars()
        invariant
            it.seq() == s@,
            empty <==> it.index() == 0,
            all_digits(s@.take(it.index() as int)),
            too_large ==> decimal_value(s@.take(it.index() as int)) > 65535,
            !too_large ==> value == decimal_value(s@.take(it.index() as int)) && value <= 65535,
    {
        assert(s@.take(it.index() + 1).drop_last() == s@.take(it.index() as int));
        if !('0' <= c && c <= '9') {
            assert(!all_digits(s@));
            return None;
        }
        empty = false;
        if !too_large {
            let next = value * 10 + ((c as u32) - ('0' as u32));
            if next > 65535 {
                too_large = true;
            } else {
                value = next;
            }
        }
    }
    assert(s@.take(s@.len() as int) == s@);
    if empty || too_large || value == 0 {
        None
    } else {
        Some(value as u16)
    }
}


/// Where the server listens: its port, fixed at startup.
#[derive(Clone, Copy, Debug, PartialEq, Eq, Structural)]
pub struct BindConfig {
    pub port: u16,
}

impl BindConfig {
    pub open spec fn wf(&self) -> bool {
        self.port >= 1
    }
}

/// Why the server could not start.
#[derive(Clone, Copy, Debug, PartialEq, Eq, Structural)]
pub enum StartupError {
    /// `PORT` is set but does not name a port in [1, 65535].
    BadPort,
    /// The operating system refused the listening socket.
    BindFailed,
}

/// What the value of `PORT` (`None` when unset) makes of the configuration.
pub open spec fn config_of(var: Option<Seq<char>>) -> Result<BindConfig, StartupError> {
    match var {
        None => Ok(BindConfig { port: DEFAULT_PORT }),
        Some(s) => match port_of(s) {
            Some(p) => Ok(BindConfig { port: p }),
            None => Err(StartupError::BadPort),
        },
    }
}

pub open spec fn opt_view(var: Option<&str>) -> Option<Seq<char>> {
    match var {
        Some(s) => Some(s@),
        None => None,
    }
}

/// Resolves the listening port from the value of `PORT`, `None` when it is
/// unset.
pub fn resolve_port(var: Option<&str>) -> (r: Result<BindConfig, StartupError>)
    ensures
        r == config_of(opt_view(var)),
        r matches Ok(c) ==> c.wf(),
{
    match var {
        None => Ok(BindConfig { port: DEFAULT_PORT }),
        Some(s) => match parse_port(s) {
            Some(p) => Ok(BindConfig { port: p }),
            None => Err(StartupError::BadPort),
        },
    }
}

impl StartupError {
    /// The status with which the process ends on this error.
    pub fn exit_code(&self) -> (r: u8)
        ensures
            r == 1,
    {
        1
    }

    /// The line reported on standard error.
    pub fn describe(&self) -> (r: String)
        ensures
            r@ == match self {
                StartupError::BadPort => "PORT must be a decimal integer in [1, 65535]"@,
                StartupError::BindFailed => "could not bind the listening address"@,
            },
    {
        match self {
            StartupError::BadPort => String::from_str("PORT must be a decimal integer in [1, 65535]"),
            StartupError::BindFailed => String::from_str("could not bind the listening address"),
        }
    }
}

} // verus!
