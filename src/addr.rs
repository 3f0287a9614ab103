use vstd::prelude::*;

use crate::config::{
    all_digits, config_of, opt_view, resolve_port, BindConfig, StartupError, DEFAULT_PORT,
};
use crate::text::{decimal_digits, lemma_decimal_digits, push_decimal};

verus! {

/// An IPv4 socket address: four octets and a port.
#[derive(Clone, Copy, Debug, PartialEq, Eq)]
pub struct ListenAddr {
    pub ip: [u8; 4],
    pub port: u16,
}

pub open spec fn loopback_addr(port: u16) -> ListenAddr {
    ListenAddr { ip: [127u8, 0u8, 0u8, 1u8], port }
}

/// The usual text of a socket address, `a.b.c.d:port`.
pub open spec fn addr_text(a: ListenAddr) -> Seq<char> {
    decimal_digits(a.ip[0] as nat) + seq!['.'] + decimal_digits(a.ip[1] as nat) + seq!['.']
        + decimal_digits(a.ip[2] as nat) + seq!['.'] + decimal_digits(a.ip[3] as nat) + seq![':']
        + decimal_digits(a.port as nat)
}

pub open spec fn announcement_text(a: ListenAddr) -> Seq<char> {
    "listening on "@ + addr_text(a)
}

impl ListenAddr {
    /// The loopback address on the port of `config`: the server listens there
    /// and nowhere else.
    pub fn for_config(config: &BindConfig) -> (r: ListenAddr)
        ensures
            r == loopback_addr(config.port),
    {
        ListenAddr { ip: [127u8, 0u8, 0u8, 1u8], port: config.port }
    }

    pub fn to_text(&self) -> (r: String)
        ensures
            r@ == addr_text(*self),
    {
        let mut out = String::new();
        push_decimal(&mut out, self.ip[0] as u32);
        out.push('.');
        push_decimal(&mut out, self.ip[1] as u32);
        out.push('.');
        push_decimal(&mut out, self.ip[2] as u32);
        out.push('.');
        push_decimal(&mut out, self.ip[3] as u32);
        out.push(':');
        push_decimal(&mut out, self.port as u32);
        out
    }

    /// The line written to standard output once the listener is bound here.
    pub fn announcement(&self) -> (r: String)
        ensures
            r@ == announcement_text(*self),
    {
        let text = self.to_text();
        let line = String::from_str("listening on ");
        line.concat(text.as_str())
    }
}

/// Where the server listens, given the value of `PORT` (`None` when unset).
pub open spec fn listen_plan(var: Option<Seq<char>>) -> Result<ListenAddr, StartupError> {
    match config_of(var) {
        Ok(c) => Ok(loopback_addr(c.port)),
        Err(e) => Err(e),
    }
}

/// Decides, from the value of `PORT`, the address to bind, or the error that
/// ends the startup before any bind.
pub fn plan_listen(var: Option<&str>) -> (r: Result<ListenAddr, StartupError>)
    ensures
        r == listen_plan(opt_view(var)),
{
    match resolve_port(var) {
        Ok(c) => Ok(ListenAddr::for_config(&c)),
        Err(e) => Err(e),
    }
}

/// With `PORT` unset the server listens on 127.0.0.1:3000.
pub proof fn lemma_unset_port_listens_on_default()
    ensures
        listen_plan(None) == Ok::<ListenAddr, StartupError>(loopback_addr(DEFAULT_PORT)),
        DEFAULT_PORT == 3000,
{
}

/// With `PORT` set to the decimal text of a port p in [1, 65535] the server
/// listens on 127.0.0.1:p.
pub proof fn lemma_port_text_is_honoured(p: u16)
    requires
        1 <= p,
    ensures
        listen_plan(Some(decimal_digits(p as nat))) == Ok::<ListenAddr, StartupError>(
            loopback_addr(p),
        ),
{
    lemma_decimal_digits(p as nat);
}

/// The startup line for a listener bound on the loopback interface reads
/// `listening on 127.0.0.1:` followed by a non-empty run of decimal digits,
/// which spell the port.
pub proof fn lemma_announcement_shape(port: u16)
    ensures
        announcement_text(loopback_addr(port)) == "listening on 127.0.0.1:"@ + decimal_digits(
            port as nat,
        ),
        decimal_digits(port as nat).len() > 0,
        all_digits(decimal_digits(port as nat)),
{
    lemma_decimal_digits(port as nat);
    reveal_strlit("listening on ");
    reveal_strlit("listening on 127.0.0.1:");
    let a = loopback_addr(port);
    assert(decimal_digits(1) =~= seq!['1']);
    assert(decimal_digits(12) =~= seq!['1', '2']);
    assert(decimal_digits(127) =~= seq!['1', '2', '7']);
    assert(decimal_digits(0) =~= seq!['0']);
    assert(decimal_digits(1) =~= seq!['1']);
    assert(announcement_text(a) =~= "listening on 127.0.0.1:"@ + decimal_digits(port as nat));
}

} // verus!
