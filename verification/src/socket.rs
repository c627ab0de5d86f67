//! Addresses of sockets.

use vstd::prelude::*;

use crate::strings::strip_prefix;
#[allow(unused_imports)]
use crate::strings::without_prefix;

verus! {

/// An address to bind to.
#[derive(Clone, Debug, PartialEq, Eq)]
pub enum Addr {
    /// An IP address with a port.
    Tcp(String),
    /// The path of a UNIX domain socket.
    Unix(String),
}

/// The value of `Addr`.
pub enum AddrView {
    Tcp(Seq<char>),
    Unix(Seq<char>),
}

impl View for Addr {
    type V = AddrView;

    open spec fn view(&self) -> AddrView {
        match self {
            Addr::Tcp(addr) => AddrView::Tcp(addr@),
            Addr::Unix(path) => AddrView::Unix(path@),
        }
    }
}

/// What is wrong with an address whose type is unknown.
pub const UNKNOWN_TYPE: &'static str = "unknown bind address type";

/// Why a text is no address to bind to.
#[derive(Debug, PartialEq, Eq)]
pub enum AddrError<E> {
    /// What follows `tcp://` is not an IP address with a port, for a reason.
    Tcp(E),
    /// The text starts with neither `tcp://` nor `unix://`.
    UnknownType,
}

/// The type of an address and what follows it.
pub open spec fn addr_text(text: Seq<char>) -> Option<AddrView> {
    match (without_prefix(text, "tcp://"@), without_prefix(text, "unix://"@)) {
        (Some(addr), _) => Some(AddrView::Tcp(addr)),
        (None, Some(path)) => Some(AddrView::Unix(path)),
        (None, None) => None,
    }
}

impl Addr {
    /// Reads an address: `tcp://` and an IP address with a port, or `unix://` and a path. `check`
    /// tells whether a text is an IP address with a port, and is asked for what follows `tcp://`
    /// only.
    pub fn parse<F, E>(text: &str, check: F) -> (r: Result<Addr, AddrError<E>>) where
        F: Fn(&str) -> Result<(), E>,

        requires
            forall|addr: &str| check.requires((addr,)),
        ensures
            match addr_text(text@) {
                Some(AddrView::Tcp(addr)) => exists|given: &str, verdict: Result<(), E>|
                    #![trigger check.ensures((given,), verdict)]
                    given@ == addr && check.ensures((given,), verdict) && match (verdict, r) {
                        (Ok(_), Ok(Addr::Tcp(parsed))) => parsed@ == addr,
                        (Err(reason), Err(AddrError::Tcp(e))) => e == reason,
                        _ => false,
                    },
                Some(AddrView::Unix(path)) => r matches Ok(addr) && addr@ == AddrView::Unix(path),
                None => r == Err::<Addr, _>(AddrError::<E>::UnknownType),
            },
    {
        match strip_prefix(text, "tcp://") {
            Some(addr) => {
                let verdict = check(addr);
                assert(check.ensures((addr,), verdict));
                match verdict {
                    Ok(()) => Ok(Addr::Tcp(addr.to_owned())),
                    Err(reason) => Err(AddrError::Tcp(reason)),
                }
            },
            None => match strip_prefix(text, "unix://") {
                Some(path) => Ok(Addr::Unix(path.to_owned())),
                None => Err(AddrError::UnknownType),
            },
        }
    }
}

/// What follows the type of an address is the address, as it stands, and a text with neither type is
/// none.
pub proof fn addresses_follow_their_type(text: Seq<char>)
    ensures
        addr_text("tcp://"@ + text) == Some(AddrView::Tcp(text)),
        addr_text("unix://"@ + text) == Some(AddrView::Unix(text)),
        addr_text(text) is None <==> !"tcp://"@.is_prefix_of(text) && !"unix://"@.is_prefix_of(text),
{
    reveal_strlit("tcp://");
    reveal_strlit("unix://");
    crate::strings::prefixes_are_taken_off(text, "tcp://"@);
    crate::strings::prefixes_are_taken_off(text, "unix://"@);
    let unix = "unix://"@ + text;
    if "tcp://"@.is_prefix_of(unix) {
        assert(unix.subrange(0, 6)[0] == unix[0]);
        assert("tcp://"@[0] == 't');
        assert(unix[0] == 'u');
    }
    crate::strings::prefixes_are_taken_off(unix, "tcp://"@);
    if let Some(rest) = crate::strings::without_prefix(text, "tcp://"@) {
        assert(text == "tcp://"@ + rest);
        assert(text.subrange(0, 6) == "tcp://"@);
    }
    if let Some(rest) = crate::strings::without_prefix(text, "unix://"@) {
        assert(text == "unix://"@ + rest);
        assert(text.subrange(0, 7) == "unix://"@);
    }
}

} // verus!
