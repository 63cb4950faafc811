//! The address on which the service listens.

use vstd::prelude::*;
use vstd::string::StrSliceExecFns;
use vstd::string::StringExecFns;
use crate::chars::{skip_chars, starts_with, starts_with_at};
use crate::decimal::{decimal_digits, push_decimal};

verus! {

/// What stands before the path of a Unix domain socket.
pub const UNIX_PREFIX: &'static str = "unix:";

/// The characters of [`UNIX_PREFIX`].
pub open spec fn unix_prefix() -> Seq<char> {
    seq!['u', 'n', 'i', 'x', ':']
}

/// Where the service listens.
#[derive(Debug, Clone, PartialEq, Eq)]
pub enum Address {
    /// A host name or IP address with a TCP port.
    IpPort(String, u16),
    /// The path of a Unix domain socket.
    Unix(String),
}

/// An [`Address`] with its texts as sequences of characters.
pub enum AddressView {
    IpPort(Seq<char>, u16),
    Unix(Seq<char>),
}

/// The one way in which a text fails to name a socket path: it does not
/// begin with [`UNIX_PREFIX`].
#[derive(Debug, Clone, Copy, PartialEq, Eq)]
pub struct NotASocketPath;

impl View for Address {
    type V = AddressView;

    open spec fn view(&self) -> AddressView {
        match self {
            Address::IpPort(host, port) => AddressView::IpPort(host@, *port),
            Address::Unix(path) => AddressView::Unix(path@),
        }
    }
}

impl AddressView {
    /// The address that a text names by itself: the path behind the prefix
    /// of a socket, or none.
    pub open spec fn parsed(text: Seq<char>) -> Option<AddressView> {
        if starts_with(text, unix_prefix()) {
            Some(AddressView::Unix(text.skip(unix_prefix().len() as int)))
        } else {
            None
        }
    }

    /// The address that a text and a port name together: the socket that the
    /// text names, else the text as a host with the port.
    pub open spec fn resolved(text: Seq<char>, port: u16) -> AddressView {
        match AddressView::parsed(text) {
            Some(address) => address,
            None => AddressView::IpPort(text, port),
        }
    }

    /// The address as it is written out.
    pub open spec fn rendered(self) -> Seq<char> {
        match self {
            AddressView::IpPort(host, port) => host + seq![':'] + decimal_digits(port as nat),
            AddressView::Unix(path) => unix_prefix() + path,
        }
    }
}

impl Address {
    /// Reads the path of a Unix domain socket from a text that begins with
    /// [`UNIX_PREFIX`]; any other text is refused.
    pub fn from_str(text: &str) -> (r: Result<Address, NotASocketPath>)
        ensures
            match AddressView::parsed(text@) {
                Some(address) => r matches Ok(a) && a@ == address,
                None => r is Err,
            },
    {
        proof {
            reveal_strlit("unix:");
            assert(UNIX_PREFIX@ =~= unix_prefix());
        }
        let len: usize = text.unicode_len();
        assert(text@.skip(0) =~= text@);
        if starts_with_at(text, len, 0, UNIX_PREFIX) {
            Ok(Address::Unix(skip_chars(text, len, 5)))
        } else {
            Err(NotASocketPath)
        }
    }

    /// The address that `address` and `port` name together.
    pub fn from(address: &str, port: u16) -> (a: Address)
        ensures
            a@ == AddressView::resolved(address@, port),
    {
        match Address::from_str(address) {
            Ok(a) => a,
            Err(_) => Address::IpPort(String::from_str(address), port),
        }
    }

    /// Writes the address out: host, colon and port, or the socket's path
    /// behind its prefix.
    pub fn to_string(&self) -> (s: String)
        ensures
            s@ == self@.rendered(),
    {
        proof {
            reveal_strlit("unix:");
            reveal_strlit(":");
        }
        match self {
            Address::IpPort(host, port) => {
                let mut s = String::from_str(host.as_str());
                s.append(":");
                push_decimal(&mut s, *port as usize);
                assert(s@ =~= self@.rendered());
                s
            },
            Address::Unix(path) => {
                let mut s = String::from_str(UNIX_PREFIX);
                s.append(path.as_str());
                assert(s@ =~= self@.rendered());
                s
            },
        }
    }
}

} // verus!
