//! What the SOCKS5 proxy does with a request: who is let in, and where a connection goes.

use crate::ids::{address_bytes, address_digits, be_value, has_address_digits, DestinationHash};
use crate::text::decimal_text;
use fast_socks5::util::target_addr::TargetAddr;
use vstd::prelude::*;
use vstd::string::*;
use vstd::utf8::encode_utf8;

verus! {

/// Who may use the proxy.
#[derive(Debug)]
pub enum AuthMode {
    NoAuth,
    Password { username: String, password: String },
}

impl AuthMode {
    /// Whether a user with this password is let in.
    pub fn admits(&self, user: &String, pass: &String) -> (r: bool)
        ensures
            r == match *self {
                AuthMode::NoAuth => true,
                AuthMode::Password { username, password } => user@ == username@ && pass@
                    == password@,
            },
    {
        match self {
            AuthMode::NoAuth => true,
            AuthMode::Password { username, password } => user.eq(username) && pass.eq(password),
        }
    }
}

/// What a client asks the proxy to do.
#[derive(Clone, Copy, Debug, PartialEq, Eq, Structural)]
pub enum Command {
    TcpConnect,
    TcpBind,
    UdpAssociate,
}

/// Why a request is refused.
#[derive(Clone, Copy, Debug, PartialEq, Eq, Structural)]
pub enum ReplyError {
    CommandNotSupported,
    AddressTypeNotSupported,
}

/// Where a client wants to be connected to.
#[allow(inconsistent_fields)]
#[derive(Debug)]
pub enum Target {
    V4 { octets: [u8; 4], port: u16 },
    V6 { octets: [u8; 16], port: u16 },
    Domain { name: String, port: u16 },
}

/// What is to be done with a request.
#[derive(Debug)]
pub enum Route {
    /// Tell the client of the error, and fail with it.
    Reject(ReplyError),
    /// Fail with the error; the client is told nothing.
    Fail(ReplyError),
    /// Tell the client that the network is unreachable, and be done.
    Unreachable,
    /// Tell the client of success and connect it to a Reticulum destination.
    Reticulum(DestinationHash),
    /// Tell the client of success and take its lines as commands for the router.
    Console,
    /// Connect to the target through another proxy.
    Backend { backend: String, host: String, port: u16 },
}

/// The name of a destination in the Reticulum domain: what stands before `.rns`.
pub open spec fn rns_name(name: Seq<char>) -> Option<Seq<char>> {
    if name.len() >= 4 && name.subrange(name.len() - 4, name.len() as int) == seq![
        '.',
        'r',
        'n',
        's',
    ] {
        Some(name.subrange(0, name.len() - 4))
    } else {
        None
    }
}

/// Whether a text of 32 bytes or more begins with a hash in hexadecimal.
pub open spec fn readable(text: Seq<char>) -> bool {
    encode_utf8(text).len() < 32 || address_digits(text)
}

/// The text of an IPv6 address.
pub uninterp spec fn ipv6_text(octets: Seq<u8>) -> Seq<char>;

/// The text of an IPv4 address: four numbers with dots between them.
pub open spec fn ipv4_text(octets: Seq<u8>) -> Seq<char> {
    decimal_text(octets[0] as nat) + "."@ + decimal_text(octets[1] as nat) + "."@ + decimal_text(
        octets[2] as nat,
    ) + "."@ + decimal_text(octets[3] as nat)
}

impl Target {
    /// The host as text: a name as it is, an address as it is written.
    pub open spec fn host(self) -> Seq<char> {
        match self {
            Target::V4 { octets, port } => ipv4_text(octets@),
            Target::V6 { octets, port } => ipv6_text(octets@),
            Target::Domain { name, port } => name@,
        }
    }

    pub open spec fn port(self) -> u16 {
        match self {
            Target::V4 { octets, port } => port,
            Target::V6 { octets, port } => port,
            Target::Domain { name, port } => port,
        }
    }

    /// The name of the Reticulum destination that the target is, if it is one.
    pub open spec fn rns(self) -> Option<Seq<char>> {
        match self {
            Target::Domain { name, port } => rns_name(name@),
            _ => None,
        }
    }

    /// Whether the target is the console.
    pub open spec fn is_console(self) -> bool {
        self matches Target::Domain { name, port } && name@ == "admin.internal"@
    }

    /// Whether the target does not stand in the Reticulum domain under a name that is long
    /// enough for a hash but spells none.
    pub open spec fn readable(self) -> bool {
        self.rns() matches Some(text) ==> readable(text)
    }

    /// Whether the target does not stand in the Reticulum domain under a name that is long
    /// enough for a hash but spells none.
    pub fn is_readable(&self) -> (r: bool)
        ensures
            r == self.readable(),
    {
        match self {
            Target::Domain { name, port } => match strip_rns(name.as_str()) {
                Some(text) => text.as_bytes().len() < 32 || has_address_digits(text),
                None => true,
            },
            _ => true,
        }
    }
}

/// What stands before `.rns` in a name that ends with it.
pub fn strip_rns(name: &str) -> (r: Option<&str>)
    ensures
        match r {
            Some(text) => rns_name(name@) == Some(text@),
            None => rns_name(name@) is None,
        },
{
    let len: usize = name.unicode_len();
    if len >= 4 {
        let tail = name.substring_char(len - 4, len);
        if tail.get_char(0) == '.' && tail.get_char(1) == 'r' && tail.get_char(2) == 'n'
            && tail.get_char(3) == 's' {
            assert(tail@ =~= seq!['.', 'r', 'n', 's']);
            return Some(name.substring_char(0, len - 4));
        }
    }
    None
}

/// `fast_socks5`'s `TargetAddr::into_string_and_port` gives a domain name as it is and an
/// address as `std` writes it: an IPv4 address as four decimal numbers with dots between
/// them. How an IPv6 address is written is only given a name. The port is the target's.
#[verifier::external_body]
fn into_string_and_port(target: Target) -> (r: (String, u16))
    ensures
        match target {
            Target::V4 { octets, port } => r.0@ == ipv4_text(octets@) && r.1 == port,
            Target::V6 { octets, port } => r.0@ == ipv6_text(octets@) && r.1 == port,
            Target::Domain { name, port } => r.0@ == name@ && r.1 == port,
        },
{
    let target = match target {
        Target::V4 { octets, port } => TargetAddr::Ip((octets, port).into()),
        Target::V6 { octets, port } => TargetAddr::Ip((octets, port).into()),
        Target::Domain { name, port } => TargetAddr::Domain(name, port),
    };
    target.into_string_and_port()
}

/// Whether a text stands in a list.
pub open spec fn lists(backends: Seq<String>, backend: Seq<char>) -> bool {
    exists|i: int| 0 <= i < backends.len() && (#[trigger] backends[i])@ == backend
}

/// White space within a line, or at its end.
pub open spec fn is_blank(c: char) -> bool {
    c == ' ' || c == '\t' || c == '\n' || c == '\r'
}

/// A text without the white space around it.
pub open spec fn trimmed(text: Seq<char>) -> Seq<char>
    decreases text.len(),
{
    if text.len() == 0 {
        text
    } else if is_blank(text[0]) {
        trimmed(text.drop_first())
    } else if is_blank(text.last()) {
        trimmed(text.drop_last())
    } else {
        text
    }
}

/// The proxy that a line on the console adds: what follows `ADD `, unless it is blank.
pub open spec fn added_by(line: Seq<char>) -> Option<Seq<char>> {
    if line.len() >= 4 && line.subrange(0, 4) == seq!['A', 'D', 'D', ' '] && trimmed(
        line.subrange(4, line.len() as int),
    ).len() > 0 {
        Some(trimmed(line.subrange(4, line.len() as int)))
    } else {
        None
    }
}

fn blank(c: char) -> (r: bool)
    ensures
        r == is_blank(c),
{
    c == ' ' || c == '\t' || c == '\n' || c == '\r'
}

proof fn lemma_trimmed_front(text: Seq<char>, from: int, to: int)
    requires
        0 <= from < to <= text.len(),
        is_blank(text[from]),
    ensures
        trimmed(text.subrange(from, to)) == trimmed(text.subrange(from + 1, to)),
{
    assert(text.subrange(from, to).drop_first() =~= text.subrange(from + 1, to));
}

proof fn lemma_trimmed_back(text: Seq<char>, from: int, to: int)
    requires
        0 <= from < to <= text.len(),
        !is_blank(text[from]),
        is_blank(text[to - 1]),
    ensures
        trimmed(text.subrange(from, to)) == trimmed(text.subrange(from, to - 1)),
{
    assert(text.subrange(from, to).drop_last() =~= text.subrange(from, to - 1));
}

proof fn lemma_trimmed_whole(text: Seq<char>)
    requires
        text.len() > 0 ==> !is_blank(text[0]) && !is_blank(text.last()),
    ensures
        trimmed(text) == text,
{
}

/// A text without the white space around it.
#[verifier::spinoff_prover]
fn trim(text: &str) -> (r: &str)
    ensures
        r@ == trimmed(text@),
{
    let mut from: usize = 0;
    let mut to: usize = text.unicode_len();
    proof {
        assert(text@.subrange(0, to as int) =~= text@);
    }
    while from < to && blank(text.get_char(from))
        invariant
            from <= to <= text@.len(),
            trimmed(text@) == trimmed(text@.subrange(from as int, to as int)),
        decreases to - from,
    {
        proof {
            lemma_trimmed_front(text@, from as int, to as int);
        }
        from = from + 1;
    }
    while from < to && blank(text.get_char(to - 1))
        invariant
            from <= to <= text@.len(),
            from < to ==> !is_blank(text@[from as int]),
            trimmed(text@) == trimmed(text@.subrange(from as int, to as int)),
        decreases to - from,
    {
        proof {
            lemma_trimmed_back(text@, from as int, to as int);
        }
        to = to - 1;
    }
    proof {
        lemma_trimmed_whole(text@.subrange(from as int, to as int));
    }
    text.substring_char(from, to)
}

/// The proxy that the `n`th connection goes through: each takes its turn.
pub open spec fn turn_of(backends: Seq<String>, n: usize) -> String
    recommends
        backends.len() > 0,
{
    backends[n as int % backends.len() as int]
}

/// Whether a request is to be dealt with in this way, with these proxies behind the router
/// and after so many connections.
pub open spec fn routes_to(
    backends: Seq<String>,
    connections: usize,
    command: Command,
    target: Target,
    route: Route,
) -> bool {
    if command != Command::TcpConnect {
        route == Route::Reject(ReplyError::CommandNotSupported)
    } else if let Some(text) = target.rns() {
        if encode_utf8(text).len() < 32 {
            route == Route::Fail(ReplyError::AddressTypeNotSupported)
        } else {
            route matches Route::Reticulum(hash) && {
                &&& hash.bytes() == address_bytes(text)
                &&& hash.id as nat == be_value(address_bytes(text))
            }
        }
    } else if target.is_console() {
        route == Route::Console
    } else if backends.len() == 0 {
        route == Route::Unreachable
    } else {
        route matches Route::Backend { backend, host, port } && {
            &&& backend == turn_of(backends, connections)
            &&& host@ == target.host()
            &&& port == target.port()
        }
    }
}

/// The proxies behind this one, and how many connections were passed on to them.
#[derive(Debug)]
pub struct Router {
    backends: Vec<String>,
    connections: usize,
}

impl Router {
    /// The proxies behind this one, in the order in which they are used.
    pub closed spec fn backends(&self) -> Seq<String> {
        self.backends@
    }

    /// How many connections were passed on, up to a full turn of the counter.
    pub closed spec fn connections(&self) -> usize {
        self.connections
    }

    /// No proxy is listed twice.
    pub open spec fn wf(&self) -> bool {
        forall|i: int, j: int|
            0 <= i < j < self.backends().len() ==> (#[trigger] self.backends()[i])@ != (
            #[trigger] self.backends()[j])@
    }

    /// A router that has no proxy behind it.
    pub fn new() -> (r: Self)
        ensures
            r.wf(),
            r.backends() == Seq::<String>::empty(),
            r.connections() == 0,
    {
        Router { backends: Vec::new(), connections: 0 }
    }

    fn position(&self, backend: &String) -> (r: Option<usize>)
        ensures
            r is Some <==> lists(self.backends(), backend@),
    {
        let mut i: usize = 0;
        while i < self.backends.len()
            invariant
                i <= self.backends@.len(),
                forall|j: int| 0 <= j < i ==> (#[trigger] self.backends@[j])@ != backend@,
            decreases self.backends@.len() - i,
        {
            if self.backends[i].eq(backend) {
                return Some(i);
            }
            i = i + 1;
        }
        None
    }

    /// Adds a proxy to those behind this one, unless it is there already.
    pub fn add(&mut self, backend: String)
        ensures
            old(self).wf() ==> final(self).wf(),
            final(self).connections() == old(self).connections(),
            final(self).backends() == if lists(old(self).backends(), backend@) {
                old(self).backends()
            } else {
                old(self).backends().push(backend)
            },
    {
        if self.position(&backend).is_none() {
            self.backends.push(backend);
        }
    }

    /// What is to be done with a request. A name in the Reticulum domain goes to the
    /// destination that it spells; everything else goes through the proxies behind this one,
    /// each in its turn, and nowhere if there are none.
    pub fn route(&mut self, command: Command, target: Target) -> (r: Route)
        requires
            command == Command::TcpConnect ==> target.readable(),
        ensures
            routes_to(old(self).backends(), old(self).connections(), command, target, r),
            final(self).backends() == old(self).backends(),
            old(self).wf() ==> final(self).wf(),
            r !is Backend ==> final(self).connections() == old(self).connections(),
            r is Backend ==> final(self).connections() == (if old(self).connections()
                == usize::MAX {
                0
            } else {
                old(self).connections() + 1
            }),
    {
        match command {
            Command::TcpConnect => {},
            _ => {
                return Route::Reject(ReplyError::CommandNotSupported);
            },
        }
        if let Target::Domain { name, port } = &target {
            if let Some(text) = strip_rns(name.as_str()) {
                return match DestinationHash::new_from_hex_string(text) {
                    Some(hash) => Route::Reticulum(hash),
                    None => Route::Fail(ReplyError::AddressTypeNotSupported),
                };
            }
            if name.eq(&"admin.internal".to_owned()) {
                return Route::Console;
            }
        }
        if self.backends.len() == 0 {
            return Route::Unreachable;
        }
        let turn: usize = self.connections % self.backends.len();
        let backend = self.backends[turn].clone();
        self.connections = self.connections.wrapping_add(1);
        let (host, port) = into_string_and_port(target);
        Route::Backend { backend, host, port }
    }

    /// Takes a line from the console: `ADD` and the address of a proxy adds it to those
    /// behind this one. Other lines are ignored.
    pub fn console(&mut self, line: &str)
        ensures
            old(self).wf() ==> final(self).wf(),
            final(self).connections() == old(self).connections(),
            match added_by(line@) {
                Some(backend) => if lists(old(self).backends(), backend) {
                    final(self).backends() == old(self).backends()
                } else {
                    &&& final(self).backends().len() == old(self).backends().len() + 1
                    &&& final(self).backends().drop_last() == old(self).backends()
                    &&& final(self).backends().last()@ == backend
                },
                None => final(self).backends() == old(self).backends(),
            },
    {
        let len: usize = line.unicode_len();
        if len < 4 {
            return;
        }
        let head = line.substring_char(0, 4);
        if head.get_char(0) == 'A' && head.get_char(1) == 'D' && head.get_char(2) == 'D'
            && head.get_char(3) == ' ' {
            assert(head@ =~= seq!['A', 'D', 'D', ' ']);
            let backend = trim(line.substring_char(4, len));
            if !backend.is_empty() {
                self.add(backend.to_owned());
                assert(!lists(old(self).backends(), backend@) ==> self.backends().drop_last()
                    =~= old(self).backends());
            }
        }
    }
}

} // verus!
