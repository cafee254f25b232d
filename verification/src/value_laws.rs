//! What the calls on hashes, texts, routes, streams, mappings and clients give, call by call:
//! the laws relate the arguments of a call to its result and to what it leaves behind.

use crate::channel::{inbox_closed, inbox_limit, inbox_of, Outlet, Sent};
use crate::client::{client_read_step, send_step, ClientStream, Descriptions, Inboxes};
use crate::client::{LinkEvent, LinkSource, ReceiveStep, SendStep};
use crate::error::Error;
use crate::ids::{address_bytes, address_digits, be_bytes, hex_value, pair_value};
use crate::ids::{has_address_digits, lemma_be_bytes_len};
use crate::ids::{DestinationHash, LinkId};
use crate::laws::law_hash_text_spells_hash;
use crate::reverse::{destination_name, prepare, Aspects, DestinationName, MappingConfig};
use crate::reverse::PreparedMapping;
use crate::socks::{added_by, ipv6_text, is_blank, rns_name, strip_rns, trimmed, AuthMode};
use crate::socks::{Command, ReplyError, Route, Router, Target};
use crate::stream::{copied, fits_into, read_step, shutdown_step_of, write_step_of};
use crate::stream::{streams_into, streams_limit, Listener, ReticulumStream};
use crate::stream::{ReadStep, Received, ShutdownStep, WriteStep};
use crate::text::{decimal, decimal_text, hex_digit, hex_text};
use tokio::sync::mpsc;
use vstd::arithmetic::power::{lemma_pow0, lemma_pow1, lemma_pow_positive, pow};
use vstd::prelude::*;
use vstd::utf8::encode_utf8;

verus! {

// Numbers as bytes.

proof fn lemma_byte_of_number(value: nat, n: nat, i: int)
    requires
        0 <= i < n,
    ensures
        be_bytes(value, n).len() == n,
        be_bytes(value, n)[i] as int == (value as int / pow(256, (n - 1 - i) as nat)) % 256,
    decreases n,
{
    lemma_be_bytes_len(value, n);
    lemma_be_bytes_len(value / 256, (n - 1) as nat);
    if i == n - 1 {
        lemma_pow0(256);
    } else {
        let e = (n - 2 - i) as nat;
        lemma_byte_of_number(value / 256, (n - 1) as nat, i);
        lemma_pow_positive(256, e);
        vstd::arithmetic::power::lemma_pow_adds(256, 1, e);
        lemma_pow1(256);
        vstd::arithmetic::div_mod::lemma_div_denominator(value as int, 256, pow(256, e));
    }
}

/// The bytes of a hash are the digits of its number to the base 256, the highest first.
pub proof fn law_bytes_are_big_endian(hash: &DestinationHash, r: [u8; 16], i: int)
    requires
        0 <= i < 16,
        call_ensures(DestinationHash::to_bytes, (hash,), r),
    ensures
        r@[i] as int == (hash.id as int / pow(256, (15 - i) as nat)) % 256,
{
    lemma_byte_of_number(hash.id as nat, 16, i);
}

/// The same of the bytes of a link id.
pub proof fn law_link_bytes_are_big_endian(link: &LinkId, r: [u8; 16], i: int)
    requires
        0 <= i < 16,
        call_ensures(LinkId::to_bytes, (link,), r),
    ensures
        r@[i] as int == (link.id as int / pow(256, (15 - i) as nat)) % 256,
{
    lemma_byte_of_number(link.id as nat, 16, i);
}

/// A hash made of bytes has those bytes, and is the only one that has them.
pub proof fn law_hash_of_bytes_has_those_bytes(
    bytes: &[u8; 16],
    hash: DestinationHash,
    back: [u8; 16],
    other: DestinationHash,
    others: [u8; 16],
)
    requires
        call_ensures(DestinationHash::from_bytes, (bytes,), hash),
        call_ensures(DestinationHash::to_bytes, (&hash,), back),
        call_ensures(DestinationHash::to_bytes, (&other,), others),
    ensures
        back@ == bytes@,
        others@ == bytes@ ==> other == hash,
{
    if others@ == bytes@ {
        crate::laws::law_bytes_tell_hashes_apart(other, hash);
    }
}

/// The same of a link id.
pub proof fn law_link_of_bytes_has_those_bytes(
    bytes: &[u8; 16],
    link: LinkId,
    back: [u8; 16],
    other: LinkId,
    others: [u8; 16],
)
    requires
        call_ensures(LinkId::from_bytes, (bytes,), link),
        call_ensures(LinkId::to_bytes, (&link,), back),
        call_ensures(LinkId::to_bytes, (&other,), others),
    ensures
        back@ == bytes@,
        others@ == bytes@ ==> other == link,
{
    if others@ == bytes@ {
        crate::laws::law_bytes_tell_hashes_apart(
            DestinationHash { id: other.id },
            DestinationHash { id: link.id },
        );
    }
}

// Bytes as text.

proof fn lemma_digit_table(value: int)
    requires
        0 <= value < 16,
    ensures
        hex_digit(value) == "0123456789abcdef"@[value],
        hex_value("0123456789abcdef"@[value]) == Some(value),
        hex_value("0123456789ABCDEF"@[value]) == Some(value),
{
    reveal_strlit("0123456789abcdef");
    reveal_strlit("0123456789ABCDEF");
}

/// The text of a hash has two lower-case digits for each of its bytes, the high one first.
pub proof fn law_text_of_hash_has_its_digits(
    hash: &DestinationHash,
    text: String,
    bytes: [u8; 16],
    i: int,
)
    requires
        0 <= i < 16,
        call_ensures(DestinationHash::to_hex_string, (hash,), text),
        call_ensures(DestinationHash::to_bytes, (hash,), bytes),
    ensures
        text@.len() == 32,
        text@[2 * i] == "0123456789abcdef"@[bytes@[i] as int / 16],
        text@[2 * i + 1] == "0123456789abcdef"@[bytes@[i] as int % 16],
{
    lemma_be_bytes_len(hash.id as nat, 16);
    lemma_digit_table(bytes@[i] as int / 16);
    lemma_digit_table(bytes@[i] as int % 16);
}

/// The same of the text of a link id.
pub proof fn law_text_of_link_has_its_digits(link: &LinkId, text: String, bytes: [u8; 16], i: int)
    requires
        0 <= i < 16,
        call_ensures(LinkId::to_hex_string, (link,), text),
        call_ensures(LinkId::to_bytes, (link,), bytes),
    ensures
        text@.len() == 32,
        text@[2 * i] == "0123456789abcdef"@[bytes@[i] as int / 16],
        text@[2 * i + 1] == "0123456789abcdef"@[bytes@[i] as int % 16],
{
    lemma_be_bytes_len(link.id as nat, 16);
    lemma_digit_table(bytes@[i] as int / 16);
    lemma_digit_table(bytes@[i] as int % 16);
}

/// Whether a character is the digit of a value, in either case.
pub open spec fn digit_of(c: char, value: int) -> bool {
    &&& 0 <= value < 16
    &&& c == "0123456789abcdef"@[value] || c == "0123456789ABCDEF"@[value]
}

/// Whether a character is a hexadecimal digit.
pub open spec fn is_digit(c: char) -> bool {
    exists|value: int| digit_of(c, value)
}

/// A hash that is read from a text has the bytes that its first 32 characters spell, two
/// digits to a byte, in either case; a plus sign before a digit stands for zero. What follows
/// plays no part, and only a text of under 32 bytes names no hash.
pub proof fn law_hash_is_read_from_its_digits(
    text: &str,
    r: Option<DestinationHash>,
    i: int,
    high: int,
    low: int,
)
    requires
        encode_utf8(text@).len() < 32 || address_digits(text@),
        call_ensures(DestinationHash::new_from_hex_string, (text,), r),
    ensures
        r is None <==> encode_utf8(text@).len() < 32,
        r is Some && 0 <= i < 16 && digit_of(text@[2 * i], high) && digit_of(
            text@[2 * i + 1],
            low,
        ) ==> r->0.bytes()[i] == 16 * high + low,
        r is Some && 0 <= i < 16 && text@[2 * i] == '+' && digit_of(text@[2 * i + 1], low)
            ==> r->0.bytes()[i] == low,
{
    if r is Some && 0 <= i < 16 {
        lemma_be_bytes_len(r->0.id as nat, 16);
        if digit_of(text@[2 * i + 1], low) {
            lemma_digit_table(low);
            if digit_of(text@[2 * i], high) {
                lemma_digit_table(high);
                assert(pair_value(text@[2 * i], text@[2 * i + 1]) == Some(16 * high + low));
            }
            if text@[2 * i] == '+' {
                assert(hex_value('+') is None);
            }
        }
    }
}

/// Reading the text of a hash gives the hash back, whatever follows the text.
pub proof fn law_text_of_hash_reads_back(
    hash: DestinationHash,
    text: String,
    longer: &str,
    rest: Seq<char>,
    r: Option<DestinationHash>,
)
    requires
        call_ensures(DestinationHash::to_hex_string, (&hash,), text),
        longer@ == text@ + rest,
        encode_utf8(longer@).len() >= 32,
        call_ensures(DestinationHash::new_from_hex_string, (longer,), r),
    ensures
        r == Some(hash),
{
    law_hash_text_spells_hash(hash);
    assert forall|i: int| 0 <= i < 16 implies (#[trigger] pair_value(
        longer@[2 * i],
        longer@[2 * i + 1],
    )) is Some by {
        assert(pair_value(text@[2 * i], text@[2 * i + 1]) is Some);
        assert(longer@[2 * i] == text@[2 * i] && longer@[2 * i + 1] == text@[2 * i + 1]);
    }
    assert(address_bytes(longer@) =~= address_bytes(text@)) by {
        assert forall|i: int| 0 <= i < 16 implies address_bytes(longer@)[i] == address_bytes(
            text@,
        )[i] by {
            assert(longer@[2 * i] == text@[2 * i] && longer@[2 * i + 1] == text@[2 * i + 1]);
        }
    }
}

/// Whether two characters of a text spell a byte: two digits, or a plus sign and a digit.
pub open spec fn spells_byte(text: Seq<char>, i: int) -> bool {
    &&& is_digit(text[2 * i + 1])
    &&& text[2 * i] == '+' || is_digit(text[2 * i])
}

/// Whether the first 32 characters of a text are digits, two to a byte, is answered exactly.
pub proof fn law_digits_are_recognised(text: &str, r: bool)
    requires
        call_ensures(has_address_digits, (text,), r),
    ensures
        r <==> text@.len() >= 32 && forall|i: int|
            0 <= i < 16 ==> #[trigger] spells_byte(text@, i),
{
    if r {
        assert forall|i: int| 0 <= i < 16 implies #[trigger] spells_byte(text@, i) by {
            assert(pair_value(text@[2 * i], text@[2 * i + 1]) is Some);
            lemma_value_is_digit(text@[2 * i]);
            lemma_value_is_digit(text@[2 * i + 1]);
        }
    }
    if text@.len() >= 32 && forall|i: int| 0 <= i < 16 ==> #[trigger] spells_byte(text@, i) {
        assert forall|i: int| 0 <= i < 16 implies (#[trigger] pair_value(
            text@[2 * i],
            text@[2 * i + 1],
        )) is Some by {
            assert(spells_byte(text@, i));
            lemma_digit_has_value(text@[2 * i + 1]);
            if text@[2 * i] != '+' {
                lemma_digit_has_value(text@[2 * i]);
            }
        }
    }
}

proof fn lemma_value_is_digit(c: char)
    ensures
        hex_value(c) is Some ==> is_digit(c),
{
    reveal_strlit("0123456789abcdef");
    reveal_strlit("0123456789ABCDEF");
    if hex_value(c) is Some {
        assert(digit_of(c, hex_value(c)->0));
    }
}

proof fn lemma_digit_has_value(c: char)
    requires
        is_digit(c),
    ensures
        hex_value(c) is Some,
{
    let value = choose|value: int| digit_of(c, value);
    lemma_digit_table(value);
}

// Numbers as text.

/// The number that decimal digits spell.
pub open spec fn number(text: Seq<char>) -> nat
    decreases text.len(),
{
    if text.len() == 0 {
        0
    } else {
        10 * number(text.drop_last()) + (text.last() as int - '0' as int) as nat
    }
}

proof fn lemma_decimal_text(n: nat)
    ensures
        number(decimal_text(n)) == n,
        decimal_text(n).len() > 0,
        forall|i: int|
            0 <= i < decimal_text(n).len() ==> '0' <= #[trigger] decimal_text(n)[i] <= '9',
        n >= 10 ==> decimal_text(n).len() > 1,
        n > 0 ==> decimal_text(n)[0] != '0',
    decreases n,
{
    reveal_with_fuel(number, 2);
    if n < 10 {
        assert(decimal_text(n).drop_last() =~= Seq::empty());
    } else {
        lemma_decimal_text(n / 10);
        let head = decimal_text(n / 10);
        assert(decimal_text(n).drop_last() =~= head);
        assert(decimal_text(n)[0] == head[0]);
    }
}

/// A number is written in decimal digits that spell it, without leading zeros.
pub proof fn law_decimal_spells_the_number(n: u64, r: String)
    requires
        call_ensures(decimal, (n,), r),
    ensures
        number(r@) == n,
        r@.len() > 0,
        forall|i: int| 0 <= i < r@.len() ==> '0' <= #[trigger] r@[i] <= '9',
        n > 0 ==> r@[0] != '0',
        n == 0 ==> r@.len() == 1,
{
    lemma_decimal_text(n as nat);
}

/// Every error is told in its own words, with the destination, the link, the resource, the
/// number of bytes, the address and the cause that it is about.
pub proof fn law_errors_are_told_in_full(
    error: &Error,
    r: String,
    hash: DestinationHash,
    hash_text: String,
    link: LinkId,
    link_text: String,
    resource: [u8; 32],
    bytes: u64,
    number: String,
)
    requires
        call_ensures(Error::message, (error,), r),
        call_ensures(DestinationHash::to_hex_string, (&hash,), hash_text),
        call_ensures(LinkId::to_hex_string, (&link,), link_text),
        call_ensures(decimal, (bytes,), number),
    ensures
        *error == (Error::NoAnnouncement { destination: hash }) ==> r@
            == "no announcement received yet for destination "@ + hash_text@,
        *error matches Error::Node { cause } ==> r@ == cause@,
        *error == (Error::RefusalUndelivered { destination: hash }) ==> r@
            == "error trying to send send error back to connection requestor: "@
            + "no announcement received yet for destination "@ + hash_text@,
        *error matches Error::FailureUndelivered { cause } ==> r@
            == "error when trying to send error back to connection requestor: "@ + cause@,
        *error == (Error::ListenerExists { destination: hash }) ==> r@
            == "Listener already exists for destination "@ + hash_text@,
        *error == (Error::DuplicateUndelivered { destination: hash }) ==> r@
            == "error trying to send error response back to listener requestor: "@
            + "Listener already exists for destination "@ + hash_text@,
        *error == Error::ListenerUndelivered ==> r@
            == "error trying to send error response back to listener requestor"@,
        *error matches Error::LinkNotAccepted { cause } ==> r@
            == "error when trying to accept link: "@ + cause@,
        *error == Error::StreamUndelivered ==> r@
            == "error trying to send reticulum stream back to connection requestor"@,
        *error == Error::LinkClosed ==> r@ == "link closed"@,
        *error == Error::ClosureUndelivered ==> r@
            == "could not send response back to connection requestor: "@ + "link closed"@,
        *error == (Error::StreamMissing { link, resource, bytes }) ==> r@ == "link "@ + link_text@
            + ": resource "@ + hex_text(resource@) + ": dropping "@ + number@
            + " received bytes because sender to stream doesn't exist"@,
        *error == (Error::StreamDropped { link, resource, bytes }) ==> r@ == "link "@ + link_text@
            + ": resource "@ + hex_text(resource@) + ": dropping "@ + number@
            + " received bytes because stream was dropped"@,
        *error matches Error::ResourceNotSent { cause } ==> r@ == "sending resource: "@ + cause@,
        *error == Error::NotAnnounced ==> r@
            == "did not receive an announcement for that address yet"@,
        *error matches Error::InvalidForwardAddress { address, cause } ==> r@
            == "Invalid forward address '"@ + address@ + "': "@ + cause@,
        *error matches Error::InvalidIdentity { cause } ==> r@ == "Failed to parse identity: "@
            + cause@,
        *error matches Error::UnreadableMappings { path, cause } ==> r@
            == "Failed to read mappings file "@ + path@ + ": "@ + cause@,
        *error matches Error::InvalidMappings { cause } ==> r@
            == "Failed to parse mappings JSON: "@ + cause@,
        *error matches Error::TargetUnreachable { target, cause } ==> r@
            == "Failed to connect to target "@ + target@ + ": "@ + cause@,
{
}

/// Bytes in hexadecimal have two lower-case digits for each byte, the high one first.
pub proof fn law_hexadecimal_has_two_digits_a_byte(bytes: Seq<u8>, i: int)
    requires
        0 <= i < bytes.len(),
    ensures
        hex_text(bytes).len() == 2 * bytes.len(),
        hex_text(bytes)[2 * i] == "0123456789abcdef"@[bytes[i] as int / 16],
        hex_text(bytes)[2 * i + 1] == "0123456789abcdef"@[bytes[i] as int % 16],
{
    lemma_digit_table(bytes[i] as int / 16);
    lemma_digit_table(bytes[i] as int % 16);
}

// The proxy.

/// Without authentication everybody is let in; with a password, who gives the right name and
/// the right password, and nobody else.
pub proof fn law_only_the_right_password_is_let_in(
    auth: &AuthMode,
    user: &String,
    pass: &String,
    r: bool,
)
    requires
        call_ensures(AuthMode::admits, (auth, user, pass), r),
    ensures
        auth is NoAuth ==> r,
        auth matches AuthMode::Password { username, password } ==> (r <==> user@ == username@
            && pass@ == password@),
{
}

proof fn lemma_rns_name(name: Seq<char>, text: Seq<char>)
    ensures
        rns_name(name) == Some(text) <==> name == text + ".rns"@,
{
    reveal_strlit(".rns");
    assert(".rns"@ =~= seq!['.', 'r', 'n', 's']);
    if name == text + ".rns"@ {
        assert(name.subrange(name.len() - 4, name.len() as int) =~= ".rns"@);
        assert(name.subrange(0, name.len() - 4) =~= text);
    }
    if rns_name(name) == Some(text) {
        assert(name =~= text + ".rns"@);
    }
}

/// What is stripped off a name is `.rns` at its end, and that only.
pub proof fn law_only_the_domain_is_stripped(name: &str, r: Option<&str>, text: Seq<char>)
    requires
        call_ensures(strip_rns, (name,), r),
    ensures
        r matches Some(stripped) ==> name@ == stripped@ + ".rns"@,
        r is None ==> name@ != text + ".rns"@,
{
    lemma_rns_name(name@, text);
    if r is Some {
        lemma_rns_name(name@, r->0@);
    }
}

/// A target is readable unless it is a name that ends with `.rns` and is long enough for a
/// hash but spells none.
pub proof fn law_unreadable_targets_are_found(target: &Target, r: bool, text: Seq<char>)
    requires
        call_ensures(Target::is_readable, (target,), r),
    ensures
        target !is Domain ==> r,
        ends_with_rns(*target, text) ==> (r <==> encode_utf8(text).len() < 32 || address_digits(
            text,
        )),
        !r ==> exists|before: Seq<char>| #[trigger] ends_with_rns(*target, before),
{
    if let Target::Domain { name, port } = *target {
        lemma_rns_name(name@, text);
        if !r {
            let before = rns_name(name@)->0;
            lemma_rns_name(name@, before);
            assert(ends_with_rns(*target, before));
        }
    }
}

/// A connection through a proxy keeps the port of its target, whatever the target and the
/// port, and its host: a name as it is, an IPv4 address as four numbers with dots between
/// them.
pub proof fn law_proxied_connections_keep_host_and_port(
    router: &mut Router,
    command: Command,
    target: Target,
    route: Route,
    first: String,
    second: String,
    third: String,
    fourth: String,
)
    requires
        call_ensures(Router::route, (router, command, target), route),
        route is Backend,
        target matches Target::V4 { octets, port } ==> {
            &&& call_ensures(decimal, (octets@[0] as u64,), first)
            &&& call_ensures(decimal, (octets@[1] as u64,), second)
            &&& call_ensures(decimal, (octets@[2] as u64,), third)
            &&& call_ensures(decimal, (octets@[3] as u64,), fourth)
        },
    ensures
        target matches Target::Domain { name, port } ==> route->port == port && route->host@
            == name@,
        target matches Target::V4 { octets, port } ==> route->port == port && route->host@
            == first@ + "."@ + second@ + "."@ + third@ + "."@ + fourth@,
        target matches Target::V6 { octets, port } ==> route->port == port && route->host@
            == ipv6_text(octets@),
{
}

/// Two connections to the same host through proxies differ in their port where their targets
/// do, and there only.
pub proof fn law_ports_are_told_apart(
    router: &mut Router,
    other: &mut Router,
    name: String,
    port: u16,
    other_port: u16,
    route: Route,
    other_route: Route,
)
    requires
        call_ensures(
            Router::route,
            (router, Command::TcpConnect, Target::Domain { name, port }),
            route,
        ),
        call_ensures(
            Router::route,
            (other, Command::TcpConnect, Target::Domain { name, port: other_port }),
            other_route,
        ),
        route is Backend && other_route is Backend,
    ensures
        route->port == other_route->port <==> port == other_port,
        route->host@ == other_route->host@,
{
}

/// Whether a target is a name that ends with `.rns`, after this text.
pub open spec fn ends_with_rns(target: Target, text: Seq<char>) -> bool {
    target matches Target::Domain { name, port } && name@ == text + ".rns"@
}

/// What becomes of a request: other commands than connecting are refused; a name that ends
/// with `.rns` goes to the destination that it spells, or fails where it is too short to spell
/// one; the name of the console goes to the console; and everything else goes through the
/// proxy whose turn it is, or nowhere where there is none.
pub proof fn law_requests_are_routed(
    router: &mut Router,
    command: Command,
    target: Target,
    route: Route,
    text: Seq<char>,
)
    requires
        call_ensures(Router::route, (router, command, target), route),
        command == Command::TcpConnect ==> target.readable(),
    ensures
        command != Command::TcpConnect <==> route == Route::Reject(
            ReplyError::CommandNotSupported,
        ),
        command == Command::TcpConnect && ends_with_rns(target, text) ==> {
            &&& encode_utf8(text).len() < 32 ==> route == Route::Fail(
                ReplyError::AddressTypeNotSupported,
            )
            &&& encode_utf8(text).len() >= 32 ==> route is Reticulum
        },
        route is Reticulum || route is Fail ==> exists|before: Seq<char>| #[trigger]
            ends_with_rns(target, before),
        route is Console <==> command == Command::TcpConnect && (target matches Target::Domain {
            name,
            port,
        } && name@ == "admin.internal"@),
        route is Unreachable ==> old(router).backends().len() == 0,
        route is Backend ==> {
            let backends = old(router).backends();
            &&& backends.len() > 0
            &&& route->backend == backends[old(router).connections() as int % backends.len() as int]
        },
        final(router).backends() == old(router).backends(),
        route !is Backend ==> final(router).connections() == old(router).connections(),
        route is Backend && old(router).connections() < usize::MAX ==> final(router).connections()
            == old(router).connections() + 1,
        route is Backend && old(router).connections() == usize::MAX ==> final(router).connections()
            == 0,
{
    reveal_strlit("admin.internal");
    reveal_strlit(".rns");
    if let Target::Domain { name, port } = target {
        lemma_rns_name(name@, text);
        if rns_name(name@) is Some {
            let before = rns_name(name@)->0;
            lemma_rns_name(name@, before);
            assert(ends_with_rns(target, before));
            assert(name@[name@.len() - 4] == '.');
            assert("admin.internal"@[10] == 'r');
            if name@ == "admin.internal"@ {
                assert(name@.len() == 14);
            }
        }
    }
}

/// A name that ends with `.rns` goes to the destination whose bytes its digits spell.
pub proof fn law_names_spell_their_destination(
    router: &mut Router,
    name: String,
    port: u16,
    text: Seq<char>,
    route: Route,
    i: int,
    high: int,
    low: int,
)
    requires
        call_ensures(
            Router::route,
            (router, Command::TcpConnect, Target::Domain { name, port }),
            route,
        ),
        name@ == text + ".rns"@,
        encode_utf8(text).len() >= 32,
        address_digits(text),
        0 <= i < 16,
        digit_of(text[2 * i], high),
        digit_of(text[2 * i + 1], low),
    ensures
        route matches Route::Reticulum(hash) && hash.bytes()[i] == 16 * high + low,
{
    lemma_rns_name(name@, text);
    lemma_digit_table(high);
    lemma_digit_table(low);
    assert(pair_value(text[2 * i], text[2 * i + 1]) == Some(16 * high + low));
    lemma_be_bytes_len(route->Reticulum_0.id as nat, 16);
}

/// The text of a hash and `.rns` after it goes to that hash, on any port and whatever proxies
/// there are.
pub proof fn law_hashes_are_reached_by_name(
    router: &mut Router,
    hash: DestinationHash,
    text: String,
    name: String,
    port: u16,
    route: Route,
)
    requires
        call_ensures(DestinationHash::to_hex_string, (&hash,), text),
        name@ == text@ + ".rns"@,
        call_ensures(
            Router::route,
            (router, Command::TcpConnect, Target::Domain { name, port }),
            route,
        ),
    ensures
        route == Route::Reticulum(hash),
{
    crate::laws::law_rns_name_reaches_destination(
        hash,
        Target::Domain { name, port },
        old(router).backends(),
        old(router).connections(),
        route,
    );
}

/// A router starts without proxies. Adding one puts it behind all others, once.
pub proof fn law_proxies_are_added_once(
    fresh: Router,
    router: &mut Router,
    backend: String,
    i: int,
)
    requires
        call_ensures(Router::new, (), fresh),
        call_ensures(Router::add, (router, backend), ()),
    ensures
        fresh.backends().len() == 0 && fresh.connections() == 0,
        final(router).connections() == old(router).connections(),
        0 <= i < old(router).backends().len() ==> final(router).backends()[i]
            == old(router).backends()[i],
        (exists|j: int|
            0 <= j < old(router).backends().len() && (#[trigger] old(router).backends()[j])@
                == backend@) ==> final(router).backends().len() == old(router).backends().len(),
        (forall|j: int|
            0 <= j < old(router).backends().len() ==> (#[trigger] old(router).backends()[j])@
                != backend@) ==> {
            &&& final(router).backends().len() == old(router).backends().len() + 1
            &&& final(router).backends().last() == backend
        },
{
}

/// Whether a text is white space but for a part of it, which neither begins nor ends with any.
#[verifier::opaque]
spec fn cut(text: Seq<char>, from: int, to: int) -> bool {
    &&& 0 <= from <= to <= text.len()
    &&& forall|i: int| 0 <= i < from ==> is_blank(#[trigger] text[i])
    &&& forall|i: int| to <= i < text.len() ==> is_blank(#[trigger] text[i])
    &&& from < to ==> !is_blank(text[from]) && !is_blank(text[to - 1])
}

proof fn lemma_cut_front(text: Seq<char>, from: int, to: int)
    requires
        text.len() > 0,
        is_blank(text[0]),
        cut(text.drop_first(), from, to),
    ensures
        cut(text, from + 1, to + 1),
        text.drop_first().subrange(from, to) == text.subrange(from + 1, to + 1),
{
    reveal(cut);
    let rest = text.drop_first();
    assert(rest.subrange(from, to) =~= text.subrange(from + 1, to + 1));
    assert forall|i: int| 0 <= i < from + 1 implies is_blank(#[trigger] text[i]) by {
        if i > 0 {
            assert(rest[i - 1] == text[i]);
        }
    }
    assert forall|i: int| to + 1 <= i < text.len() implies is_blank(#[trigger] text[i]) by {
        assert(rest[i - 1] == text[i]);
    }
}

proof fn lemma_cut_back(text: Seq<char>, from: int, to: int)
    requires
        text.len() > 0,
        is_blank(text.last()),
        cut(text.drop_last(), from, to),
    ensures
        cut(text, from, to),
        text.drop_last().subrange(from, to) == text.subrange(from, to),
{
    reveal(cut);
    let rest = text.drop_last();
    assert(rest.subrange(from, to) =~= text.subrange(from, to));
    assert forall|i: int| 0 <= i < from implies is_blank(#[trigger] text[i]) by {
        assert(rest[i] == text[i]);
    }
    assert forall|i: int| to <= i < text.len() implies is_blank(#[trigger] text[i]) by {
        if i < rest.len() {
            assert(rest[i] == text[i]);
        }
    }
}

#[verifier::spinoff_prover]
proof fn lemma_trimmed(text: Seq<char>) -> (r: (int, int))
    ensures
        cut(text, r.0, r.1),
        trimmed(text) == text.subrange(r.0, r.1),
    decreases text.len(),
{
    assert(text.len() == 0 ==> cut(text, 0, 0)) by {
        reveal(cut);
    }
    assert(text.len() > 0 && !is_blank(text[0]) && !is_blank(text.last()) ==> cut(
        text,
        0,
        text.len() as int,
    )) by {
        reveal(cut);
    }
    if text.len() == 0 {
        assert(text =~= text.subrange(0, 0));
        (0, 0)
    } else if is_blank(text[0]) {
        let (from, to) = lemma_trimmed(text.drop_first());
        lemma_cut_front(text, from, to);
        (from + 1, to + 1)
    } else if is_blank(text.last()) {
        let (from, to) = lemma_trimmed(text.drop_last());
        lemma_cut_back(text, from, to);
        (from, to)
    } else {
        assert(text =~= text.subrange(0, text.len() as int));
        (0, text.len() as int)
    }
}

/// White space: a space, a tab, or what ends a line.
pub open spec fn white(c: char) -> bool {
    c == ' ' || c == '\t' || c == '\n' || c == '\r'
}

/// A line on the console that spells `ADD`, a space and an address, with any white space round
/// the address, adds that address as a proxy, once; the proxies before it stay.
pub proof fn law_console_adds_the_address(
    router: &mut Router,
    line: &str,
    before: Seq<char>,
    address: Seq<char>,
    after: Seq<char>,
)
    requires
        call_ensures(Router::console, (router, line), ()),
        line@ == "ADD "@ + before + address + after,
        forall|i: int| 0 <= i < before.len() ==> white(#[trigger] before[i]),
        forall|i: int| 0 <= i < after.len() ==> white(#[trigger] after[i]),
        address.len() > 0,
        !white(address[0]) && !white(address.last()),
    ensures
        final(router).connections() == old(router).connections(),
        (exists|j: int|
            0 <= j < old(router).backends().len() && (#[trigger] old(router).backends()[j])@
                == address) ==> final(router).backends() == old(router).backends(),
        (forall|j: int|
            0 <= j < old(router).backends().len() ==> (#[trigger] old(router).backends()[j])@
                != address) ==> {
            &&& final(router).backends().len() == old(router).backends().len() + 1
            &&& final(router).backends().drop_last() == old(router).backends()
            &&& final(router).backends().last()@ == address
        },
{
    reveal(cut);
    reveal_strlit("ADD ");
    assert("ADD "@ =~= seq!['A', 'D', 'D', ' ']);
    let rest = before + address + after;
    assert(line@.subrange(0, 4) =~= "ADD "@);
    assert(line@.subrange(4, line@.len() as int) =~= rest);
    let (from, to) = lemma_trimmed(rest);
    let a = before.len() as int;
    let b = (before.len() + address.len()) as int;
    assert(rest[a] == address[0]);
    assert(rest[b - 1] == address.last());
    assert(from <= a);
    assert(to >= b);
    if from < a {
        assert(rest[from] == before[from]);
    }
    if to > b {
        assert(rest[to - 1] == after[to - 1 - b]);
    }
    assert(rest.subrange(a, b) =~= address);
}

/// Lines on the console that do not begin with `ADD` and a space change nothing, and neither
/// do those that have nothing but white space after it.
pub proof fn law_other_lines_are_ignored(router: &mut Router, line: &str, rest: Seq<char>)
    requires
        call_ensures(Router::console, (router, line), ()),
        line@ == "ADD "@ + rest ==> forall|i: int|
            0 <= i < rest.len() ==> white(#[trigger] rest[i]),
        line@ != "ADD "@ + rest ==> forall|other: Seq<char>| line@ != #[trigger] ("ADD "@ + other),
    ensures
        final(router).backends() == old(router).backends(),
        final(router).connections() == old(router).connections(),
{
    reveal(cut);
    reveal_strlit("ADD ");
    assert("ADD "@ =~= seq!['A', 'D', 'D', ' ']);
    if added_by(line@) is Some {
        let tail = line@.subrange(4, line@.len() as int);
        assert(line@ =~= "ADD "@ + tail);
        assert(line@ == "ADD "@ + rest);
        assert(tail =~= rest);
        let (from, to) = lemma_trimmed(rest);
        assert(from < to);
        assert(is_blank(rest[from]));
    }
}

// Streams.

/// A stream is opened fresh: for the link that was asked for, open, with nothing written, with
/// room for ten pieces, and with a way in that leads into it. What it sends goes where the
/// outlet leads. A listener is opened with a way in that leads into it and room for two
/// streams.
pub proof fn law_streams_are_opened_fresh(
    link: LinkId,
    outlet: &mut Outlet,
    r: (mpsc::Sender<Vec<u8>>, ReticulumStream),
    listening: (mpsc::Sender<ReticulumStream>, Listener),
)
    requires
        call_ensures(ReticulumStream::open, (link, outlet), r),
        call_ensures(Listener::open, (), listening),
    ensures
        r.1.link == link,
        r.1.record().len() == 0,
        r.1.to_send.sender() == old(outlet).sender(),
        inbox_of(r.1.received) == r.0,
        inbox_limit(r.1.received) == 10,
        !inbox_closed(r.1.received),
        final(outlet).sender() == old(outlet).sender(),
        final(outlet).opened() == old(outlet).opened().push(link),
        streams_into(listening.1.streams) == listening.0,
        streams_limit(listening.1.streams) == 2,
{
}

/// A read gives one piece of data whole, the end of the stream as nothing, and waits where
/// nothing came yet.
pub proof fn law_reads_give_what_came(received: Received, room: usize, r: ReadStep)
    requires
        received matches Received::Data(data) ==> data@.len() <= room,
        call_ensures(read_step, (received, room), r),
    ensures
        received matches Received::Data(data) ==> (r matches ReadStep::Ready(bytes) && bytes@
            == data@),
        received is Ended ==> (r matches ReadStep::Ready(bytes) && bytes@.len() == 0),
        received is Pending ==> r is Pending,
{
}

/// A client's read gives one piece of data whole, is aborted at the end, and waits where
/// nothing came yet.
pub proof fn law_client_reads_give_what_came(received: Received, room: usize, r: ReadStep)
    requires
        received matches Received::Data(data) ==> data@.len() <= room,
        call_ensures(client_read_step, (received, room), r),
    ensures
        received matches Received::Data(data) ==> r == ReadStep::Ready(data),
        received is Ended ==> r is Aborted,
        received is Pending ==> r is Pending,
{
}

/// Data fit into a buffer that has room for all of them, and what is not data fits anywhere.
pub proof fn law_data_fit_where_there_is_room(received: &Received, room: usize, r: bool)
    requires
        call_ensures(fits_into, (received, room), r),
    ensures
        *received matches Received::Data(data) ==> (r <==> data@.len() <= room),
        *received !is Data ==> r,
{
}

/// A write takes all bytes or none: all where they were queued, none where it waits for room
/// or nobody is there any more.
pub proof fn law_writes_take_all_or_nothing<T>(sent: &Sent<T>, len: usize, r: WriteStep)
    requires
        call_ensures(write_step_of::<T>, (sent, len), r),
    ensures
        *sent is Queued <==> r == WriteStep::Ready(len),
        *sent is Full <==> r == WriteStep::Pending,
        *sent is Closed <==> r == WriteStep::Reset,
{
}

/// A shutdown is over where nothing waits to be read, and only there.
pub proof fn law_shutdown_waits_for_readers(empty: bool, r: ShutdownStep)
    requires
        call_ensures(shutdown_step_of, (empty,), r),
    ensures
        empty <==> r == ShutdownStep::Ready,
        !empty <==> r == ShutdownStep::Pending,
{
}

/// A copy of bytes has those bytes, and a message for a link has the link of its stream and
/// the bytes that were written.
pub proof fn law_copies_have_the_same_bytes(
    buf: &[u8],
    copy: Vec<u8>,
    stream: &ReticulumStream,
    message: (LinkId, Vec<u8>),
    i: int,
)
    requires
        call_ensures(copied, (buf,), copy),
        call_ensures(ReticulumStream::outgoing, (stream, buf), message),
    ensures
        copy@.len() == buf@.len(),
        message.1@.len() == buf@.len(),
        message.0 == stream.link,
        0 <= i < buf@.len() ==> copy@[i] == buf@[i] && message.1@[i] == buf@[i],
{
}

/// A write to a stream hands the bytes over once, for the link of the stream, and answers by
/// what became of them. What was handed over before stays as it was, and what came in is left
/// alone.
pub proof fn law_a_write_is_handed_over_once(
    stream: &mut ReticulumStream,
    buf: &[u8],
    r: WriteStep,
    i: int,
)
    requires
        call_ensures(ReticulumStream::write, (stream, buf), r),
    ensures
        final(stream).record().len() == old(stream).record().len() + 1,
        0 <= i < old(stream).record().len() ==> final(stream).record()[i]
            == old(stream).record()[i],
        ({
            let attempt = final(stream).record().last();
            &&& attempt.message.0 == old(stream).link
            &&& attempt.message.1@ == buf@
            &&& attempt.sent is Queued <==> r == WriteStep::Ready(buf@.len() as usize)
            &&& attempt.sent is Full <==> r == WriteStep::Pending
            &&& attempt.sent is Closed <==> r == WriteStep::Reset
            &&& attempt.sent matches Sent::Full(back) ==> back == attempt.message
            &&& attempt.sent matches Sent::Closed(back) ==> back == attempt.message
        }),
        final(stream).link == old(stream).link,
        final(stream).received == old(stream).received,
{
    assert(final(stream).record().drop_last() == old(stream).record());
    if 0 <= i < old(stream).record().len() {
        assert(final(stream).record().drop_last()[i] == old(stream).record()[i]);
    }
}

/// The same of a write to a client's stream.
pub proof fn law_a_client_write_is_handed_over_once(
    stream: &mut ClientStream,
    buf: &[u8],
    r: WriteStep,
    i: int,
)
    requires
        call_ensures(ClientStream::write, (stream, buf), r),
    ensures
        final(stream).record().len() == old(stream).record().len() + 1,
        0 <= i < old(stream).record().len() ==> final(stream).record()[i]
            == old(stream).record()[i],
        ({
            let attempt = final(stream).record().last();
            &&& attempt.message@ == buf@
            &&& attempt.sent is Queued <==> r == WriteStep::Ready(buf@.len() as usize)
            &&& attempt.sent is Full <==> r == WriteStep::Pending
            &&& attempt.sent is Closed <==> r == WriteStep::Reset
            &&& attempt.sent matches Sent::Full(back) ==> back == attempt.message
            &&& attempt.sent matches Sent::Closed(back) ==> back == attempt.message
        }),
        final(stream).received_receiver == old(stream).received_receiver,
{
    assert(final(stream).record().drop_last() == old(stream).record());
    if 0 <= i < old(stream).record().len() {
        assert(final(stream).record().drop_last()[i] == old(stream).record()[i]);
    }
}

/// A shutdown closes the way in, leaves the way out open, and answers by whether anything was
/// still waiting to be read. A client's shutdown is over at once.
pub proof fn law_shutdown_closes_the_way_in(
    stream: &mut ReticulumStream,
    r: ShutdownStep,
    client: &mut ClientStream,
    client_r: ShutdownStep,
)
    requires
        call_ensures(ReticulumStream::shutdown, (stream,), r),
        call_ensures(ClientStream::shutdown, (client,), client_r),
    ensures
        inbox_closed(final(stream).received),
        inbox_of(final(stream).received) == inbox_of(old(stream).received),
        final(stream).to_send == old(stream).to_send,
        final(stream).link == old(stream).link,
        r == ShutdownStep::Ready ==> call_ensures(
            mpsc::Receiver::<Vec<u8>>::is_empty,
            (&final(stream).received,),
            true,
        ),
        r == ShutdownStep::Pending ==> call_ensures(
            mpsc::Receiver::<Vec<u8>>::is_empty,
            (&final(stream).received,),
            false,
        ),
        inbox_closed(final(client).received_receiver),
        inbox_of(final(client).received_receiver) == inbox_of(old(client).received_receiver),
        final(client).to_send_sender == old(client).to_send_sender,
        client_r == ShutdownStep::Ready,
{
}

// Mappings.

/// A mapping is prepared under its own name and forwards where it did, with the text of the
/// hash of its destination noted and told after its name and a colon.
pub proof fn law_mappings_note_their_hash(
    name: String,
    config: MappingConfig,
    hash: DestinationHash,
    r: PreparedMapping,
    text: String,
)
    requires
        call_ensures(prepare, (name, config, hash), r),
        call_ensures(DestinationHash::to_hex_string, (&hash,), text),
    ensures
        r.name@ == name@,
        r.config.aspects == config.aspects,
        r.config.forward_to@ == config.forward_to@,
        r.config.address_hash matches Some(address) && address@ == text@,
        r.discovery@ == name@ + ":"@ + text@,
{
}

/// The destination of a mapping is called by the name of the mapping and nothing else.
pub proof fn law_destinations_are_called_by_their_mapping(name: &String, r: DestinationName)
    requires
        call_ensures(destination_name, (name,), r),
    ensures
        r.app_name@ == name@,
        r.aspects@.len() == 0,
{
}

/// A single aspect is a list of one, and a list is the list that it is.
pub proof fn law_aspects_are_listed(aspects: Aspects, r: Vec<String>)
    requires
        call_ensures(Aspects::into_list, (aspects,), r),
    ensures
        aspects matches Aspects::List(list) ==> r@ == list@,
        aspects matches Aspects::Single(aspect) ==> r@.len() == 1 && r@[0] == aspect,
{
}

// The client.

/// Looking a destination up right after it was announced gives that announcement, whatever was
/// announced before; another destination is found, or not, as before.
pub proof fn law_announcement_is_found<D>(
    descriptions: &mut Descriptions<D>,
    address: DestinationHash,
    description: D,
    other: DestinationHash,
    before: Descriptions<D>,
    after: Descriptions<D>,
    found_address: Result<&D, Error>,
    other_before: Result<&D, Error>,
    other_after: Result<&D, Error>,
)
    requires
        other != address,
        before@ == old(descriptions)@,
        call_ensures(
            Descriptions::<D>::announced,
            (descriptions, address, description),
            (),
        ),
        after@ == final(descriptions)@,
        call_ensures(Descriptions::<D>::find, (&after, address), found_address),
        call_ensures(Descriptions::<D>::find, (&before, other), other_before),
        call_ensures(Descriptions::<D>::find, (&after, other), other_after),
    ensures
        found_address matches Ok(known) && *known == description,
        other_before matches Ok(known) ==> (other_after matches Ok(still) && *still == *known),
        other_before is Err <==> other_after is Err,
{
}

/// Nothing is found where nothing was announced, and the reason is told.
pub proof fn law_nothing_is_found_at_first<D>(
    descriptions: Descriptions<D>,
    address: DestinationHash,
    r: Result<&D, Error>,
)
    requires
        call_ensures(Descriptions::<D>::new, (), descriptions),
        call_ensures(Descriptions::<D>::find, (&descriptions, address), r),
    ensures
        r matches Err(error) && error == Error::NotAnnounced,
{
}

/// After any announcements, looking an address up gives the description in the latest
/// announcement of that very address, whatever others were announced before and after it; an
/// address that none of them was for is found exactly where it was known before.
pub proof fn law_lookup_gives_the_latest_of_that_address<D>(
    known: Map<u128, D>,
    announcements: Seq<(DestinationHash, D)>,
    descriptions: Descriptions<D>,
    address: DestinationHash,
    at: int,
    r: Result<&D, Error>,
)
    requires
        descriptions@ == crate::laws::known_after(known, announcements),
        call_ensures(Descriptions::<D>::find, (&descriptions, address), r),
    ensures
        0 <= at < announcements.len() && announcements[at].0 == address && (forall|later: int|
            at < later < announcements.len() ==> (#[trigger] announcements[later]).0 != address)
            ==> (r matches Ok(description) && *description == announcements[at].1),
        (forall|i: int|
            0 <= i < announcements.len() ==> (#[trigger] announcements[i]).0 != address) ==> {
            &&& known.contains_key(address.id) ==> (r matches Ok(description) && *description
                == known[address.id])
            &&& !known.contains_key(address.id) ==> (r matches Err(error) && error
                == Error::NotAnnounced)
        },
{
    if 0 <= at < announcements.len() && announcements[at].0 == address && (forall|later: int|
        at < later < announcements.len() ==> (#[trigger] announcements[later]).0 != address) {
        lemma_latest_is_known(known, announcements, address, at);
    }
    if forall|i: int| 0 <= i < announcements.len() ==> (#[trigger] announcements[i]).0 != address {
        lemma_others_leave_it(known, announcements, address);
    }
}

proof fn lemma_others_leave_it<D>(
    known: Map<u128, D>,
    announcements: Seq<(DestinationHash, D)>,
    address: DestinationHash,
)
    requires
        forall|i: int| 0 <= i < announcements.len() ==> (#[trigger] announcements[i]).0 != address,
    ensures
        crate::laws::known_after(known, announcements).get(address.id) == known.get(address.id),
        crate::laws::known_after(known, announcements).contains_key(address.id)
            <==> known.contains_key(address.id),
    decreases announcements.len(),
{
    if announcements.len() > 0 {
        let earlier = announcements.drop_last();
        assert forall|i: int| 0 <= i < earlier.len() implies (#[trigger] earlier[i]).0
            != address by {
            assert(announcements[i].0 != address);
        }
        lemma_others_leave_it(known, earlier, address);
        assert(announcements[announcements.len() - 1].0 != address);
    }
}

proof fn lemma_latest_is_known<D>(
    known: Map<u128, D>,
    announcements: Seq<(DestinationHash, D)>,
    address: DestinationHash,
    at: int,
)
    requires
        0 <= at < announcements.len(),
        announcements[at].0 == address,
        forall|later: int|
            at < later < announcements.len() ==> (#[trigger] announcements[later]).0 != address,
    ensures
        crate::laws::known_after(known, announcements).contains_key(address.id),
        crate::laws::known_after(known, announcements)[address.id] == announcements[at].1,
    decreases announcements.len(),
{
    if at < announcements.len() - 1 {
        let earlier = announcements.drop_last();
        assert forall|later: int| at < later < earlier.len() implies (#[trigger] earlier[later]).0
            != address by {
            assert(announcements[later].0 != address);
        }
        lemma_latest_is_known(known, earlier, address, at);
        assert(announcements[announcements.len() - 1].0 != address);
    }
}

/// A client's stream is fresh, and data that come in under the id that it was opened for go
/// into it; other streams keep what comes in under theirs. What is written to it comes out
/// where the opener was told.
pub proof fn law_opened_streams_get_their_data(
    inboxes: &mut Inboxes,
    destination: DestinationHash,
    r: (ClientStream, mpsc::Receiver<Vec<u8>>),
    before: Inboxes,
    after: Inboxes,
    id: LinkId,
    data: Vec<u8>,
    step_before: ReceiveStep,
    step_after: ReceiveStep,
)
    requires
        before@ == old(inboxes)@,
        call_ensures(Inboxes::open, (inboxes, destination), r),
        after@ == final(inboxes)@,
        call_ensures(
            Inboxes::receive,
            (&before, LinkSource::Event { id, event: LinkEvent::Data(data) }),
            step_before,
        ),
        call_ensures(
            Inboxes::receive,
            (&after, LinkSource::Event { id, event: LinkEvent::Data(data) }),
            step_after,
        ),
    ensures
        id.id == destination.id ==> step_after == (ReceiveStep::Deliver {
            inbox: inbox_of(r.0.received_receiver),
            data,
        }),
        id.id != destination.id ==> step_after == step_before,
        r.0.record().len() == 0,
        r.0.to_send_sender.sender() == inbox_of(r.1),
        inbox_limit(r.1) == 1000 && inbox_limit(r.0.received_receiver) == 1000,
        !inbox_closed(r.1) && !inbox_closed(r.0.received_receiver),
{
}

/// Only data are delivered, whole and to a stream that is there; other events and missed ones
/// are passed over, and only the end stops the client. At first nothing is there.
pub proof fn law_only_data_are_delivered(
    inboxes: &Inboxes,
    source: LinkSource,
    step: ReceiveStep,
    fresh: Inboxes,
    id: u128,
)
    requires
        call_ensures(Inboxes::receive, (inboxes, source), step),
        call_ensures(Inboxes::new, (), fresh),
    ensures
        step is Stop <==> source is Ended,
        step matches ReceiveStep::Deliver { inbox, data } ==> (source matches LinkSource::Event {
            id: on,
            event: LinkEvent::Data(came),
        } && came == data && inboxes@.contains_key(on.id) && inboxes@[on.id] == inbox),
        source matches LinkSource::Event { id: on, event: LinkEvent::Data(came) }
            && inboxes@.contains_key(on.id) ==> step is Deliver,
        !fresh@.contains_key(id),
{
}

/// What was written to the stream of a link is sent on that link, whole, as long as the link
/// is there.
pub proof fn law_written_data_are_sent_on_their_link(
    link: LinkId,
    found: bool,
    data: Vec<u8>,
    r: SendStep,
)
    requires
        call_ensures(send_step, (link, found, data), r),
    ensures
        found ==> r == (SendStep::Send { link, data }),
        !found ==> r is Skip,
{
}

} // verus!
