//! What holds of names, of routes and of the client.

use crate::client::{found, receive_step, LinkEvent, LinkSource, ReceiveStep};
use crate::ids::{address_bytes, address_digits, be_value, byte_range, hex_value, pair_value};
use crate::ids::{law_value_of_bytes, lemma_be_bytes_len, DestinationHash, LinkId};
use crate::reverse::discovery_line;
use crate::socks::{added_by, is_blank, readable, routes_to, trimmed, turn_of};
use crate::socks::{Command, ReplyError, Route, Target};
use crate::text::{hex_digit, hex_text};
use tokio::sync::mpsc;
use vstd::prelude::*;
use vstd::utf8::{encode_utf8, is_ascii_chars, is_ascii_chars_encode_utf8};

verus! {

// Names of destinations.

proof fn lemma_hex_digit_value(value: int)
    requires
        0 <= value < 16,
    ensures
        hex_value(hex_digit(value)) == Some(value),
        '0' <= hex_digit(value) <= 'f',
{
}

/// The text of a hash spells the hash: reading it gives the sixteen bytes back.
pub proof fn law_hash_text_spells_hash(hash: DestinationHash)
    ensures
        hash.text().len() == 32,
        encode_utf8(hash.text()).len() == 32,
        address_digits(hash.text()),
        address_bytes(hash.text()) == hash.bytes(),
        be_value(address_bytes(hash.text())) == hash.id,
{
    let bytes = hash.bytes();
    let text = hash.text();
    lemma_be_bytes_len(hash.id as nat, 16);
    assert forall|i: int| 0 <= i < 16 implies (#[trigger] pair_value(text[2 * i], text[2 * i + 1]))
        == Some(bytes[i] as int) by {
        lemma_hex_digit_value(bytes[i] as int / 16);
        lemma_hex_digit_value(bytes[i] as int % 16);
        assert(text[2 * i] == hex_digit(bytes[i] as int / 16));
        assert(text[2 * i + 1] == hex_digit(bytes[i] as int % 16));
    }
    assert(address_bytes(text) =~= bytes);
    assert forall|i: int| 0 <= i < text.len() implies '\0' <= #[trigger] text[i] <= '\u{7f}' by {
        lemma_hex_digit_value(bytes[i / 2] as int / 16);
        lemma_hex_digit_value(bytes[i / 2] as int % 16);
    }
    assert(is_ascii_chars(text));
    is_ascii_chars_encode_utf8(text);
    assert(byte_range(16) == u128::MAX + 1) by {
        reveal_with_fuel(byte_range, 17);
    }
    law_value_of_bytes(hash.id as nat, 16);
}

/// Two hashes with the same sixteen bytes are the same hash.
pub proof fn law_bytes_tell_hashes_apart(a: DestinationHash, b: DestinationHash)
    requires
        a.bytes() == b.bytes(),
    ensures
        a == b,
{
    law_hash_text_spells_hash(a);
    law_hash_text_spells_hash(b);
}

/// Two hashes with the same text are the same hash.
pub proof fn law_text_tells_hashes_apart(a: DestinationHash, b: DestinationHash)
    requires
        a.text() == b.text(),
    ensures
        a == b,
{
    law_hash_text_spells_hash(a);
    law_hash_text_spells_hash(b);
}

/// A client that asks for the text of a hash, followed by `.rns`, is connected to the
/// destination with that hash, whatever proxies there are and whatever the port.
pub proof fn law_rns_name_reaches_destination(
    hash: DestinationHash,
    target: Target,
    backends: Seq<String>,
    connections: usize,
    route: Route,
)
    requires
        target matches Target::Domain { name, port } && name@ == hash.text() + ".rns"@,
    ensures
        target.rns() == Some(hash.text()),
        readable(hash.text()),
        routes_to(backends, connections, Command::TcpConnect, target, route) <==> route
            == Route::Reticulum(hash),
{
    let name = target->name@;
    reveal_strlit(".rns");
    law_hash_text_spells_hash(hash);
    assert(".rns"@ =~= seq!['.', 'r', 'n', 's']);
    assert(name.subrange(name.len() - 4, name.len() as int) =~= ".rns"@);
    assert(name.subrange(0, name.len() - 4) =~= hash.text());
}

/// Where the reverse proxy writes down the hash of a mapping, what follows the first colon
/// is the text of the hash, as long as the name of the mapping has no colon.
pub proof fn law_discovery_line_gives_hash(name: Seq<char>, hash: DestinationHash)
    requires
        !name.contains(':'),
    ensures
        discovery_line(name, hash).index_of_first(':') == Some(name.len() as int),
        discovery_line(name, hash).skip(name.len() as int + 1) == hash.text(),
        !hash.text().contains(':'),
{
    let line = discovery_line(name, hash);
    reveal_strlit(":");
    law_hash_text_spells_hash(hash);
    lemma_be_bytes_len(hash.id as nat, 16);
    assert forall|i: int| 0 <= i < hash.text().len() implies #[trigger] hash.text()[i] != ':' by {
        let byte = hash.bytes()[i / 2] as int;
        lemma_hex_digit_value(byte / 16);
        lemma_hex_digit_value(byte % 16);
    }
    assert(line.skip(name.len() as int + 1) =~= hash.text());
    assert(line[name.len() as int] == ':');
    assert forall|i: int| 0 <= i < name.len() implies #[trigger] line[i] != ':' by {
        assert(name[i] == line[i]);
        assert(name.contains(name[i]));
    }
    line.index_of_first_ensures(':');
}

// Routing.

/// Only connections are served: other commands are refused, whatever their target.
pub proof fn law_only_connections_are_served(
    backends: Seq<String>,
    connections: usize,
    command: Command,
    target: Target,
    route: Route,
)
    requires
        command != Command::TcpConnect,
    ensures
        routes_to(backends, connections, command, target, route) <==> route == Route::Reject(
            ReplyError::CommandNotSupported,
        ),
{
}

/// A line on the console that spells `ADD` and an address adds the address, whatever white
/// space ends the line.
pub proof fn law_console_adds_address(address: Seq<char>, end: Seq<char>)
    requires
        address.len() > 0,
        !is_blank(address[0]),
        !is_blank(address.last()),
        forall|i: int| 0 <= i < end.len() ==> is_blank(#[trigger] end[i]),
    ensures
        added_by("ADD "@ + address + end) == Some(address),
{
    let line = "ADD "@ + address + end;
    reveal_strlit("ADD ");
    assert("ADD "@ =~= seq!['A', 'D', 'D', ' ']);
    assert(line.subrange(0, 4) =~= "ADD "@);
    assert(line.subrange(4, line.len() as int) =~= address + end);
    lemma_trimmed_end(address, end);
}

proof fn lemma_trimmed_end(text: Seq<char>, end: Seq<char>)
    requires
        text.len() > 0,
        !is_blank(text[0]),
        !is_blank(text.last()),
        forall|i: int| 0 <= i < end.len() ==> is_blank(#[trigger] end[i]),
    ensures
        trimmed(text + end) == text,
    decreases end.len(),
{
    if end.len() == 0 {
        assert(text + end =~= text);
    } else {
        assert((text + end).drop_last() =~= text + end.drop_last());
        assert((text + end).last() == end.last());
        lemma_trimmed_end(text, end.drop_last());
    }
}

/// Without proxies behind the router, a connection is refused as unreachable, unless it goes
/// to a Reticulum destination or to the console.
pub proof fn law_unreachable_without_backends(connections: usize, target: Target, route: Route)
    requires
        target.rns() is None,
        !target.is_console(),
    ensures
        routes_to(Seq::empty(), connections, Command::TcpConnect, target, route) <==> route
            == Route::Unreachable,
{
}

/// As many connections in a row as there are proxies go through a different proxy each.
pub proof fn law_turns_do_not_repeat(backends: Seq<String>, n: usize, i: int, j: int)
    requires
        0 <= i < j < backends.len(),
        n + j <= usize::MAX,
        forall|a: int, b: int|
            0 <= a < b < backends.len() ==> (#[trigger] backends[a])@ != (#[trigger] backends[b])@,
    ensures
        turn_of(backends, (n + i) as usize)@ != turn_of(backends, (n + j) as usize)@,
{
    let len = backends.len() as int;
    let a = (n + i) % len;
    let b = (n + j) % len;
    assert(a != b) by (nonlinear_arith)
        requires
            a == (n + i) % len,
            b == (n + j) % len,
            0 <= i < j < len,
    {
        let qa = (n + i) / len;
        let qb = (n + j) / len;
        assert(n + i == len * qa + (n + i) % len);
        assert(n + j == len * qb + (n + j) % len);
        if (n + i) % len == (n + j) % len {
            assert(j - i == len * (qb - qa));
            assert(qb - qa <= 0 || qb - qa >= 1);
        }
    }
    assert(0 <= a < len && 0 <= b < len);
    if a < b {
        assert(backends[a]@ != backends[b]@);
    } else {
        assert(backends[b]@ != backends[a]@);
    }
}

/// The turns of the proxies come round in the same order.
pub proof fn law_turns_come_round(backends: Seq<String>, n: usize)
    requires
        backends.len() > 0,
        n + backends.len() <= usize::MAX,
    ensures
        turn_of(backends, (n + backends.len()) as usize) == turn_of(backends, n),
{
    vstd::arithmetic::div_mod::lemma_mod_add_multiples_vanish(n as int, backends.len() as int);
}

/// As many connections in a row as there are proxies leave none of them out.
pub proof fn law_every_backend_gets_a_turn(backends: Seq<String>, n: usize, k: int)
    requires
        0 <= k < backends.len(),
        n + backends.len() <= usize::MAX,
    ensures
        exists|i: int|
            0 <= i < backends.len() && #[trigger] turn_of(backends, (n + i) as usize)
                == backends[k],
{
    let len = backends.len() as int;
    let i = (k - n) % len;
    vstd::arithmetic::div_mod::lemma_add_mod_noop_right(n as int, k - n, len);
    vstd::arithmetic::div_mod::lemma_small_mod(k as nat, len as nat);
    assert((n + i) % len == k);
    assert(turn_of(backends, (n + i) as usize) == backends[k]);
}

// The client.

/// What is known of destinations after some announcements.
pub open spec fn known_after<D>(
    known: Map<u128, D>,
    announcements: Seq<(DestinationHash, D)>,
) -> Map<u128, D>
    decreases announcements.len(),
{
    if announcements.len() == 0 {
        known
    } else {
        known_after(known, announcements.drop_last()).insert(
            announcements.last().0.id,
            announcements.last().1,
        )
    }
}

/// What the latest of some announcements says of a destination.
pub open spec fn latest<D>(
    announcements: Seq<(DestinationHash, D)>,
    address: DestinationHash,
) -> Option<D>
    decreases announcements.len(),
{
    if announcements.len() == 0 {
        None
    } else if announcements.last().0 == address {
        Some(announcements.last().1)
    } else {
        latest(announcements.drop_last(), address)
    }
}

/// What is known of a destination is its latest announcement. Announcements of others leave
/// it as it was, and a destination that is known once stays known, so that connecting to it
/// does not fail for want of an announcement.
pub proof fn law_latest_announcement_is_known<D>(
    known: Map<u128, D>,
    announcements: Seq<(DestinationHash, D)>,
    address: DestinationHash,
)
    ensures
        match latest(announcements, address) {
            Some(description) => known_after(known, announcements).get(address.id) == Some(
                description,
            ),
            None => known_after(known, announcements).get(address.id) == known.get(address.id),
        },
        known.contains_key(address.id) || latest(announcements, address) is Some <==> found(
            known_after(known, announcements),
            address,
        ) is Ok,
    decreases announcements.len(),
{
    if announcements.len() > 0 {
        law_latest_announcement_is_known(known, announcements.drop_last(), address);
    }
}

/// Data that come in under the id that a stream was opened for go into that stream, whatever
/// other streams there are.
pub proof fn law_client_data_go_to_their_stream(
    inboxes: Map<u128, mpsc::Sender<Vec<u8>>>,
    inbox: mpsc::Sender<Vec<u8>>,
    id: LinkId,
    data: Vec<u8>,
)
    ensures
        receive_step(
            inboxes.insert(id.id, inbox),
            LinkSource::Event { id, event: LinkEvent::Data(data) },
        ) == (ReceiveStep::Deliver { inbox, data }),
{
}

/// A client stops receiving when no more events can come, and for nothing else.
pub proof fn law_client_receives_to_the_end(
    inboxes: Map<u128, mpsc::Sender<Vec<u8>>>,
    source: LinkSource,
)
    ensures
        receive_step(inboxes, source) is Stop <==> source is Ended,
{
}

} // verus!
