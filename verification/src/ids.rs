//! Destination hashes and link ids: sixteen bytes, kept as one big-endian number.

use crate::text::{hex_encode, hex_text};
use vstd::prelude::*;
use vstd::string::*;
use vstd::utf8::encode_utf8;

verus! {

/// The number of values that `n` bytes can take.
pub open spec fn byte_range(n: nat) -> nat
    decreases n,
{
    if n == 0 {
        1
    } else {
        256 * byte_range((n - 1) as nat)
    }
}

/// The number that bytes spell, the most significant first.
pub open spec fn be_value(bytes: Seq<u8>) -> nat
    decreases bytes.len(),
{
    if bytes.len() == 0 {
        0
    } else {
        256 * be_value(bytes.drop_last()) + bytes.last() as nat
    }
}

/// The lowest `n` bytes of a number, the most significant first.
pub open spec fn be_bytes(value: nat, n: nat) -> Seq<u8>
    decreases n,
{
    if n == 0 {
        Seq::empty()
    } else {
        be_bytes(value / 256, (n - 1) as nat).push((value % 256) as u8)
    }
}

pub proof fn lemma_be_value_bound(bytes: Seq<u8>)
    ensures
        be_value(bytes) < byte_range(bytes.len()),
    decreases bytes.len(),
{
    if bytes.len() != 0 {
        lemma_be_value_bound(bytes.drop_last());
    }
}

pub proof fn lemma_be_bytes_len(value: nat, n: nat)
    ensures
        be_bytes(value, n).len() == n,
    decreases n,
{
    if n != 0 {
        lemma_be_bytes_len(value / 256, (n - 1) as nat);
    }
}

/// Spelling a number as bytes and reading it back gives the number.
pub proof fn law_value_of_bytes(value: nat, n: nat)
    requires
        value < byte_range(n),
    ensures
        be_value(be_bytes(value, n)) == value,
    decreases n,
{
    if n != 0 {
        law_value_of_bytes(value / 256, (n - 1) as nat);
        let head = be_bytes(value / 256, (n - 1) as nat);
        assert(be_bytes(value, n).drop_last() =~= head);
    }
}

/// Reading bytes as a number and spelling it again gives the bytes.
pub proof fn law_bytes_of_value(bytes: Seq<u8>)
    ensures
        be_bytes(be_value(bytes), bytes.len()) == bytes,
    decreases bytes.len(),
{
    if bytes.len() != 0 {
        let head = bytes.drop_last();
        law_bytes_of_value(head);
        assert(be_value(bytes) / 256 == be_value(head));
        assert(be_value(bytes) % 256 == bytes.last() as nat);
        assert(bytes =~= head.push(bytes.last()));
    } else {
        assert(bytes =~= Seq::empty());
    }
}

proof fn lemma_byte_range_monotone(i: nat, j: nat)
    requires
        i <= j,
    ensures
        byte_range(i) <= byte_range(j),
    decreases j,
{
    if i < j {
        lemma_byte_range_monotone(i, (j - 1) as nat);
    }
}

proof fn lemma_sixteen_bytes()
    ensures
        byte_range(16) == u128::MAX + 1,
{
    reveal_with_fuel(byte_range, 17);
}

/// Sixteen bytes as a number.
fn number_of(bytes: &[u8; 16]) -> (r: u128)
    ensures
        r as nat == be_value(bytes@),
{
    let mut acc: u128 = 0;
    let mut i: usize = 0;
    while i < 16
        invariant
            i <= 16,
            acc as nat == be_value(bytes@.take(i as int)),
        decreases 16 - i,
    {
        proof {
            let next = bytes@.take(i + 1);
            assert(next.drop_last() =~= bytes@.take(i as int));
            lemma_be_value_bound(next);
            lemma_byte_range_monotone((i + 1) as nat, 16);
            lemma_sixteen_bytes();
        }
        acc = 256 * acc + bytes[i] as u128;
        i = i + 1;
    }
    assert(bytes@.take(16) =~= bytes@);
    acc
}

/// A number as sixteen bytes.
fn bytes_of(value: u128) -> (r: [u8; 16])
    ensures
        r@ == be_bytes(value as nat, 16),
{
    let mut out: [u8; 16] = [0; 16];
    let mut rest: u128 = value;
    let mut i: usize = 16;
    proof {
        assert(out@.subrange(16, 16) =~= Seq::empty());
        assert(be_bytes(value as nat, 16) =~= be_bytes(rest as nat, 16) + out@.subrange(16, 16));
    }
    while i > 0
        invariant
            i <= 16,
            out@.len() == 16,
            be_bytes(value as nat, 16) == be_bytes(rest as nat, i as nat) + out@.subrange(
                i as int,
                16,
            ),
        decreases i,
    {
        let ghost before = out@;
        i = i - 1;
        out[i] = (rest % 256) as u8;
        proof {
            assert(out@.subrange(i as int, 16) =~= seq![(rest % 256) as u8] + before.subrange(
                i + 1,
                16,
            ));
            assert(be_bytes(rest as nat, (i + 1) as nat) + before.subrange(i + 1, 16)
                =~= be_bytes((rest / 256) as nat, i as nat) + out@.subrange(i as int, 16));
        }
        rest = rest / 256;
    }
    assert(be_bytes(rest as nat, 0) + out@.subrange(0, 16) =~= out@);
    out
}

/// The value of a hexadecimal digit of either case.
pub open spec fn hex_value(c: char) -> Option<int> {
    if '0' <= c <= '9' {
        Some(c as int - '0' as int)
    } else if 'a' <= c <= 'f' {
        Some(c as int - 'a' as int + 10)
    } else if 'A' <= c <= 'F' {
        Some(c as int - 'A' as int + 10)
    } else {
        None
    }
}

/// The byte that two characters spell: two digits, or a plus sign and a digit.
pub open spec fn pair_value(high: char, low: char) -> Option<int> {
    match (hex_value(high), hex_value(low)) {
        (Some(h), Some(l)) => Some(16 * h + l),
        (None, Some(l)) if high == '+' => Some(l),
        _ => None,
    }
}

/// Whether the first 32 characters of a text spell sixteen bytes.
pub open spec fn address_digits(text: Seq<char>) -> bool {
    &&& text.len() >= 32
    &&& forall|i: int|
        0 <= i < 16 ==> (#[trigger] pair_value(text[2 * i], text[2 * i + 1])) is Some
}

/// The sixteen bytes that the first 32 characters of a text spell.
pub open spec fn address_bytes(text: Seq<char>) -> Seq<u8> {
    Seq::new(16, |i: int| pair_value(text[2 * i], text[2 * i + 1])->0 as u8)
}

fn hex_value_of(c: char) -> (r: Option<u8>)
    ensures
        r matches Some(v) ==> v < 16 && hex_value(c) == Some(v as int),
        r is None ==> hex_value(c) is None,
{
    if '0' <= c && c <= '9' {
        Some((c as u32 - '0' as u32) as u8)
    } else if 'a' <= c && c <= 'f' {
        Some((c as u32 - 'a' as u32 + 10) as u8)
    } else if 'A' <= c && c <= 'F' {
        Some((c as u32 - 'A' as u32 + 10) as u8)
    } else {
        None
    }
}

fn pair_value_of(high: char, low: char) -> (r: Option<u8>)
    ensures
        r matches Some(v) ==> pair_value(high, low) == Some(v as int),
        r is None ==> pair_value(high, low) is None,
{
    match (hex_value_of(high), hex_value_of(low)) {
        (Some(h), Some(l)) => Some(16 * h + l),
        (None, Some(l)) => if high == '+' {
            Some(l)
        } else {
            None
        },
        _ => None,
    }
}

/// Whether the first 32 characters of a text spell sixteen bytes.
pub fn has_address_digits(text: &str) -> (r: bool)
    ensures
        r == address_digits(text@),
{
    if text.unicode_len() < 32 {
        return false;
    }
    let mut i: usize = 0;
    while i < 16
        invariant
            i <= 16,
            text@.len() >= 32,
            forall|j: int|
                0 <= j < i ==> (#[trigger] pair_value(text@[2 * j], text@[2 * j + 1])) is Some,
        decreases 16 - i,
    {
        if pair_value_of(text.get_char(2 * i), text.get_char(2 * i + 1)).is_none() {
            assert(pair_value(text@[2 * i as int], text@[2 * i as int + 1]) is None);
            return false;
        }
        i = i + 1;
    }
    true
}

/// The hash by which a destination is addressed.
#[derive(Clone, Copy, Debug, PartialEq, Eq, Structural)]
pub struct DestinationHash {
    pub id: u128,
}

impl DestinationHash {
    /// The sixteen bytes of the hash.
    pub open spec fn bytes(self) -> Seq<u8> {
        be_bytes(self.id as nat, 16)
    }

    /// The hash as text: 32 lower-case hexadecimal digits.
    pub open spec fn text(self) -> Seq<char> {
        hex_text(self.bytes())
    }

    pub fn from_bytes(bytes: &[u8; 16]) -> (r: Self)
        ensures
            r.bytes() == bytes@,
            r.id as nat == be_value(bytes@),
    {
        proof {
            law_bytes_of_value(bytes@);
        }
        DestinationHash { id: number_of(bytes) }
    }

    pub fn to_bytes(&self) -> (r: [u8; 16])
        ensures
            r@ == self.bytes(),
    {
        bytes_of(self.id)
    }

    /// The hash as 32 lower-case hexadecimal digits.
    pub fn to_hex_string(&self) -> (r: String)
        ensures
            r@ == self.text(),
    {
        hex_encode(self.to_bytes().as_slice())
    }

    /// The hash that a text begins with, in hexadecimal digits of either case. What follows
    /// the first 32 characters is not looked at. A text of under 32 bytes names no hash.
    pub fn new_from_hex_string(text: &str) -> (r: Option<Self>)
        requires
            encode_utf8(text@).len() < 32 || address_digits(text@),
        ensures
            r is None <==> encode_utf8(text@).len() < 32,
            r matches Some(hash) ==> {
                &&& hash.bytes() == address_bytes(text@)
                &&& hash.id as nat == be_value(address_bytes(text@))
            },
    {
        if text.as_bytes().len() < 32 {
            return None;
        }
        let mut bytes: [u8; 16] = [0; 16];
        let mut i: usize = 0;
        while i < 16
            invariant
                i <= 16,
                address_digits(text@),
                bytes@.len() == 16,
                forall|j: int| 0 <= j < i ==> #[trigger] bytes@[j] == address_bytes(text@)[j],
            decreases 16 - i,
        {
            assert(pair_value(text@[2 * i as int], text@[2 * i as int + 1]) is Some);
            match pair_value_of(text.get_char(2 * i), text.get_char(2 * i + 1)) {
                Some(value) => {
                    bytes[i] = value;
                },
                None => {},
            }
            i = i + 1;
        }
        assert(bytes@ =~= address_bytes(text@));
        Some(DestinationHash::from_bytes(&bytes))
    }
}

/// The id under which the node keeps a link.
#[derive(Clone, Copy, Debug, PartialEq, Eq, Structural)]
pub struct LinkId {
    pub id: u128,
}

impl LinkId {
    /// The sixteen bytes of the id.
    pub open spec fn bytes(self) -> Seq<u8> {
        be_bytes(self.id as nat, 16)
    }

    /// The id as text: 32 lower-case hexadecimal digits.
    pub open spec fn text(self) -> Seq<char> {
        hex_text(self.bytes())
    }

    pub fn from_bytes(bytes: &[u8; 16]) -> (r: Self)
        ensures
            r.bytes() == bytes@,
            r.id as nat == be_value(bytes@),
    {
        proof {
            law_bytes_of_value(bytes@);
        }
        LinkId { id: number_of(bytes) }
    }

    pub fn to_bytes(&self) -> (r: [u8; 16])
        ensures
            r@ == self.bytes(),
    {
        bytes_of(self.id)
    }

    /// The id as 32 lower-case hexadecimal digits.
    pub fn to_hex_string(&self) -> (r: String)
        ensures
            r@ == self.text(),
    {
        hex_encode(self.to_bytes().as_slice())
    }
}

} // verus!
