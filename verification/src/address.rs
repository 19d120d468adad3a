//! IPv4 addresses and their dotted notation.

use crate::text::{
    chars_of, decimal, decimal_value, free_of, is_canonical_decimal, is_digit, joined,
    lemma_canonical_decimal, lemma_decimal_round_trip, lemma_join_of_split, lemma_split_append,
    lemma_split_single, parse_small_decimal, pieces, push_decimal, split, split_on,
};
use vstd::prelude::*;
use vstd::string::*;

verus! {

/// An IPv4 address, by its four octets.
#[derive(Clone, Copy, Debug, PartialEq, Eq, Structural)]
pub struct Ipv4 {
    pub a: u8,
    pub b: u8,
    pub c: u8,
    pub d: u8,
}

/// Whether `part` is the decimal representation of an octet.
pub open spec fn is_octet(part: Seq<char>) -> bool {
    is_canonical_decimal(part) && part.len() <= 3 && decimal_value(part) <= 255
}

/// The address that `text` denotes in dotted notation: four octets in
/// decimal, without leading zeros, separated by dots.
pub open spec fn dotted_address(text: Seq<char>) -> Option<Ipv4> {
    let parts = split(text, '.');
    if parts.len() == 4 && is_octet(parts[0]) && is_octet(parts[1]) && is_octet(parts[2])
        && is_octet(parts[3]) {
        Some(
            Ipv4 {
                a: decimal_value(parts[0]) as u8,
                b: decimal_value(parts[1]) as u8,
                c: decimal_value(parts[2]) as u8,
                d: decimal_value(parts[3]) as u8,
            },
        )
    } else {
        None
    }
}

impl Ipv4 {
    /// The address in dotted notation.
    pub open spec fn dotted(self) -> Seq<char> {
        decimal(self.a as nat) + "."@ + decimal(self.b as nat) + "."@ + decimal(self.c as nat)
            + "."@ + decimal(self.d as nat)
    }

    /// Writes the address in dotted notation.
    pub fn to_text(&self) -> (text: String)
        ensures
            text@ == self.dotted(),
    {
        let mut text = String::new();
        push_decimal(&mut text, self.a as u64);
        text.append(".");
        push_decimal(&mut text, self.b as u64);
        text.append(".");
        push_decimal(&mut text, self.c as u64);
        text.append(".");
        push_decimal(&mut text, self.d as u64);
        assert(Seq::<char>::empty() + decimal(self.a as nat) =~= decimal(self.a as nat));
        text
    }

    /// Reads an address in dotted notation.
    pub fn parse(text: &str) -> (address: Option<Ipv4>)
        ensures
            address == dotted_address(text@),
    {
        let chars = chars_of(text);
        let parts = split_on(&chars, '.');
        if parts.len() != 4 {
            return None;
        }
        proof {
            let all = pieces(parts@);
            assert(all[0] == parts@[0]@ && all[1] == parts@[1]@ && all[2] == parts@[2]@ && all[3]
                == parts@[3]@);
        }
        let a = parse_octet(&parts[0]);
        let b = parse_octet(&parts[1]);
        let c = parse_octet(&parts[2]);
        let d = parse_octet(&parts[3]);
        match (a, b, c, d) {
            (Some(a), Some(b), Some(c), Some(d)) => Some(Ipv4 { a, b, c, d }),
            _ => None,
        }
    }
}

/// Reads one octet in decimal.
fn parse_octet(part: &Vec<char>) -> (octet: Option<u8>)
    ensures
        octet is Some <==> is_octet(part@),
        octet is Some ==> octet->0 == decimal_value(part@),
{
    match parse_small_decimal(part) {
        Some(value) => if value <= 255 {
            Some(value as u8)
        } else {
            None
        },
        None => None,
    }
}

/// The decimal representation of an octet is read as that octet.
proof fn lemma_octet_text(n: u8)
    ensures
        is_octet(decimal(n as nat)),
        decimal_value(decimal(n as nat)) == n,
        free_of(decimal(n as nat), '.'),
{
    let text = decimal(n as nat);
    lemma_decimal_round_trip(n as nat);
    reveal_with_fuel(decimal, 4);
    assert(text.len() <= 3);
    assert forall|i: int| 0 <= i < text.len() implies #[trigger] text[i] != '.' by {
        assert(is_digit(text[i]));
    }
}

/// Writing an address and reading it back gives the same address.
pub proof fn lemma_dotted_round_trip(address: Ipv4)
    ensures
        dotted_address(address.dotted()) == Some(address),
{
    let a = decimal(address.a as nat);
    let b = decimal(address.b as nat);
    let c = decimal(address.c as nat);
    let d = decimal(address.d as nat);
    reveal_strlit(".");
    assert("."@ =~= seq!['.']);
    lemma_octet_text(address.a);
    lemma_octet_text(address.b);
    lemma_octet_text(address.c);
    lemma_octet_text(address.d);
    lemma_split_single(a, '.');
    lemma_split_append(a, b, '.');
    lemma_split_append(a + seq!['.'] + b, c, '.');
    lemma_split_append(a + seq!['.'] + b + seq!['.'] + c, d, '.');
    assert(split(address.dotted(), '.') =~= seq![a, b, c, d]);
}

/// Text that is read as an address is the dotted notation of that address:
/// every address has exactly one text.
pub proof fn lemma_parsed_text_is_dotted(text: Seq<char>)
    requires
        dotted_address(text) is Some,
    ensures
        dotted_address(text)->0.dotted() == text,
{
    let parts = split(text, '.');
    let dot = seq!['.'];
    reveal_strlit(".");
    assert("."@ =~= dot);
    lemma_join_of_split(text, '.');
    lemma_canonical_decimal(parts[0]);
    lemma_canonical_decimal(parts[1]);
    lemma_canonical_decimal(parts[2]);
    lemma_canonical_decimal(parts[3]);
    let three = parts.drop_last();
    let two = three.drop_last();
    let one = two.drop_last();
    assert(joined(parts, dot) == joined(three, dot) + dot + parts[3]);
    assert(joined(three, dot) == joined(two, dot) + dot + parts[2]);
    assert(joined(two, dot) == joined(one, dot) + dot + parts[1]);
    assert(joined(one, dot) == parts[0]);
}

} // verus!
