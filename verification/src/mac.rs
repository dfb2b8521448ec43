//! Hardware addresses and their textual form.
use vstd::prelude::*;
use vstd::std_specs::cmp::{PartialEqSpec, PartialEqSpecImpl};
use vstd::std_specs::convert::{FromSpec, FromSpecImpl};
use vstd::string::StringExecFns;

verus! {

/// The hexadecimal digit, in lower case, of a number below sixteen.
pub open spec fn hex_digit(n: int) -> char {
    "0123456789abcdef"@[n]
}

/// The text of a hardware address: two lower-case hexadecimal digits for each byte, with a
/// colon between any two neighbours.
pub open spec fn mac_text(mac: Seq<u8>) -> Seq<char> {
    Seq::new(
        17,
        |i: int|
            if i % 3 == 2 {
                ':'
            } else if i % 3 == 0 {
                hex_digit(mac[i / 3] as int / 16)
            } else {
                hex_digit(mac[i / 3] as int % 16)
            },
    )
}

/// The hardware address of an ESP-NOW device.
#[derive(Clone, Copy)]
pub struct MacAddr {
    pub mac: [u8; 6],
}

impl FromSpecImpl<[u8; 6]> for MacAddr {
    open spec fn obeys_from_spec() -> bool {
        true
    }

    open spec fn from_spec(mac: [u8; 6]) -> Self {
        MacAddr { mac }
    }
}

impl From<[u8; 6]> for MacAddr {
    fn from(mac: [u8; 6]) -> Self {
        MacAddr { mac }
    }
}

impl PartialEqSpecImpl for MacAddr {
    open spec fn obeys_eq_spec() -> bool {
        true
    }

    open spec fn eq_spec(&self, other: &Self) -> bool {
        *self == *other
    }
}

impl PartialEq for MacAddr {
    fn eq(&self, other: &Self) -> (equal: bool) {
        same_address(&self.mac, &other.mac)
    }
}

/// Whether two addresses are the same, byte for byte.
pub fn same_address(left: &[u8; 6], right: &[u8; 6]) -> (same: bool)
    ensures
        same == (*left == *right),
{
    let mut i: usize = 0;
    while i < 6
        invariant
            0 <= i <= 6,
            forall|j: int| 0 <= j < i ==> left[j] == right[j],
        decreases 6 - i,
    {
        if left[i] != right[i] {
            return false;
        }
        i = i + 1;
    }
    assert(*left =~= *right);
    true
}

/// The lower-case hexadecimal digit of a number below sixteen, as text.
fn hex_digit_text(n: u8) -> (digit: &'static str)
    requires
        n < 16,
    ensures
        digit@ == seq![hex_digit(n as int)],
{
    proof {
        reveal_strlit("0123456789abcdef");
        reveal_strlit("0");
        reveal_strlit("1");
        reveal_strlit("2");
        reveal_strlit("3");
        reveal_strlit("4");
        reveal_strlit("5");
        reveal_strlit("6");
        reveal_strlit("7");
        reveal_strlit("8");
        reveal_strlit("9");
        reveal_strlit("a");
        reveal_strlit("b");
        reveal_strlit("c");
        reveal_strlit("d");
        reveal_strlit("e");
        reveal_strlit("f");
    }
    match n {
        0 => "0",
        1 => "1",
        2 => "2",
        3 => "3",
        4 => "4",
        5 => "5",
        6 => "6",
        7 => "7",
        8 => "8",
        9 => "9",
        10 => "a",
        11 => "b",
        12 => "c",
        13 => "d",
        14 => "e",
        _ => "f",
    }
}

/// Renders a hardware address as six two-digit hexadecimal numbers, separated by colons.
pub fn format_mac(mac: &[u8; 6]) -> (text: String)
    ensures
        text@ == mac_text(mac@),
{
    let mut text: String = String::new();
    let mut i: usize = 0;
    proof {
        reveal_strlit(":");
    }
    while i < 6
        invariant
            0 <= i <= 6,
            ":"@ == seq![':'],
            text@ == mac_text(mac@).take(if i < 6 { 3 * i as int } else { 17 }),
        decreases 6 - i,
    {
        let byte: u8 = mac[i];
        text.append(hex_digit_text(byte / 16));
        text.append(hex_digit_text(byte % 16));
        if i < 5 {
            text.append(":");
        }
        i = i + 1;
        assert(text@ =~= mac_text(mac@).take(if i < 6 { 3 * i as int } else { 17 }));
    }
    assert(mac_text(mac@).take(17) =~= mac_text(mac@));
    text
}

impl MacAddr {
    /// The text of the address.
    pub fn to_string(&self) -> (text: String)
        ensures
            text@ == mac_text(self.mac@),
    {
        format_mac(&self.mac)
    }
}

/// Different numbers below sixteen have different digits.
proof fn lemma_hex_digit_injective(m: int, n: int)
    requires
        0 <= m < 16,
        0 <= n < 16,
    ensures
        hex_digit(m) == hex_digit(n) ==> m == n,
{
    reveal_strlit("0123456789abcdef");
}

/// Law: an address can be read off its text, so different devices have different texts.
pub proof fn law_mac_text_injective(left: MacAddr, right: MacAddr)
    ensures
        mac_text(left.mac@) == mac_text(right.mac@) <==> left == right,
{
    if mac_text(left.mac@) == mac_text(right.mac@) {
        assert forall|i: int| 0 <= i < 6 implies left.mac[i] == right.mac[i] by {
            let l = left.mac[i] as int;
            let r = right.mac[i] as int;
            assert(mac_text(left.mac@)[3 * i] == mac_text(right.mac@)[3 * i]);
            assert(mac_text(left.mac@)[3 * i + 1] == mac_text(right.mac@)[3 * i + 1]);
            assert((3 * i) / 3 == i && (3 * i) % 3 == 0);
            assert((3 * i + 1) / 3 == i && (3 * i + 1) % 3 == 1);
            lemma_hex_digit_injective(l / 16, r / 16);
            lemma_hex_digit_injective(l % 16, r % 16);
        }
        assert(left.mac =~= right.mac);
    }
}

/// The number that a lower-case hexadecimal digit stands for.
pub open spec fn hex_value(digit: char) -> int {
    if '0' <= digit && digit <= '9' {
        digit as int - '0' as int
    } else {
        digit as int - 'a' as int + 10
    }
}

/// Law: the text of an address has two characters for each byte, both of them decimal digits or
/// letters from `a` to `f`, which read as a hexadecimal number give the byte; between the bytes
/// there are colons.
pub proof fn law_mac_text_reads_back(mac: MacAddr, i: int)
    requires
        0 <= i < 6,
    ensures
        mac_text(mac.mac@).len() == 17,
        ({
            let high = mac_text(mac.mac@)[3 * i];
            let low = mac_text(mac.mac@)[3 * i + 1];
            &&& ('0' <= high && high <= '9') || ('a' <= high && high <= 'f')
            &&& ('0' <= low && low <= '9') || ('a' <= low && low <= 'f')
            &&& 16 * hex_value(high) + hex_value(low) == mac.mac[i]
        }),
        i < 5 ==> mac_text(mac.mac@)[3 * i + 2] == ':',
{
    let byte = mac.mac[i] as int;
    assert((3 * i) / 3 == i && (3 * i) % 3 == 0);
    assert((3 * i + 1) / 3 == i && (3 * i + 1) % 3 == 1);
    assert((3 * i + 2) % 3 == 2);
    assert(mac.mac@[i] == mac.mac[i]);
    lemma_hex_digit_value(byte / 16);
    lemma_hex_digit_value(byte % 16);
}

/// A hexadecimal digit is a decimal digit or a letter from `a` to `f`, and stands for its number.
proof fn lemma_hex_digit_value(n: int)
    requires
        0 <= n < 16,
    ensures
        ('0' <= hex_digit(n) && hex_digit(n) <= '9') || ('a' <= hex_digit(n) && hex_digit(n)
            <= 'f'),
        hex_value(hex_digit(n)) == n,
{
    reveal_strlit("0123456789abcdef");
}

/// Law: an address made from bytes has those bytes, and two addresses are equal if and only if
/// each of their bytes is.
pub proof fn law_address_is_its_bytes(left: [u8; 6], right: [u8; 6])
    ensures
        <MacAddr as FromSpec<[u8; 6]>>::from_spec(left).mac@ == left@,
        PartialEqSpec::eq_spec(&MacAddr { mac: left }, &MacAddr { mac: right }) <==> {
            &&& left[0] == right[0]
            &&& left[1] == right[1]
            &&& left[2] == right[2]
            &&& left[3] == right[3]
            &&& left[4] == right[4]
            &&& left[5] == right[5]
        },
{
    if left[0] == right[0] && left[1] == right[1] && left[2] == right[2] && left[3] == right[3]
        && left[4] == right[4] && left[5] == right[5] {
        assert(left =~= right);
    }
}

} // verus!
