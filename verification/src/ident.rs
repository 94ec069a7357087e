//! Device identity: the device id is the uppercase hexadecimal encoding of
//! the last three octets of the station MAC address, and the subscription
//! topic for inbound text is built from it.

use vstd::prelude::*;
use vstd::string::StringExecFns;

verus! {

/// The uppercase hexadecimal digit for a value below sixteen.
pub open spec fn hex_digit_spec(n: int) -> char
    recommends
        0 <= n < 16,
{
    if n == 0 { '0' } else if n == 1 { '1' } else if n == 2 { '2' } else if n == 3 { '3' }
    else if n == 4 { '4' } else if n == 5 { '5' } else if n == 6 { '6' } else if n == 7 { '7' }
    else if n == 8 { '8' } else if n == 9 { '9' } else if n == 10 { 'A' } else if n == 11 { 'B' }
    else if n == 12 { 'C' } else if n == 13 { 'D' } else if n == 14 { 'E' } else { 'F' }
}

/// Two uppercase hexadecimal digits of one octet, high digit first.
pub open spec fn hex_byte_spec(b: u8) -> Seq<char> {
    seq![hex_digit_spec(b as int / 16), hex_digit_spec(b as int % 16)]
}

/// The device id derived from the last three MAC octets: their uppercase
/// hexadecimal encoding, six characters in all. A spec function of the
/// octets alone, so the id is deterministic in them.
pub open spec fn device_id_spec(b3: u8, b4: u8, b5: u8) -> Seq<char> {
    hex_byte_spec(b3) + hex_byte_spec(b4) + hex_byte_spec(b5)
}

/// A character is an uppercase hexadecimal digit.
pub open spec fn is_upper_hex_digit(c: char) -> bool {
    ('0' <= c && c <= '9') || ('A' <= c && c <= 'F')
}

/// The uppercase hexadecimal digit for `n`.
fn hex_digit(n: u8) -> (c: char)
    requires
        n < 16,
    ensures
        c == hex_digit_spec(n as int),
{
    match n {
        0 => '0',
        1 => '1',
        2 => '2',
        3 => '3',
        4 => '4',
        5 => '5',
        6 => '6',
        7 => '7',
        8 => '8',
        9 => '9',
        10 => 'A',
        11 => 'B',
        12 => 'C',
        13 => 'D',
        14 => 'E',
        _ => 'F',
    }
}

/// The device id of a station MAC address: the last three octets encoded
/// as six uppercase hexadecimal characters.
pub fn device_id(mac: &[u8; 6]) -> (r: String)
    ensures
        r@ == device_id_spec(mac[3], mac[4], mac[5]),
{
    let mut r = String::new();
    let mut i: usize = 3;
    while i < 6
        invariant
            3 <= i <= 6,
            i == 4 ==> r@ =~= hex_byte_spec(mac[3]),
            i == 5 ==> r@ =~= hex_byte_spec(mac[3]) + hex_byte_spec(mac[4]),
            i == 6 ==> r@ =~= device_id_spec(mac[3], mac[4], mac[5]),
            i == 3 ==> r@ =~= Seq::<char>::empty(),
        decreases 6 - i,
    {
        let b = mac[i];
        r.push(hex_digit(b / 16));
        r.push(hex_digit(b % 16));
        i = i + 1;
    }
    proof {
        assert(r@ =~= device_id_spec(mac[3], mac[4], mac[5]));
    }
    r
}

/// The topic on which the device receives its text, `vfd-` plus the device
/// id plus `/set-text`.
pub open spec fn set_text_topic_spec(id: Seq<char>) -> Seq<char> {
    "vfd-"@ + id + "/set-text"@
}

/// Build the set-text subscription topic for a device id.
pub fn set_text_topic(id: &str) -> (r: String)
    ensures
        r@ == set_text_topic_spec(id@),
{
    let mut r = String::from_str("vfd-");
    r.append(id);
    r.append("/set-text");
    r
}

/// Law: the device id is always exactly six uppercase hexadecimal
/// characters, whatever the octets hold.
pub proof fn lemma_device_id_format(b3: u8, b4: u8, b5: u8)
    ensures
        device_id_spec(b3, b4, b5).len() == 6,
        forall|i: int| 0 <= i < 6 ==> is_upper_hex_digit(#[trigger] device_id_spec(b3, b4, b5)[i]),
{
    let id = device_id_spec(b3, b4, b5);
    assert forall|i: int| 0 <= i < 6 implies is_upper_hex_digit(id[i]) by {
        assert(0 <= b3 as int / 16 < 16 && 0 <= b4 as int / 16 < 16 && 0 <= b5 as int / 16 < 16)
            by (nonlinear_arith)
            requires b3 < 256 && b4 < 256 && b5 < 256,
        ;
    }
}

} // verus!
