//! The client side of service discovery: parsing the responder's
//! `SERVER:<port>` reply, composing a `host:port` address, and the fallback
//! order between the multicast-DNS lookup and the UDP broadcast probe. The
//! sockets and their timeouts live with the embedding program.

use vstd::prelude::*;

use crate::text::dec_digits;
use crate::text::is_digit;
use crate::text::spec_dec_digits;
use crate::text::spec_digits_end;
use crate::text::spec_digits_value;

verus! {

/// The bounded timeout of each discovery mechanism, in seconds.
pub const DISCOVERY_TIMEOUT_SECS: u64 = 3;

/// First index at or after `i` holding a colon.
pub open spec fn spec_colon_end(s: Seq<u8>, i: int) -> int
    decreases s.len() - i when 0 <= i <= s.len()
{
    if i < s.len() && s[i] != 58 {
        spec_colon_end(s, i + 1)
    } else {
        i
    }
}

/// The port announced in a responder reply: the text between the first
/// colon and the second colon or the end must be a decimal number that fits
/// 32 bits; anything else — a reply without a colon, or an unparseable
/// port — is malformed and refused.
pub open spec fn spec_parse_discovery_reply(s: Seq<u8>) -> Option<u32> {
    let c = spec_colon_end(s, 0);
    if c == s.len() {
        None
    } else {
        let e = spec_colon_end(s, c + 1);
        let d = spec_digits_end(s, c + 1);
        if d == e && e > c + 1 && e - (c + 1) <= 10 && spec_digits_value(s, c + 1, 0)
            <= 0xFFFFFFFF {
            Some(spec_digits_value(s, c + 1, 0) as u32)
        } else {
            None
        }
    }
}

fn colon_end(s: &[u8], i: usize) -> (r: usize)
    requires
        i <= s@.len(),
    ensures
        r == spec_colon_end(s@, i as int),
        i <= r <= s@.len(),
    decreases s@.len() - i,
{
    if i < s.len() && s[i] != 58 {
        colon_end(s, i + 1)
    } else {
        i
    }
}

/// Parse the responder's `SERVER:<port>` reply.
pub fn parse_discovery_reply(s: &[u8]) -> (r: Option<u32>)
    ensures
        r == spec_parse_discovery_reply(s@),
{
    let c = colon_end(s, 0);
    if c == s.len() {
        return None;
    }
    let e = colon_end(s, c + 1);
    let d = crate::text::digits_end(s, c + 1);
    proof {
        crate::text::lemma_digits_end_bounds(s@, c + 1);
    }
    if d == e && e > c + 1 && e - (c + 1) <= 10 {
        let value = crate::text::digits_value_u64(s, c + 1, d);
        if value <= 0xFFFFFFFF {
            Some(value as u32)
        } else {
            None
        }
    } else {
        None
    }
}

/// `host:port`, as the caller of discovery receives it.
pub open spec fn spec_compose_address(host: Seq<u8>, port: u32) -> Seq<u8> {
    host + seq![58u8] + spec_dec_digits(port as nat)
}

/// Compose the discovered address.
pub fn compose_address(host: &[u8], port: u32) -> (r: Vec<u8>)
    ensures
        r@ == spec_compose_address(host@, port),
{
    let mut out: Vec<u8> = Vec::new();
    crate::text::push_bytes(&mut out, host);
    out.push(58);
    let digits = dec_digits(port as u64);
    crate::text::push_bytes(&mut out, digits.as_slice());
    proof {
        assert(out@ =~= spec_compose_address(host@, port));
    }
    out
}

/// "Could not discover server. Please enter IP manually."
pub open spec fn spec_not_discovered_msg() -> Seq<u8> {
    seq![
        67u8,
        111,
        117,
        108,
        100,
        32,
        110,
        111,
        116,
        32,
        100,
        105,
        115,
        99,
        111,
        118,
        101,
        114,
        32,
        115,
        101,
        114,
        118,
        101,
        114,
        46,
        32,
        80,
        108,
        101,
        97,
        115,
        101,
        32,
        101,
        110,
        116,
        101,
        114,
        32,
        73,
        80,
        32,
        109,
        97,
        110,
        117,
        97,
        108,
        108,
        121,
        46,
    ]
}

/// Settle discovery from the two mechanisms' outcomes: the multicast-DNS
/// answer wins when it produced an address, the broadcast answer is the
/// fallback, and with both empty the caller gets the recoverable
/// "enter the address manually" condition — never a crash.
pub fn choose_discovery(mdns: Option<Vec<u8>>, broadcast: Option<Vec<u8>>) -> (r: Result<
    Vec<u8>,
    Vec<u8>,
>)
    ensures
        (match (mdns, broadcast) {
            (Some(a), _) => r matches Ok(addr) && addr@ == a@,
            (None, Some(a)) => r matches Ok(addr) && addr@ == a@,
            (None, None) => r matches Err(msg) && msg@ == spec_not_discovered_msg(),
        }),
{
    match mdns {
        Some(addr) => Ok(addr),
        None => match broadcast {
            Some(addr) => Ok(addr),
            None => {
                let msg: Vec<u8> = vec![
                    67u8,
                    111,
                    117,
                    108,
                    100,
                    32,
                    110,
                    111,
                    116,
                    32,
                    100,
                    105,
                    115,
                    99,
                    111,
                    118,
                    101,
                    114,
                    32,
                    115,
                    101,
                    114,
                    118,
                    101,
                    114,
                    46,
                    32,
                    80,
                    108,
                    101,
                    97,
                    115,
                    101,
                    32,
                    101,
                    110,
                    116,
                    101,
                    114,
                    32,
                    73,
                    80,
                    32,
                    109,
                    97,
                    110,
                    117,
                    97,
                    108,
                    108,
                    121,
                    46,
                ];
                proof {
                    assert(msg@ =~= spec_not_discovered_msg());
                }
                Err(msg)
            },
        },
    }
}

/// Round trip of the discovery wire protocol: the reply the responder sends
/// for a port always parses back to that port.
pub proof fn lemma_discovery_reply_round_trip(port: u16)
    ensures
        spec_parse_discovery_reply(crate::service_register::spec_server_reply(port)) == Some(
            port as u32,
        ),
{
    let s = crate::service_register::spec_server_reply(port);
    let head = seq![83u8, 69, 82, 86, 69, 82, 58];
    let dd = spec_dec_digits(port as nat);
    crate::text::lemma_dec_digits_props(port as nat);
    crate::text::lemma_pow10_values();
    crate::text::lemma_dec_digits_len(port as nat, 5);
    assert(s.len() == 7 + dd.len());
    assert(forall|j: int| 0 <= j < dd.len() ==> s[7 + j] == #[trigger] dd[j]) by {
        assert(forall|j: int|
            0 <= j < dd.len() ==> (head + dd)[7 + j] == #[trigger] dd[j]);
    }
    assert(s[0] == 83) by {
        assert((head + dd)[0] == 83);
    }
    assert(s[1] == 69) by {
        assert((head + dd)[1] == 69);
    }
    assert(s[2] == 82) by {
        assert((head + dd)[2] == 82);
    }
    assert(s[3] == 86) by {
        assert((head + dd)[3] == 86);
    }
    assert(s[4] == 69) by {
        assert((head + dd)[4] == 69);
    }
    assert(s[5] == 82) by {
        assert((head + dd)[5] == 82);
    }
    assert(s[6] == 58) by {
        assert((head + dd)[6] == 58);
    }
    assert(spec_colon_end(s, 0) == 6) by {
        assert(spec_colon_end(s, 6) == 6);
        assert(spec_colon_end(s, 5) == 6);
        assert(spec_colon_end(s, 4) == 6);
        assert(spec_colon_end(s, 3) == 6);
        assert(spec_colon_end(s, 2) == 6);
        assert(spec_colon_end(s, 1) == 6);
    }
    assert forall|j: int| 7 <= j < s.len() implies is_digit(s[j]) by {
        assert(s[7 + (j - 7)] == dd[j - 7]);
        assert(is_digit(dd[j - 7]));
    }
    crate::text::lemma_digits_value_forward(s, 7, s.len() - 7, 0);
    assert(s.subrange(7, s.len() as int) =~= dd);
    assert(0 * crate::text::pow10((s.len() - 7) as nat) == 0) by (nonlinear_arith);
    assert(spec_digits_value(s, 7, 0) == port as nat);
    assert(spec_digits_end(s, 7) == s.len());
    lemma_colon_end_digits(s, 7);
    assert(spec_colon_end(s, 7) == s.len());
}

/// Digits hold no colon, so the colon scan runs to the end of a digit run.
proof fn lemma_colon_end_digits(s: Seq<u8>, i: int)
    requires
        0 <= i <= s.len(),
        forall|j: int| i <= j < s.len() ==> is_digit(#[trigger] s[j]),
    ensures
        spec_colon_end(s, i) == s.len(),
    decreases s.len() - i,
{
    if i < s.len() {
        assert(is_digit(s[i]));
        assert(s[i] != 58);
        lemma_colon_end_digits(s, i + 1);
    }
}

} // verus!
