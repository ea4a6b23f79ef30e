//! The discovery policy: whether and for how long the service-discovery
//! registrar advertises the server on the local network.

use vstd::prelude::*;

use crate::text::ascii_to_string;
use crate::text::bytes_eq;
use crate::text::chars_of;
use crate::text::dec_digits;
use crate::text::digits_end;
use crate::text::digits_value_u64;
use crate::text::spec_dec_digits;
use crate::text::spec_digits_end;
use crate::text::spec_digits_value;

verus! {

/// Governs the registrar: off, on until further notice, or on for a bounded
/// number of seconds.
#[derive(Debug, Clone, Copy, PartialEq, Eq, Structural)]
pub enum Discovery {
    TurnOff,
    OnDuration(u64),
    AlwaysOn,
}

/// The policy's label, as bytes: "Turn off", "On for <secs>s", "Always on".
pub open spec fn spec_display_bytes(d: Discovery) -> Seq<u8> {
    match d {
        Discovery::TurnOff => seq![84u8, 117, 114, 110, 32, 111, 102, 102],
        Discovery::OnDuration(secs) => seq![79u8, 110, 32, 102, 111, 114, 32] + spec_dec_digits(
            secs as nat,
        ) + seq![115u8],
        Discovery::AlwaysOn => seq![65u8, 108, 119, 97, 121, 115, 32, 111, 110],
    }
}

impl Discovery {
    /// The human-readable label of the policy.
    pub fn display(&self) -> (r: String)
        ensures
            r@ == chars_of(spec_display_bytes(*self)),
    {
        match self {
            Discovery::TurnOff => {
                let b: Vec<u8> = vec![84u8, 117, 114, 110, 32, 111, 102, 102];
                proof {
                    assert(b@ =~= spec_display_bytes(Discovery::TurnOff));
                }
                ascii_to_string(&b)
            },
            Discovery::OnDuration(secs) => {
                let mut b: Vec<u8> = vec![79u8, 110, 32, 102, 111, 114, 32];
                let digits = dec_digits(*secs);
                crate::text::push_bytes(&mut b, digits.as_slice());
                b.push(115);
                proof {
                    assert(b@ =~= spec_display_bytes(Discovery::OnDuration(*secs)));
                    crate::text::lemma_dec_digits_props(*secs as nat);
                    assert(forall|i: int| 0 <= i < b@.len() ==> b@[i] < 128) by {
                        assert(forall|i: int|
                            0 <= i < spec_dec_digits(*secs as nat).len()
                                ==> crate::text::is_digit(#[trigger] spec_dec_digits(
                                *secs as nat,
                            )[i]));
                    }
                }
                ascii_to_string(&b)
            },
            Discovery::AlwaysOn => {
                let b: Vec<u8> = vec![65u8, 108, 119, 97, 121, 115, 32, 111, 110];
                proof {
                    assert(b@ =~= spec_display_bytes(Discovery::AlwaysOn));
                }
                ascii_to_string(&b)
            },
        }
    }
}


/// "turn_off": the policy's identifier on menus and in settings.
pub open spec fn spec_id_turn_off() -> Seq<u8> {
    seq![116u8, 117, 114, 110, 95, 111, 102, 102]
}

/// "always_on": the policy's identifier on menus and in settings.
pub open spec fn spec_id_always_on() -> Seq<u8> {
    seq![97u8, 108, 119, 97, 121, 115, 95, 111, 110]
}

/// The policy's identifier: `turn_off`, `always_on`, or the bare decimal
/// seconds of a bounded policy.
pub open spec fn spec_id_bytes(d: Discovery) -> Seq<u8> {
    match d {
        Discovery::TurnOff => spec_id_turn_off(),
        Discovery::AlwaysOn => spec_id_always_on(),
        Discovery::OnDuration(secs) => spec_dec_digits(secs as nat),
    }
}

/// The policy a well-formed identifier denotes: the two keywords, or one to
/// ten decimal digits of seconds; anything else denotes no policy.
pub open spec fn spec_from_id_bytes(s: Seq<u8>) -> Option<Discovery> {
    if s == spec_id_turn_off() {
        Some(Discovery::TurnOff)
    } else if s == spec_id_always_on() {
        Some(Discovery::AlwaysOn)
    } else if 1 <= s.len() <= 10 && spec_digits_end(s, 0) == s.len() {
        Some(Discovery::OnDuration(spec_digits_value(s, 0, 0) as u64))
    } else {
        None
    }
}

impl Discovery {
    /// Render the policy's identifier.
    pub fn id_bytes(&self) -> (r: Vec<u8>)
        ensures
            r@ == spec_id_bytes(*self),
    {
        match self {
            Discovery::TurnOff => {
                let b: Vec<u8> = vec![116u8, 117, 114, 110, 95, 111, 102, 102];
                proof {
                    assert(b@ =~= spec_id_turn_off());
                }
                b
            },
            Discovery::AlwaysOn => {
                let b: Vec<u8> = vec![97u8, 108, 119, 97, 121, 115, 95, 111, 110];
                proof {
                    assert(b@ =~= spec_id_always_on());
                }
                b
            },
            Discovery::OnDuration(secs) => dec_digits(*secs),
        }
    }

    /// Parse a policy identifier; an unknown one denotes no policy.
    pub fn from_id_bytes(s: &[u8]) -> (r: Option<Discovery>)
        ensures
            r == spec_from_id_bytes(s@),
    {
        let turn_off: Vec<u8> = vec![116u8, 117, 114, 110, 95, 111, 102, 102];
        let always_on: Vec<u8> = vec![97u8, 108, 119, 97, 121, 115, 95, 111, 110];
        proof {
            assert(turn_off@ =~= spec_id_turn_off());
            assert(always_on@ =~= spec_id_always_on());
        }
        if bytes_eq(s, turn_off.as_slice()) {
            Some(Discovery::TurnOff)
        } else if bytes_eq(s, always_on.as_slice()) {
            Some(Discovery::AlwaysOn)
        } else {
            let d = digits_end(s, 0);
            if s.len() >= 1 && s.len() <= 10 && d == s.len() {
                let secs = digits_value_u64(s, 0, d);
                Some(Discovery::OnDuration(secs))
            } else {
                None
            }
        }
    }
}

/// The policy identifiers round-trip: parsing a rendered identifier yields
/// the policy back. A bounded policy must fit the identifier grammar's ten
/// decimal digits of seconds.
pub proof fn lemma_policy_id_round_trip(d: Discovery)
    requires
        (d matches Discovery::OnDuration(secs) ==> secs <= 9999999999),
    ensures
        spec_from_id_bytes(spec_id_bytes(d)) == Some(d),
{
    crate::text::lemma_pow10_values();
    match d {
        Discovery::TurnOff => {
            assert(spec_id_turn_off() != spec_id_always_on()) by {
                assert(spec_id_turn_off().len() != spec_id_always_on().len());
            }
        },
        Discovery::AlwaysOn => {
            assert(spec_id_always_on() != spec_id_turn_off()) by {
                assert(spec_id_turn_off().len() != spec_id_always_on().len());
            }
        },
        Discovery::OnDuration(secs) => {
            let dd = spec_dec_digits(secs as nat);
            crate::text::lemma_dec_digits_props(secs as nat);
            crate::text::lemma_dec_digits_len(secs as nat, 10);
            assert(dd != spec_id_turn_off()) by {
                if dd == spec_id_turn_off() {
                    assert(dd[0] == 116);
                    assert(crate::text::is_digit(dd[0]));
                }
            }
            assert(dd != spec_id_always_on()) by {
                if dd == spec_id_always_on() {
                    assert(dd[0] == 97);
                    assert(crate::text::is_digit(dd[0]));
                }
            }
            crate::text::lemma_digits_value_forward(dd, 0, dd.len() as int, 0);
            assert(dd.subrange(0, dd.len() as int) =~= dd);
            assert(0 * crate::text::pow10(dd.len() as nat) == 0) by (nonlinear_arith);
            assert(spec_digits_value(dd, 0, 0) == secs as nat);
        },
    }
}

} // verus!
