//! The wire protocol of the command server: requests are single-line JSON
//! objects `{"<operation>": {"request_id": "...", ...args}}`, responses are
//! `{"type": "<label>", "data": <payload>}`.
//!
//! Rendering and parsing are both defined against spec-level grammars over
//! byte sequences; volume levels travel as decimal numbers scaled to
//! millionths, identifiers as strings (devices) or integers (applications).
//! Strings escape only the quote and the backslash; field order is free on
//! input and canonical on output.

use vstd::prelude::*;

use crate::shared::VolumeControllerError;
use crate::shared::VolumePercent;
use crate::text::bytes_eq;
use crate::text::dec_digits;
use crate::text::digits_end;
use crate::text::digits_value_u64;
use crate::text::is_digit;
use crate::text::is_ws;
use crate::text::lemma_dec_digits_len;
use crate::text::lemma_dec_digits_props;
use crate::text::lemma_digits_end_bounds;
use crate::text::lemma_digits_value_forward;
use crate::text::lemma_pow10_mono;
use crate::text::lemma_pow10_values;
use crate::text::pow10;
use crate::text::pow10_u64;
use crate::text::push_bytes;
use crate::text::seq_dec_val;
use crate::text::spec_dec_digits;
use crate::text::spec_digits_end;
use crate::text::spec_digits_value;
use crate::volume::CommandView;
use crate::volume::VolumeCommand;

verus! {

// ---------------------------------------------------------------------------
// Spec-level rendering
// ---------------------------------------------------------------------------
/// Escape a byte for a JSON string: quote and backslash get a backslash.
pub open spec fn spec_escape(s: Seq<u8>) -> Seq<u8>
    decreases s.len(),
{
    if s.len() == 0 {
        Seq::empty()
    } else {
        (if s[0] == 34 || s[0] == 92 {
            seq![92u8, s[0]]
        } else {
            seq![s[0]]
        }) + spec_escape(s.drop_first())
    }
}

/// A quoted, escaped JSON string.
pub open spec fn spec_quote(s: Seq<u8>) -> Seq<u8> {
    seq![34u8] + spec_escape(s) + seq![34u8]
}

/// `f` zero-padded to exactly `k` decimal digits.
pub open spec fn spec_pad_digits(f: nat, k: nat) -> Seq<u8>
    decreases k,
{
    if k == 0 {
        Seq::empty()
    } else {
        spec_pad_digits(f / 10, (k - 1) as nat).push((48 + f % 10) as u8)
    }
}

/// Trailing zeros removed.
pub open spec fn spec_strip_zeros(s: Seq<u8>) -> Seq<u8>
    decreases s.len(),
{
    if s.len() > 0 && s.last() == 48 {
        spec_strip_zeros(s.drop_last())
    } else {
        s
    }
}

/// The fraction digits of a volume: the six millionth digits with trailing
/// zeros removed, or the single digit `0` for a whole number.
pub open spec fn spec_frac_digits(f: nat) -> Seq<u8> {
    if f == 0 {
        seq![48u8]
    } else {
        spec_strip_zeros(spec_pad_digits(f, 6))
    }
}

/// A volume level as a decimal number with a fraction part, e.g. `0.42`.
pub open spec fn spec_render_volume(v: VolumePercent) -> Seq<u8> {
    spec_dec_digits((v.micros / 1000000) as nat) + seq![46u8] + spec_frac_digits(
        (v.micros % 1000000) as nat,
    )
}

/// "request_id"
pub open spec fn spec_name_request_id() -> Seq<u8> {
    seq![114u8, 101, 113, 117, 101, 115, 116, 95, 105, 100]
}

/// "id"
pub open spec fn spec_name_id() -> Seq<u8> {
    seq![105u8, 100]
}

/// "volume"
pub open spec fn spec_name_volume() -> Seq<u8> {
    seq![118u8, 111, 108, 117, 109, 101]
}

/// The identifier argument of a command on the wire: none, a device name
/// string, or an application number.
pub ghost enum IdArgView {
    NoId,
    StrId(Seq<u8>),
    NumId(u32),
}

impl CommandView {
    /// The identifier argument the command carries.
    pub open spec fn id_arg(self) -> IdArgView {
        match self {
            CommandView::DeviceGetVolume { id, .. } => IdArgView::StrId(id),
            CommandView::DeviceSetVolume { id, .. } => IdArgView::StrId(id),
            CommandView::DeviceMute { id, .. } => IdArgView::StrId(id),
            CommandView::DeviceUnmute { id, .. } => IdArgView::StrId(id),
            CommandView::GetApplication { id, .. } => IdArgView::NumId(id),
            CommandView::ApplicationGetIcon { id, .. } => IdArgView::NumId(id),
            CommandView::ApplicationGetVolume { id, .. } => IdArgView::NumId(id),
            CommandView::ApplicationSetVolume { id, .. } => IdArgView::NumId(id),
            CommandView::ApplicationMute { id, .. } => IdArgView::NumId(id),
            CommandView::ApplicationUnmute { id, .. } => IdArgView::NumId(id),
            CommandView::GetDeviceApplications { id, .. } => IdArgView::StrId(id),
            CommandView::GetPlaybackDevices { .. } => IdArgView::NoId,
        }
    }

    /// The volume argument, present only on the two set operations.
    pub open spec fn volume_arg(self) -> Option<VolumePercent> {
        match self {
            CommandView::DeviceSetVolume { volume, .. } => Some(volume),
            CommandView::ApplicationSetVolume { volume, .. } => Some(volume),
            _ => None,
        }
    }
}

/// The identifier field in wire form, preceded by its separating comma.
pub open spec fn spec_id_field(id_arg: IdArgView) -> Seq<u8> {
    match id_arg {
        IdArgView::NoId => Seq::<u8>::empty(),
        IdArgView::StrId(id) => seq![44u8] + spec_quote(spec_name_id()) + seq![58u8] + spec_quote(
            id,
        ),
        IdArgView::NumId(id) => seq![44u8] + spec_quote(spec_name_id()) + seq![58u8]
            + spec_dec_digits(id as nat),
    }
}

/// The volume field in wire form, preceded by its separating comma.
pub open spec fn spec_volume_field(volume: Option<VolumePercent>) -> Seq<u8> {
    match volume {
        Option::None => Seq::<u8>::empty(),
        Option::Some(v) => seq![44u8] + spec_quote(spec_name_volume()) + seq![58u8]
            + spec_render_volume(v),
    }
}

/// The inner field list of a request, in canonical order: request id, then
/// the identifier argument, then the volume argument.
pub open spec fn spec_render_fields(
    request_id: Seq<u8>,
    id_arg: IdArgView,
    volume: Option<VolumePercent>,
) -> Seq<u8> {
    spec_quote(spec_name_request_id()) + seq![58u8] + spec_quote(request_id) + spec_id_field(
        id_arg,
    ) + spec_volume_field(volume)
}

/// The canonical wire form of a command.
pub open spec fn spec_render_command(c: CommandView) -> Seq<u8> {
    seq![123u8] + spec_quote(c.op_name()) + seq![58u8, 123u8] + spec_render_fields(
        c.request_id(),
        c.id_arg(),
        c.volume_arg(),
    ) + seq![125u8, 125u8]
}

// ---------------------------------------------------------------------------
// Executable rendering
// ---------------------------------------------------------------------------
pub proof fn lemma_escape_concat(a: Seq<u8>, b: Seq<u8>)
    ensures
        spec_escape(a + b) == spec_escape(a) + spec_escape(b),
    decreases a.len(),
{
    if a.len() == 0 {
        assert(a + b =~= b);
        assert(spec_escape(a) =~= Seq::<u8>::empty());
        assert(spec_escape(a) + spec_escape(b) =~= spec_escape(b));
    } else {
        let t = a.drop_first();
        lemma_escape_concat(t, b);
        let ab = a + b;
        assert(ab.len() > 0);
        assert(ab[0] == a[0]);
        assert(ab.drop_first() =~= t + b);
        let h = if a[0] == 34 || a[0] == 92 {
            seq![92u8, a[0]]
        } else {
            seq![a[0]]
        };
        assert(spec_escape(ab) == h + spec_escape(t + b));
        assert(spec_escape(a) == h + spec_escape(t));
        assert(h + (spec_escape(t) + spec_escape(b)) =~= (h + spec_escape(t)) + spec_escape(b));
    }
}

/// Append the escaped form of `s` to `out`.
pub fn escape_into(out: &mut Vec<u8>, s: &[u8])
    ensures
        final(out)@ == old(out)@ + spec_escape(s@),
{
    let mut i: usize = 0;
    while i < s.len()
        invariant
            i <= s@.len(),
            out@ == old(out)@ + spec_escape(s@.subrange(0, i as int)),
        decreases s@.len() - i,
    {
        let b = s[i];
        proof {
            lemma_escape_concat(s@.subrange(0, i as int), seq![s@[i as int]]);
            assert(s@.subrange(0, i as int) + seq![s@[i as int]] =~= s@.subrange(0, i + 1));
            let single = seq![s@[i as int]];
            assert(single.drop_first() =~= Seq::<u8>::empty());
            assert(spec_escape(single.drop_first()) =~= Seq::<u8>::empty());
            if b == 34 || b == 92 {
                assert(spec_escape(single) =~= seq![92u8, b]);
            } else {
                assert(spec_escape(single) =~= seq![b]);
            }
        }
        if b == 34 || b == 92 {
            out.push(92);
            out.push(b);
            proof {
                assert(old(out)@ + spec_escape(s@.subrange(0, i as int)) + seq![92u8] + seq![b]
                    =~= old(out)@ + spec_escape(s@.subrange(0, i + 1)));
            }
        } else {
            out.push(b);
            proof {
                assert(old(out)@ + spec_escape(s@.subrange(0, i as int)) + seq![b] =~= old(out)@
                    + spec_escape(s@.subrange(0, i + 1)));
            }
        }
        i = i + 1;
    }
    proof {
        assert(s@.subrange(0, s@.len() as int) =~= s@);
    }
}

/// Append `"escaped"` to `out`.
pub fn quote_into(out: &mut Vec<u8>, s: &[u8])
    ensures
        final(out)@ == old(out)@ + spec_quote(s@),
{
    out.push(34);
    escape_into(out, s);
    out.push(34);
    proof {
        assert(old(out)@ + seq![34u8] + spec_escape(s@) + seq![34u8] =~= old(out)@ + spec_quote(
            s@,
        ));
    }
}

/// Append the decimal digits of `n` to `out`.
pub fn dec_into(out: &mut Vec<u8>, n: u64)
    ensures
        final(out)@ == old(out)@ + spec_dec_digits(n as nat),
{
    let d = dec_digits(n);
    push_bytes(out, d.as_slice());
}

/// Append the fraction digits of `f` (in millionths, below one million).
pub fn frac_into(out: &mut Vec<u8>, f: u64)
    requires
        f < 1000000,
    ensures
        final(out)@ == old(out)@ + spec_frac_digits(f as nat),
{
    if f == 0 {
        out.push(48);
        proof {
            assert(old(out)@ + seq![48u8] =~= old(out)@ + spec_frac_digits(0));
        }
    } else {
        // the six padded digits, then strip the trailing zeros
        let mut padded: Vec<u8> = Vec::new();
        proof {
            lemma_pad_digits_len(f as nat, 6);
            assert(padded@ =~= spec_pad_digits(f as nat, 6).subrange(0, 0));
        }
        // build most significant first by dividing down from the top
        let mut j: u64 = 0;
        while j < 6
            invariant
                j <= 6,
                padded@ =~= spec_pad_digits(f as nat, 6).subrange(0, j as int),
                spec_pad_digits(f as nat, 6).len() == 6,
            decreases 6 - j,
        {
            proof {
                lemma_pad_digits_len(f as nat, 6);
                lemma_pad_digits_index(f as nat, 6, j as int);
                lemma_pow10_values();
            }
            let div = pow10_u64(5 - j);
            let digit = (f / div) % 10;
            padded.push((48 + digit) as u8);
            proof {
                assert(padded@ =~= spec_pad_digits(f as nat, 6).subrange(0, j + 1));
            }
            j = j + 1;
        }
        proof {
            assert(padded@ =~= spec_pad_digits(f as nat, 6));
        }
        // strip trailing zeros
        while padded.len() > 0 && padded[padded.len() - 1] == 48
            invariant
                spec_strip_zeros(padded@) == spec_strip_zeros(spec_pad_digits(f as nat, 6)),
            decreases padded@.len(),
        {
            let _ = padded.pop();
        }
        proof {
            assert(spec_strip_zeros(padded@) == padded@);
        }
        push_bytes(out, padded.as_slice());
    }
}

/// Length of the padded digit sequence.
pub proof fn lemma_pad_digits_len(f: nat, k: nat)
    ensures
        spec_pad_digits(f, k).len() == k,
    decreases k,
{
    if k > 0 {
        lemma_pad_digits_len(f / 10, (k - 1) as nat);
    }
}

/// The digit at position `j` of the padded form is the corresponding decimal
/// digit of `f`.
pub proof fn lemma_pad_digits_index(f: nat, k: nat, j: int)
    requires
        0 <= j < k,
    ensures
        spec_pad_digits(f, k)[j] == (48 + (f / pow10((k - 1 - j) as nat)) % 10) as u8,
    decreases k,
{
    lemma_pad_digits_len(f, k);
    lemma_pad_digits_len(f / 10, (k - 1) as nat);
    if j == k - 1 {
        assert(pow10(0) == 1);
        assert(f / 1 == f);
        assert(spec_pad_digits(f, k).last() == (48 + f % 10) as u8);
    } else {
        lemma_pad_digits_index(f / 10, (k - 1) as nat, j);
        assert(spec_pad_digits(f, k)[j] == spec_pad_digits(f / 10, (k - 1) as nat)[j]);
        let e = (k - 2 - j) as nat;
        assert((f / 10) / pow10(e) == f / pow10((e + 1) as nat)) by {
            lemma_div_chain(f, e);
        }
    }
}

/// Dividing by ten and then by `pow10(e)` is dividing by `pow10(e + 1)`.
pub proof fn lemma_div_chain(f: nat, e: nat)
    ensures
        (f / 10) / pow10(e) == f / pow10((e + 1) as nat),
{
    let p = pow10(e);
    assert(p >= 1) by {
        lemma_pow10_mono(0, e);
    }
    assert(pow10((e + 1) as nat) == 10 * p);
    assert((f / 10) / p == f / (10 * p)) by (nonlinear_arith)
        requires
            p >= 1,
    ;
}

/// Append the wire form of a volume level to `out`.
pub fn volume_into(out: &mut Vec<u8>, v: VolumePercent)
    ensures
        final(out)@ == old(out)@ + spec_render_volume(v),
{
    dec_into(out, v.micros / 1000000);
    out.push(46);
    frac_into(out, v.micros % 1000000);
    proof {
        assert(old(out)@ + spec_dec_digits((v.micros / 1000000) as nat) + seq![46u8]
            + spec_frac_digits((v.micros % 1000000) as nat) =~= old(out)@ + spec_render_volume(
            v,
        ));
    }
}

/// Append a quoted string identifier field, with its leading comma.
fn str_id_field_into(out: &mut Vec<u8>, id: &[u8])
    ensures
        final(out)@ == old(out)@ + spec_id_field(IdArgView::StrId(id@)),
{
    let field_id: Vec<u8> = vec![105u8, 100];
    proof {
        assert(field_id@ =~= spec_name_id());
    }
    out.push(44);
    quote_into(out, field_id.as_slice());
    out.push(58);
    quote_into(out, id);
    proof {
        assert(old(out)@ + seq![44u8] + spec_quote(spec_name_id()) + seq![58u8] + spec_quote(id@)
            =~= old(out)@ + spec_id_field(IdArgView::StrId(id@)));
    }
}

/// Append a numeric identifier field, with its leading comma.
fn num_id_field_into(out: &mut Vec<u8>, id: u32)
    ensures
        final(out)@ == old(out)@ + spec_id_field(IdArgView::NumId(id)),
{
    let field_id: Vec<u8> = vec![105u8, 100];
    proof {
        assert(field_id@ =~= spec_name_id());
    }
    out.push(44);
    quote_into(out, field_id.as_slice());
    out.push(58);
    dec_into(out, id as u64);
    proof {
        assert(old(out)@ + seq![44u8] + spec_quote(spec_name_id()) + seq![58u8] + spec_dec_digits(
            id as nat,
        ) =~= old(out)@ + spec_id_field(IdArgView::NumId(id)));
    }
}

/// Append the identifier field that the command carries, if any.
fn id_field_into(out: &mut Vec<u8>, c: &VolumeCommand)
    ensures
        final(out)@ == old(out)@ + spec_id_field(c@.id_arg()),
{
    match c {
        VolumeCommand::DeviceGetVolume { id, .. } => str_id_field_into(out, id.as_slice()),
        VolumeCommand::DeviceSetVolume { id, .. } => str_id_field_into(out, id.as_slice()),
        VolumeCommand::DeviceMute { id, .. } => str_id_field_into(out, id.as_slice()),
        VolumeCommand::DeviceUnmute { id, .. } => str_id_field_into(out, id.as_slice()),
        VolumeCommand::GetDeviceApplications { id, .. } => str_id_field_into(out, id.as_slice()),
        VolumeCommand::GetApplication { id, .. } => num_id_field_into(out, *id),
        VolumeCommand::ApplicationGetIcon { id, .. } => num_id_field_into(out, *id),
        VolumeCommand::ApplicationGetVolume { id, .. } => num_id_field_into(out, *id),
        VolumeCommand::ApplicationSetVolume { id, .. } => num_id_field_into(out, *id),
        VolumeCommand::ApplicationMute { id, .. } => num_id_field_into(out, *id),
        VolumeCommand::ApplicationUnmute { id, .. } => num_id_field_into(out, *id),
        VolumeCommand::GetPlaybackDevices { .. } => {
            proof {
                assert(old(out)@ + Seq::<u8>::empty() =~= old(out)@);
            }
        },
    }
}

/// Append the volume field that the command carries, if any.
fn volume_field_into(out: &mut Vec<u8>, c: &VolumeCommand)
    ensures
        final(out)@ == old(out)@ + spec_volume_field(c@.volume_arg()),
{
    let v: Option<VolumePercent> = match c {
        VolumeCommand::DeviceSetVolume { volume, .. } => Some(*volume),
        VolumeCommand::ApplicationSetVolume { volume, .. } => Some(*volume),
        _ => None,
    };
    match v {
        Some(vol) => {
            let field_vol: Vec<u8> = vec![118u8, 111, 108, 117, 109, 101];
            proof {
                assert(field_vol@ =~= spec_name_volume());
            }
            out.push(44);
            quote_into(out, field_vol.as_slice());
            out.push(58);
            volume_into(out, vol);
            proof {
                assert(old(out)@ + seq![44u8] + spec_quote(spec_name_volume()) + seq![58u8]
                    + spec_render_volume(vol) =~= old(out)@ + spec_volume_field(c@.volume_arg()));
            }
        },
        None => {
            proof {
                assert(old(out)@ + Seq::<u8>::empty() =~= old(out)@);
            }
        },
    }
}

/// Serialize a command to its canonical wire form.
pub fn render_command(c: &VolumeCommand) -> (r: Vec<u8>)
    ensures
        r@ == spec_render_command(c@),
{
    let mut out: Vec<u8> = Vec::new();
    out.push(123);
    let name = c.get_name();
    quote_into(&mut out, name.as_slice());
    out.push(58);
    out.push(123);
    let ghost head = out@;
    proof {
        assert(head =~= seq![123u8] + spec_quote(c@.op_name()) + seq![58u8, 123u8]);
    }
    // request id field
    let rid = c.get_request_id();
    let field_rid: Vec<u8> = vec![114u8, 101, 113, 117, 101, 115, 116, 95, 105, 100];
    proof {
        assert(field_rid@ =~= spec_name_request_id());
    }
    quote_into(&mut out, field_rid.as_slice());
    out.push(58);
    quote_into(&mut out, rid.as_slice());
    let ghost with_rid = out@;
    proof {
        assert(with_rid =~= head + (spec_quote(spec_name_request_id()) + seq![58u8] + spec_quote(
            c@.request_id(),
        )));
    }
    id_field_into(&mut out, c);
    volume_field_into(&mut out, c);
    out.push(125);
    out.push(125);
    proof {
        assert(out@ =~= head + spec_render_fields(c@.request_id(), c@.id_arg(), c@.volume_arg())
            + seq![125u8, 125u8]);
        assert(out@ =~= spec_render_command(c@));
    }
    out
}


// ---------------------------------------------------------------------------
// Spec-level parsing
// ---------------------------------------------------------------------------
/// First index at or after `i` that holds no insignificant whitespace.
pub open spec fn spec_skip_ws(s: Seq<u8>, i: int) -> int
    decreases s.len() - i when 0 <= i <= s.len()
{
    if i < s.len() && is_ws(s[i]) {
        spec_skip_ws(s, i + 1)
    } else {
        i
    }
}

/// Parse a string body after its opening quote: content and the index just
/// past the closing quote. Only the two escapes `\"` and `\\` are accepted;
/// every other byte stands for itself.
pub open spec fn spec_parse_string(s: Seq<u8>, i: int) -> Option<(Seq<u8>, int)>
    decreases s.len() - i when 0 <= i <= s.len()
{
    if i >= s.len() {
        None
    } else if s[i] == 34 {
        Some((Seq::empty(), i + 1))
    } else if s[i] == 92 {
        if i + 1 < s.len() && (s[i + 1] == 34 || s[i + 1] == 92) {
            match spec_parse_string(s, i + 2) {
                Some(r) => Some((seq![s[i + 1]] + r.0, r.1)),
                None => None,
            }
        } else {
            None
        }
    } else {
        match spec_parse_string(s, i + 1) {
            Some(r) => Some((seq![s[i]] + r.0, r.1)),
            None => None,
        }
    }
}

pub proof fn lemma_parse_string_bounds(s: Seq<u8>, i: int)
    requires
        0 <= i <= s.len(),
    ensures
        (spec_parse_string(s, i) matches Some(r) ==> i < r.1 <= s.len()),
    decreases s.len() - i,
{
    if i >= s.len() {
    } else if s[i] == 34 {
    } else if s[i] == 92 {
        if i + 1 < s.len() && (s[i + 1] == 34 || s[i + 1] == 92) {
            lemma_parse_string_bounds(s, i + 2);
        }
    } else {
        lemma_parse_string_bounds(s, i + 1);
    }
}

/// Parse a non-negative decimal number at `i`: integer part, fraction scaled
/// to millionths, whether a fraction was written, and the end index. The
/// integer part must fit 32 bits and the fraction must hold one to six
/// digits.
pub open spec fn spec_parse_number(s: Seq<u8>, i: int) -> Option<(nat, nat, bool, int)> {
    let e1 = spec_digits_end(s, i);
    if e1 == i || e1 - i > 10 {
        None
    } else {
        let ip = spec_digits_value(s, i, 0);
        if ip > 0xFFFFFFFF {
            None
        } else if e1 < s.len() && s[e1] == 46 {
            let e2 = spec_digits_end(s, e1 + 1);
            let fd = e2 - (e1 + 1);
            if fd < 1 || fd > 6 {
                None
            } else {
                Some((ip, spec_digits_value(s, e1 + 1, 0) * pow10((6 - fd) as nat), true, e2))
            }
        } else {
            Some((ip, 0, false, e1))
        }
    }
}

/// The fields a request object may carry, each at most once. The `id` field
/// may be a string (device identifier) or a number (application identifier).
pub ghost struct FieldsView {
    pub request_id: Option<Seq<u8>>,
    pub id_str: Option<Seq<u8>>,
    pub id_num: Option<u32>,
    pub volume: Option<u64>,
}

pub open spec fn spec_fields_empty() -> FieldsView {
    FieldsView { request_id: None, id_str: None, id_num: None, volume: None }
}

/// Record a string-valued field; duplicate or unknown names are refused.
pub open spec fn spec_apply_string_field(f: FieldsView, name: Seq<u8>, val: Seq<u8>) -> Option<
    FieldsView,
> {
    if name == spec_name_request_id() {
        if f.request_id is None {
            Some(FieldsView { request_id: Some(val), ..f })
        } else {
            None
        }
    } else if name == spec_name_id() {
        if f.id_str is None && f.id_num is None {
            Some(FieldsView { id_str: Some(val), ..f })
        } else {
            None
        }
    } else {
        None
    }
}

/// Record a number-valued field; an application identifier must be written
/// without a fraction.
pub open spec fn spec_apply_number_field(
    f: FieldsView,
    name: Seq<u8>,
    ip: nat,
    frac: nat,
    float: bool,
) -> Option<FieldsView> {
    if name == spec_name_id() {
        if !float && f.id_str is None && f.id_num is None {
            Some(FieldsView { id_num: Some(ip as u32), ..f })
        } else {
            None
        }
    } else if name == spec_name_volume() {
        if f.volume is None {
            Some(FieldsView { volume: Some((ip * 1000000 + frac) as u64), ..f })
        } else {
            None
        }
    } else {
        None
    }
}

/// Parse one `"name": value` pair starting at the name's opening quote.
pub open spec fn spec_parse_field(s: Seq<u8>, i: int, f: FieldsView) -> Option<(FieldsView, int)> {
    if 0 <= i && i < s.len() && s[i] == 34 {
        match spec_parse_string(s, i + 1) {
            Some(nr) => {
                let c = spec_skip_ws(s, nr.1);
                if c < s.len() && s[c] == 58 {
                    let v = spec_skip_ws(s, c + 1);
                    if v < s.len() && s[v] == 34 {
                        match spec_parse_string(s, v + 1) {
                            Some(vr) => match spec_apply_string_field(f, nr.0, vr.0) {
                                Some(f2) => Some((f2, vr.1)),
                                None => None,
                            },
                            None => None,
                        }
                    } else {
                        match spec_parse_number(s, v) {
                            Some(num) => match spec_apply_number_field(
                                f,
                                nr.0,
                                num.0,
                                num.1,
                                num.2,
                            ) {
                                Some(f2) => Some((f2, num.3)),
                                None => None,
                            },
                            None => None,
                        }
                    }
                } else {
                    None
                }
            },
            None => None,
        }
    } else {
        None
    }
}

/// After a field: either the closing brace, or a comma and a further field;
/// at most `left` more fields are accepted.
pub open spec fn spec_parse_fields_tail(s: Seq<u8>, i: int, f: FieldsView, left: nat) -> Option<
    (FieldsView, int),
>
    decreases left,
{
    let j = spec_skip_ws(s, i);
    if j < s.len() && s[j] == 125 {
        Some((f, j + 1))
    } else if j < s.len() && s[j] == 44 && left > 0 {
        let k = spec_skip_ws(s, j + 1);
        match spec_parse_field(s, k, f) {
            Some(r) => spec_parse_fields_tail(s, r.1, r.0, (left - 1) as nat),
            None => None,
        }
    } else {
        None
    }
}

/// The body of a request object after its opening brace: an empty object or
/// up to three fields.
pub open spec fn spec_parse_fields(s: Seq<u8>, i: int) -> Option<(FieldsView, int)> {
    let j = spec_skip_ws(s, i);
    if j < s.len() && s[j] == 125 {
        Some((spec_fields_empty(), j + 1))
    } else {
        match spec_parse_field(s, j, spec_fields_empty()) {
            Some(r) => spec_parse_fields_tail(s, r.1, r.0, 2),
            None => None,
        }
    }
}

/// Assemble a command from the operation name and the collected fields: a
/// missing request id stands for the empty one (no correlation requested),
/// the identifier and volume are demanded as the operation requires them,
/// and a field of the wrong kind refuses the message.
pub open spec fn spec_build_command(name: Seq<u8>, f: FieldsView) -> Option<CommandView> {
    {
        let rid = match f.request_id {
            Some(r) => r,
            None => Seq::<u8>::empty(),
        };
        if name == crate::volume::spec_op_device_get_volume() {
            match f.id_str {
                Some(id) => Some(CommandView::DeviceGetVolume { request_id: rid, id }),
                None => None,
            }
        } else if name == crate::volume::spec_op_device_set_volume() {
            match (f.id_str, f.volume) {
                (Some(id), Some(m)) => Some(
                    CommandView::DeviceSetVolume {
                        request_id: rid,
                        id,
                        volume: VolumePercent { micros: m },
                    },
                ),
                _ => None,
            }
        } else if name == crate::volume::spec_op_device_mute() {
            match f.id_str {
                Some(id) => Some(CommandView::DeviceMute { request_id: rid, id }),
                None => None,
            }
        } else if name == crate::volume::spec_op_device_unmute() {
            match f.id_str {
                Some(id) => Some(CommandView::DeviceUnmute { request_id: rid, id }),
                None => None,
            }
        } else if name == crate::volume::spec_op_get_application() {
            match f.id_num {
                Some(id) => Some(CommandView::GetApplication { request_id: rid, id }),
                None => None,
            }
        } else if name == crate::volume::spec_op_application_get_icon() {
            match f.id_num {
                Some(id) => Some(CommandView::ApplicationGetIcon { request_id: rid, id }),
                None => None,
            }
        } else if name == crate::volume::spec_op_application_get_volume() {
            match f.id_num {
                Some(id) => Some(CommandView::ApplicationGetVolume { request_id: rid, id }),
                None => None,
            }
        } else if name == crate::volume::spec_op_application_set_volume() {
            match (f.id_num, f.volume) {
                (Some(id), Some(m)) => Some(
                    CommandView::ApplicationSetVolume {
                        request_id: rid,
                        id,
                        volume: VolumePercent { micros: m },
                    },
                ),
                _ => None,
            }
        } else if name == crate::volume::spec_op_application_mute() {
            match f.id_num {
                Some(id) => Some(CommandView::ApplicationMute { request_id: rid, id }),
                None => None,
            }
        } else if name == crate::volume::spec_op_application_unmute() {
            match f.id_num {
                Some(id) => Some(CommandView::ApplicationUnmute { request_id: rid, id }),
                None => None,
            }
        } else if name == crate::volume::spec_op_get_device_applications() {
            match f.id_str {
                Some(id) => Some(CommandView::GetDeviceApplications { request_id: rid, id }),
                None => None,
            }
        } else if name == crate::volume::spec_op_get_playback_devices() {
            Some(CommandView::GetPlaybackDevices { request_id: rid })
        } else {
            None
        }
    }
}

/// A whole request message: one object with one operation key whose value is
/// the field object, and nothing but whitespace around them.
pub open spec fn spec_parse_command(s: Seq<u8>) -> Option<CommandView> {
    let i0 = spec_skip_ws(s, 0);
    if i0 < s.len() && s[i0] == 123 {
        let i1 = spec_skip_ws(s, i0 + 1);
        if i1 < s.len() && s[i1] == 34 {
            match spec_parse_string(s, i1 + 1) {
                Some(nr) => {
                    let i3 = spec_skip_ws(s, nr.1);
                    if i3 < s.len() && s[i3] == 58 {
                        let i4 = spec_skip_ws(s, i3 + 1);
                        if i4 < s.len() && s[i4] == 123 {
                            match spec_parse_fields(s, i4 + 1) {
                                Some(fr) => {
                                    let i6 = spec_skip_ws(s, fr.1);
                                    if i6 < s.len() && s[i6] == 125 {
                                        let i7 = spec_skip_ws(s, i6 + 1);
                                        if i7 == s.len() {
                                            spec_build_command(nr.0, fr.0)
                                        } else {
                                            None
                                        }
                                    } else {
                                        None
                                    }
                                },
                                None => None,
                            }
                        } else {
                            None
                        }
                    } else {
                        None
                    }
                },
                None => None,
            }
        } else {
            None
        }
    } else {
        None
    }
}


// ---------------------------------------------------------------------------
// Executable parsing
// ---------------------------------------------------------------------------
/// Scan past insignificant whitespace.
pub fn skip_ws(s: &[u8], i: usize) -> (r: usize)
    requires
        i <= s@.len(),
    ensures
        r == spec_skip_ws(s@, i as int),
        i <= r <= s@.len(),
    decreases s@.len() - i,
{
    if i < s.len() && (s[i] == 32 || s[i] == 9 || s[i] == 10 || s[i] == 13) {
        skip_ws(s, i + 1)
    } else {
        i
    }
}

/// Parse a string body after its opening quote.
pub fn parse_string(s: &[u8], i: usize) -> (r: Option<(Vec<u8>, usize)>)
    requires
        i <= s@.len(),
    ensures
        (match spec_parse_string(s@, i as int) {
            Some(p) => r matches Some(q) && q.0@ == p.0 && q.1 == p.1,
            None => r is None,
        }),
    decreases s@.len() - i,
{
    proof {
        lemma_parse_string_bounds(s@, i as int);
    }
    if i >= s.len() {
        None
    } else if s[i] == 34 {
        Some((Vec::new(), i + 1))
    } else if s[i] == 92 {
        if i + 1 < s.len() && (s[i + 1] == 34 || s[i + 1] == 92) {
            match parse_string(s, i + 2) {
                Some((t, e)) => {
                    let mut t = t;
                    t.insert(0, s[i + 1]);
                    proof {
                        let p = spec_parse_string(s@, i as int).unwrap();
                        assert(t@ =~= p.0);
                    }
                    Some((t, e))
                },
                None => None,
            }
        } else {
            None
        }
    } else {
        match parse_string(s, i + 1) {
            Some((t, e)) => {
                let mut t = t;
                t.insert(0, s[i]);
                proof {
                    let p = spec_parse_string(s@, i as int).unwrap();
                    assert(t@ =~= p.0);
                }
                Some((t, e))
            },
            None => None,
        }
    }
}

pub proof fn lemma_pow10_add(a: nat, b: nat)
    ensures
        pow10(a) * pow10(b) == pow10((a + b) as nat),
    decreases a,
{
    if a == 0 {
        assert(pow10(0) == 1);
        assert(1 * pow10(b) == pow10(b));
    } else {
        lemma_pow10_add((a - 1) as nat, b);
        assert(pow10(a) == 10 * pow10((a - 1) as nat));
        assert((10 * pow10((a - 1) as nat)) * pow10(b) == 10 * (pow10((a - 1) as nat) * pow10(b)))
            by (nonlinear_arith);
    }
}

/// Parse a non-negative decimal number at `i`.
pub fn parse_number(s: &[u8], i: usize) -> (r: Option<(u64, u64, bool, usize)>)
    requires
        i <= s@.len(),
    ensures
        (match spec_parse_number(s@, i as int) {
            Some(p) => r matches Some(q) && q.0 == p.0 && q.1 == p.1 && q.2 == p.2 && q.3 == p.3,
            None => r is None,
        }),
        (r matches Some(q) ==> q.0 <= 0xFFFFFFFF && q.1 < 1000000),
{
    let e1 = digits_end(s, i);
    if e1 == i || e1 - i > 10 {
        return None;
    }
    let ip = digits_value_u64(s, i, e1);
    if ip > 0xFFFFFFFF {
        return None;
    }
    if e1 < s.len() && s[e1] == 46 {
        let e2 = digits_end(s, e1 + 1);
        let fd = e2 - (e1 + 1);
        if fd < 1 || fd > 6 {
            return None;
        }
        let fv = digits_value_u64(s, e1 + 1, e2);
        proof {
            lemma_pow10_add(fd as nat, (6 - fd) as nat);
            lemma_pow10_values();
            assert(fv * pow10((6 - fd) as nat) < pow10(6)) by (nonlinear_arith)
                requires
                    fv < pow10(fd as nat),
                    pow10(fd as nat) * pow10((6 - fd) as nat) == pow10(6),
                    pow10((6 - fd) as nat) >= 1,
            ;
        }
        let scale = pow10_u64((6 - fd) as u64);
        let scaled = fv * scale;
        Some((ip, scaled, true, e2))
    } else {
        Some((ip, 0, false, e1))
    }
}

/// The fields a request object may carry, each at most once.
pub struct Fields {
    pub request_id: Option<Vec<u8>>,
    pub id_str: Option<Vec<u8>>,
    pub id_num: Option<u32>,
    pub volume: Option<u64>,
}

impl View for Fields {
    type V = FieldsView;

    open spec fn view(&self) -> FieldsView {
        FieldsView {
            request_id: match self.request_id {
                Option::Some(ref v) => Option::Some(v@),
                Option::None => Option::None,
            },
            id_str: match self.id_str {
                Option::Some(ref v) => Option::Some(v@),
                Option::None => Option::None,
            },
            id_num: self.id_num,
            volume: self.volume,
        }
    }
}

impl Fields {
    pub fn empty() -> (r: Fields)
        ensures
            r@ == spec_fields_empty(),
    {
        Fields { request_id: None, id_str: None, id_num: None, volume: None }
    }
}

/// Record a string-valued field under its name.
fn apply_string_field(f: Fields, name: &Vec<u8>, val: Vec<u8>) -> (r: Option<Fields>)
    ensures
        (match spec_apply_string_field(f@, name@, val@) {
            Some(fv) => r matches Some(g) && g@ == fv,
            None => r is None,
        }),
{
    let tbl_rid: Vec<u8> = vec![114u8, 101, 113, 117, 101, 115, 116, 95, 105, 100];
    let tbl_id: Vec<u8> = vec![105u8, 100];
    proof {
        assert(tbl_rid@ =~= spec_name_request_id());
        assert(tbl_id@ =~= spec_name_id());
    }
    if bytes_eq(name.as_slice(), tbl_rid.as_slice()) {
        match f.request_id {
            None => Some(
                Fields {
                    request_id: Some(val),
                    id_str: f.id_str,
                    id_num: f.id_num,
                    volume: f.volume,
                },
            ),
            Some(_) => None,
        }
    } else if bytes_eq(name.as_slice(), tbl_id.as_slice()) {
        if f.id_str.is_none() && f.id_num.is_none() {
            Some(
                Fields {
                    request_id: f.request_id,
                    id_str: Some(val),
                    id_num: f.id_num,
                    volume: f.volume,
                },
            )
        } else {
            None
        }
    } else {
        None
    }
}

/// Record a number-valued field under its name.
fn apply_number_field(f: Fields, name: &Vec<u8>, ip: u64, frac: u64, float: bool) -> (r: Option<
    Fields,
>)
    requires
        ip <= 0xFFFFFFFF,
        frac < 1000000,
    ensures
        (match spec_apply_number_field(f@, name@, ip as nat, frac as nat, float) {
            Some(fv) => r matches Some(g) && g@ == fv,
            None => r is None,
        }),
{
    let tbl_id: Vec<u8> = vec![105u8, 100];
    let tbl_vol: Vec<u8> = vec![118u8, 111, 108, 117, 109, 101];
    proof {
        assert(tbl_id@ =~= spec_name_id());
        assert(tbl_vol@ =~= spec_name_volume());
    }
    if bytes_eq(name.as_slice(), tbl_id.as_slice()) {
        if !float && f.id_str.is_none() && f.id_num.is_none() {
            Some(
                Fields {
                    request_id: f.request_id,
                    id_str: f.id_str,
                    id_num: Some(ip as u32),
                    volume: f.volume,
                },
            )
        } else {
            None
        }
    } else if bytes_eq(name.as_slice(), tbl_vol.as_slice()) {
        match f.volume {
            None => Some(
                Fields {
                    request_id: f.request_id,
                    id_str: f.id_str,
                    id_num: f.id_num,
                    volume: Some(ip * 1000000 + frac),
                },
            ),
            Some(_) => None,
        }
    } else {
        None
    }
}

/// Parse one `"name": value` pair starting at the name's opening quote.
fn parse_field(s: &[u8], i: usize, f: Fields) -> (r: Option<(Fields, usize)>)
    requires
        i <= s@.len(),
    ensures
        (match spec_parse_field(s@, i as int, f@) {
            Some(p) => r matches Some(q) && q.0@ == p.0 && q.1 == p.1 && q.1 <= s@.len(),
            None => r is None,
        }),
{
    proof {
        lemma_parse_string_bounds(s@, i as int);
    }
    if i < s.len() && s[i] == 34 {
        match parse_string(s, i + 1) {
            Some((name, e)) => {
                proof {
                    lemma_parse_string_bounds(s@, i + 1);
                }
                let c = skip_ws(s, e);
                if c < s.len() && s[c] == 58 {
                    let v = skip_ws(s, c + 1);
                    if v < s.len() && s[v] == 34 {
                        proof {
                            lemma_parse_string_bounds(s@, v + 1);
                        }
                        match parse_string(s, v + 1) {
                            Some((val, e2)) => {
                                match apply_string_field(f, &name, val) {
                                    Some(f2) => Some((f2, e2)),
                                    None => None,
                                }
                            },
                            None => None,
                        }
                    } else {
                        match parse_number(s, v) {
                            Some((ip, fr, fl, e2)) => {
                                proof {
                                    lemma_digits_end_bounds(s@, v as int);
                                    if fl {
                                        lemma_digits_end_bounds(
                                            s@,
                                            spec_digits_end(s@, v as int) + 1,
                                        );
                                    }
                                    lemma_pow10_values();
                                }
                                match apply_number_field(f, &name, ip, fr, fl) {
                                    Some(f2) => Some((f2, e2)),
                                    None => None,
                                }
                            },
                            None => None,
                        }
                    }
                } else {
                    None
                }
            },
            None => None,
        }
    } else {
        None
    }
}

/// After a field: the closing brace, or a comma and a further field.
fn parse_fields_tail(s: &[u8], i: usize, f: Fields, left: u8) -> (r: Option<(Fields, usize)>)
    requires
        i <= s@.len(),
    ensures
        (match spec_parse_fields_tail(s@, i as int, f@, left as nat) {
            Some(p) => r matches Some(q) && q.0@ == p.0 && q.1 == p.1 && q.1 <= s@.len(),
            None => r is None,
        }),
    decreases left,
{
    let j = skip_ws(s, i);
    if j < s.len() && s[j] == 125 {
        Some((f, j + 1))
    } else if j < s.len() && s[j] == 44 && left > 0 {
        let k = skip_ws(s, j + 1);
        match parse_field(s, k, f) {
            Some((f2, e2)) => parse_fields_tail(s, e2, f2, left - 1),
            None => None,
        }
    } else {
        None
    }
}

/// The body of a request object after its opening brace.
fn parse_fields(s: &[u8], i: usize) -> (r: Option<(Fields, usize)>)
    requires
        i <= s@.len(),
    ensures
        (match spec_parse_fields(s@, i as int) {
            Some(p) => r matches Some(q) && q.0@ == p.0 && q.1 == p.1 && q.1 <= s@.len(),
            None => r is None,
        }),
{
    let j = skip_ws(s, i);
    if j < s.len() && s[j] == 125 {
        Some((Fields::empty(), j + 1))
    } else {
        match parse_field(s, j, Fields::empty()) {
            Some((f1, e1)) => parse_fields_tail(s, e1, f1, 2),
            None => None,
        }
    }
}

/// Assemble a command from the operation name and the collected fields.
fn build_command(name: &Vec<u8>, f: Fields) -> (r: Option<VolumeCommand>)
    ensures
        (match spec_build_command(name@, f@) {
            Some(v) => r matches Some(c) && c@ == v,
            None => r is None,
        }),
{
    let rid = match f.request_id {
        Some(rid) => rid,
        None => Vec::new(),
    };
    let id_str = f.id_str;
    let id_num = f.id_num;
    let volume = f.volume;
    let t_dgv: Vec<u8> = vec![
        100u8,
        101,
        118,
        105,
        99,
        101,
        95,
        103,
        101,
        116,
        95,
        118,
        111,
        108,
        117,
        109,
        101,
    ];
    let t_dsv: Vec<u8> = vec![
        100u8,
        101,
        118,
        105,
        99,
        101,
        95,
        115,
        101,
        116,
        95,
        118,
        111,
        108,
        117,
        109,
        101,
    ];
    let t_dm: Vec<u8> = vec![100u8, 101, 118, 105, 99, 101, 95, 109, 117, 116, 101];
    let t_du: Vec<u8> = vec![100u8, 101, 118, 105, 99, 101, 95, 117, 110, 109, 117, 116, 101];
    let t_ga: Vec<u8> = vec![103u8, 101, 116, 95, 97, 112, 112, 108, 105, 99, 97, 116, 105, 111, 110];
    let t_agi: Vec<u8> = vec![
        97u8,
        112,
        112,
        108,
        105,
        99,
        97,
        116,
        105,
        111,
        110,
        95,
        103,
        101,
        116,
        95,
        105,
        99,
        111,
        110,
    ];
    let t_agv: Vec<u8> = vec![
        97u8,
        112,
        112,
        108,
        105,
        99,
        97,
        116,
        105,
        111,
        110,
        95,
        103,
        101,
        116,
        95,
        118,
        111,
        108,
        117,
        109,
        101,
    ];
    let t_asv: Vec<u8> = vec![
        97u8,
        112,
        112,
        108,
        105,
        99,
        97,
        116,
        105,
        111,
        110,
        95,
        115,
        101,
        116,
        95,
        118,
        111,
        108,
        117,
        109,
        101,
    ];
    let t_am: Vec<u8> = vec![
        97u8,
        112,
        112,
        108,
        105,
        99,
        97,
        116,
        105,
        111,
        110,
        95,
        109,
        117,
        116,
        101,
    ];
    let t_au: Vec<u8> = vec![
        97u8,
        112,
        112,
        108,
        105,
        99,
        97,
        116,
        105,
        111,
        110,
        95,
        117,
        110,
        109,
        117,
        116,
        101,
    ];
    let t_gda: Vec<u8> = vec![
        103u8,
        101,
        116,
        95,
        100,
        101,
        118,
        105,
        99,
        101,
        95,
        97,
        112,
        112,
        108,
        105,
        99,
        97,
        116,
        105,
        111,
        110,
        115,
    ];
    let t_gpd: Vec<u8> = vec![
        103u8,
        101,
        116,
        95,
        112,
        108,
        97,
        121,
        98,
        97,
        99,
        107,
        95,
        100,
        101,
        118,
        105,
        99,
        101,
        115,
    ];
    proof {
        assert(t_dgv@ =~= crate::volume::spec_op_device_get_volume());
        assert(t_dsv@ =~= crate::volume::spec_op_device_set_volume());
        assert(t_dm@ =~= crate::volume::spec_op_device_mute());
        assert(t_du@ =~= crate::volume::spec_op_device_unmute());
        assert(t_ga@ =~= crate::volume::spec_op_get_application());
        assert(t_agi@ =~= crate::volume::spec_op_application_get_icon());
        assert(t_agv@ =~= crate::volume::spec_op_application_get_volume());
        assert(t_asv@ =~= crate::volume::spec_op_application_set_volume());
        assert(t_am@ =~= crate::volume::spec_op_application_mute());
        assert(t_au@ =~= crate::volume::spec_op_application_unmute());
        assert(t_gda@ =~= crate::volume::spec_op_get_device_applications());
        assert(t_gpd@ =~= crate::volume::spec_op_get_playback_devices());
    }
    if bytes_eq(name.as_slice(), t_dgv.as_slice()) {
        match id_str {
            Some(id) => Some(VolumeCommand::DeviceGetVolume { request_id: rid, id }),
            None => None,
        }
    } else if bytes_eq(name.as_slice(), t_dsv.as_slice()) {
        match (id_str, volume) {
            (Some(id), Some(m)) => Some(
                VolumeCommand::DeviceSetVolume {
                    request_id: rid,
                    id,
                    volume: VolumePercent { micros: m },
                },
            ),
            _ => None,
        }
    } else if bytes_eq(name.as_slice(), t_dm.as_slice()) {
        match id_str {
            Some(id) => Some(VolumeCommand::DeviceMute { request_id: rid, id }),
            None => None,
        }
    } else if bytes_eq(name.as_slice(), t_du.as_slice()) {
        match id_str {
            Some(id) => Some(VolumeCommand::DeviceUnmute { request_id: rid, id }),
            None => None,
        }
    } else if bytes_eq(name.as_slice(), t_ga.as_slice()) {
        match id_num {
            Some(id) => Some(VolumeCommand::GetApplication { request_id: rid, id }),
            None => None,
        }
    } else if bytes_eq(name.as_slice(), t_agi.as_slice()) {
        match id_num {
            Some(id) => Some(VolumeCommand::ApplicationGetIcon { request_id: rid, id }),
            None => None,
        }
    } else if bytes_eq(name.as_slice(), t_agv.as_slice()) {
        match id_num {
            Some(id) => Some(VolumeCommand::ApplicationGetVolume { request_id: rid, id }),
            None => None,
        }
    } else if bytes_eq(name.as_slice(), t_asv.as_slice()) {
        match (id_num, volume) {
            (Some(id), Some(m)) => Some(
                VolumeCommand::ApplicationSetVolume {
                    request_id: rid,
                    id,
                    volume: VolumePercent { micros: m },
                },
            ),
            _ => None,
        }
    } else if bytes_eq(name.as_slice(), t_am.as_slice()) {
        match id_num {
            Some(id) => Some(VolumeCommand::ApplicationMute { request_id: rid, id }),
            None => None,
        }
    } else if bytes_eq(name.as_slice(), t_au.as_slice()) {
        match id_num {
            Some(id) => Some(VolumeCommand::ApplicationUnmute { request_id: rid, id }),
            None => None,
        }
    } else if bytes_eq(name.as_slice(), t_gda.as_slice()) {
        match id_str {
            Some(id) => Some(VolumeCommand::GetDeviceApplications { request_id: rid, id }),
            None => None,
        }
    } else if bytes_eq(name.as_slice(), t_gpd.as_slice()) {
        Some(VolumeCommand::GetPlaybackDevices { request_id: rid })
    } else {
        None
    }
}

/// Parse a whole request message. A message outside the grammar is refused
/// with a `SerdeError`; the connection that carried it stays open with the
/// caller.
pub fn parse_command(s: &[u8]) -> (r: Result<VolumeCommand, VolumeControllerError>)
    ensures
        (match spec_parse_command(s@) {
            Some(v) => r matches Ok(c) && c@ == v,
            None => r matches Err(e) && e is SerdeError,
        }),
{
    let malformed: Vec<u8> = vec![
        109u8,
        97,
        108,
        102,
        111,
        114,
        109,
        101,
        100,
        32,
        109,
        101,
        115,
        115,
        97,
        103,
        101,
    ];
    let i0 = skip_ws(s, 0);
    if !(i0 < s.len() && s[i0] == 123) {
        return Err(VolumeControllerError::SerdeError(malformed));
    }
    let i1 = skip_ws(s, i0 + 1);
    if !(i1 < s.len() && s[i1] == 34) {
        return Err(VolumeControllerError::SerdeError(malformed));
    }
    proof {
        lemma_parse_string_bounds(s@, i1 + 1);
    }
    let (name, i2) = match parse_string(s, i1 + 1) {
        Some(p) => p,
        None => {
            return Err(VolumeControllerError::SerdeError(malformed));
        },
    };
    let i3 = skip_ws(s, i2);
    if !(i3 < s.len() && s[i3] == 58) {
        return Err(VolumeControllerError::SerdeError(malformed));
    }
    let i4 = skip_ws(s, i3 + 1);
    if !(i4 < s.len() && s[i4] == 123) {
        return Err(VolumeControllerError::SerdeError(malformed));
    }
    let (f, i5) = match parse_fields(s, i4 + 1) {
        Some(p) => p,
        None => {
            return Err(VolumeControllerError::SerdeError(malformed));
        },
    };
    let i6 = skip_ws(s, i5);
    if !(i6 < s.len() && s[i6] == 125) {
        return Err(VolumeControllerError::SerdeError(malformed));
    }
    let i7 = skip_ws(s, i6 + 1);
    if i7 != s.len() {
        return Err(VolumeControllerError::SerdeError(malformed));
    }
    match build_command(&name, f) {
        Some(c) => Ok(c),
        None => Err(VolumeControllerError::SerdeError(malformed)),
    }
}


// ---------------------------------------------------------------------------
// Round trip: parsing a rendered command yields the command back
// ---------------------------------------------------------------------------
/// Escaping is the identity on strings without quotes or backslashes.
pub proof fn lemma_escape_no_specials(x: Seq<u8>)
    requires
        forall|k: int| 0 <= k < x.len() ==> x[k] != 34 && x[k] != 92,
    ensures
        spec_escape(x) == x,
    decreases x.len(),
{
    if x.len() == 0 {
        assert(spec_escape(x) =~= x);
    } else {
        lemma_escape_no_specials(x.drop_first());
        assert(x[0] != 34 && x[0] != 92);
        assert(spec_escape(x) == seq![x[0]] + x.drop_first());
        assert(seq![x[0]] + x.drop_first() =~= x);
    }
}

/// Parsing an escaped string body followed by its closing quote recovers the
/// string.
pub proof fn lemma_parse_string_render(s: Seq<u8>, i: int, x: Seq<u8>)
    requires
        0 <= i,
        i + spec_escape(x).len() + 1 <= s.len(),
        s.subrange(i, i + spec_escape(x).len() + 1) == spec_escape(x) + seq![34u8],
    ensures
        spec_parse_string(s, i) == Some((x, i + spec_escape(x).len() + 1)),
    decreases x.len(),
{
    let seg = s.subrange(i, i + spec_escape(x).len() + 1);
    if x.len() == 0 {
        assert(spec_escape(x) =~= Seq::<u8>::empty());
        assert(seg[0] == s[i]);
        assert(seg =~= seq![34u8]);
        assert(s[i] == 34);
    } else {
        let t = x.drop_first();
        let h = x[0];
        let hseq = if h == 34 || h == 92 {
            seq![92u8, h]
        } else {
            seq![h]
        };
        assert(spec_escape(x) == hseq + spec_escape(t));
        let hl = hseq.len() as int;
        let tl = spec_escape(t).len() as int;
        assert(s.subrange(i + hl, i + hl + tl + 1) =~= spec_escape(t) + seq![34u8]) by {
            assert(forall|k: int|
                0 <= k < tl + 1 ==> #[trigger] s.subrange(i + hl, i + hl + tl + 1)[k] == seg[hl
                    + k]);
            assert(forall|k: int|
                0 <= k < tl ==> #[trigger] (spec_escape(t) + seq![34u8])[k] == spec_escape(t)[k]
                    && seg[hl + k] == spec_escape(x)[hl + k] && spec_escape(x)[hl + k]
                    == spec_escape(t)[k]);
            assert(seg[hl + tl] == 34);
        }
        lemma_parse_string_render(s, i + hl, t);
        if h == 34 || h == 92 {
            assert(s[i] == seg[0] && seg[0] == spec_escape(x)[0] && spec_escape(x)[0] == 92);
            assert(s[i + 1] == seg[1] && seg[1] == spec_escape(x)[1] && spec_escape(x)[1] == h);
            assert(s[i] == 92);
            let r = spec_parse_string(s, i + 2).unwrap();
            assert(r.0 == t && r.1 == i + hl + tl + 1);
            assert(seq![s[i + 1]] + t =~= x);
        } else {
            assert(s[i] == seg[0] && seg[0] == spec_escape(x)[0] && spec_escape(x)[0] == h);
            assert(s[i] != 34 && s[i] != 92);
            let r = spec_parse_string(s, i + 1).unwrap();
            assert(r.0 == t && r.1 == i + hl + tl + 1);
            assert(seq![s[i]] + t =~= x);
        }
    }
}

/// Every digit of the padded form is a digit, and its value is `f`.
pub proof fn lemma_pad_digits_value(f: nat, k: nat)
    requires
        f < pow10(k),
    ensures
        forall|j: int|
            0 <= j < k ==> is_digit(#[trigger] spec_pad_digits(f, k)[j]),
        seq_dec_val(spec_pad_digits(f, k)) == f,
    decreases k,
{
    lemma_pad_digits_len(f, k);
    if k == 0 {
        assert(pow10(0) == 1);
        assert(seq_dec_val(spec_pad_digits(f, k)) == 0);
    } else {
        assert(pow10(k) == 10 * pow10((k - 1) as nat));
        assert(f / 10 < pow10((k - 1) as nat));
        lemma_pad_digits_value(f / 10, (k - 1) as nat);
        lemma_pad_digits_len(f / 10, (k - 1) as nat);
        let d = spec_pad_digits(f, k);
        let e = spec_pad_digits(f / 10, (k - 1) as nat);
        assert(d == e.push((48 + f % 10) as u8));
        assert(d.drop_last() =~= e);
        assert(d.last() == (48 + f % 10) as u8);
        assert(seq_dec_val(d) == seq_dec_val(e) * 10 + (d.last() - 48));
        assert(forall|j: int| 0 <= j < k - 1 ==> d[j] == e[j]);
    }
}

/// Stripping the trailing zeros of the padded form keeps its value exactly,
/// up to the removed power of ten.
pub proof fn lemma_strip_pad(f: nat, k: nat)
    requires
        1 <= k,
        0 < f,
        f < pow10(k),
    ensures
        ({
            let r = spec_strip_zeros(spec_pad_digits(f, k));
            &&& 1 <= r.len() <= k
            &&& (forall|j: int| 0 <= j < r.len() ==> is_digit(#[trigger] r[j]))
            &&& seq_dec_val(r) * pow10((k - r.len()) as nat) == f
        }),
    decreases k,
{
    lemma_pad_digits_len(f, k);
    lemma_pad_digits_value(f, k);
    let d = spec_pad_digits(f, k);
    if f % 10 != 0 {
        assert(d.last() == (48 + f % 10) as u8);
        assert(d.last() != 48);
        assert(spec_strip_zeros(d) == d);
        assert(seq_dec_val(d) * pow10(0) == seq_dec_val(d)) by (nonlinear_arith)
            requires
                pow10(0) == 1,
        ;
        assert(pow10(0) == 1);
    } else {
        // f > 0 and divisible by ten, so k >= 2 and f / 10 > 0
        assert(d.last() == (48 + f % 10) as u8);
        assert(d.last() == 48);
        let e = spec_pad_digits(f / 10, (k - 1) as nat);
        assert(d.drop_last() =~= e);
        assert(spec_strip_zeros(d) == spec_strip_zeros(e));
        assert(f / 10 > 0);
        if k == 1 {
            assert(pow10(1) == 10 * pow10(0));
            assert(pow10(0) == 1);
            assert(f < 10);
            assert(f / 10 == 0);
            assert(false);
        }
        assert(pow10(k) == 10 * pow10((k - 1) as nat));
        assert(f / 10 < pow10((k - 1) as nat));
        lemma_strip_pad(f / 10, (k - 1) as nat);
        let r = spec_strip_zeros(e);
        assert(seq_dec_val(r) * pow10((k - 1 - r.len()) as nat) == f / 10);
        let v = seq_dec_val(r);
        let p = pow10((k - 1 - r.len()) as nat);
        assert(pow10((k - r.len()) as nat) == 10 * p);
        assert(v * (10 * p) == (v * p) * 10) by (nonlinear_arith);
        assert((f / 10) * 10 == f);
    }
}

/// Parsing a rendered volume recovers its integer and fraction parts.
pub proof fn lemma_parse_number_render(s: Seq<u8>, i: int, m: u64)
    requires
        0 <= i,
        m <= 4294967295999999,
        i + spec_render_volume(VolumePercent { micros: m }).len() <= s.len(),
        s.subrange(i, i + spec_render_volume(VolumePercent { micros: m }).len() as int)
            == spec_render_volume(VolumePercent { micros: m }),
        ({
            let e = i + spec_render_volume(VolumePercent { micros: m }).len() as int;
            e == s.len() || (!is_digit(s[e]) && s[e] != 46)
        }),
    ensures
        ({
            let l = spec_render_volume(VolumePercent { micros: m }).len() as int;
            spec_parse_number(s, i) == Some(
                (
                    (m / 1000000) as nat,
                    (m % 1000000) as nat,
                    true,
                    i + l,
                ),
            )
        }),
{
    lemma_pow10_values();
    let ip = (m / 1000000) as nat;
    let fr = (m % 1000000) as nat;
    let seg = spec_render_volume(VolumePercent { micros: m });
    let dd = spec_dec_digits(ip);
    let fs = spec_frac_digits(fr);
    let dl = dd.len() as int;
    let fl = fs.len() as int;
    assert(seg == dd + seq![46u8] + fs);
    assert(seg.len() == dl + 1 + fl);
    lemma_dec_digits_props(ip);
    assert(ip < pow10(10));
    lemma_dec_digits_len(ip, 10);
    // the digits of the fraction part
    let fval: int = if fr == 0 {
        0
    } else {
        seq_dec_val(fs)
    };
    if fr == 0 {
        assert(fs =~= seq![48u8]);
        assert(forall|j: int| 0 <= j < fs.len() ==> is_digit(#[trigger] fs[j]));
    } else {
        lemma_strip_pad(fr, 6);
    }
    // integer digit run
    assert(forall|k: int| 0 <= k < seg.len() ==> s[i + k] == seg[k]);
    assert(forall|k: int| 0 <= k < dl ==> seg[k] == dd[k]);
    assert(seg[dl] == 46);
    assert(forall|k: int| 0 <= k < fl ==> seg[dl + 1 + k] == fs[k]);
    assert forall|j: int| i <= j < i + dl implies is_digit(s[j]) by {
        let k = j - i;
        assert(s[i + k] == seg[k]);
        assert(seg[k] == dd[k]);
        assert(is_digit(dd[k]));
    }
    assert(s[i + dl] == seg[dl]);
    assert(!is_digit(s[i + dl]));
    lemma_digits_value_forward(s, i, dl, 0);
    assert(s.subrange(i, i + dl) =~= dd);
    assert(0 * pow10(dl as nat) == 0) by (nonlinear_arith);
    assert(spec_digits_value(s, i, 0) == ip);
    assert(spec_digits_end(s, i) == i + dl);
    assert(1 <= dl <= 10);
    assert(ip <= 0xFFFFFFFF);
    // fraction digit run
    let fstart = i + dl + 1;
    assert forall|j: int| fstart <= j < fstart + fl implies is_digit(s[j]) by {
        let k = j - fstart;
        assert(s[i + (dl + 1 + k)] == seg[dl + 1 + k]);
        assert(seg[dl + 1 + k] == fs[k]);
        assert(is_digit(fs[k]));
    }
    assert(fstart + fl == s.len() || !is_digit(s[fstart + fl]));
    lemma_digits_value_forward(s, fstart, fl, 0);
    assert(s.subrange(fstart, fstart + fl) =~= fs);
    assert(0 * pow10(fl as nat) == 0) by (nonlinear_arith);
    assert(spec_digits_end(s, fstart) == fstart + fl);
    assert(spec_digits_value(s, fstart, 0) == seq_dec_val(fs));
    assert(1 <= fl <= 6);
    // the scaled fraction value equals the stored fraction
    if fr == 0 {
        assert(fs.drop_last() =~= Seq::<u8>::empty());
        assert(fs.drop_last() == Seq::<u8>::empty());
        assert(seq_dec_val(Seq::<u8>::empty()) == 0);
        assert(fs.last() == 48);
        assert(seq_dec_val(fs) == seq_dec_val(fs.drop_last()) * 10 + (fs.last() - 48));
        assert(seq_dec_val(fs) == 0);
        assert(0 * pow10((6 - fl) as nat) == 0) by (nonlinear_arith);
    } else {
        assert(seq_dec_val(fs) * pow10((6 - fl) as nat) == fr);
    }
    assert(s[i + dl] == 46);
}


/// A piece of a concatenation known to sit at `i` is itself a slice of `s`.
proof fn lemma_slice_piece(s: Seq<u8>, i: int, l: int, seg: Seq<u8>, off: int, piece: Seq<u8>)
    requires
        0 <= i,
        i + l <= s.len(),
        l == seg.len(),
        s.subrange(i, i + l) == seg,
        0 <= off,
        off + piece.len() <= l,
        forall|k: int| 0 <= k < piece.len() ==> seg[off + k] == #[trigger] piece[k],
    ensures
        s.subrange(i + off, i + off + piece.len() as int) == piece,
{
    assert(forall|j: int| 0 <= j < l ==> #[trigger] seg[j] == s.subrange(i, i + l)[j]);
    assert(forall|j: int| 0 <= j < l ==> #[trigger] seg[j] == s[i + j]);
    assert(s.subrange(i + off, i + off + piece.len() as int) =~= piece) by {
        assert(forall|k: int|
            0 <= k < piece.len() ==> #[trigger] s.subrange(
                i + off,
                i + off + piece.len() as int,
            )[k] == s[i + off + k]);
    }
}

/// Parsing a rendered string field `"name":"value"` records the value.
proof fn lemma_parse_field_string(s: Seq<u8>, i: int, f: FieldsView, name: Seq<u8>, val: Seq<u8>)
    requires
        0 <= i,
        forall|k: int| 0 <= k < name.len() ==> name[k] != 34 && name[k] != 92,
        i + name.len() + 3 + spec_escape(val).len() + 2 <= s.len(),
        s.subrange(i, i + name.len() + 3 + spec_escape(val).len() + 2) == spec_quote(name)
            + seq![58u8] + spec_quote(val),
        spec_apply_string_field(f, name, val) is Some,
    ensures
        spec_parse_field(s, i, f) == Some(
            (
                spec_apply_string_field(f, name, val).unwrap(),
                i + name.len() + 3 + spec_escape(val).len() + 2,
            ),
        ),
{
    lemma_escape_no_specials(name);
    let a = spec_quote(name);
    let b = seq![58u8];
    let c = spec_quote(val);
    let nl = name.len() as int;
    let l = nl + 3 + spec_escape(val).len() + 2;
    let seg = a + b + c;
    assert(a == seq![34u8] + spec_escape(name) + seq![34u8]);
    assert(a.len() == nl + 2);
    assert(seg.len() == l);
    assert(forall|j: int| 0 <= j < l ==> #[trigger] seg[j] == s[i + j]) by {
        assert(forall|j: int| 0 <= j < l ==> #[trigger] seg[j] == s.subrange(i, i + l)[j]);
    }
    // the name string
    assert(seg[0] == 34) by {
        assert((a + b + c)[0] == a[0]);
        assert((seq![34u8] + spec_escape(name) + seq![34u8])[0] == 34);
    }
    assert(s[i] == 34);
    assert forall|k: int| 0 <= k < nl + 1 implies seg[1 + k] == (name + seq![34u8])[k] by {
        assert((a + b + c)[1 + k] == a[1 + k]);
        assert((seq![34u8] + spec_escape(name) + seq![34u8])[1 + k] == (name + seq![34u8])[k]);
    }
    lemma_slice_piece(s, i, l, seg, 1, name + seq![34u8]);
    assert(spec_escape(name) + seq![34u8] =~= name + seq![34u8]);
    lemma_parse_string_render(s, i + 1, name);
    let p1 = i + nl + 2;
    assert(spec_parse_string(s, i + 1) == Some((name, p1)));
    // the colon
    assert(seg[nl + 2] == 58) by {
        assert((a + b + c)[nl + 2] == b[0]);
    }
    assert(s[p1] == 58);
    assert(!is_ws(s[p1]));
    assert(spec_skip_ws(s, p1) == p1);
    // the value string
    assert(seg[nl + 3] == 34) by {
        assert((a + b + c)[nl + 3] == c[0]);
        assert((seq![34u8] + spec_escape(val) + seq![34u8])[0] == 34);
    }
    assert(s[p1 + 1] == 34);
    assert(!is_ws(s[p1 + 1]));
    assert(spec_skip_ws(s, p1 + 1) == p1 + 1);
    assert forall|k: int|
        0 <= k < spec_escape(val).len() + 1 implies seg[nl + 4 + k] == (spec_escape(val)
        + seq![34u8])[k] by {
        assert((a + b + c)[nl + 4 + k] == c[1 + k]);
        assert((seq![34u8] + spec_escape(val) + seq![34u8])[1 + k] == (spec_escape(val)
            + seq![34u8])[k]);
    }
    lemma_slice_piece(s, i, l, seg, nl + 4, spec_escape(val) + seq![34u8]);
    lemma_parse_string_render(s, p1 + 2, val);
    assert(spec_parse_string(s, p1 + 2) == Some((val, i + l)));
}

/// Parsing a rendered integer field `"name":n` records the number.
proof fn lemma_parse_field_int(s: Seq<u8>, i: int, f: FieldsView, name: Seq<u8>, n: u32)
    requires
        0 <= i,
        forall|k: int| 0 <= k < name.len() ==> name[k] != 34 && name[k] != 92,
        i + name.len() + 3 + spec_dec_digits(n as nat).len() <= s.len(),
        s.subrange(i, i + name.len() + 3 + spec_dec_digits(n as nat).len()) == spec_quote(name)
            + seq![58u8] + spec_dec_digits(n as nat),
        ({
            let e = i + name.len() + 3 + spec_dec_digits(n as nat).len() as int;
            e == s.len() || (!is_digit(s[e]) && s[e] != 46)
        }),
        spec_apply_number_field(f, name, n as nat, 0, false) is Some,
    ensures
        spec_parse_field(s, i, f) == Some(
            (
                spec_apply_number_field(f, name, n as nat, 0, false).unwrap(),
                i + name.len() + 3 + spec_dec_digits(n as nat).len(),
            ),
        ),
{
    lemma_escape_no_specials(name);
    lemma_dec_digits_props(n as nat);
    lemma_pow10_values();
    lemma_dec_digits_len(n as nat, 10);
    let dd = spec_dec_digits(n as nat);
    let dl = dd.len() as int;
    let a = spec_quote(name);
    let b = seq![58u8];
    let nl = name.len() as int;
    let l = nl + 3 + dl;
    let seg = a + b + dd;
    assert(a == seq![34u8] + spec_escape(name) + seq![34u8]);
    assert(a.len() == nl + 2);
    assert(seg.len() == l);
    assert(forall|j: int| 0 <= j < l ==> #[trigger] seg[j] == s[i + j]) by {
        assert(forall|j: int| 0 <= j < l ==> #[trigger] seg[j] == s.subrange(i, i + l)[j]);
    }
    // the name string
    assert(seg[0] == 34) by {
        assert((a + b + dd)[0] == a[0]);
        assert((seq![34u8] + spec_escape(name) + seq![34u8])[0] == 34);
    }
    assert(s[i] == 34);
    assert forall|k: int| 0 <= k < nl + 1 implies seg[1 + k] == (name + seq![34u8])[k] by {
        assert((a + b + dd)[1 + k] == a[1 + k]);
        assert((seq![34u8] + spec_escape(name) + seq![34u8])[1 + k] == (name + seq![34u8])[k]);
    }
    lemma_slice_piece(s, i, l, seg, 1, name + seq![34u8]);
    assert(spec_escape(name) + seq![34u8] =~= name + seq![34u8]);
    lemma_parse_string_render(s, i + 1, name);
    let p1 = i + nl + 2;
    // the colon
    assert(seg[nl + 2] == 58) by {
        assert((a + b + dd)[nl + 2] == b[0]);
    }
    assert(s[p1] == 58);
    assert(spec_skip_ws(s, p1) == p1);
    // the number
    let v = p1 + 1;
    assert forall|k: int| 0 <= k < dl implies seg[nl + 3 + k] == dd[k] by {
        assert((a + b + dd)[nl + 3 + k] == dd[k]);
    }
    assert(s[v] == dd[0]);
    assert(is_digit(dd[0]));
    assert(s[v] != 34);
    assert(!is_ws(s[v]));
    assert(spec_skip_ws(s, v) == v);
    assert forall|j: int| v <= j < v + dl implies is_digit(s[j]) by {
        let k = j - v;
        assert(s[i + (nl + 3 + k)] == seg[nl + 3 + k]);
        assert(seg[nl + 3 + k] == dd[k]);
        assert(is_digit(dd[k]));
    }
    assert(v + dl == s.len() || !is_digit(s[v + dl]));
    lemma_digits_value_forward(s, v, dl, 0);
    assert(s.subrange(v, v + dl) =~= dd);
    assert(0 * pow10(dl as nat) == 0) by (nonlinear_arith);
    assert(spec_digits_value(s, v, 0) == n as nat);
    assert(spec_digits_end(s, v) == v + dl);
    assert(1 <= dl <= 10);
    assert(v + dl == s.len() || s[v + dl] != 46);
    assert(spec_parse_number(s, v) == Some((n as nat, 0nat, false, v + dl)));
}

/// Parsing a rendered volume field `"name":x.y` records the level.
proof fn lemma_parse_field_volume(s: Seq<u8>, i: int, f: FieldsView, name: Seq<u8>, m: u64)
    requires
        0 <= i,
        m <= 4294967295999999,
        forall|k: int| 0 <= k < name.len() ==> name[k] != 34 && name[k] != 92,
        i + name.len() + 3 + spec_render_volume(VolumePercent { micros: m }).len() <= s.len(),
        s.subrange(i, i + name.len() + 3 + spec_render_volume(VolumePercent { micros: m }).len())
            == spec_quote(name) + seq![58u8] + spec_render_volume(VolumePercent { micros: m }),
        ({
            let e = i + name.len() + 3 + spec_render_volume(
                VolumePercent { micros: m },
            ).len() as int;
            e == s.len() || (!is_digit(s[e]) && s[e] != 46)
        }),
        spec_apply_number_field(
            f,
            name,
            (m / 1000000) as nat,
            (m % 1000000) as nat,
            true,
        ) is Some,
    ensures
        spec_parse_field(s, i, f) == Some(
            (
                spec_apply_number_field(
                    f,
                    name,
                    (m / 1000000) as nat,
                    (m % 1000000) as nat,
                    true,
                ).unwrap(),
                i + name.len() + 3 + spec_render_volume(VolumePercent { micros: m }).len(),
            ),
        ),
{
    lemma_escape_no_specials(name);
    let vv = spec_render_volume(VolumePercent { micros: m });
    let vl = vv.len() as int;
    let a = spec_quote(name);
    let b = seq![58u8];
    let nl = name.len() as int;
    let l = nl + 3 + vl;
    let seg = a + b + vv;
    assert(a == seq![34u8] + spec_escape(name) + seq![34u8]);
    assert(a.len() == nl + 2);
    assert(seg.len() == l);
    assert(forall|j: int| 0 <= j < l ==> #[trigger] seg[j] == s[i + j]) by {
        assert(forall|j: int| 0 <= j < l ==> #[trigger] seg[j] == s.subrange(i, i + l)[j]);
    }
    // the name string
    assert(seg[0] == 34) by {
        assert((a + b + vv)[0] == a[0]);
        assert((seq![34u8] + spec_escape(name) + seq![34u8])[0] == 34);
    }
    assert(s[i] == 34);
    assert forall|k: int| 0 <= k < nl + 1 implies seg[1 + k] == (name + seq![34u8])[k] by {
        assert((a + b + vv)[1 + k] == a[1 + k]);
        assert((seq![34u8] + spec_escape(name) + seq![34u8])[1 + k] == (name + seq![34u8])[k]);
    }
    lemma_slice_piece(s, i, l, seg, 1, name + seq![34u8]);
    assert(spec_escape(name) + seq![34u8] =~= name + seq![34u8]);
    lemma_parse_string_render(s, i + 1, name);
    let p1 = i + nl + 2;
    // the colon
    assert(seg[nl + 2] == 58) by {
        assert((a + b + vv)[nl + 2] == b[0]);
    }
    assert(s[p1] == 58);
    assert(spec_skip_ws(s, p1) == p1);
    // the number
    let v = p1 + 1;
    assert forall|k: int| 0 <= k < vl implies seg[nl + 3 + k] == vv[k] by {
        assert((a + b + vv)[nl + 3 + k] == vv[k]);
    }
    lemma_slice_piece(s, i, l, seg, nl + 3, vv);
    lemma_dec_digits_props((m / 1000000) as nat);
    assert(vv[0] == spec_dec_digits((m / 1000000) as nat)[0]) by {
        assert((spec_dec_digits((m / 1000000) as nat) + seq![46u8] + spec_frac_digits(
            (m % 1000000) as nat,
        ))[0] == spec_dec_digits((m / 1000000) as nat)[0]);
    }
    assert(is_digit(vv[0]));
    assert(s[v] == vv[0]);
    assert(s[v] != 34);
    assert(!is_ws(s[v]));
    assert(spec_skip_ws(s, v) == v);
    lemma_parse_number_render(s, v, m);
}

/// Parsing a rendered field object (and its closing brace) collects exactly
/// the rendered fields.
#[verifier::rlimit(100)]
proof fn lemma_parse_fields_render(
    s: Seq<u8>,
    i: int,
    rid: Seq<u8>,
    idf: IdArgView,
    vol: Option<VolumePercent>,
)
    requires
        0 <= i,
        (vol matches Some(v) ==> v.micros <= 4294967295999999),
        i + spec_render_fields(rid, idf, vol).len() + 1 <= s.len(),
        s.subrange(i, i + spec_render_fields(rid, idf, vol).len() + 1) == spec_render_fields(
            rid,
            idf,
            vol,
        ) + seq![125u8],
    ensures
        spec_parse_fields(s, i) == Some(
            (
                FieldsView {
                    request_id: Some(rid),
                    id_str: (match idf {
                        IdArgView::StrId(id) => Some(id),
                        _ => None,
                    }),
                    id_num: (match idf {
                        IdArgView::NumId(id) => Some(id),
                        _ => None,
                    }),
                    volume: (match vol {
                        Some(v) => Some(v.micros),
                        None => None,
                    }),
                },
                i + spec_render_fields(rid, idf, vol).len() + 1,
            ),
        ),
{
    let rf = spec_render_fields(rid, idf, vol);
    let l = rf.len() + 1;
    let seg = rf + seq![125u8];
    assert(seg.len() == l);
    assert(forall|j: int| 0 <= j < l ==> #[trigger] seg[j] == s[i + j]) by {
        assert(forall|j: int| 0 <= j < l ==> #[trigger] seg[j] == s.subrange(i, i + l as int)[j]);
    }
    lemma_escape_no_specials(spec_name_request_id());
    lemma_escape_no_specials(spec_name_id());
    lemma_escape_no_specials(spec_name_volume());
    let q_rid = spec_quote(spec_name_request_id()) + seq![58u8] + spec_quote(rid);
    let idp = spec_id_field(idf);
    let volp = spec_volume_field(vol);
    assert(rf == q_rid + idp + volp);
    let l1 = q_rid.len() as int;
    let l2 = idp.len() as int;
    let l3 = volp.len() as int;
    assert(forall|j: int| 0 <= j < l1 ==> #[trigger] rf[j] == q_rid[j]) by {
        assert(forall|j: int| 0 <= j < l1 ==> #[trigger] (q_rid + idp + volp)[j] == q_rid[j]);
    }
    assert(forall|j: int| 0 <= j < l2 ==> #[trigger] rf[l1 + j] == idp[j]) by {
        assert(forall|j: int|
            0 <= j < l2 ==> #[trigger] (q_rid + idp + volp)[l1 + j] == idp[j]);
    }
    assert(forall|j: int| 0 <= j < l3 ==> #[trigger] rf[l1 + l2 + j] == volp[j]) by {
        assert(forall|j: int|
            0 <= j < l3 ==> #[trigger] (q_rid + idp + volp)[l1 + l2 + j] == volp[j]);
    }
    assert(forall|j: int| 0 <= j < l - 1 ==> #[trigger] seg[j] == rf[j]) by {
        assert(forall|j: int| 0 <= j < l - 1 ==> #[trigger] (rf + seq![125u8])[j] == rf[j]);
    }
    assert(seg[l - 1] == 125) by {
        assert((rf + seq![125u8])[l - 1] == 125);
    }
    // the request id field
    assert(q_rid[0] == 34) by {
        assert((spec_quote(spec_name_request_id()) + seq![58u8] + spec_quote(rid))[0]
            == spec_quote(spec_name_request_id())[0]);
        assert((seq![34u8] + spec_escape(spec_name_request_id()) + seq![34u8])[0] == 34);
    }
    assert(seg[0] == rf[0]);
    assert(rf[0] == q_rid[0]);
    assert(s[i] == seg[0]);
    assert(s[i] == 34);
    assert(!is_ws(s[i]));
    assert(spec_skip_ws(s, i) == i);
    assert(s[i] != 125);
    let f0 = spec_fields_empty();
    assert(forall|k: int|
        0 <= k < spec_name_request_id().len() ==> #[trigger] spec_name_request_id()[k] != 34
            && spec_name_request_id()[k] != 92);
    assert forall|k: int| 0 <= k < l1 implies seg[k] == q_rid[k] by {
        assert(seg[k] == rf[k]);
    }
    lemma_slice_piece(s, i, l as int, seg, 0, q_rid);
    assert(spec_apply_string_field(f0, spec_name_request_id(), rid) is Some);
    lemma_parse_field_string(s, i, f0, spec_name_request_id(), rid);
    let f1 = spec_apply_string_field(f0, spec_name_request_id(), rid).unwrap();
    assert(f1 == FieldsView { request_id: Some(rid), id_str: None, id_num: None, volume: None });
    let e1 = i + l1;
    assert(spec_parse_field(s, i, f0) == Some((f1, e1)));
    // the id field, if any
    let e2 = e1 + l2;
    let f2 = match idf {
        IdArgView::NoId => f1,
        IdArgView::StrId(id) => FieldsView { id_str: Some(id), ..f1 },
        IdArgView::NumId(id) => FieldsView { id_num: Some(id), ..f1 },
    };
    match idf {
        IdArgView::NoId => {
            assert(idp =~= Seq::<u8>::empty());
            assert(e2 == e1);
        },
        IdArgView::StrId(id) => {
            let fs = spec_quote(spec_name_id()) + seq![58u8] + spec_quote(id);
            assert(idp == seq![44u8] + fs);
            assert(idp[0] == 44) by {
                assert((seq![44u8] + fs)[0] == 44);
            }
            assert(forall|k: int| 0 <= k < fs.len() ==> #[trigger] idp[1 + k] == fs[k]) by {
                assert(forall|k: int|
                    0 <= k < fs.len() ==> #[trigger] (seq![44u8] + fs)[1 + k] == fs[k]);
            }
            assert(s[e1] == seg[l1]);
            assert(seg[l1] == idp[0]);
            assert(s[e1] == 44);
            assert(!is_ws(s[e1]));
            assert(spec_skip_ws(s, e1) == e1);
            assert(fs[0] == 34) by {
                assert((spec_quote(spec_name_id()) + seq![58u8] + spec_quote(id))[0]
                    == spec_quote(spec_name_id())[0]);
                assert((seq![34u8] + spec_escape(spec_name_id()) + seq![34u8])[0] == 34);
            }
            assert(s[e1 + 1] == seg[l1 + 1]);
            assert(seg[l1 + 1] == idp[1]);
            assert(s[e1 + 1] == 34);
            assert(!is_ws(s[e1 + 1]));
            assert(spec_skip_ws(s, e1 + 1) == e1 + 1);
            assert forall|k: int| 0 <= k < fs.len() implies seg[l1 + 1 + k] == fs[k] by {
                assert(seg[l1 + 1 + k] == rf[l1 + 1 + k]);
                assert(rf[l1 + (1 + k)] == idp[1 + k]);
            }
            lemma_slice_piece(s, i, l as int, seg, l1 + 1, fs);
            assert(forall|k: int|
                0 <= k < spec_name_id().len() ==> #[trigger] spec_name_id()[k] != 34
                    && spec_name_id()[k] != 92);
            assert(spec_apply_string_field(f1, spec_name_id(), id) is Some);
            lemma_parse_field_string(s, e1 + 1, f1, spec_name_id(), id);
            assert(spec_parse_field(s, e1 + 1, f1) == Some((f2, e2)));
        },
        IdArgView::NumId(id) => {
            let fs = spec_quote(spec_name_id()) + seq![58u8] + spec_dec_digits(id as nat);
            assert(idp == seq![44u8] + fs);
            assert(idp[0] == 44) by {
                assert((seq![44u8] + fs)[0] == 44);
            }
            assert(forall|k: int| 0 <= k < fs.len() ==> #[trigger] idp[1 + k] == fs[k]) by {
                assert(forall|k: int|
                    0 <= k < fs.len() ==> #[trigger] (seq![44u8] + fs)[1 + k] == fs[k]);
            }
            assert(s[e1] == seg[l1]);
            assert(seg[l1] == idp[0]);
            assert(s[e1] == 44);
            assert(!is_ws(s[e1]));
            assert(spec_skip_ws(s, e1) == e1);
            assert(fs[0] == 34) by {
                assert((spec_quote(spec_name_id()) + seq![58u8] + spec_dec_digits(id as nat))[0]
                    == spec_quote(spec_name_id())[0]);
                assert((seq![34u8] + spec_escape(spec_name_id()) + seq![34u8])[0] == 34);
            }
            assert(s[e1 + 1] == seg[l1 + 1]);
            assert(seg[l1 + 1] == idp[1]);
            assert(s[e1 + 1] == 34);
            assert(spec_skip_ws(s, e1 + 1) == e1 + 1);
            assert forall|k: int| 0 <= k < fs.len() implies seg[l1 + 1 + k] == fs[k] by {
                assert(seg[l1 + 1 + k] == rf[l1 + 1 + k]);
                assert(rf[l1 + (1 + k)] == idp[1 + k]);
            }
            lemma_slice_piece(s, i, l as int, seg, l1 + 1, fs);
            assert(forall|k: int|
                0 <= k < spec_name_id().len() ==> #[trigger] spec_name_id()[k] != 34
                    && spec_name_id()[k] != 92);
            assert(spec_apply_number_field(f1, spec_name_id(), id as nat, 0, false) is Some);
            // the byte after the digits is a comma or the closing brace
            assert(s[e2] == seg[l1 + l2]);
            if l3 > 0 {
                assert(seg[l1 + l2] == volp[0]);
                assert(volp[0] == 44) by {
                    let v = vol.unwrap();
                    assert((seq![44u8] + (spec_quote(spec_name_volume()) + seq![58u8]
                        + spec_render_volume(v)))[0] == 44);
                    assert(volp == seq![44u8] + (spec_quote(spec_name_volume()) + seq![58u8]
                        + spec_render_volume(v)));
                }
            } else {
                assert(seg[l1 + l2] == 125);
            }
            assert(!is_digit(s[e2]) && s[e2] != 46);
            lemma_parse_field_int(s, e1 + 1, f1, spec_name_id(), id);
            assert(spec_parse_field(s, e1 + 1, f1) == Some((f2, e2)));
        },
    }
    // the volume field, if any
    let e3 = e2 + l3;
    let f3 = match vol {
        Some(v) => FieldsView { volume: Some(v.micros), ..f2 },
        None => f2,
    };
    match vol {
        None => {
            assert(volp =~= Seq::<u8>::empty());
            assert(e3 == e2);
        },
        Some(v) => {
            let fs = spec_quote(spec_name_volume()) + seq![58u8] + spec_render_volume(v);
            assert(volp == seq![44u8] + fs);
            assert(volp[0] == 44) by {
                assert((seq![44u8] + fs)[0] == 44);
            }
            assert(forall|k: int| 0 <= k < fs.len() ==> #[trigger] volp[1 + k] == fs[k]) by {
                assert(forall|k: int|
                    0 <= k < fs.len() ==> #[trigger] (seq![44u8] + fs)[1 + k] == fs[k]);
            }
            assert(s[e2] == seg[l1 + l2]);
            assert(seg[l1 + l2] == volp[0]);
            assert(s[e2] == 44);
            assert(!is_ws(s[e2]));
            assert(spec_skip_ws(s, e2) == e2);
            assert(fs[0] == 34) by {
                assert((spec_quote(spec_name_volume()) + seq![58u8] + spec_render_volume(v))[0]
                    == spec_quote(spec_name_volume())[0]);
                assert((seq![34u8] + spec_escape(spec_name_volume()) + seq![34u8])[0] == 34);
            }
            assert(s[e2 + 1] == seg[l1 + l2 + 1]);
            assert(seg[l1 + l2 + 1] == volp[1]);
            assert(s[e2 + 1] == 34);
            assert(spec_skip_ws(s, e2 + 1) == e2 + 1);
            assert forall|k: int| 0 <= k < fs.len() implies seg[l1 + l2 + 1 + k] == fs[k] by {
                assert(seg[l1 + l2 + 1 + k] == rf[l1 + l2 + 1 + k]);
                assert(rf[l1 + l2 + (1 + k)] == volp[1 + k]);
            }
            lemma_slice_piece(s, i, l as int, seg, l1 + l2 + 1, fs);
            assert(forall|k: int|
                0 <= k < spec_name_volume().len() ==> #[trigger] spec_name_volume()[k] != 34
                    && spec_name_volume()[k] != 92);
            assert(spec_apply_number_field(
                f2,
                spec_name_volume(),
                (v.micros / 1000000) as nat,
                (v.micros % 1000000) as nat,
                true,
            ) is Some);
            // the byte after the number is the closing brace
            assert(s[e3] == seg[l1 + l2 + l3]);
            assert(seg[l1 + l2 + l3] == 125);
            assert(!is_digit(s[e3]) && s[e3] != 46);
            lemma_parse_field_volume(s, e2 + 1, f2, spec_name_volume(), v.micros);
            assert((v.micros / 1000000) as nat * 1000000 + (v.micros % 1000000) as nat
                == v.micros);
            assert(spec_parse_field(s, e2 + 1, f2) == Some((f3, e3)));
        },
    }
    // the closing brace ends the object
    assert(s[e3] == seg[l1 + l2 + l3]);
    assert(seg[l1 + l2 + l3] == 125);
    assert(!is_ws(s[e3]));
    assert(spec_skip_ws(s, e3) == e3);
    // chain the tail parses
    match idf {
        IdArgView::NoId => {
            match vol {
                None => {
                    assert(spec_parse_fields_tail(s, e1, f1, 2) == Some((f1, e3 + 1)));
                },
                Some(v) => {
                    assert(spec_parse_fields_tail(s, e3, f3, 1) == Some((f3, e3 + 1)));
                    assert(spec_parse_fields_tail(s, e2, f2, 2) == Some((f3, e3 + 1)));
                },
            }
        },
        _ => {
            match vol {
                None => {
                    assert(spec_parse_fields_tail(s, e2, f2, 1) == Some((f3, e3 + 1)));
                    assert(spec_parse_fields_tail(s, e1, f1, 2) == Some((f3, e3 + 1)));
                },
                Some(v) => {
                    assert(spec_parse_fields_tail(s, e3, f3, 0) == Some((f3, e3 + 1)));
                    assert(spec_parse_fields_tail(s, e2, f2, 1) == Some((f3, e3 + 1)));
                    assert(spec_parse_fields_tail(s, e1, f1, 2) == Some((f3, e3 + 1)));
                },
            }
        },
    }
}


/// The field view that parsing a rendered command collects.
pub open spec fn spec_rendered_fields_view(c: CommandView) -> FieldsView {
    FieldsView {
        request_id: Some(c.request_id()),
        id_str: (match c.id_arg() {
            IdArgView::StrId(id) => Some(id),
            _ => None,
        }),
        id_num: (match c.id_arg() {
            IdArgView::NumId(id) => Some(id),
            _ => None,
        }),
        volume: (match c.volume_arg() {
            Some(v) => Some(v.micros),
            None => None,
        }),
    }
}

/// Parsing a rendered command reaches the builder with the operation name
/// and exactly the rendered fields.
#[verifier::rlimit(100)]
proof fn lemma_parse_render_structure(c: CommandView)
    requires
        (c.volume_arg() matches Some(v) ==> v.micros <= 4294967295999999),
        forall|k: int|
            0 <= k < c.op_name().len() ==> #[trigger] c.op_name()[k] != 34 && c.op_name()[k]
                != 92,
    ensures
        spec_parse_command(spec_render_command(c)) == spec_build_command(
            c.op_name(),
            spec_rendered_fields_view(c),
        ),
{
    let s = spec_render_command(c);
    let op = c.op_name();
    let qop = spec_quote(op);
    let rf = spec_render_fields(c.request_id(), c.id_arg(), c.volume_arg());
    lemma_escape_no_specials(op);
    let ol = op.len() as int;
    let hl = ol + 5;
    let l = s.len() as int;
    assert(qop.len() == ol + 2);
    assert(l == hl + rf.len() + 2);
    assert(s.subrange(0, l) =~= s);
    // head bytes
    assert(s[0] == 123) by {
        assert((seq![123u8] + qop + seq![58u8, 123u8] + rf + seq![125u8, 125u8])[0] == 123);
    }
    assert(!is_ws(s[0]));
    assert(spec_skip_ws(s, 0) == 0);
    assert(s[1] == 34) by {
        assert((seq![123u8] + qop + seq![58u8, 123u8] + rf + seq![125u8, 125u8])[1] == qop[0]);
        assert((seq![34u8] + spec_escape(op) + seq![34u8])[0] == 34);
    }
    assert(!is_ws(s[1]));
    assert(spec_skip_ws(s, 1) == 1);
    // the operation name string
    assert forall|k: int| 0 <= k < ol + 1 implies s[2 + k] == (spec_escape(op) + seq![34u8])[k] by {
        assert((seq![123u8] + qop + seq![58u8, 123u8] + rf + seq![125u8, 125u8])[2 + k] == qop[1
            + k]);
        assert((seq![34u8] + spec_escape(op) + seq![34u8])[1 + k] == (spec_escape(op)
            + seq![34u8])[k]);
    }
    lemma_slice_piece(s, 0, l, s, 2, spec_escape(op) + seq![34u8]);
    assert(s.subrange(2int, 2 + (spec_escape(op) + seq![34u8]).len() as int) == spec_escape(op)
        + seq![34u8]);
    lemma_parse_string_render(s, 2, op);
    let p1 = ol + 3;
    assert(spec_parse_string(s, 2) == Some((op, p1)));
    // colon and inner brace
    assert(s[p1] == 58) by {
        assert((seq![123u8] + qop + seq![58u8, 123u8] + rf + seq![125u8, 125u8])[p1]
            == seq![58u8, 123u8][0]);
    }
    assert(!is_ws(s[p1]));
    assert(spec_skip_ws(s, p1) == p1);
    assert(s[p1 + 1] == 123) by {
        assert((seq![123u8] + qop + seq![58u8, 123u8] + rf + seq![125u8, 125u8])[p1 + 1]
            == seq![58u8, 123u8][1]);
    }
    assert(!is_ws(s[p1 + 1]));
    assert(spec_skip_ws(s, p1 + 1) == p1 + 1);
    // the fields object
    assert forall|k: int| 0 <= k < rf.len() + 1 implies s[hl + k] == (rf + seq![125u8])[k] by {
        if k < rf.len() {
            assert((seq![123u8] + qop + seq![58u8, 123u8] + rf + seq![125u8, 125u8])[hl + k]
                == rf[k]);
            assert((rf + seq![125u8])[k] == rf[k]);
        } else {
            assert((seq![123u8] + qop + seq![58u8, 123u8] + rf + seq![125u8, 125u8])[hl + k]
                == seq![125u8, 125u8][0]);
            assert((rf + seq![125u8])[k] == 125);
        }
    }
    lemma_slice_piece(s, 0, l, s, hl, rf + seq![125u8]);
    lemma_parse_fields_render(s, hl, c.request_id(), c.id_arg(), c.volume_arg());
    let e5 = hl + rf.len() as int + 1;
    assert(spec_parse_fields(s, hl) == Some((spec_rendered_fields_view(c), e5)));
    // the outer closing brace and the end
    assert(s[e5] == 125) by {
        assert((seq![123u8] + qop + seq![58u8, 123u8] + rf + seq![125u8, 125u8])[e5]
            == seq![125u8, 125u8][1]);
    }
    assert(!is_ws(s[e5]));
    assert(spec_skip_ws(s, e5) == e5);
    assert(spec_skip_ws(s, e5 + 1) == e5 + 1);
    assert(e5 + 1 == l);
}

/// Round trip of the wire protocol: parsing the rendered form of any command
/// yields a command with the same operation and the same arguments (and the
/// same request id). The only proviso is the grammar's bound on a carried
/// volume level: its whole-number part must fit 32 bits.
#[verifier::rlimit(100)]
pub proof fn lemma_wire_round_trip(c: CommandView)
    requires
        (c.volume_arg() matches Some(v) ==> v.micros <= 4294967295999999),
    ensures
        spec_parse_command(spec_render_command(c)) == Some(c),
{
    let op = c.op_name();
    assert(forall|k: int|
        0 <= k < op.len() ==> #[trigger] op[k] != 34 && op[k] != 92) by {
        match c {
            CommandView::DeviceGetVolume { .. } => {},
            CommandView::DeviceSetVolume { .. } => {},
            CommandView::DeviceMute { .. } => {},
            CommandView::DeviceUnmute { .. } => {},
            CommandView::GetApplication { .. } => {},
            CommandView::ApplicationGetIcon { .. } => {},
            CommandView::ApplicationGetVolume { .. } => {},
            CommandView::ApplicationSetVolume { .. } => {},
            CommandView::ApplicationMute { .. } => {},
            CommandView::ApplicationUnmute { .. } => {},
            CommandView::GetDeviceApplications { .. } => {},
            CommandView::GetPlaybackDevices { .. } => {},
        }
    }
    lemma_parse_render_structure(c);
    let fv = spec_rendered_fields_view(c);
    // the operation names are pairwise distinct where their lengths agree
    assert(crate::volume::spec_op_device_set_volume()[7] == 115);
    assert(crate::volume::spec_op_device_get_volume()[7] == 103);
    assert(crate::volume::spec_op_application_set_volume()[12] == 115);
    assert(crate::volume::spec_op_application_get_volume()[12] == 103);
    assert(crate::volume::spec_op_get_playback_devices()[0] == 103);
    assert(crate::volume::spec_op_application_get_icon()[0] == 97);
    match c {
        CommandView::DeviceGetVolume { request_id, id } => {
            assert(spec_build_command(op, fv) == Some(c));
        },
        CommandView::DeviceSetVolume { request_id, id, volume } => {
            assert(spec_build_command(op, fv) == Some(c));
        },
        CommandView::DeviceMute { request_id, id } => {
            assert(spec_build_command(op, fv) == Some(c));
        },
        CommandView::DeviceUnmute { request_id, id } => {
            assert(spec_build_command(op, fv) == Some(c));
        },
        CommandView::GetApplication { request_id, id } => {
            assert(spec_build_command(op, fv) == Some(c));
        },
        CommandView::ApplicationGetIcon { request_id, id } => {
            assert(spec_build_command(op, fv) == Some(c));
        },
        CommandView::ApplicationGetVolume { request_id, id } => {
            assert(spec_build_command(op, fv) == Some(c));
        },
        CommandView::ApplicationSetVolume { request_id, id, volume } => {
            assert(spec_build_command(op, fv) == Some(c));
        },
        CommandView::ApplicationMute { request_id, id } => {
            assert(spec_build_command(op, fv) == Some(c));
        },
        CommandView::ApplicationUnmute { request_id, id } => {
            assert(spec_build_command(op, fv) == Some(c));
        },
        CommandView::GetDeviceApplications { request_id, id } => {
            assert(spec_build_command(op, fv) == Some(c));
        },
        CommandView::GetPlaybackDevices { request_id } => {
            assert(spec_build_command(op, fv) == Some(c));
        },
    }
}

} // verus!
