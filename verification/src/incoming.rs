//! The command server's inbound side: classifying transport messages,
//! parsing requests, choosing the acknowledgement or reply path, and
//! rendering `{"type": ..., "data": ...}` response frames.

use vstd::prelude::*;

use crate::codec::parse_command;
use crate::codec::spec_parse_command;
use crate::codec::spec_quote;
use crate::codec::spec_render_volume;
use crate::codec::quote_into;
use crate::codec::volume_into;
use crate::codec::dec_into;
use crate::shared::AudioApplicationView;
use crate::shared::AudioDeviceView;
use crate::shared::AudioVolume;
use crate::shared::ChangeTypeView;
use crate::shared::EntityState;
use crate::shared::IdentifierView;
use crate::shared::ProcessInfoView;
use crate::shared::SessionDirection;
use crate::shared::SessionType;
use crate::shared::UpdateChange;
use crate::shared::UpdateChangeView;
use crate::shared::VolumeControllerError;
use crate::text::push_bytes;
use crate::text::spec_dec_digits;
use crate::volume::VolumeCommand;
use crate::volume_control::Reply;
use crate::volume_control::ReplyValue;

verus! {

/// Spec-level value of a reply payload.
pub ghost enum ReplyValueView {
    Volume(crate::shared::VolumePercent),
    App(AudioApplicationView),
    Icon(Seq<u8>),
    AppIds(Seq<u32>),
    Devices(Seq<AudioDeviceView>),
}

impl View for ReplyValue {
    type V = ReplyValueView;

    open spec fn view(&self) -> ReplyValueView {
        match self {
            ReplyValue::Volume(v) => ReplyValueView::Volume(*v),
            ReplyValue::App(a) => ReplyValueView::App(a@),
            ReplyValue::Icon(b) => ReplyValueView::Icon(b@),
            ReplyValue::AppIds(xs) => ReplyValueView::AppIds(xs@),
            ReplyValue::Devices(ds) => ReplyValueView::Devices(
                Seq::new(ds@.len(), |i: int| ds@[i]@),
            ),
        }
    }
}

// ---------------------------------------------------------------------------
// Spec-level rendering of response payloads
// ---------------------------------------------------------------------------
/// "true" / "false"
pub open spec fn spec_render_bool(b: bool) -> Seq<u8> {
    if b {
        seq![116u8, 114, 117, 101]
    } else {
        seq![102u8, 97, 108, 115, 101]
    }
}

/// The quoted variant name of a session direction.
pub open spec fn spec_render_direction(d: SessionDirection) -> Seq<u8> {
    match d {
        // "Render"
        SessionDirection::Render => spec_quote(seq![82u8, 101, 110, 100, 101, 114]),
        // "Capture"
        SessionDirection::Capture => spec_quote(seq![67u8, 97, 112, 116, 117, 114, 101]),
        // "Unknown"
        SessionDirection::Unknown => spec_quote(seq![85u8, 110, 107, 110, 111, 119, 110]),
    }
}

/// The quoted variant name of a session type.
pub open spec fn spec_render_session_type(t: SessionType) -> Seq<u8> {
    match t {
        // "Application"
        SessionType::Application => spec_quote(
            seq![65u8, 112, 112, 108, 105, 99, 97, 116, 105, 111, 110],
        ),
        // "Device"
        SessionType::Device => spec_quote(seq![68u8, 101, 118, 105, 99, 101]),
        // "System"
        SessionType::System => spec_quote(seq![83u8, 121, 115, 116, 101, 109]),
        // "Unknown"
        SessionType::Unknown => spec_quote(seq![85u8, 110, 107, 110, 111, 119, 110]),
    }
}

/// `{"current": level, "muted": flag}`
pub open spec fn spec_render_audio_volume(v: AudioVolume) -> Seq<u8> {
    seq![123u8] + spec_quote(seq![99u8, 117, 114, 114, 101, 110, 116]) + seq![58u8]
        + spec_render_volume(v.current) + seq![44u8] + spec_quote(
        seq![109u8, 117, 116, 101, 100],
    ) + seq![58u8] + spec_render_bool(v.muted) + seq![125u8]
}

/// A quoted path or `null`.
pub open spec fn spec_render_opt_path(p: Option<Seq<u8>>) -> Seq<u8> {
    match p {
        Some(path) => spec_quote(path),
        // "null"
        None => seq![110u8, 117, 108, 108],
    }
}

/// `{"id": n, "name": s, "path": p}`
pub open spec fn spec_render_process(p: ProcessInfoView) -> Seq<u8> {
    seq![123u8] + spec_quote(seq![105u8, 100]) + seq![58u8] + spec_dec_digits(p.id as nat)
        + seq![44u8] + spec_quote(seq![110u8, 97, 109, 101]) + seq![58u8] + spec_quote(p.name)
        + seq![44u8] + spec_quote(seq![112u8, 97, 116, 104]) + seq![58u8] + spec_render_opt_path(
        p.path,
    ) + seq![125u8]
}

/// An application session as a response object.
pub open spec fn spec_render_app(a: AudioApplicationView) -> Seq<u8> {
    seq![123u8] + spec_quote(seq![112u8, 114, 111, 99, 101, 115, 115]) + seq![58u8]
        + spec_render_process(a.process) + seq![44u8] + spec_quote(
        seq![115u8, 101, 115, 115, 105, 111, 110, 95, 116, 121, 112, 101],
    ) + seq![58u8] + spec_render_session_type(a.session_type) + seq![44u8] + spec_quote(
        seq![100u8, 105, 114, 101, 99, 116, 105, 111, 110],
    ) + seq![58u8] + spec_render_direction(a.direction) + seq![44u8] + spec_quote(
        seq![118u8, 111, 108, 117, 109, 101],
    ) + seq![58u8] + spec_render_audio_volume(a.volume) + seq![44u8] + spec_quote(
        seq![100u8, 101, 118, 105, 99, 101, 95, 105, 100],
    ) + seq![58u8] + spec_quote(a.device_id) + seq![125u8]
}

/// The identifying fields of a device object.
pub open spec fn spec_render_device_names(d: AudioDeviceView) -> Seq<u8> {
    seq![123u8] + spec_quote(seq![105u8, 100]) + seq![58u8] + spec_quote(d.id) + seq![44u8]
        + spec_quote(seq![110u8, 97, 109, 101]) + seq![58u8] + spec_quote(d.name) + seq![44u8]
        + spec_quote(
        seq![102u8, 114, 105, 101, 110, 100, 108, 121, 95, 110, 97, 109, 101],
    ) + seq![58u8] + spec_quote(d.friendly_name)
}

/// The state fields of a device object.
pub open spec fn spec_render_device_state(d: AudioDeviceView) -> Seq<u8> {
    seq![44u8] + spec_quote(
        seq![100u8, 105, 114, 101, 99, 116, 105, 111, 110],
    ) + seq![58u8] + spec_render_direction(d.direction) + seq![44u8] + spec_quote(
        seq![105u8, 115, 95, 100, 101, 102, 97, 117, 108, 116],
    ) + seq![58u8] + spec_render_bool(d.is_default) + seq![44u8] + spec_quote(
        seq![118u8, 111, 108, 117, 109, 101],
    ) + seq![58u8] + spec_render_audio_volume(d.volume) + seq![125u8]
}

/// A device as a response object.
pub open spec fn spec_render_device(d: AudioDeviceView) -> Seq<u8> {
    spec_render_device_names(d) + spec_render_device_state(d)
}

/// Comma-separated numbers.
pub open spec fn spec_render_u64_items(xs: Seq<u64>) -> Seq<u8>
    decreases xs.len(),
{
    if xs.len() == 0 {
        Seq::empty()
    } else if xs.len() == 1 {
        spec_dec_digits(xs[0] as nat)
    } else {
        spec_dec_digits(xs[0] as nat) + seq![44u8] + spec_render_u64_items(xs.drop_first())
    }
}

/// Comma-separated device objects.
pub open spec fn spec_render_device_items(ds: Seq<AudioDeviceView>) -> Seq<u8>
    decreases ds.len(),
{
    if ds.len() == 0 {
        Seq::empty()
    } else if ds.len() == 1 {
        spec_render_device(ds[0])
    } else {
        spec_render_device(ds[0]) + seq![44u8] + spec_render_device_items(ds.drop_first())
    }
}

/// The `data` payload of a response for each reply shape. Icon bytes travel
/// as an array of numbers, as the byte vector serializes.
pub open spec fn spec_render_reply_data(v: ReplyValueView) -> Seq<u8> {
    match v {
        ReplyValueView::Volume(p) => spec_render_volume(p),
        ReplyValueView::App(a) => spec_render_app(a),
        ReplyValueView::Icon(bytes) => seq![91u8] + spec_render_u64_items(
            Seq::new(bytes.len(), |i: int| bytes[i] as u64),
        ) + seq![93u8],
        ReplyValueView::AppIds(xs) => seq![91u8] + spec_render_u64_items(
            Seq::new(xs.len(), |i: int| xs[i] as u64),
        ) + seq![93u8],
        ReplyValueView::Devices(ds) => seq![91u8] + spec_render_device_items(ds) + seq![93u8],
    }
}

/// `{"type": "label", "data": payload}`
pub open spec fn spec_render_response(label: Seq<u8>, data: Seq<u8>) -> Seq<u8> {
    seq![123u8] + spec_quote(seq![116u8, 121, 112, 101]) + seq![58u8] + spec_quote(label)
        + seq![44u8] + spec_quote(seq![100u8, 97, 116, 97]) + seq![58u8] + data + seq![125u8]
}

/// The quoted acknowledgement payload "REQUEST ACCEPTED".
pub open spec fn spec_accepted_payload() -> Seq<u8> {
    spec_quote(seq![82u8, 69, 81, 85, 69, 83, 84, 32, 65, 67, 67, 69, 80, 84, 69, 68])
}

// ---------------------------------------------------------------------------
// Executable rendering
// ---------------------------------------------------------------------------
fn bool_into(out: &mut Vec<u8>, b: bool)
    ensures
        final(out)@ == old(out)@ + spec_render_bool(b),
{
    if b {
        let t: Vec<u8> = vec![116u8, 114, 117, 101];
        proof {
            assert(t@ =~= spec_render_bool(true));
        }
        push_bytes(out, t.as_slice());
    } else {
        let t: Vec<u8> = vec![102u8, 97, 108, 115, 101];
        proof {
            assert(t@ =~= spec_render_bool(false));
        }
        push_bytes(out, t.as_slice());
    }
}

fn direction_into(out: &mut Vec<u8>, d: SessionDirection)
    ensures
        final(out)@ == old(out)@ + spec_render_direction(d),
{
    match d {
        SessionDirection::Render => {
            let t: Vec<u8> = vec![82u8, 101, 110, 100, 101, 114];
            proof {
                assert(t@ =~= seq![82u8, 101, 110, 100, 101, 114]);
            }
            quote_into(out, t.as_slice());
        },
        SessionDirection::Capture => {
            let t: Vec<u8> = vec![67u8, 97, 112, 116, 117, 114, 101];
            proof {
                assert(t@ =~= seq![67u8, 97, 112, 116, 117, 114, 101]);
            }
            quote_into(out, t.as_slice());
        },
        SessionDirection::Unknown => {
            let t: Vec<u8> = vec![85u8, 110, 107, 110, 111, 119, 110];
            proof {
                assert(t@ =~= seq![85u8, 110, 107, 110, 111, 119, 110]);
            }
            quote_into(out, t.as_slice());
        },
    }
}

fn session_type_into(out: &mut Vec<u8>, t: SessionType)
    ensures
        final(out)@ == old(out)@ + spec_render_session_type(t),
{
    match t {
        SessionType::Application => {
            let v: Vec<u8> = vec![65u8, 112, 112, 108, 105, 99, 97, 116, 105, 111, 110];
            proof {
                assert(v@ =~= seq![65u8, 112, 112, 108, 105, 99, 97, 116, 105, 111, 110]);
            }
            quote_into(out, v.as_slice());
        },
        SessionType::Device => {
            let v: Vec<u8> = vec![68u8, 101, 118, 105, 99, 101];
            proof {
                assert(v@ =~= seq![68u8, 101, 118, 105, 99, 101]);
            }
            quote_into(out, v.as_slice());
        },
        SessionType::System => {
            let v: Vec<u8> = vec![83u8, 121, 115, 116, 101, 109];
            proof {
                assert(v@ =~= seq![83u8, 121, 115, 116, 101, 109]);
            }
            quote_into(out, v.as_slice());
        },
        SessionType::Unknown => {
            let v: Vec<u8> = vec![85u8, 110, 107, 110, 111, 119, 110];
            proof {
                assert(v@ =~= seq![85u8, 110, 107, 110, 111, 119, 110]);
            }
            quote_into(out, v.as_slice());
        },
    }
}

fn audio_volume_into(out: &mut Vec<u8>, v: AudioVolume)
    ensures
        final(out)@ == old(out)@ + spec_render_audio_volume(v),
{
    out.push(123);
    let current: Vec<u8> = vec![99u8, 117, 114, 114, 101, 110, 116];
    proof {
        assert(current@ =~= seq![99u8, 117, 114, 114, 101, 110, 116]);
    }
    quote_into(out, current.as_slice());
    out.push(58);
    volume_into(out, v.current);
    out.push(44);
    let muted: Vec<u8> = vec![109u8, 117, 116, 101, 100];
    proof {
        assert(muted@ =~= seq![109u8, 117, 116, 101, 100]);
    }
    quote_into(out, muted.as_slice());
    out.push(58);
    bool_into(out, v.muted);
    out.push(125);
    proof {
        assert(out@ =~= old(out)@ + spec_render_audio_volume(v));
    }
}

fn process_into(out: &mut Vec<u8>, p: &crate::shared::ProcessInfo)
    ensures
        final(out)@ == old(out)@ + spec_render_process(p@),
{
    out.push(123);
    let idn: Vec<u8> = vec![105u8, 100];
    proof {
        assert(idn@ =~= seq![105u8, 100]);
    }
    quote_into(out, idn.as_slice());
    out.push(58);
    dec_into(out, p.id as u64);
    out.push(44);
    let name: Vec<u8> = vec![110u8, 97, 109, 101];
    proof {
        assert(name@ =~= seq![110u8, 97, 109, 101]);
    }
    quote_into(out, name.as_slice());
    out.push(58);
    quote_into(out, p.name.as_slice());
    out.push(44);
    let path: Vec<u8> = vec![112u8, 97, 116, 104];
    proof {
        assert(path@ =~= seq![112u8, 97, 116, 104]);
    }
    quote_into(out, path.as_slice());
    out.push(58);
    match &p.path {
        Some(pp) => {
            quote_into(out, pp.as_slice());
        },
        None => {
            let null: Vec<u8> = vec![110u8, 117, 108, 108];
            proof {
                assert(null@ =~= seq![110u8, 117, 108, 108]);
            }
            push_bytes(out, null.as_slice());
        },
    }
    out.push(125);
    proof {
        assert(out@ =~= old(out)@ + spec_render_process(p@));
    }
}

#[verifier::rlimit(100)]
fn app_into(out: &mut Vec<u8>, a: &crate::shared::AudioApplication)
    ensures
        final(out)@ == old(out)@ + spec_render_app(a@),
{
    out.push(123);
    let process: Vec<u8> = vec![112u8, 114, 111, 99, 101, 115, 115];
    proof {
        assert(process@ =~= seq![112u8, 114, 111, 99, 101, 115, 115]);
    }
    quote_into(out, process.as_slice());
    out.push(58);
    process_into(out, &a.process);
    out.push(44);
    let st: Vec<u8> = vec![115u8, 101, 115, 115, 105, 111, 110, 95, 116, 121, 112, 101];
    proof {
        assert(st@ =~= seq![115u8, 101, 115, 115, 105, 111, 110, 95, 116, 121, 112, 101]);
    }
    quote_into(out, st.as_slice());
    out.push(58);
    session_type_into(out, a.session_type);
    out.push(44);
    let dir: Vec<u8> = vec![100u8, 105, 114, 101, 99, 116, 105, 111, 110];
    proof {
        assert(dir@ =~= seq![100u8, 105, 114, 101, 99, 116, 105, 111, 110]);
    }
    quote_into(out, dir.as_slice());
    out.push(58);
    direction_into(out, a.direction);
    out.push(44);
    let vol: Vec<u8> = vec![118u8, 111, 108, 117, 109, 101];
    proof {
        assert(vol@ =~= seq![118u8, 111, 108, 117, 109, 101]);
    }
    quote_into(out, vol.as_slice());
    out.push(58);
    audio_volume_into(out, a.volume);
    out.push(44);
    let did: Vec<u8> = vec![100u8, 101, 118, 105, 99, 101, 95, 105, 100];
    proof {
        assert(did@ =~= seq![100u8, 101, 118, 105, 99, 101, 95, 105, 100]);
    }
    quote_into(out, did.as_slice());
    out.push(58);
    quote_into(out, a.device_id.as_slice());
    out.push(125);
    proof {
        assert(out@ =~= old(out)@ + spec_render_app(a@));
    }
}

#[verifier::rlimit(100)]
fn device_into(out: &mut Vec<u8>, d: &crate::shared::AudioDevice)
    ensures
        final(out)@ == old(out)@ + spec_render_device(d@),
{
    out.push(123);
    let idn: Vec<u8> = vec![105u8, 100];
    proof {
        assert(idn@ =~= seq![105u8, 100]);
    }
    quote_into(out, idn.as_slice());
    out.push(58);
    quote_into(out, d.id.as_slice());
    out.push(44);
    let name: Vec<u8> = vec![110u8, 97, 109, 101];
    proof {
        assert(name@ =~= seq![110u8, 97, 109, 101]);
    }
    quote_into(out, name.as_slice());
    out.push(58);
    quote_into(out, d.name.as_slice());
    out.push(44);
    let fname: Vec<u8> = vec![102u8, 114, 105, 101, 110, 100, 108, 121, 95, 110, 97, 109, 101];
    proof {
        assert(fname@ =~= seq![102u8, 114, 105, 101, 110, 100, 108, 121, 95, 110, 97, 109, 101]);
    }
    quote_into(out, fname.as_slice());
    out.push(58);
    quote_into(out, d.friendly_name.as_slice());
    proof {
        assert(out@ =~= old(out)@ + spec_render_device_names(d@));
    }
    let ghost mid = out@;
    out.push(44);
    let dir: Vec<u8> = vec![100u8, 105, 114, 101, 99, 116, 105, 111, 110];
    proof {
        assert(dir@ =~= seq![100u8, 105, 114, 101, 99, 116, 105, 111, 110]);
    }
    quote_into(out, dir.as_slice());
    out.push(58);
    direction_into(out, d.direction);
    out.push(44);
    let isd: Vec<u8> = vec![105u8, 115, 95, 100, 101, 102, 97, 117, 108, 116];
    proof {
        assert(isd@ =~= seq![105u8, 115, 95, 100, 101, 102, 97, 117, 108, 116]);
    }
    quote_into(out, isd.as_slice());
    out.push(58);
    bool_into(out, d.is_default);
    out.push(44);
    let vol: Vec<u8> = vec![118u8, 111, 108, 117, 109, 101];
    proof {
        assert(vol@ =~= seq![118u8, 111, 108, 117, 109, 101]);
    }
    quote_into(out, vol.as_slice());
    out.push(58);
    audio_volume_into(out, d.volume);
    out.push(125);
    proof {
        assert(out@ =~= mid + spec_render_device_state(d@));
        assert(mid + spec_render_device_state(d@) =~= old(out)@ + spec_render_device(d@));
    }
}

fn u64_items_into(out: &mut Vec<u8>, xs: &Vec<u64>, i: usize)
    requires
        i <= xs@.len(),
    ensures
        final(out)@ == old(out)@ + spec_render_u64_items(xs@.subrange(i as int, xs@.len() as int)),
    decreases xs@.len() - i,
{
    let ghost rest = xs@.subrange(i as int, xs@.len() as int);
    if i >= xs.len() {
        proof {
            assert(rest.len() == 0);
            assert(old(out)@ + Seq::<u8>::empty() =~= old(out)@);
        }
    } else if i + 1 == xs.len() {
        dec_into(out, xs[i]);
        proof {
            assert(rest.len() == 1);
            assert(rest[0] == xs@[i as int]);
        }
    } else {
        dec_into(out, xs[i]);
        out.push(44);
        u64_items_into(out, xs, i + 1);
        proof {
            assert(rest[0] == xs@[i as int]);
            assert(rest.drop_first() =~= xs@.subrange(i + 1, xs@.len() as int));
            assert(old(out)@ + spec_dec_digits(xs@[i as int] as nat) + seq![44u8]
                + spec_render_u64_items(rest.drop_first()) =~= old(out)@ + spec_render_u64_items(
                rest,
            ));
        }
    }
}

#[verifier::rlimit(100)]
fn device_items_into(out: &mut Vec<u8>, ds: &Vec<crate::shared::AudioDevice>, i: usize)
    requires
        i <= ds@.len(),
    ensures
        final(out)@ == old(out)@ + spec_render_device_items(
            Seq::new(ds@.len(), |k: int| ds@[k]@).subrange(i as int, ds@.len() as int),
        ),
    decreases ds@.len() - i,
{
    let ghost views = Seq::new(ds@.len(), |k: int| ds@[k]@);
    let ghost rest = views.subrange(i as int, ds@.len() as int);
    if i >= ds.len() {
        proof {
            assert(rest.len() == 0);
            assert(old(out)@ + Seq::<u8>::empty() =~= old(out)@);
        }
    } else if i + 1 == ds.len() {
        device_into(out, &ds[i]);
        proof {
            assert(rest.len() == 1);
            assert(rest[0] == ds@[i as int]@);
        }
    } else {
        device_into(out, &ds[i]);
        out.push(44);
        device_items_into(out, ds, i + 1);
        proof {
            assert(rest[0] == ds@[i as int]@);
            assert(rest.drop_first() =~= views.subrange(i + 1, ds@.len() as int));
            assert(old(out)@ + spec_render_device(ds@[i as int]@) + seq![44u8]
                + spec_render_device_items(rest.drop_first()) =~= old(out)@
                + spec_render_device_items(rest));
        }
    }
}

/// Render the `data` payload for a reply value.
pub fn render_reply_data(v: &ReplyValue) -> (r: Vec<u8>)
    ensures
        r@ == spec_render_reply_data(v@),
{
    let mut out: Vec<u8> = Vec::new();
    match v {
        ReplyValue::Volume(p) => {
            volume_into(&mut out, *p);
        },
        ReplyValue::App(a) => {
            app_into(&mut out, a);
        },
        ReplyValue::Icon(bytes) => {
            out.push(91);
            let mut wide: Vec<u64> = Vec::new();
            let mut i: usize = 0;
            while i < bytes.len()
                invariant
                    i <= bytes@.len(),
                    wide@ =~= Seq::new(i as nat, |k: int| bytes@[k] as u64),
                decreases bytes@.len() - i,
            {
                wide.push(bytes[i] as u64);
                proof {
                    assert(wide@ =~= Seq::new((i + 1) as nat, |k: int| bytes@[k] as u64));
                }
                i = i + 1;
            }
            u64_items_into(&mut out, &wide, 0);
            out.push(93);
            proof {
                assert(wide@.subrange(0, wide@.len() as int) =~= wide@);
                assert(wide@ =~= Seq::new(bytes@.len(), |k: int| bytes@[k] as u64));
                assert(out@ =~= spec_render_reply_data(v@));
            }
        },
        ReplyValue::AppIds(xs) => {
            out.push(91);
            let mut wide: Vec<u64> = Vec::new();
            let mut i: usize = 0;
            while i < xs.len()
                invariant
                    i <= xs@.len(),
                    wide@ =~= Seq::new(i as nat, |k: int| xs@[k] as u64),
                decreases xs@.len() - i,
            {
                wide.push(xs[i] as u64);
                proof {
                    assert(wide@ =~= Seq::new((i + 1) as nat, |k: int| xs@[k] as u64));
                }
                i = i + 1;
            }
            u64_items_into(&mut out, &wide, 0);
            out.push(93);
            proof {
                assert(wide@.subrange(0, wide@.len() as int) =~= wide@);
                assert(wide@ =~= Seq::new(xs@.len(), |k: int| xs@[k] as u64));
                assert(out@ =~= spec_render_reply_data(v@));
            }
        },
        ReplyValue::Devices(ds) => {
            out.push(91);
            device_items_into(&mut out, ds, 0);
            out.push(93);
            proof {
                let views = Seq::new(ds@.len(), |k: int| ds@[k]@);
                assert(views.subrange(0, ds@.len() as int) =~= views);
                assert(out@ =~= spec_render_reply_data(v@));
            }
        },
    }
    out
}

/// Render a `{"type": label, "data": payload}` frame around an
/// already-rendered payload.
pub fn render_response(label: &[u8], data: &[u8]) -> (r: Vec<u8>)
    ensures
        r@ == spec_render_response(label@, data@),
{
    let mut out: Vec<u8> = Vec::new();
    out.push(123);
    let tn: Vec<u8> = vec![116u8, 121, 112, 101];
    proof {
        assert(tn@ =~= seq![116u8, 121, 112, 101]);
    }
    quote_into(&mut out, tn.as_slice());
    out.push(58);
    quote_into(&mut out, label);
    out.push(44);
    let dn: Vec<u8> = vec![100u8, 97, 116, 97];
    proof {
        assert(dn@ =~= seq![100u8, 97, 116, 97]);
    }
    quote_into(&mut out, dn.as_slice());
    out.push(58);
    push_bytes(&mut out, data);
    out.push(125);
    proof {
        assert(out@ =~= spec_render_response(label@, data@));
    }
    out
}

/// The acknowledgement frame sent at once for a write-only command.
pub fn render_accepted(label: &[u8]) -> (r: Vec<u8>)
    ensures
        r@ == spec_render_response(label@, spec_accepted_payload()),
{
    let mut ack: Vec<u8> = Vec::new();
    let text: Vec<u8> = vec![82u8, 69, 81, 85, 69, 83, 84, 32, 65, 67, 67, 69, 80, 84, 69, 68];
    proof {
        assert(text@ =~= seq![82u8, 69, 81, 85, 69, 83, 84, 32, 65, 67, 67, 69, 80, 84, 69, 68]);
    }
    quote_into(&mut ack, text.as_slice());
    proof {
        assert(ack@ =~= spec_accepted_payload());
    }
    render_response(label, ack.as_slice())
}

/// What the reader does with one inbound transport message.
pub enum InboundMessage {
    /// A text frame carrying bytes.
    Text(Vec<u8>),
    /// A liveness probe.
    Ping,
    /// A graceful close.
    Close,
    /// Any other frame kind.
    Other,
}

/// The server's decision for one inbound message.
pub enum InboundDecision {
    /// A parsed command to carry out.
    HandleCommand(VolumeCommand),
    /// A malformed request: log it and keep the connection open.
    ParseFailure(VolumeControllerError),
    /// Answer the probe without touching the actor.
    Pong,
    /// End the connection.
    Disconnect,
}

/// Decide what to do with an inbound message: parse text frames into
/// commands, answer pings at once, and close on a close frame or on any
/// frame kind the protocol does not carry. A malformed text frame never
/// closes the connection.
pub fn handle_inbound(message: InboundMessage) -> (r: InboundDecision)
    ensures
        (match message {
            InboundMessage::Text(text) => match spec_parse_command(text@) {
                Some(v) => r matches InboundDecision::HandleCommand(c) && c@ == v,
                None => r matches InboundDecision::ParseFailure(e) && e is SerdeError,
            },
            InboundMessage::Ping => r is Pong,
            InboundMessage::Close => r is Disconnect,
            InboundMessage::Other => r is Disconnect,
        }),
{
    match message {
        InboundMessage::Text(text) => match parse_command(text.as_slice()) {
            Ok(command) => InboundDecision::HandleCommand(command),
            Err(e) => InboundDecision::ParseFailure(e),
        },
        InboundMessage::Ping => InboundDecision::Pong,
        InboundMessage::Close => InboundDecision::Disconnect,
        InboundMessage::Other => InboundDecision::Disconnect,
    }
}

/// How a parsed command is carried out against the actor.
pub enum CommandPlan {
    /// A write command: acknowledge at once with this frame, then forward
    /// the command without awaiting a reply.
    AckAndForward { ack: Vec<u8>, command: VolumeCommand },
    /// A query command: forward it and await exactly one reply under this
    /// label.
    AwaitReply { label: Vec<u8>, command: VolumeCommand },
}

/// Choose the forwarding plan for a parsed command: queries await a reply
/// under their response label, writes are acknowledged immediately with
/// "REQUEST ACCEPTED" under the same labelling rule.
pub fn plan_command(command: VolumeCommand) -> (r: CommandPlan)
    ensures
        (match r {
            CommandPlan::AckAndForward { ack, command: c } => !c@.expects_reply() && c == command
                && ack@ == spec_render_response(c@.response_label(), spec_accepted_payload()),
            CommandPlan::AwaitReply { label, command: c } => c@.expects_reply() && c == command
                && label@ == c@.response_label(),
        }),
{
    let label = command.response_label();
    if command.expects_reply() {
        CommandPlan::AwaitReply { label, command }
    } else {
        let ack = render_accepted(label.as_slice());
        CommandPlan::AckAndForward { ack, command }
    }
}

/// The frame owed for what came back on a reply channel: a rendered
/// response for a successful reply; nothing for a failed reply (the
/// protocol drops it silently); and nothing when the channel
/// closed before any reply — the dropped reply is a defined, harmless
/// outcome, never a fault.
pub fn response_for_reply(label: &[u8], reply: Option<Reply>) -> (r: Option<Vec<u8>>)
    ensures
        (match reply {
            Some(Ok(v)) => r matches Some(frame) && frame@ == spec_render_response(
                label@,
                spec_render_reply_data(v@),
            ),
            Some(Err(_)) => r is None,
            None => r is None,
        }),
{
    match reply {
        Some(Ok(v)) => {
            let data = render_reply_data(&v);
            Some(render_response(label, data.as_slice()))
        },
        Some(Err(_)) => None,
        None => None,
    }
}

// ---------------------------------------------------------------------------
// Update notifications towards clients
// ---------------------------------------------------------------------------
/// An identifier in its notification form.
pub open spec fn spec_render_identifier(id: IdentifierView) -> Seq<u8> {
    match id {
        // {"type":"app","content":n}
        IdentifierView::App(n) => seq![123u8] + spec_quote(seq![116u8, 121, 112, 101])
            + seq![58u8] + spec_quote(seq![97u8, 112, 112]) + seq![44u8] + spec_quote(
            seq![99u8, 111, 110, 116, 101, 110, 116],
        ) + seq![58u8] + spec_dec_digits(n as nat) + seq![125u8],
        // {"type":"device","content":"s"}
        IdentifierView::Device(s) => seq![123u8] + spec_quote(seq![116u8, 121, 112, 101])
            + seq![58u8] + spec_quote(seq![100u8, 101, 118, 105, 99, 101]) + seq![44u8]
            + spec_quote(seq![99u8, 111, 110, 116, 101, 110, 116]) + seq![58u8] + spec_quote(s)
            + seq![125u8],
    }
}

/// A change in its notification form, tagged by `kind`.
pub open spec fn spec_render_change(c: ChangeTypeView) -> Seq<u8> {
    match c {
        // {"kind":"audioVolume","volume":x,"mute":b}
        ChangeTypeView::AudioVolume { volume, mute } => seq![123u8] + spec_quote(
            seq![107u8, 105, 110, 100],
        ) + seq![58u8] + spec_quote(
            seq![97u8, 117, 100, 105, 111, 86, 111, 108, 117, 109, 101],
        ) + seq![44u8] + spec_quote(seq![118u8, 111, 108, 117, 109, 101]) + seq![58u8]
            + spec_render_volume(volume) + seq![44u8] + spec_quote(seq![109u8, 117, 116, 101])
            + seq![58u8] + spec_render_bool(mute) + seq![125u8],
        // {"kind":"iconPathChange","path":"s"}
        ChangeTypeView::IconPathChange { path } => seq![123u8] + spec_quote(
            seq![107u8, 105, 110, 100],
        ) + seq![58u8] + spec_quote(
            seq![105u8, 99, 111, 110, 80, 97, 116, 104, 67, 104, 97, 110, 103, 101],
        ) + seq![44u8] + spec_quote(seq![112u8, 97, 116, 104]) + seq![58u8] + spec_quote(path)
            + seq![125u8],
        // {"kind":"stateChange","state":"created"|"disconnect"}
        ChangeTypeView::StateChange { state } => seq![123u8] + spec_quote(
            seq![107u8, 105, 110, 100],
        ) + seq![58u8] + spec_quote(
            seq![115u8, 116, 97, 116, 101, 67, 104, 97, 110, 103, 101],
        ) + seq![44u8] + spec_quote(seq![115u8, 116, 97, 116, 101]) + seq![58u8] + (match state {
            EntityState::Created => spec_quote(seq![99u8, 114, 101, 97, 116, 101, 100]),
            EntityState::Disconnect => spec_quote(
                seq![100u8, 105, 115, 99, 111, 110, 110, 101, 99, 116],
            ),
        }) + seq![125u8],
        // {"kind":"nameChange","name":"s"}
        ChangeTypeView::NameChange { name } => seq![123u8] + spec_quote(seq![107u8, 105, 110, 100])
            + seq![58u8] + spec_quote(
            seq![110u8, 97, 109, 101, 67, 104, 97, 110, 103, 101],
        ) + seq![44u8] + spec_quote(seq![110u8, 97, 109, 101]) + seq![58u8] + spec_quote(name)
            + seq![125u8],
    }
}

/// A whole update notification:
/// `{"event":"update","payload":{"id":...,"change":...}}`.
pub open spec fn spec_render_update(u: UpdateChangeView) -> Seq<u8> {
    seq![123u8] + spec_quote(seq![101u8, 118, 101, 110, 116]) + seq![58u8] + spec_quote(
        seq![117u8, 112, 100, 97, 116, 101],
    ) + seq![44u8] + spec_quote(seq![112u8, 97, 121, 108, 111, 97, 100]) + seq![58u8]
        + seq![123u8] + spec_quote(seq![105u8, 100]) + seq![58u8] + spec_render_identifier(u.id)
        + seq![44u8] + spec_quote(seq![99u8, 104, 97, 110, 103, 101]) + seq![58u8]
        + spec_render_change(u.change) + seq![125u8] + seq![125u8]
}

fn identifier_into(out: &mut Vec<u8>, id: &crate::shared::Identifier)
    ensures
        final(out)@ == old(out)@ + spec_render_identifier(id@),
{
    out.push(123);
    let tn: Vec<u8> = vec![116u8, 121, 112, 101];
    proof {
        assert(tn@ =~= seq![116u8, 121, 112, 101]);
    }
    quote_into(out, tn.as_slice());
    out.push(58);
    match id {
        crate::shared::Identifier::App(n) => {
            let tag: Vec<u8> = vec![97u8, 112, 112];
            proof {
                assert(tag@ =~= seq![97u8, 112, 112]);
            }
            quote_into(out, tag.as_slice());
            out.push(44);
            let cn: Vec<u8> = vec![99u8, 111, 110, 116, 101, 110, 116];
            proof {
                assert(cn@ =~= seq![99u8, 111, 110, 116, 101, 110, 116]);
            }
            quote_into(out, cn.as_slice());
            out.push(58);
            dec_into(out, *n as u64);
        },
        crate::shared::Identifier::Device(s) => {
            let tag: Vec<u8> = vec![100u8, 101, 118, 105, 99, 101];
            proof {
                assert(tag@ =~= seq![100u8, 101, 118, 105, 99, 101]);
            }
            quote_into(out, tag.as_slice());
            out.push(44);
            let cn: Vec<u8> = vec![99u8, 111, 110, 116, 101, 110, 116];
            proof {
                assert(cn@ =~= seq![99u8, 111, 110, 116, 101, 110, 116]);
            }
            quote_into(out, cn.as_slice());
            out.push(58);
            quote_into(out, s.as_slice());
        },
    }
    out.push(125);
    proof {
        assert(out@ =~= old(out)@ + spec_render_identifier(id@));
    }
}

#[verifier::rlimit(100)]
fn change_into(out: &mut Vec<u8>, c: &crate::shared::ChangeType)
    ensures
        final(out)@ == old(out)@ + spec_render_change(c@),
{
    out.push(123);
    let kn: Vec<u8> = vec![107u8, 105, 110, 100];
    proof {
        assert(kn@ =~= seq![107u8, 105, 110, 100]);
    }
    quote_into(out, kn.as_slice());
    out.push(58);
    match c {
        crate::shared::ChangeType::AudioVolume { volume, mute } => {
            let tag: Vec<u8> = vec![97u8, 117, 100, 105, 111, 86, 111, 108, 117, 109, 101];
            proof {
                assert(tag@ =~= seq![97u8, 117, 100, 105, 111, 86, 111, 108, 117, 109, 101]);
            }
            quote_into(out, tag.as_slice());
            out.push(44);
            let vn: Vec<u8> = vec![118u8, 111, 108, 117, 109, 101];
            proof {
                assert(vn@ =~= seq![118u8, 111, 108, 117, 109, 101]);
            }
            quote_into(out, vn.as_slice());
            out.push(58);
            volume_into(out, *volume);
            out.push(44);
            let mn: Vec<u8> = vec![109u8, 117, 116, 101];
            proof {
                assert(mn@ =~= seq![109u8, 117, 116, 101]);
            }
            quote_into(out, mn.as_slice());
            out.push(58);
            bool_into(out, *mute);
        },
        crate::shared::ChangeType::IconPathChange { path } => {
            let tag: Vec<u8> = vec![
                105u8,
                99,
                111,
                110,
                80,
                97,
                116,
                104,
                67,
                104,
                97,
                110,
                103,
                101,
            ];
            proof {
                assert(tag@ =~= seq![105u8, 99, 111, 110, 80, 97, 116, 104, 67, 104, 97, 110, 103, 101]);
            }
            quote_into(out, tag.as_slice());
            out.push(44);
            let pn: Vec<u8> = vec![112u8, 97, 116, 104];
            proof {
                assert(pn@ =~= seq![112u8, 97, 116, 104]);
            }
            quote_into(out, pn.as_slice());
            out.push(58);
            quote_into(out, path.as_slice());
        },
        crate::shared::ChangeType::StateChange { state } => {
            let tag: Vec<u8> = vec![115u8, 116, 97, 116, 101, 67, 104, 97, 110, 103, 101];
            proof {
                assert(tag@ =~= seq![115u8, 116, 97, 116, 101, 67, 104, 97, 110, 103, 101]);
            }
            quote_into(out, tag.as_slice());
            out.push(44);
            let sn: Vec<u8> = vec![115u8, 116, 97, 116, 101];
            proof {
                assert(sn@ =~= seq![115u8, 116, 97, 116, 101]);
            }
            quote_into(out, sn.as_slice());
            out.push(58);
            match state {
                EntityState::Created => {
                    let sv: Vec<u8> = vec![99u8, 114, 101, 97, 116, 101, 100];
                    proof {
                        assert(sv@ =~= seq![99u8, 114, 101, 97, 116, 101, 100]);
                    }
                    quote_into(out, sv.as_slice());
                },
                EntityState::Disconnect => {
                    let sv: Vec<u8> = vec![100u8, 105, 115, 99, 111, 110, 110, 101, 99, 116];
                    proof {
                        assert(sv@ =~= seq![100u8, 105, 115, 99, 111, 110, 110, 101, 99, 116]);
                    }
                    quote_into(out, sv.as_slice());
                },
            }
        },
        crate::shared::ChangeType::NameChange { name } => {
            let tag: Vec<u8> = vec![110u8, 97, 109, 101, 67, 104, 97, 110, 103, 101];
            proof {
                assert(tag@ =~= seq![110u8, 97, 109, 101, 67, 104, 97, 110, 103, 101]);
            }
            quote_into(out, tag.as_slice());
            out.push(44);
            let nn: Vec<u8> = vec![110u8, 97, 109, 101];
            proof {
                assert(nn@ =~= seq![110u8, 97, 109, 101]);
            }
            quote_into(out, nn.as_slice());
            out.push(58);
            quote_into(out, name.as_slice());
        },
    }
    out.push(125);
    proof {
        assert(out@ =~= old(out)@ + spec_render_change(c@));
    }
}

/// Render a whole update notification frame.
pub fn render_update(u: &UpdateChange) -> (r: Vec<u8>)
    ensures
        r@ == spec_render_update(u@),
{
    let mut out: Vec<u8> = Vec::new();
    out.push(123);
    let en: Vec<u8> = vec![101u8, 118, 101, 110, 116];
    proof {
        assert(en@ =~= seq![101u8, 118, 101, 110, 116]);
    }
    quote_into(&mut out, en.as_slice());
    out.push(58);
    let ev: Vec<u8> = vec![117u8, 112, 100, 97, 116, 101];
    proof {
        assert(ev@ =~= seq![117u8, 112, 100, 97, 116, 101]);
    }
    quote_into(&mut out, ev.as_slice());
    out.push(44);
    let pn: Vec<u8> = vec![112u8, 97, 121, 108, 111, 97, 100];
    proof {
        assert(pn@ =~= seq![112u8, 97, 121, 108, 111, 97, 100]);
    }
    quote_into(&mut out, pn.as_slice());
    out.push(58);
    out.push(123);
    let idn: Vec<u8> = vec![105u8, 100];
    proof {
        assert(idn@ =~= seq![105u8, 100]);
    }
    quote_into(&mut out, idn.as_slice());
    out.push(58);
    identifier_into(&mut out, &u.id);
    out.push(44);
    let chn: Vec<u8> = vec![99u8, 104, 97, 110, 103, 101];
    proof {
        assert(chn@ =~= seq![99u8, 104, 97, 110, 103, 101]);
    }
    quote_into(&mut out, chn.as_slice());
    out.push(58);
    change_into(&mut out, &u.change);
    out.push(125);
    out.push(125);
    proof {
        assert(out@ =~= spec_render_update(u@));
    }
    out
}

} // verus!
