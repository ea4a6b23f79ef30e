//! Execution of commands against the audio controller: the one place that
//! calls into the exclusively owned resource. Query commands produce exactly
//! one reply; write commands produce none, and their failures are dropped
//! after being recorded, never raised.

use vstd::prelude::*;

use crate::platform::extract_icon;
use crate::shared::ApplicationVolumeControl;
use crate::shared::AudioApplication;
use crate::shared::AudioDevice;
use crate::shared::AudioVolume;
use crate::shared::DeviceControl;
use crate::shared::DeviceVolumeControl;
use crate::shared::VolumeControllerError;
use crate::shared::VolumeControllerTrait;
use crate::shared::VolumePercent;
use crate::shared::VolumeResult;
use crate::volume::CommandView;
use crate::volume::VolumeCommand;

verus! {

/// The successful payload of a reply, one shape per query command.
#[derive(Debug)]
pub enum ReplyValue {
    Volume(VolumePercent),
    App(AudioApplication),
    Icon(Vec<u8>),
    AppIds(Vec<u32>),
    Devices(Vec<AudioDevice>),
}

pub type Reply = Result<ReplyValue, VolumeControllerError>;

/// What executing one command produced: the reply owed to a query, and the
/// error a write command dropped, if any.
#[derive(Debug)]
pub struct CommandOutcome {
    pub reply: Option<Reply>,
    pub dropped_error: Option<VolumeControllerError>,
}

/// The reply owed for an application-volume query, per controller answer:
/// the stored level on success, and the controller's typed error forwarded
/// unchanged on failure.
pub fn app_volume_reply(result: VolumeResult<AudioVolume>) -> (r: VolumeResult<VolumePercent>)
    ensures
        (result matches Ok(v) ==> r == VolumeResult::<VolumePercent>::Ok(v.current)),
        (result matches Err(e) ==> r == VolumeResult::<VolumePercent>::Err(e)),
{
    match result {
        Ok(v) => Ok(v.current),
        Err(e) => Err(e),
    }
}

/// The reply owed for an icon lookup result: the bytes when the platform
/// produced them, else the `Unknown` extraction error.
pub fn icon_reply(icon: Option<Vec<u8>>) -> (r: VolumeResult<Vec<u8>>)
    ensures
        (icon matches Some(bytes) ==> (r matches Ok(b) && b@ == bytes@)),
        (icon is None ==> (r matches Err(e) && e is Unknown)),
{
    match icon {
        Some(bytes) => Ok(bytes),
        None => {
            // "Could not extract icon from path."
            let msg: Vec<u8> = vec![
                67u8,
                111,
                117,
                108,
                100,
                32,
                110,
                111,
                116,
                32,
                101,
                120,
                116,
                114,
                97,
                99,
                116,
                32,
                105,
                99,
                111,
                110,
                32,
                102,
                114,
                111,
                109,
                32,
                112,
                97,
                116,
                104,
                46,
            ];
            Err(VolumeControllerError::Unknown(msg))
        },
    }
}

/// Apply a requested device level: the level is validated first, and an
/// out-of-range request is rejected with `InvalidVolumePercentage` carrying
/// it — the controller is never reached and its state is untouched. A valid
/// level is handed to the controller unchanged.
pub fn set_device_volume_checked<C: VolumeControllerTrait>(
    controller: &mut C,
    id: &crate::shared::DeviceIdentifier,
    volume: VolumePercent,
) -> (r: VolumeResult<()>)
    ensures
        !volume.wf() ==> *final(controller) == *old(controller) && r == VolumeResult::<()>::Err(
            VolumeControllerError::InvalidVolumePercentage(volume),
        ),
{
    match AudioVolume::validate_volume(volume) {
        Ok(validated) => controller.set_device_volume(id, validated.current),
        Err(e) => Err(e),
    }
}

/// Apply a requested application level, under the same validation gate as
/// the device path: out of range never reaches the controller.
pub fn set_app_volume_checked<C: VolumeControllerTrait>(
    controller: &mut C,
    id: crate::shared::AppIdentifier,
    volume: VolumePercent,
) -> (r: VolumeResult<()>)
    ensures
        !volume.wf() ==> *final(controller) == *old(controller) && r == VolumeResult::<()>::Err(
            VolumeControllerError::InvalidVolumePercentage(volume),
        ),
{
    match AudioVolume::validate_volume(volume) {
        Ok(validated) => controller.set_app_volume(id, validated.current),
        Err(e) => Err(e),
    }
}

fn app_not_found_reply() -> (r: VolumeControllerError)
    ensures
        r is ApplicationNotFound,
{
    // "Application not found"
    let msg: Vec<u8> = vec![
        65u8,
        112,
        112,
        108,
        105,
        99,
        97,
        116,
        105,
        111,
        110,
        32,
        110,
        111,
        116,
        32,
        102,
        111,
        117,
        110,
        100,
    ];
    VolumeControllerError::ApplicationNotFound(msg)
}

/// Execute one command against the controller.
///
/// Exactly the query commands produce a reply, and a query drops no error:
/// its failure travels in the reply. An out-of-range level in a set command
/// is rejected as `InvalidVolumePercentage` before the controller is ever
/// reached, and the controller state is untouched. A failed icon lookup
/// reports `ApplicationNotFound`; an application the platform cannot read an
/// icon for reports `Unknown`.
pub fn execute_command<C: VolumeControllerTrait>(controller: &mut C, command: VolumeCommand) -> (out:
    CommandOutcome)
    ensures
        out.reply is Some <==> command@.expects_reply(),
        out.reply is Some ==> out.dropped_error is None,
        (match command@ {
            CommandView::DeviceSetVolume { volume, .. } => !volume.wf() ==> *final(controller)
                == *old(controller) && out.dropped_error == Some(
                VolumeControllerError::InvalidVolumePercentage(volume),
            ),
            CommandView::ApplicationSetVolume { volume, .. } => !volume.wf() ==> *final(controller)
                == *old(controller) && out.dropped_error == Some(
                VolumeControllerError::InvalidVolumePercentage(volume),
            ),
            _ => true,
        }),
        (match command@ {
            CommandView::DeviceGetVolume { .. } => out.reply matches Some(r) && (r matches Ok(v)
                ==> v matches ReplyValue::Volume(p) && p.wf()),
            CommandView::ApplicationGetVolume { .. } => out.reply matches Some(r) && (r matches
                Ok(v) ==> v matches ReplyValue::Volume(p) && p.wf()),
            CommandView::GetApplication { .. } => out.reply matches Some(r) && (r matches Ok(v)
                ==> v is App),
            CommandView::ApplicationGetIcon { .. } => out.reply matches Some(r) && (r matches Ok(
                v,
            ) ==> v is Icon) && (r matches Err(e) ==> (e is ApplicationNotFound || e is Unknown)),
            CommandView::GetDeviceApplications { .. } => out.reply matches Some(r) && (r matches
                Ok(v) ==> v is AppIds),
            CommandView::GetPlaybackDevices { .. } => out.reply matches Some(r) && (r matches Ok(
                v,
            ) ==> v is Devices),
            _ => out.reply is None,
        }),
{
    match command {
        // ==================== DEVICE ====================
        VolumeCommand::DeviceGetVolume { id, .. } => {
            let reply = match controller.get_device_volume(&id) {
                Ok(v) => Ok(ReplyValue::Volume(v)),
                Err(e) => Err(e),
            };
            CommandOutcome { reply: Some(reply), dropped_error: None }
        },
        VolumeCommand::DeviceSetVolume { id, volume, .. } => {
            let dropped = match set_device_volume_checked(controller, &id, volume) {
                Ok(_) => None,
                Err(e) => Some(e),
            };
            CommandOutcome { reply: None, dropped_error: dropped }
        },
        VolumeCommand::DeviceMute { id, .. } => {
            let dropped = match controller.mute_device(&id) {
                Ok(_) => None,
                Err(e) => Some(e),
            };
            CommandOutcome { reply: None, dropped_error: dropped }
        },
        VolumeCommand::DeviceUnmute { id, .. } => {
            let dropped = match controller.unmute_device(&id) {
                Ok(_) => None,
                Err(e) => Some(e),
            };
            CommandOutcome { reply: None, dropped_error: dropped }
        },
        // ================== APPLICATION =================
        VolumeCommand::GetApplication { id, .. } => {
            let reply = match controller.get_application(id) {
                Ok(app) => Ok(ReplyValue::App(app)),
                Err(e) => Err(e),
            };
            CommandOutcome { reply: Some(reply), dropped_error: None }
        },
        VolumeCommand::ApplicationGetIcon { id, .. } => {
            let reply = match controller.get_application(id) {
                Ok(app) => {
                    let path = match app.process.path {
                        Some(path) => path,
                        None => Vec::new(),
                    };
                    match icon_reply(extract_icon(path)) {
                        Ok(bytes) => Ok(ReplyValue::Icon(bytes)),
                        Err(e) => Err(e),
                    }
                },
                Err(_) => Err(app_not_found_reply()),
            };
            CommandOutcome { reply: Some(reply), dropped_error: None }
        },
        VolumeCommand::ApplicationGetVolume { id, .. } => {
            let reply = match app_volume_reply(controller.get_app_volume(id)) {
                Ok(level) => Ok(ReplyValue::Volume(level)),
                Err(e) => Err(e),
            };
            CommandOutcome { reply: Some(reply), dropped_error: None }
        },
        VolumeCommand::ApplicationSetVolume { id, volume, .. } => {
            let dropped = match set_app_volume_checked(controller, id, volume) {
                Ok(_) => None,
                Err(e) => Some(e),
            };
            CommandOutcome { reply: None, dropped_error: dropped }
        },
        VolumeCommand::ApplicationMute { id, .. } => {
            let dropped = match controller.mute_app(id) {
                Ok(_) => None,
                Err(e) => Some(e),
            };
            CommandOutcome { reply: None, dropped_error: dropped }
        },
        VolumeCommand::ApplicationUnmute { id, .. } => {
            let dropped = match controller.unmute_app(id) {
                Ok(_) => None,
                Err(e) => Some(e),
            };
            CommandOutcome { reply: None, dropped_error: dropped }
        },
        // ==================== MANAGER ===================
        VolumeCommand::GetDeviceApplications { id, .. } => {
            let reply = match controller.get_device_applications(&id) {
                Ok(ids) => Ok(ReplyValue::AppIds(ids)),
                Err(e) => Err(e),
            };
            CommandOutcome { reply: Some(reply), dropped_error: None }
        },
        VolumeCommand::GetPlaybackDevices { .. } => {
            let reply = match controller.get_playback_devices() {
                Ok(devices) => Ok(ReplyValue::Devices(devices)),
                Err(e) => Err(e),
            };
            CommandOutcome { reply: Some(reply), dropped_error: None }
        },
    }
}

/// Drain commands in arrival order against the controller, then run the
/// controller's cleanup hook: the tail of the actor's run loop once its
/// queue has closed. Every command is executed exactly once, and each query
/// among them — and only those — yields a reply in its outcome.
pub fn drain_commands<C: VolumeControllerTrait>(controller: &mut C, commands: Vec<VolumeCommand>)
    -> (outs: Vec<CommandOutcome>)
    ensures
        outs@.len() == commands@.len(),
        forall|k: int|
            0 <= k < outs@.len() ==> ((#[trigger] outs@[k]).reply is Some <==> commands@[k]@
                .expects_reply()),
{
    let ghost orig = commands@;
    let mut outs: Vec<CommandOutcome> = Vec::new();
    let mut commands = commands;
    while commands.len() > 0
        invariant
            outs@.len() + commands@.len() == orig.len(),
            commands@ =~= orig.subrange(outs@.len() as int, orig.len() as int),
            forall|k: int|
                0 <= k < outs@.len() ==> ((#[trigger] outs@[k]).reply is Some <==> orig[k]@
                    .expects_reply()),
        decreases commands@.len(),
    {
        proof {
            assert(commands@[0] == orig[outs@.len() as int]);
        }
        let cmd = commands.remove(0);
        let out = execute_command(controller, cmd);
        outs.push(out);
    }
    controller.cleanup();
    outs
}

} // verus!
