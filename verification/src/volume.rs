//! Commands against the audio resource, their wire operation names, and the
//! model of the actor-side command queue with its shutdown protocol.

use vstd::prelude::*;

use crate::shared::AppIdentifier;
use crate::shared::DeviceIdentifier;
use crate::shared::VolumePercent;
use crate::text::copy_bytes;

verus! {

/// Spec-level value of a command: byte strings as sequences, the reply
/// channel of the running system abstracted away entirely (replies are
/// correlated by request id).
pub ghost enum CommandView {
    DeviceGetVolume { request_id: Seq<u8>, id: Seq<u8> },
    DeviceSetVolume { request_id: Seq<u8>, id: Seq<u8>, volume: VolumePercent },
    DeviceMute { request_id: Seq<u8>, id: Seq<u8> },
    DeviceUnmute { request_id: Seq<u8>, id: Seq<u8> },
    GetApplication { request_id: Seq<u8>, id: AppIdentifier },
    ApplicationGetIcon { request_id: Seq<u8>, id: AppIdentifier },
    ApplicationGetVolume { request_id: Seq<u8>, id: AppIdentifier },
    ApplicationSetVolume { request_id: Seq<u8>, id: AppIdentifier, volume: VolumePercent },
    ApplicationMute { request_id: Seq<u8>, id: AppIdentifier },
    ApplicationUnmute { request_id: Seq<u8>, id: AppIdentifier },
    GetDeviceApplications { request_id: Seq<u8>, id: Seq<u8> },
    GetPlaybackDevices { request_id: Seq<u8> },
}

/// One requested operation against the audio resource. An empty request id
/// means that no correlation was requested.
#[derive(Debug)]
pub enum VolumeCommand {
    DeviceGetVolume { request_id: Vec<u8>, id: DeviceIdentifier },
    DeviceSetVolume { request_id: Vec<u8>, id: DeviceIdentifier, volume: VolumePercent },
    DeviceMute { request_id: Vec<u8>, id: DeviceIdentifier },
    DeviceUnmute { request_id: Vec<u8>, id: DeviceIdentifier },
    GetApplication { request_id: Vec<u8>, id: AppIdentifier },
    ApplicationGetIcon { request_id: Vec<u8>, id: AppIdentifier },
    ApplicationGetVolume { request_id: Vec<u8>, id: AppIdentifier },
    ApplicationSetVolume { request_id: Vec<u8>, id: AppIdentifier, volume: VolumePercent },
    ApplicationMute { request_id: Vec<u8>, id: AppIdentifier },
    ApplicationUnmute { request_id: Vec<u8>, id: AppIdentifier },
    GetDeviceApplications { request_id: Vec<u8>, id: DeviceIdentifier },
    GetPlaybackDevices { request_id: Vec<u8> },
}

impl View for VolumeCommand {
    type V = CommandView;

    open spec fn view(&self) -> CommandView {
        match self {
            VolumeCommand::DeviceGetVolume { request_id, id } => CommandView::DeviceGetVolume {
                request_id: request_id@,
                id: id@,
            },
            VolumeCommand::DeviceSetVolume { request_id, id, volume } => (
            CommandView::DeviceSetVolume { request_id: request_id@, id: id@, volume: *volume }),
            VolumeCommand::DeviceMute { request_id, id } => CommandView::DeviceMute {
                request_id: request_id@,
                id: id@,
            },
            VolumeCommand::DeviceUnmute { request_id, id } => CommandView::DeviceUnmute {
                request_id: request_id@,
                id: id@,
            },
            VolumeCommand::GetApplication { request_id, id } => CommandView::GetApplication {
                request_id: request_id@,
                id: *id,
            },
            VolumeCommand::ApplicationGetIcon { request_id, id } => (
            CommandView::ApplicationGetIcon { request_id: request_id@, id: *id }),
            VolumeCommand::ApplicationGetVolume { request_id, id } => (
            CommandView::ApplicationGetVolume { request_id: request_id@, id: *id }),
            VolumeCommand::ApplicationSetVolume { request_id, id, volume } => (
            CommandView::ApplicationSetVolume {
                request_id: request_id@,
                id: *id,
                volume: *volume,
            }),
            VolumeCommand::ApplicationMute { request_id, id } => CommandView::ApplicationMute {
                request_id: request_id@,
                id: *id,
            },
            VolumeCommand::ApplicationUnmute { request_id, id } => (
            CommandView::ApplicationUnmute { request_id: request_id@, id: *id }),
            VolumeCommand::GetDeviceApplications { request_id, id } => (
            CommandView::GetDeviceApplications { request_id: request_id@, id: id@ }),
            VolumeCommand::GetPlaybackDevices { request_id } => CommandView::GetPlaybackDevices {
                request_id: request_id@,
            },
        }
    }
}

/// "device_get_volume"
pub open spec fn spec_op_device_get_volume() -> Seq<u8> {
    seq![100u8, 101, 118, 105, 99, 101, 95, 103, 101, 116, 95, 118, 111, 108, 117, 109, 101]
}

/// "device_set_volume"
pub open spec fn spec_op_device_set_volume() -> Seq<u8> {
    seq![100u8, 101, 118, 105, 99, 101, 95, 115, 101, 116, 95, 118, 111, 108, 117, 109, 101]
}

/// "device_mute"
pub open spec fn spec_op_device_mute() -> Seq<u8> {
    seq![100u8, 101, 118, 105, 99, 101, 95, 109, 117, 116, 101]
}

/// "device_unmute"
pub open spec fn spec_op_device_unmute() -> Seq<u8> {
    seq![100u8, 101, 118, 105, 99, 101, 95, 117, 110, 109, 117, 116, 101]
}

/// "get_application"
pub open spec fn spec_op_get_application() -> Seq<u8> {
    seq![103u8, 101, 116, 95, 97, 112, 112, 108, 105, 99, 97, 116, 105, 111, 110]
}

/// "application_get_icon"
pub open spec fn spec_op_application_get_icon() -> Seq<u8> {
    seq![97u8, 112, 112, 108, 105, 99, 97, 116, 105, 111, 110, 95, 103, 101, 116, 95, 105, 99, 111, 110]
}

/// "application_get_volume"
pub open spec fn spec_op_application_get_volume() -> Seq<u8> {
    seq![97u8, 112, 112, 108, 105, 99, 97, 116, 105, 111, 110, 95, 103, 101, 116, 95, 118, 111, 108, 117, 109, 101]
}

/// "application_set_volume"
pub open spec fn spec_op_application_set_volume() -> Seq<u8> {
    seq![97u8, 112, 112, 108, 105, 99, 97, 116, 105, 111, 110, 95, 115, 101, 116, 95, 118, 111, 108, 117, 109, 101]
}

/// "application_mute"
pub open spec fn spec_op_application_mute() -> Seq<u8> {
    seq![97u8, 112, 112, 108, 105, 99, 97, 116, 105, 111, 110, 95, 109, 117, 116, 101]
}

/// "application_unmute"
pub open spec fn spec_op_application_unmute() -> Seq<u8> {
    seq![97u8, 112, 112, 108, 105, 99, 97, 116, 105, 111, 110, 95, 117, 110, 109, 117, 116, 101]
}

/// "get_device_applications"
pub open spec fn spec_op_get_device_applications() -> Seq<u8> {
    seq![103u8, 101, 116, 95, 100, 101, 118, 105, 99, 101, 95, 97, 112, 112, 108, 105, 99, 97, 116, 105, 111, 110, 115]
}

/// "get_playback_devices"
pub open spec fn spec_op_get_playback_devices() -> Seq<u8> {
    seq![103u8, 101, 116, 95, 112, 108, 97, 121, 98, 97, 99, 107, 95, 100, 101, 118, 105, 99, 101, 115]
}

impl CommandView {
    /// The request id carried by the command; empty when no correlation was
    /// requested.
    pub open spec fn request_id(self) -> Seq<u8> {
        match self {
            CommandView::DeviceGetVolume { request_id, .. } => request_id,
            CommandView::DeviceSetVolume { request_id, .. } => request_id,
            CommandView::DeviceMute { request_id, .. } => request_id,
            CommandView::DeviceUnmute { request_id, .. } => request_id,
            CommandView::GetApplication { request_id, .. } => request_id,
            CommandView::ApplicationGetIcon { request_id, .. } => request_id,
            CommandView::ApplicationGetVolume { request_id, .. } => request_id,
            CommandView::ApplicationSetVolume { request_id, .. } => request_id,
            CommandView::ApplicationMute { request_id, .. } => request_id,
            CommandView::ApplicationUnmute { request_id, .. } => request_id,
            CommandView::GetDeviceApplications { request_id, .. } => request_id,
            CommandView::GetPlaybackDevices { request_id } => request_id,
        }
    }

    /// The snake-case operation name of the command on the wire.
    pub open spec fn op_name(self) -> Seq<u8> {
        match self {
            CommandView::DeviceGetVolume { .. } => spec_op_device_get_volume(),
            CommandView::DeviceSetVolume { .. } => spec_op_device_set_volume(),
            CommandView::DeviceMute { .. } => spec_op_device_mute(),
            CommandView::DeviceUnmute { .. } => spec_op_device_unmute(),
            CommandView::GetApplication { .. } => spec_op_get_application(),
            CommandView::ApplicationGetIcon { .. } => spec_op_application_get_icon(),
            CommandView::ApplicationGetVolume { .. } => spec_op_application_get_volume(),
            CommandView::ApplicationSetVolume { .. } => spec_op_application_set_volume(),
            CommandView::ApplicationMute { .. } => spec_op_application_mute(),
            CommandView::ApplicationUnmute { .. } => spec_op_application_unmute(),
            CommandView::GetDeviceApplications { .. } => spec_op_get_device_applications(),
            CommandView::GetPlaybackDevices { .. } => spec_op_get_playback_devices(),
        }
    }

    /// Whether the command expects exactly one reply; the remaining commands
    /// are fire-and-forget writes.
    pub open spec fn expects_reply(self) -> bool {
        match self {
            CommandView::DeviceGetVolume { .. } => true,
            CommandView::GetApplication { .. } => true,
            CommandView::ApplicationGetIcon { .. } => true,
            CommandView::ApplicationGetVolume { .. } => true,
            CommandView::GetDeviceApplications { .. } => true,
            CommandView::GetPlaybackDevices { .. } => true,
            _ => false,
        }
    }

    /// The label under which a response to this command is sent back: the
    /// request id when one was given, else the operation name.
    pub open spec fn response_label(self) -> Seq<u8> {
        if self.request_id().len() > 0 {
            self.request_id()
        } else {
            self.op_name()
        }
    }
}

impl VolumeCommand {
    /// The request id of the command, empty when none was requested.
    pub fn get_request_id(&self) -> (r: Vec<u8>)
        ensures
            r@ == self@.request_id(),
    {
        match self {
            VolumeCommand::DeviceGetVolume { request_id, .. } => copy_bytes(request_id),
            VolumeCommand::DeviceSetVolume { request_id, .. } => copy_bytes(request_id),
            VolumeCommand::DeviceMute { request_id, .. } => copy_bytes(request_id),
            VolumeCommand::DeviceUnmute { request_id, .. } => copy_bytes(request_id),
            VolumeCommand::GetApplication { request_id, .. } => copy_bytes(request_id),
            VolumeCommand::ApplicationGetIcon { request_id, .. } => copy_bytes(request_id),
            VolumeCommand::ApplicationGetVolume { request_id, .. } => copy_bytes(request_id),
            VolumeCommand::ApplicationSetVolume { request_id, .. } => copy_bytes(request_id),
            VolumeCommand::ApplicationMute { request_id, .. } => copy_bytes(request_id),
            VolumeCommand::ApplicationUnmute { request_id, .. } => copy_bytes(request_id),
            VolumeCommand::GetDeviceApplications { request_id, .. } => copy_bytes(request_id),
            VolumeCommand::GetPlaybackDevices { request_id } => copy_bytes(request_id),
        }
    }

    /// The snake-case operation name used on the wire.
    pub fn get_name(&self) -> (r: Vec<u8>)
        ensures
            r@ == self@.op_name(),
    {
        let r: Vec<u8> = match self {
            VolumeCommand::DeviceGetVolume { .. } => vec![
                100u8,
                101,
                118,
                105,
                99,
                101,
                95,
                103,
                101,
                116,
                95,
                118,
                111,
                108,
                117,
                109,
                101,
            ],
            VolumeCommand::DeviceSetVolume { .. } => vec![
                100u8,
                101,
                118,
                105,
                99,
                101,
                95,
                115,
                101,
                116,
                95,
                118,
                111,
                108,
                117,
                109,
                101,
            ],
            VolumeCommand::DeviceMute { .. } => vec![100u8, 101, 118, 105, 99, 101, 95, 109, 117, 116, 101],
            VolumeCommand::DeviceUnmute { .. } => vec![
                100u8,
                101,
                118,
                105,
                99,
                101,
                95,
                117,
                110,
                109,
                117,
                116,
                101,
            ],
            VolumeCommand::GetApplication { .. } => vec![
                103u8,
                101,
                116,
                95,
                97,
                112,
                112,
                108,
                105,
                99,
                97,
                116,
                105,
                111,
                110,
            ],
            VolumeCommand::ApplicationGetIcon { .. } => vec![
                97u8,
                112,
                112,
                108,
                105,
                99,
                97,
                116,
                105,
                111,
                110,
                95,
                103,
                101,
                116,
                95,
                105,
                99,
                111,
                110,
            ],
            VolumeCommand::ApplicationGetVolume { .. } => vec![
                97u8,
                112,
                112,
                108,
                105,
                99,
                97,
                116,
                105,
                111,
                110,
                95,
                103,
                101,
                116,
                95,
                118,
                111,
                108,
                117,
                109,
                101,
            ],
            VolumeCommand::ApplicationSetVolume { .. } => vec![
                97u8,
                112,
                112,
                108,
                105,
                99,
                97,
                116,
                105,
                111,
                110,
                95,
                115,
                101,
                116,
                95,
                118,
                111,
                108,
                117,
                109,
                101,
            ],
            VolumeCommand::ApplicationMute { .. } => vec![
                97u8,
                112,
                112,
                108,
                105,
                99,
                97,
                116,
                105,
                111,
                110,
                95,
                109,
                117,
                116,
                101,
            ],
            VolumeCommand::ApplicationUnmute { .. } => vec![
                97u8,
                112,
                112,
                108,
                105,
                99,
                97,
                116,
                105,
                111,
                110,
                95,
                117,
                110,
                109,
                117,
                116,
                101,
            ],
            VolumeCommand::GetDeviceApplications { .. } => vec![
                103u8,
                101,
                116,
                95,
                100,
                101,
                118,
                105,
                99,
                101,
                95,
                97,
                112,
                112,
                108,
                105,
                99,
                97,
                116,
                105,
                111,
                110,
                115,
            ],
            VolumeCommand::GetPlaybackDevices { .. } => vec![
                103u8,
                101,
                116,
                95,
                112,
                108,
                97,
                121,
                98,
                97,
                99,
                107,
                95,
                100,
                101,
                118,
                105,
                99,
                101,
                115,
            ],
        };
        proof {
            assert(r@ =~= self@.op_name());
        }
        r
    }

    /// Whether the command expects exactly one reply.
    pub fn expects_reply(&self) -> (r: bool)
        ensures
            r == self@.expects_reply(),
    {
        match self {
            VolumeCommand::DeviceGetVolume { .. } => true,
            VolumeCommand::GetApplication { .. } => true,
            VolumeCommand::ApplicationGetIcon { .. } => true,
            VolumeCommand::ApplicationGetVolume { .. } => true,
            VolumeCommand::GetDeviceApplications { .. } => true,
            VolumeCommand::GetPlaybackDevices { .. } => true,
            _ => false,
        }
    }

    /// The label under which a response to this command is sent back.
    pub fn response_label(&self) -> (r: Vec<u8>)
        ensures
            r@ == self@.response_label(),
    {
        let rid = self.get_request_id();
        if rid.len() > 0 {
            rid
        } else {
            self.get_name()
        }
    }
}

/// Spec-level state of the actor-side command queue.
pub ghost struct VolumeServerView {
    /// Whether the queue still accepts commands.
    pub accepting: bool,
    /// Commands enqueued and not yet executed.
    pub pending: Seq<VolumeCommand>,
}

impl VolumeServerView {
    /// Effect of `send`: enqueue when open, refuse once the channel closed.
    pub open spec fn send_result(self, cmd: VolumeCommand) -> (VolumeServerView, bool) {
        if self.accepting {
            (VolumeServerView { accepting: true, pending: self.pending.push(cmd) }, true)
        } else {
            (self, false)
        }
    }

    /// Effect of `shutdown`: the channel closes, the queue drains, and the
    /// commands still pending are handed back for their final disposal.
    pub open spec fn shutdown_result(self) -> (VolumeServerView, Seq<VolumeCommand>) {
        (VolumeServerView { accepting: false, pending: Seq::empty() }, self.pending)
    }
}

/// Model of one running actor: the open side of its command queue together
/// with the commands it has not yet executed. The thread itself and the real
/// channel endpoints live with the embedding program.
pub struct VolumeServer {
    pub accepting: bool,
    pub pending: Vec<VolumeCommand>,
}

impl View for VolumeServer {
    type V = VolumeServerView;

    open spec fn view(&self) -> VolumeServerView {
        VolumeServerView { accepting: self.accepting, pending: self.pending@ }
    }
}

impl VolumeServer {
    pub fn new() -> (r: VolumeServer)
        ensures
            r@.accepting,
            r@.pending == Seq::<VolumeCommand>::empty(),
    {
        VolumeServer { accepting: true, pending: Vec::new() }
    }

    /// Enqueue a command; never blocks; fails exactly when the actor has shut
    /// down, leaving the queue unchanged.
    pub fn send(&mut self, cmd: VolumeCommand) -> (r: Result<(), String>)
        ensures
            ({
                let (s, ok) = old(self)@.send_result(cmd);
                final(self)@ == s && r is Ok == ok
            }),
    {
        if self.accepting {
            self.pending.push(cmd);
            Ok(())
        } else {
            Err(String::from_str("Send failed: channel closed"))
        }
    }

    /// Drop the sending side of the queue: no further command is accepted.
    pub fn close_channel(&mut self)
        ensures
            !final(self)@.accepting,
            final(self)@.pending == old(self)@.pending,
    {
        self.accepting = false;
    }

    /// Shut the actor down: close the channel, drain what is still pending
    /// and hand it back. Calling it twice is harmless: the second call
    /// returns an empty drain.
    pub fn shutdown(&mut self) -> (drained: Vec<VolumeCommand>)
        ensures
            ({
                let (s, d) = old(self)@.shutdown_result();
                final(self)@ == s && drained@ == d
            }),
    {
        self.accepting = false;
        let mut drained: Vec<VolumeCommand> = Vec::new();
        core::mem::swap(&mut self.pending, &mut drained);
        proof {
            assert(final(self)@.pending =~= Seq::<VolumeCommand>::empty());
        }
        drained
    }
}

/// The handle through which the rest of the system reaches the actor: an
/// optional running server, absent before start-up and after shutdown.
pub struct VolumeCommandSender {
    pub server: Option<VolumeServer>,
}

impl VolumeCommandSender {
    pub fn new() -> (r: VolumeCommandSender)
        ensures
            r.server is None,
    {
        VolumeCommandSender { server: None }
    }

    /// Forward a command to the running actor; fails when none runs or when
    /// the actor's queue has closed.
    pub fn send(&mut self, cmd: VolumeCommand) -> (r: Result<(), String>)
        ensures
            old(self).server is None ==> r is Err && final(self).server is None,
            (old(self).server matches Some(s) ==> {
                let (s1, ok) = s@.send_result(cmd);
                final(self).server matches Some(t) && t@ == s1 && r is Ok == ok
            }),
    {
        match &mut self.server {
            Some(server) => server.send(cmd),
            None => Err(String::from_str("No server")),
        }
    }

    /// Install a freshly spawned actor as the running server. Any
    /// predecessor is fully shut down first — its queue closed and its
    /// pending commands drained and handed back — so at most one actor
    /// serves at a time.
    pub fn install(&mut self, server: VolumeServer) -> (drained: Vec<VolumeCommand>)
        ensures
            (final(self).server matches Some(t) && t@ == server@),
            (old(self).server matches Some(o) ==> drained@ == o@.pending),
            (old(self).server is None ==> drained@ == Seq::<VolumeCommand>::empty()),
    {
        let mut holder = Some(server);
        core::mem::swap(&mut self.server, &mut holder);
        match holder {
            Some(mut previous) => previous.shutdown(),
            None => Vec::new(),
        }
    }

    /// Shut the running actor down, if any; idempotent.
    pub fn shutdown(&mut self) -> (r: Result<(), String>)
        ensures
            r is Ok,
            final(self).server is None,
    {
        let server = self.server.take();
        match server {
            Some(mut server) => {
                let _ = server.shutdown();
                Ok(())
            },
            None => Ok(()),
        }
    }
}

/// For any open actor queue, a command with a reply channel can always be
/// enqueued, and a shutdown that happens before the command is executed
/// closes the queue, drains the command without producing a reply, refuses
/// any later send, and leaves a second shutdown with nothing to do: the
/// pending reply is simply dropped, never a fault.
pub proof fn law_pending_reply_dropped(s: VolumeServerView, cmd: VolumeCommand)
    requires
        s.accepting,
    ensures
        ({
            let (s1, ok) = s.send_result(cmd);
            let (s2, drained) = s1.shutdown_result();
            &&& ok
            &&& drained.contains(cmd)
            &&& !s2.accepting
            &&& s2.pending =~= Seq::<VolumeCommand>::empty()
            &&& !s2.send_result(cmd).1
            &&& s2.shutdown_result().0 == s2
            &&& s2.shutdown_result().1 =~= Seq::<VolumeCommand>::empty()
        }),
{
    let (s1, ok) = s.send_result(cmd);
    assert(s1.pending.contains(cmd)) by {
        assert(s1.pending[s1.pending.len() - 1] == cmd);
    }
}

} // verus!
