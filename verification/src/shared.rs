//! The data model shared by the actor, the command server and the update
//! fan-out: identifiers, volume levels, change notifications, the error
//! taxonomy, and the capability traits of the audio controller.

use vstd::prelude::*;

verus! {

/// Identifier of an audio application: the process id that owns its session.
pub type AppIdentifier = u32;

/// Identifier of a playback device: the bytes of its platform device name.
pub type DeviceIdentifier = Vec<u8>;

/// One full-scale volume, expressed in millionths.
pub const MAX_VOLUME_MICROS: u64 = 1000000;

/// A volume level in millionths of full scale. A value above
/// `MAX_VOLUME_MICROS` can be carried (to report an invalid request) but is
/// never accepted by a controller.
#[derive(Clone, Copy, Debug, PartialEq, Eq, Structural)]
pub struct VolumePercent {
    pub micros: u64,
}

impl VolumePercent {
    /// The level lies within the accepted range, zero to full scale.
    pub open spec fn wf(self) -> bool {
        self.micros <= MAX_VOLUME_MICROS
    }

    pub fn new(micros: u64) -> (r: VolumePercent)
        ensures
            r.micros == micros,
    {
        VolumePercent { micros }
    }

    pub fn zero() -> (r: VolumePercent)
        ensures
            r.micros == 0,
            r.wf(),
    {
        VolumePercent { micros: 0 }
    }

    pub fn valid(&self) -> (r: bool)
        ensures
            r == self.wf(),
    {
        self.micros <= MAX_VOLUME_MICROS
    }
}

/// A device's or application's audio state: its level and whether it is muted.
#[derive(Clone, Copy, Debug, PartialEq, Eq, Structural)]
pub struct AudioVolume {
    pub current: VolumePercent,
    pub muted: bool,
}

impl AudioVolume {
    pub open spec fn wf(self) -> bool {
        self.current.wf()
    }
}

/// The closed error taxonomy of the control plane. Every failure travels as a
/// value of this type; verified code never panics.
#[derive(Debug)]
pub enum VolumeControllerError {
    DeviceNotFound(Vec<u8>),
    ApplicationNotFound(Vec<u8>),
    InvalidVolumePercentage(VolumePercent),
    OsApiError(Vec<u8>),
    SerdeError(Vec<u8>),
    Unknown(Vec<u8>),
}

pub type VolumeResult<T> = Result<T, VolumeControllerError>;

impl AudioVolume {
    /// Accept a requested level only inside the unit range; an out-of-range
    /// request is rejected with `InvalidVolumePercentage` carrying the level.
    pub fn validate_volume(volume: VolumePercent) -> (r: VolumeResult<AudioVolume>)
        ensures
            volume.wf() ==> r == VolumeResult::<AudioVolume>::Ok(
                AudioVolume { current: volume, muted: false },
            ),
            !volume.wf() ==> r == VolumeResult::<AudioVolume>::Err(
                VolumeControllerError::InvalidVolumePercentage(volume),
            ),
    {
        if volume.micros <= MAX_VOLUME_MICROS {
            Ok(AudioVolume { current: volume, muted: false })
        } else {
            Err(VolumeControllerError::InvalidVolumePercentage(volume))
        }
    }
}

/// Which audio entity an update concerns.
#[derive(Debug, Clone)]
pub enum Identifier {
    App(AppIdentifier),
    Device(DeviceIdentifier),
}

/// Lifecycle state of an audio session.
#[derive(Debug, Clone, Copy, PartialEq, Eq, Structural)]
pub enum EntityState {
    Disconnect,
    Created,
}

/// What changed about an audio entity.
#[derive(Debug, Clone)]
pub enum ChangeType {
    AudioVolume { volume: VolumePercent, mute: bool },
    IconPathChange { path: Vec<u8> },
    StateChange { state: EntityState },
    NameChange { name: Vec<u8> },
}

/// An asynchronous notification that some audio entity changed outside the
/// current request/response cycle.
#[derive(Debug, Clone)]
pub struct UpdateChange {
    pub id: Identifier,
    pub change: ChangeType,
}

impl UpdateChange {
    pub fn volume_change(id: Identifier, volume: VolumePercent, mute: bool) -> (r: UpdateChange)
        ensures
            r.id == id,
            r.change == (ChangeType::AudioVolume { volume, mute }),
    {
        UpdateChange { id, change: ChangeType::AudioVolume { volume, mute } }
    }

    pub fn app_icon_change(id: Identifier, path: Vec<u8>) -> (r: UpdateChange)
        ensures
            r.id == id,
            r.change == (ChangeType::IconPathChange { path }),
    {
        UpdateChange { id, change: ChangeType::IconPathChange { path } }
    }

    pub fn app_name_change(id: Identifier, name: Vec<u8>) -> (r: UpdateChange)
        ensures
            r.id == id,
            r.change == (ChangeType::NameChange { name }),
    {
        UpdateChange { id, change: ChangeType::NameChange { name } }
    }

    pub fn app_state_change(id: Identifier, state: EntityState) -> (r: UpdateChange)
        ensures
            r.id == id,
            r.change == (ChangeType::StateChange { state }),
    {
        UpdateChange { id, change: ChangeType::StateChange { state } }
    }
}

/// Kind of audio session behind an application entry.
#[derive(Debug, Clone, Copy, PartialEq, Eq, Structural)]
pub enum SessionType {
    Application,
    Device,
    System,
    Unknown,
}

/// Direction of an audio endpoint.
#[derive(Debug, Clone, Copy, PartialEq, Eq, Structural)]
pub enum SessionDirection {
    Render,
    Capture,
    Unknown,
}

/// The process that owns an application audio session.
#[derive(Debug, Clone)]
pub struct ProcessInfo {
    pub id: AppIdentifier,
    pub name: Vec<u8>,
    pub path: Option<Vec<u8>>,
}

/// An application audio session and the device it plays on.
#[derive(Debug, Clone)]
pub struct AudioApplication {
    pub process: ProcessInfo,
    pub session_type: SessionType,
    pub direction: SessionDirection,
    pub volume: AudioVolume,
    pub device_id: DeviceIdentifier,
}

/// A playback or capture device.
#[derive(Debug, Clone)]
pub struct AudioDevice {
    pub id: DeviceIdentifier,
    pub name: Vec<u8>,
    pub friendly_name: Vec<u8>,
    pub direction: SessionDirection,
    pub is_default: bool,
    pub volume: AudioVolume,
}

/// Device-level volume operations of the audio controller.
///
/// A valid level is demanded of every caller, so an out-of-range request can
/// never reach a controller; a returned level is always in range.
pub trait DeviceVolumeControl {
    fn get_device_volume(&mut self, device_id: &DeviceIdentifier) -> (r: VolumeResult<
        VolumePercent,
    >)
        ensures
            (r matches Ok(v) ==> v.wf()),
    ;

    fn set_device_volume(&mut self, id: &DeviceIdentifier, volume: VolumePercent) -> VolumeResult<
        (),
    >
        requires
            volume.wf(),
    ;

    fn mute_device(&mut self, id: &DeviceIdentifier) -> VolumeResult<()>;

    fn unmute_device(&mut self, id: &DeviceIdentifier) -> VolumeResult<()>;
}

/// Application-level volume operations of the audio controller.
pub trait ApplicationVolumeControl {
    fn get_application(&mut self, id: AppIdentifier) -> VolumeResult<AudioApplication>;

    fn get_app_volume(&mut self, id: AppIdentifier) -> (r: VolumeResult<AudioVolume>)
        ensures
            (r matches Ok(v) ==> v.wf()),
    ;

    fn set_app_volume(&mut self, id: AppIdentifier, volume: VolumePercent) -> VolumeResult<()>
        requires
            volume.wf(),
    ;

    fn mute_app(&mut self, id: AppIdentifier) -> VolumeResult<()>;

    fn unmute_app(&mut self, id: AppIdentifier) -> VolumeResult<()>;
}

/// Enumeration of devices and of the applications playing on them.
pub trait DeviceControl {
    fn get_playback_devices(&mut self) -> VolumeResult<Vec<AudioDevice>>;

    fn get_device_applications(&mut self, id: &DeviceIdentifier) -> VolumeResult<
        Vec<AppIdentifier>,
    >;
}

/// The full capability interface the command actor owns exclusively. The
/// lifecycle hooks let the actor tear the resource down on shutdown and
/// re-initialize it when the platform audio service resets.
pub trait VolumeControllerTrait: DeviceVolumeControl + ApplicationVolumeControl + DeviceControl {
    fn cleanup(&mut self);

    fn check_and_reinit(&mut self);
}


/// Spec-level value of an identifier.
pub ghost enum IdentifierView {
    App(AppIdentifier),
    Device(Seq<u8>),
}

impl View for Identifier {
    type V = IdentifierView;

    open spec fn view(&self) -> IdentifierView {
        match self {
            Identifier::App(id) => IdentifierView::App(*id),
            Identifier::Device(id) => IdentifierView::Device(id@),
        }
    }
}

/// Spec-level value of a change notification.
pub ghost enum ChangeTypeView {
    AudioVolume { volume: VolumePercent, mute: bool },
    IconPathChange { path: Seq<u8> },
    StateChange { state: EntityState },
    NameChange { name: Seq<u8> },
}

impl View for ChangeType {
    type V = ChangeTypeView;

    open spec fn view(&self) -> ChangeTypeView {
        match self {
            ChangeType::AudioVolume { volume, mute } => ChangeTypeView::AudioVolume {
                volume: *volume,
                mute: *mute,
            },
            ChangeType::IconPathChange { path } => ChangeTypeView::IconPathChange { path: path@ },
            ChangeType::StateChange { state } => ChangeTypeView::StateChange { state: *state },
            ChangeType::NameChange { name } => ChangeTypeView::NameChange { name: name@ },
        }
    }
}

/// Spec-level value of an update notification.
pub ghost struct UpdateChangeView {
    pub id: IdentifierView,
    pub change: ChangeTypeView,
}

impl View for UpdateChange {
    type V = UpdateChangeView;

    open spec fn view(&self) -> UpdateChangeView {
        UpdateChangeView { id: self.id@, change: self.change@ }
    }
}

/// Spec-level value of a process entry.
pub ghost struct ProcessInfoView {
    pub id: AppIdentifier,
    pub name: Seq<u8>,
    pub path: Option<Seq<u8>>,
}

impl View for ProcessInfo {
    type V = ProcessInfoView;

    open spec fn view(&self) -> ProcessInfoView {
        ProcessInfoView {
            id: self.id,
            name: self.name@,
            path: match self.path {
                Option::Some(ref p) => Option::Some(p@),
                Option::None => Option::None,
            },
        }
    }
}

/// Spec-level value of an application session.
pub ghost struct AudioApplicationView {
    pub process: ProcessInfoView,
    pub session_type: SessionType,
    pub direction: SessionDirection,
    pub volume: AudioVolume,
    pub device_id: Seq<u8>,
}

impl View for AudioApplication {
    type V = AudioApplicationView;

    open spec fn view(&self) -> AudioApplicationView {
        AudioApplicationView {
            process: self.process@,
            session_type: self.session_type,
            direction: self.direction,
            volume: self.volume,
            device_id: self.device_id@,
        }
    }
}

/// Spec-level value of a device entry.
pub ghost struct AudioDeviceView {
    pub id: Seq<u8>,
    pub name: Seq<u8>,
    pub friendly_name: Seq<u8>,
    pub direction: SessionDirection,
    pub is_default: bool,
    pub volume: AudioVolume,
}

impl View for AudioDevice {
    type V = AudioDeviceView;

    open spec fn view(&self) -> AudioDeviceView {
        AudioDeviceView {
            id: self.id@,
            name: self.name@,
            friendly_name: self.friendly_name@,
            direction: self.direction,
            is_default: self.is_default,
            volume: self.volume,
        }
    }
}

} // verus!
