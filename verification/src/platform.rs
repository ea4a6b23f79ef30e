//! The platform-independent audio controller. Platform audio APIs are
//! collaborators outside this crate; this controller stands in wherever no
//! native one is available: it accepts and ignores writes, reports silence
//! for device levels, and knows no applications.

use vstd::prelude::*;

use crate::shared::AppIdentifier;
use crate::shared::ApplicationVolumeControl;
use crate::shared::AudioApplication;
use crate::shared::AudioDevice;
use crate::shared::AudioVolume;
use crate::shared::DeviceControl;
use crate::shared::DeviceIdentifier;
use crate::shared::DeviceVolumeControl;
use crate::shared::UpdateChange;
use crate::shared::VolumeControllerError;
use crate::shared::VolumeControllerTrait;
use crate::shared::VolumePercent;
use crate::shared::ProcessInfo;
use crate::shared::VolumeResult;

verus! {

/// Icon bytes for an application, looked up by its executable path. Reading
/// icons needs a platform image pipeline; this build has none, so no icon is
/// ever produced.
pub fn extract_icon(_path: Vec<u8>) -> (r: Option<Vec<u8>>)
    ensures
        r is None,
{
    None
}

/// The fallback controller: a platform without an audio API.
pub struct VolumeController;

impl VolumeController {
    pub fn new() -> (r: VolumeController) {
        VolumeController
    }
}

/// Build the controller for this platform. The update sender would carry
/// change callbacks from a native audio API; the fallback controller has no
/// callbacks to deliver and drops it.
pub fn make_controller(_sender: tokio::sync::mpsc::UnboundedSender<UpdateChange>) -> (r:
    VolumeController) {
    VolumeController::new()
}

fn not_implemented() -> (r: VolumeControllerError)
    ensures
        r is Unknown,
{
    // "Not implemented"
    let msg: Vec<u8> = vec![78u8, 111, 116, 32, 105, 109, 112, 108, 101, 109, 101, 110, 116, 101, 100];
    VolumeControllerError::Unknown(msg)
}

impl DeviceVolumeControl for VolumeController {
    /// Every device reports silence.
    fn get_device_volume(&mut self, _device_id: &DeviceIdentifier) -> (r: VolumeResult<
        VolumePercent,
    >)
        ensures
            (r matches Ok(v) ==> v.wf()),
    {
        Ok(VolumePercent::zero())
    }

    /// Accepted and ignored.
    fn set_device_volume(&mut self, _id: &DeviceIdentifier, _volume: VolumePercent) -> VolumeResult<
        (),
    > {
        Ok(())
    }

    fn mute_device(&mut self, _id: &DeviceIdentifier) -> VolumeResult<()> {
        Ok(())
    }

    fn unmute_device(&mut self, _id: &DeviceIdentifier) -> VolumeResult<()> {
        Ok(())
    }
}

impl ApplicationVolumeControl for VolumeController {
    /// No application can be resolved without a platform session API.
    fn get_application(&mut self, _id: AppIdentifier) -> VolumeResult<AudioApplication> {
        Err(not_implemented())
    }

    fn get_app_volume(&mut self, _id: AppIdentifier) -> (r: VolumeResult<AudioVolume>)
        ensures
            (r matches Ok(v) ==> v.wf()),
    {
        Err(not_implemented())
    }

    fn set_app_volume(&mut self, _id: AppIdentifier, _volume: VolumePercent) -> VolumeResult<()> {
        Ok(())
    }

    fn mute_app(&mut self, _id: AppIdentifier) -> VolumeResult<()> {
        Ok(())
    }

    fn unmute_app(&mut self, _id: AppIdentifier) -> VolumeResult<()> {
        Ok(())
    }
}

impl DeviceControl for VolumeController {
    fn get_playback_devices(&mut self) -> VolumeResult<Vec<AudioDevice>> {
        Err(not_implemented())
    }

    fn get_device_applications(&mut self, _id: &DeviceIdentifier) -> VolumeResult<
        Vec<AppIdentifier>,
    > {
        Ok(Vec::new())
    }
}

impl VolumeControllerTrait for VolumeController {
    fn cleanup(&mut self) {
    }

    fn check_and_reinit(&mut self) {
    }
}

/// An in-memory controller with real state: devices and applications held as
/// plain tables. It backs the actor wherever a native controller would, and
/// lets every command be exercised against known state.
pub struct MemoryController {
    devices: Vec<AudioDevice>,
    apps: Vec<AudioApplication>,
    cleaned_up: bool,
}

impl MemoryController {
    /// Every stored level is in range.
    #[verifier::type_invariant]
    pub closed spec fn wf(self) -> bool {
        &&& (forall|i: int|
            0 <= i < self.devices@.len() ==> (#[trigger] self.devices@[i]).volume.wf())
        &&& (forall|i: int| 0 <= i < self.apps@.len() ==> (#[trigger] self.apps@[i]).volume.wf())
    }

    pub closed spec fn spec_devices(self) -> Seq<AudioDevice> {
        self.devices@
    }

    pub closed spec fn spec_apps(self) -> Seq<AudioApplication> {
        self.apps@
    }

    pub fn new() -> (r: MemoryController)
        ensures
            r.spec_devices().len() == 0,
            r.spec_apps().len() == 0,
    {
        MemoryController { devices: Vec::new(), apps: Vec::new(), cleaned_up: false }
    }

    /// Add a device entry; its level must be in range.
    pub fn add_device(&mut self, device: AudioDevice) -> (r: bool)
        ensures
            r == device.volume.wf(),
            r ==> final(self).spec_devices() == old(self).spec_devices().push(device),
            !r ==> *final(self) == *old(self),
    {
        proof {
            use_type_invariant(&*self);
        }
        if device.volume.current.valid() {
            let mut devices: Vec<AudioDevice> = Vec::new();
            core::mem::swap(&mut self.devices, &mut devices);
            devices.push(device);
            core::mem::swap(&mut self.devices, &mut devices);
            true
        } else {
            false
        }
    }

    /// Add an application entry; its level must be in range.
    pub fn add_app(&mut self, app: AudioApplication) -> (r: bool)
        ensures
            r == app.volume.wf(),
            r ==> final(self).spec_apps() == old(self).spec_apps().push(app),
            !r ==> *final(self) == *old(self),
    {
        proof {
            use_type_invariant(&*self);
        }
        if app.volume.current.valid() {
            let mut apps: Vec<AudioApplication> = Vec::new();
            core::mem::swap(&mut self.apps, &mut apps);
            apps.push(app);
            core::mem::swap(&mut self.apps, &mut apps);
            true
        } else {
            false
        }
    }

    fn find_device(&self, id: &DeviceIdentifier) -> (r: Option<usize>)
        ensures
            (r matches Some(i) ==> i < self.devices@.len() && self.devices@[i as int].id@ == id@),
            (r is None ==> forall|j: int|
                0 <= j < self.devices@.len() ==> (#[trigger] self.devices@[j]).id@ != id@),
    {
        let mut i: usize = 0;
        while i < self.devices.len()
            invariant
                i <= self.devices@.len(),
                forall|j: int| 0 <= j < i ==> (#[trigger] self.devices@[j]).id@ != id@,
            decreases self.devices@.len() - i,
        {
            if crate::text::bytes_eq(self.devices[i].id.as_slice(), id.as_slice()) {
                return Some(i);
            }
            i = i + 1;
        }
        None
    }

    fn find_app(&self, id: AppIdentifier) -> (r: Option<usize>)
        ensures
            (r matches Some(i) ==> i < self.apps@.len() && self.apps@[i as int].process.id == id),
            (r is None ==> forall|j: int|
                0 <= j < self.apps@.len() ==> (#[trigger] self.apps@[j]).process.id != id),
    {
        let mut i: usize = 0;
        while i < self.apps.len()
            invariant
                i <= self.apps@.len(),
                forall|j: int| 0 <= j < i ==> (#[trigger] self.apps@[j]).process.id != id,
            decreases self.apps@.len() - i,
        {
            if self.apps[i].process.id == id {
                return Some(i);
            }
            i = i + 1;
        }
        None
    }
}

fn device_not_found(id: &DeviceIdentifier) -> (r: VolumeControllerError)
    ensures
        (r matches VolumeControllerError::DeviceNotFound(v) && v@ == id@),
{
    VolumeControllerError::DeviceNotFound(crate::text::copy_bytes(id.as_slice()))
}

fn app_not_found() -> (r: VolumeControllerError)
    ensures
        r is ApplicationNotFound,
{
    // "Application not found"
    let msg: Vec<u8> = vec![
        65u8,
        112,
        112,
        108,
        105,
        99,
        97,
        116,
        105,
        111,
        110,
        32,
        110,
        111,
        116,
        32,
        102,
        111,
        117,
        110,
        100,
    ];
    VolumeControllerError::ApplicationNotFound(msg)
}

/// A fresh copy of a process entry.
fn copy_process(p: &ProcessInfo) -> (r: ProcessInfo)
    ensures
        r@ == p@,
{
    ProcessInfo {
        id: p.id,
        name: crate::text::copy_bytes(p.name.as_slice()),
        path: match &p.path {
            Some(path) => Some(crate::text::copy_bytes(path.as_slice())),
            None => None,
        },
    }
}

/// A fresh copy of an application entry.
pub fn copy_app(a: &AudioApplication) -> (r: AudioApplication)
    ensures
        r@ == a@,
        r.volume == a.volume,
{
    AudioApplication {
        process: copy_process(&a.process),
        session_type: a.session_type,
        direction: a.direction,
        volume: a.volume,
        device_id: crate::text::copy_bytes(a.device_id.as_slice()),
    }
}

/// A fresh copy of a device entry.
pub fn copy_device(d: &AudioDevice) -> (r: AudioDevice)
    ensures
        r@ == d@,
        r.volume == d.volume,
{
    AudioDevice {
        id: crate::text::copy_bytes(d.id.as_slice()),
        name: crate::text::copy_bytes(d.name.as_slice()),
        friendly_name: crate::text::copy_bytes(d.friendly_name.as_slice()),
        direction: d.direction,
        is_default: d.is_default,
        volume: d.volume,
    }
}

impl DeviceVolumeControl for MemoryController {
    /// The stored level of the device, or `DeviceNotFound`.
    fn get_device_volume(&mut self, device_id: &DeviceIdentifier) -> (r: VolumeResult<
        VolumePercent,
    >)
        ensures
            (r matches Ok(v) ==> v.wf()),
    {
        proof {
            use_type_invariant(&*self);
        }
        match self.find_device(device_id) {
            Some(i) => Ok(self.devices[i].volume.current),
            None => Err(device_not_found(device_id)),
        }
    }

    fn set_device_volume(&mut self, id: &DeviceIdentifier, volume: VolumePercent) -> VolumeResult<
        (),
    > {
        proof {
            use_type_invariant(&*self);
        }
        match self.find_device(id) {
            Some(i) => {
                let mut devices: Vec<AudioDevice> = Vec::new();
                core::mem::swap(&mut self.devices, &mut devices);
                let d = copy_device(&devices[i]);
                let updated = AudioDevice {
                    volume: AudioVolume { current: volume, muted: d.volume.muted },
                    ..d
                };
                devices[i] = updated;
                core::mem::swap(&mut self.devices, &mut devices);
                Ok(())
            },
            None => Err(device_not_found(id)),
        }
    }

    fn mute_device(&mut self, id: &DeviceIdentifier) -> VolumeResult<()> {
        proof {
            use_type_invariant(&*self);
        }
        match self.find_device(id) {
            Some(i) => {
                let mut devices: Vec<AudioDevice> = Vec::new();
                core::mem::swap(&mut self.devices, &mut devices);
                let d = copy_device(&devices[i]);
                let updated = AudioDevice {
                    volume: AudioVolume { current: d.volume.current, muted: true },
                    ..d
                };
                devices[i] = updated;
                core::mem::swap(&mut self.devices, &mut devices);
                Ok(())
            },
            None => Err(device_not_found(id)),
        }
    }

    fn unmute_device(&mut self, id: &DeviceIdentifier) -> VolumeResult<()> {
        proof {
            use_type_invariant(&*self);
        }
        match self.find_device(id) {
            Some(i) => {
                let mut devices: Vec<AudioDevice> = Vec::new();
                core::mem::swap(&mut self.devices, &mut devices);
                let d = copy_device(&devices[i]);
                let updated = AudioDevice {
                    volume: AudioVolume { current: d.volume.current, muted: false },
                    ..d
                };
                devices[i] = updated;
                core::mem::swap(&mut self.devices, &mut devices);
                Ok(())
            },
            None => Err(device_not_found(id)),
        }
    }
}

impl ApplicationVolumeControl for MemoryController {
    fn get_application(&mut self, id: AppIdentifier) -> VolumeResult<AudioApplication> {
        proof {
            use_type_invariant(&*self);
        }
        match self.find_app(id) {
            Some(i) => Ok(copy_app(&self.apps[i])),
            None => Err(app_not_found()),
        }
    }

    fn get_app_volume(&mut self, id: AppIdentifier) -> (r: VolumeResult<AudioVolume>)
        ensures
            (r matches Ok(v) ==> v.wf()),
    {
        proof {
            use_type_invariant(&*self);
        }
        match self.find_app(id) {
            Some(i) => Ok(self.apps[i].volume),
            None => Err(app_not_found()),
        }
    }

    fn set_app_volume(&mut self, id: AppIdentifier, volume: VolumePercent) -> VolumeResult<()> {
        proof {
            use_type_invariant(&*self);
        }
        match self.find_app(id) {
            Some(i) => {
                let mut apps: Vec<AudioApplication> = Vec::new();
                core::mem::swap(&mut self.apps, &mut apps);
                let a = copy_app(&apps[i]);
                let updated = AudioApplication {
                    volume: AudioVolume { current: volume, muted: a.volume.muted },
                    ..a
                };
                apps[i] = updated;
                core::mem::swap(&mut self.apps, &mut apps);
                Ok(())
            },
            None => Err(app_not_found()),
        }
    }

    fn mute_app(&mut self, id: AppIdentifier) -> VolumeResult<()> {
        proof {
            use_type_invariant(&*self);
        }
        match self.find_app(id) {
            Some(i) => {
                let mut apps: Vec<AudioApplication> = Vec::new();
                core::mem::swap(&mut self.apps, &mut apps);
                let a = copy_app(&apps[i]);
                let updated = AudioApplication {
                    volume: AudioVolume { current: a.volume.current, muted: true },
                    ..a
                };
                apps[i] = updated;
                core::mem::swap(&mut self.apps, &mut apps);
                Ok(())
            },
            None => Err(app_not_found()),
        }
    }

    fn unmute_app(&mut self, id: AppIdentifier) -> VolumeResult<()> {
        proof {
            use_type_invariant(&*self);
        }
        match self.find_app(id) {
            Some(i) => {
                let mut apps: Vec<AudioApplication> = Vec::new();
                core::mem::swap(&mut self.apps, &mut apps);
                let a = copy_app(&apps[i]);
                let updated = AudioApplication {
                    volume: AudioVolume { current: a.volume.current, muted: false },
                    ..a
                };
                apps[i] = updated;
                core::mem::swap(&mut self.apps, &mut apps);
                Ok(())
            },
            None => Err(app_not_found()),
        }
    }
}

impl DeviceControl for MemoryController {
    fn get_playback_devices(&mut self) -> VolumeResult<Vec<AudioDevice>> {
        proof {
            use_type_invariant(&*self);
        }
        let mut out: Vec<AudioDevice> = Vec::new();
        let mut i: usize = 0;
        while i < self.devices.len()
            invariant
                i <= self.devices@.len(),
            decreases self.devices@.len() - i,
        {
            out.push(copy_device(&self.devices[i]));
            i = i + 1;
        }
        Ok(out)
    }

    fn get_device_applications(&mut self, id: &DeviceIdentifier) -> VolumeResult<
        Vec<AppIdentifier>,
    > {
        proof {
            use_type_invariant(&*self);
        }
        let mut out: Vec<AppIdentifier> = Vec::new();
        let mut i: usize = 0;
        while i < self.apps.len()
            invariant
                i <= self.apps@.len(),
            decreases self.apps@.len() - i,
        {
            if crate::text::bytes_eq(self.apps[i].device_id.as_slice(), id.as_slice()) {
                out.push(self.apps[i].process.id);
            }
            i = i + 1;
        }
        Ok(out)
    }
}

impl VolumeControllerTrait for MemoryController {
    fn cleanup(&mut self) {
        proof {
            use_type_invariant(&*self);
        }
        self.cleaned_up = true;
    }

    fn check_and_reinit(&mut self) {
        proof {
            use_type_invariant(&*self);
        }
        self.cleaned_up = false;
    }
}

} // verus!
