//! The service that hands platform devices over to guests: a batch of
//! devices is bound one after the other, each bound device is held by a
//! handle that gives it back exactly once, and the guest is given the
//! device-tree overlay that describes what it was handed.

use crate::dtbo::{
    entry_of, get_dt_table_entry, get_dt_table_header, header_of, overlay_of, parse_vm_dtbo_index,
    parsed_index, write_vm_full_dtbo_from_img, DtboError,
};
use crate::vfio::{
    bind_device, binder_start, lemma_transition_progress, transition, unbind_device, Action,
    BindError, BinderView, DeviceBinder, Event, EventView, Goal, Stage,
};
use vstd::prelude::*;
use vstd::string::*;

verus! {

/// A device that a guest asks for.
#[derive(Clone, Debug, Default, PartialEq, Eq)]
pub struct VfioDev {
    /// The path of the device below `/sys`.
    pub sysfs_path: String,
    /// The label of the device in the device-tree overlay.
    pub dtbo_label: String,
}

/// A device that is bound to the VFIO driver. The handle owns the way back:
/// it is released once, and gives out the binder that unbinds the device then
/// and never again.
#[derive(Debug)]
pub struct BoundDevice {
    sysfs_path: String,
    dtbo_label: String,
    released: bool,
}

/// What a [`BoundDevice`] holds, as plain values.
pub struct BoundDeviceView {
    pub sysfs_path: Seq<char>,
    pub dtbo_label: Seq<char>,
    pub released: bool,
}

impl View for BoundDevice {
    type V = BoundDeviceView;

    closed spec fn view(&self) -> BoundDeviceView {
        BoundDeviceView {
            sysfs_path: self.sysfs_path@,
            dtbo_label: self.dtbo_label@,
            released: self.released,
        }
    }
}

#[allow(non_snake_case)]
impl BoundDevice {
    /// The handle of a device that was just bound.
    pub fn new(sysfs_path: String, dtbo_label: String) -> (device: BoundDevice)
        ensures
            device@ == (BoundDeviceView {
                sysfs_path: sysfs_path@,
                dtbo_label: dtbo_label@,
                released: false,
            }),
    {
        BoundDevice { sysfs_path, dtbo_label, released: false }
    }

    /// The path of the device below `/sys`.
    pub fn getSysfsPath(&self) -> (path: String)
        ensures
            path@ == self@.sysfs_path,
    {
        self.sysfs_path.clone()
    }

    /// The label of the device in the device-tree overlay.
    pub fn getDtboLabel(&self) -> (label: String)
        ensures
            label@ == self@.dtbo_label,
    {
        self.dtbo_label.clone()
    }

    /// Whether the device was given back already.
    pub fn is_released(&self) -> (released: bool)
        ensures
            released == self@.released,
    {
        self.released
    }

    /// Releases the device. The first release gives out the binder that
    /// unbinds the device, with the action it starts with; any later one gives
    /// out nothing.
    pub fn release(&mut self) -> (r: Option<(DeviceBinder, Action)>)
        ensures
            final(self)@ == (BoundDeviceView { released: true, ..old(self)@ }),
            r is Some <==> !old(self)@.released,
            r matches Some(binder) ==> binder.0@ == binder_start(
                Goal::Unbind,
                old(self)@.sysfs_path,
            ) && binder.1 == Action::Canonicalize,
    {
        if self.released {
            return None;
        }
        self.released = true;
        Some(unbind_device(self.sysfs_path.clone()))
    }
}

/// Whether the host supports VFIO for platform devices: it has the VFIO
/// device node and the VFIO driver of the platform bus.
pub fn is_vfio_supported(dev_vfio_exists: bool, platform_driver_exists: bool) -> (r: bool)
    ensures
        r == (dev_vfio_exists && platform_driver_exists),
{
    dev_vfio_exists && platform_driver_exists
}

/// The device node of VFIO.
pub fn dev_vfio_path() -> (path: &'static str)
    ensures
        path@ == "/dev/vfio/vfio"@,
{
    "/dev/vfio/vfio"
}

/// The directory of the VFIO driver of the platform bus.
pub fn vfio_platform_driver_path() -> (path: &'static str)
    ensures
        path@ == "/sys/bus/platform/drivers/vfio-platform"@,
{
    "/sys/bus/platform/drivers/vfio-platform"
}

/// The devices as plain values.
pub open spec fn device_views(devices: Seq<VfioDev>) -> Seq<(Seq<char>, Seq<char>)> {
    devices.map_values(|d: VfioDev| (d.sysfs_path@, d.dtbo_label@))
}

/// The handles as plain values.
pub open spec fn bound_views(bound: Seq<BoundDevice>) -> Seq<BoundDeviceView> {
    bound.map_values(|b: BoundDevice| b@)
}

/// The handle of device `i` of a batch, as it is when the device was just
/// bound.
pub open spec fn handle_of(devices: Seq<(Seq<char>, Seq<char>)>, i: int) -> BoundDeviceView {
    BoundDeviceView { sysfs_path: devices[i].0, dtbo_label: devices[i].1, released: false }
}

/// The state of a batch, as plain values.
pub struct BatchView {
    /// The devices to bind, with their labels.
    pub devices: Seq<(Seq<char>, Seq<char>)>,
    /// The binder of the device that is being bound.
    pub current: BinderView,
    /// The handles of the devices that are bound: those before the one that
    /// is being bound.
    pub bound: Seq<BoundDeviceView>,
    /// Whether the batch has finished.
    pub done: bool,
}

/// What a batch does when it is told of an outcome. The outcome goes to the
/// binder of the device that is being bound. When that binder finishes well,
/// the device gets its handle and the batch goes on to the next device, or
/// finishes well after the last. When it fails the batch finishes with its
/// failure: the devices behind it are not tried, and those before it stay
/// bound and keep their handles.
pub open spec fn batch_transition(b: BatchView, event: EventView) -> (BatchView, Action) {
    if b.done || b.bound.len() >= b.devices.len() {
        (BatchView { done: true, ..b }, Action::Finish(Err(BindError::UnexpectedEvent)))
    } else {
        let (current, action) = transition(b.current, event);
        match action {
            Action::Finish(Ok(_)) => {
                let bound = b.bound.push(handle_of(b.devices, b.bound.len() as int));
                if bound.len() < b.devices.len() {
                    (
                        BatchView {
                            current: binder_start(Goal::Bind, b.devices[bound.len() as int].0),
                            bound,
                            ..b
                        },
                        Action::Canonicalize,
                    )
                } else {
                    (BatchView { current, bound, done: true, ..b }, Action::Finish(Ok(())))
                }
            },
            Action::Finish(Err(e)) => (
                BatchView { current, done: true, ..b },
                Action::Finish(Err(e)),
            ),
            _ => (BatchView { current, ..b }, action),
        }
    }
}

/// How a batch starts: with nothing bound. It has finished at once where the
/// host does not support VFIO, which is a failure, or where there is no
/// device to bind.
pub open spec fn batch_start(vfio_supported: bool, devices: Seq<(Seq<char>, Seq<char>)>) -> (
    BatchView,
    Action,
) {
    let first = binder_start(Goal::Bind, 
        if devices.len() > 0 {
            devices[0].0
        } else {
            Seq::<char>::empty()
        },
    );
    let batch = BatchView {
        devices,
        current: first,
        bound: Seq::<BoundDeviceView>::empty(),
        done: !vfio_supported || devices.len() == 0,
    };
    if !vfio_supported {
        (batch, Action::Finish(Err(BindError::NotSupported)))
    } else if devices.len() == 0 {
        (batch, Action::Finish(Ok(())))
    } else {
        (batch, Action::Canonicalize)
    }
}

/// Binds the devices of one request to the VFIO driver, one after the
/// other.
pub struct BatchBinder {
    devices: Vec<VfioDev>,
    current: DeviceBinder,
    bound: Vec<BoundDevice>,
    done: bool,
}

impl View for BatchBinder {
    type V = BatchView;

    closed spec fn view(&self) -> BatchView {
        BatchView {
            devices: device_views(self.devices@),
            current: self.current@,
            bound: bound_views(self.bound@),
            done: self.done,
        }
    }
}

impl BatchBinder {
    /// Whether the batch is one that can come about: the handles are those of
    /// the first devices of the request, and while the batch has not finished
    /// there is a device left that its binder is still binding.
    pub open spec fn well_formed(b: BatchView) -> bool {
        &&& b.bound.len() <= b.devices.len()
        &&& !b.done ==> b.bound.len() < b.devices.len()
        &&& !b.done ==> b.current.stage != Stage::Done
        &&& !b.done ==> b.current.goal == Goal::Bind
        &&& forall|i: int|
            0 <= i < b.bound.len() ==> #[trigger] b.bound[i] == handle_of(b.devices, i)
    }

    /// The binder of the device that is being bound: it tells the paths and
    /// the data of the actions that the batch asks for.
    pub fn current(&self) -> (binder: &DeviceBinder)
        ensures
            binder@ == self@.current,
    {
        &self.current
    }

    /// Whether the batch has finished.
    pub fn is_done(&self) -> (done: bool)
        ensures
            done == self@.done,
    {
        self.done
    }

    /// The handles of the devices that the batch has bound, in the order of
    /// the request.
    pub fn into_bound(self) -> (bound: Vec<BoundDevice>)
        ensures
            bound_views(bound@) == self@.bound,
    {
        self.bound
    }

    /// Tells the batch the outcome of the action it asked for, and gives the
    /// action it asks for next.
    pub fn step(&mut self, event: Event) -> (action: Action)
        ensures
            (final(self)@, action) == batch_transition(old(self)@, event@),
            Self::well_formed(old(self)@) ==> Self::well_formed(final(self)@),
    {
        if self.done || self.bound.len() >= self.devices.len() {
            self.done = true;
            return Action::Finish(Err(BindError::UnexpectedEvent));
        }
        let ghost before = self@;
        let action = self.current.step(event);
        match action {
            Action::Finish(Ok(_)) => {
                let index = self.bound.len();
                let device = &self.devices[index];
                self.bound.push(
                    BoundDevice::new(device.sysfs_path.clone(), device.dtbo_label.clone()),
                );
                proof {
                    assert(bound_views(self.bound@) =~= before.bound.push(
                        handle_of(before.devices, index as int),
                    ));
                }
                if self.bound.len() < self.devices.len() {
                    let next = &self.devices[self.bound.len()];
                    let (binder, first) = bind_device(next.sysfs_path.clone());
                    self.current = binder;
                    first
                } else {
                    self.done = true;
                    Action::Finish(Ok(()))
                }
            },
            Action::Finish(Err(e)) => {
                self.done = true;
                Action::Finish(Err(e))
            },
            _ => {
                proof {
                    lemma_transition_progress(before.current, event@);
                }
                action
            },
        }
    }
}

/// The service that hands devices over to guests.
#[derive(Debug)]
pub struct VfioHandler {}

impl Default for VfioHandler {
    fn default() -> (handler: VfioHandler)
        ensures
            handler == (VfioHandler {  }),
    {
        VfioHandler {  }
    }
}

/// What getting the overlay of a guest out of a DTBO image comes to: the
/// overlay, byte for byte, or the first failure on the way to it. The header
/// is read and checked before the index is looked at.
pub open spec fn vm_dtbo(image: Seq<u8>, vm_dtbo_idx: Seq<char>) -> Result<Seq<u8>, DtboError> {
    match header_of(image) {
        Err(e) => Err(e),
        Ok(header) => match parsed_index(vm_dtbo_idx) {
            Err(e) => Err(e),
            Ok(index) => match entry_of(image, header, index) {
                Err(e) => Err(e),
                Ok(entry) => overlay_of(image, entry),
            },
        },
    }
}

#[allow(non_snake_case)]
impl VfioHandler {
    /// The service.
    pub fn init() -> (handler: VfioHandler)
        ensures
            handler == (VfioHandler {  }),
    {
        VfioHandler {  }
    }

    /// Starts binding the devices of a request to the VFIO driver. Gives the
    /// batch and the action that it asks for first.
    pub fn bindDevicesToVfioDriver(&self, vfio_supported: bool, devices: Vec<VfioDev>) -> (r: (
        BatchBinder,
        Action,
    ))
        ensures
            (r.0@, r.1) == batch_start(vfio_supported, device_views(devices@)),
            BatchBinder::well_formed(r.0@),
    {
        let first = if devices.len() > 0 {
            devices[0].sysfs_path.clone()
        } else {
            String::new()
        };
        let (current, _) = bind_device(first);
        let done = !vfio_supported || devices.len() == 0;
        let action = if !vfio_supported {
            Action::Finish(Err(BindError::NotSupported))
        } else if devices.len() == 0 {
            Action::Finish(Ok(()))
        } else {
            Action::Canonicalize
        };
        let bound: Vec<BoundDevice> = Vec::new();
        assert(bound_views(bound@) =~= Seq::<BoundDeviceView>::empty());
        (BatchBinder { devices, current, bound, done }, action)
    }

    /// Gets the overlay for a guest out of a DTBO image that is held in
    /// memory. `vm_dtbo_idx` is the index of that overlay in the table of the
    /// image, as a decimal numeral.
    pub fn writeVmDtbo(&self, image: &[u8], vm_dtbo_idx: &str) -> (r: Result<Vec<u8>, DtboError>)
        ensures
            match r {
                Ok(overlay) => vm_dtbo(image@, vm_dtbo_idx@) == Ok::<Seq<u8>, DtboError>(overlay@),
                Err(e) => vm_dtbo(image@, vm_dtbo_idx@) == Err::<Seq<u8>, DtboError>(e),
            },
    {
        let header = match get_dt_table_header(image) {
            Ok(header) => header,
            Err(e) => {
                return Err(e);
            },
        };
        let index = match parse_vm_dtbo_index(vm_dtbo_idx) {
            Ok(index) => index,
            Err(e) => {
                return Err(e);
            },
        };
        let entry = match get_dt_table_entry(image, &header, index) {
            Ok(entry) => entry,
            Err(e) => {
                return Err(e);
            },
        };
        write_vm_full_dtbo_from_img(image, &entry)
    }
}

} // verus!
