//! Handing a platform device over to the VFIO driver, so that a guest can own
//! it, and giving it back to its own driver.
//!
//! What is decided here is carried out elsewhere: a [`DeviceBinder`] names one
//! [`Action`] on the device's files at a time, is told its outcome as an
//! [`Event`], and names the next, until it finishes.

use crate::error::ErrorKind;
use crate::path::{file_name, join, path_file_name, path_join, path_starts_with, starts_with};
use crate::text::{parse_decimal, parse_unsigned};
use vstd::prelude::*;
use vstd::string::*;

verus! {

/// What a binder is to bring about.
#[derive(Clone, Copy, Debug, PartialEq, Eq, Structural)]
pub enum Goal {
    /// The device is bound to the VFIO driver and isolated by an IOMMU.
    Bind,
    /// The device is left to the driver that matches it, and is not bound to
    /// the VFIO driver any more.
    Unbind,
}

/// The files that a binder works on.
#[derive(Clone, Copy, Debug, PartialEq, Eq, Structural)]
pub enum DeviceFile {
    /// The directory of the device.
    Device,
    /// The link from the device to its driver.
    Driver,
    /// Writing the name of the device to this file of its driver unbinds it.
    DriverUnbind,
    /// The device is only bound to the driver named in this file.
    DriverOverride,
    /// The link from the device to its IOMMU group.
    IommuGroup,
    /// Writing the name of a device to this file of the bus has the drivers
    /// probe it.
    DriversProbe,
}

/// What a binder has written to a file.
#[derive(Clone, Copy, Debug, PartialEq, Eq, Structural)]
pub enum WriteData {
    /// The name of the device.
    DeviceName,
    /// The name of the driver that the device is to be bound to.
    TargetDriver,
}

/// Why a device is not one that can be handed over.
#[derive(Clone, Copy, Debug, PartialEq, Eq, Structural)]
pub enum InvalidDevice {
    /// The path cannot be brought into canonical form.
    NotCanonical,
    /// Nothing exists at the canonical path.
    NoSuchDevice,
    /// The canonical path does not lie below the platform bus.
    NotPlatformDevice,
    /// The canonical path has no final component to name the device by.
    NoDeviceName,
}

/// At which step binding went wrong.
#[derive(Clone, Copy, Debug, PartialEq, Eq, Structural)]
pub enum BindFailure {
    /// The name of the device could not be written to its driver's unbind
    /// file.
    UnbindWrite,
    /// The device still has a driver after it was unbound.
    StillHasDriver,
    /// The driver override could not be written.
    OverrideWrite,
    /// The probe could not be triggered.
    ProbeWrite,
    /// After the probe the device is not bound to the driver it should be
    /// bound to.
    NotBound,
    /// After it was given back the device is still bound to the VFIO driver.
    StillBoundToVfio,
}

/// A failure to hand a device over or to take it back.
#[derive(Clone, Copy, Debug, PartialEq, Eq, Structural)]
pub enum BindError {
    /// The host does not support VFIO for platform devices.
    NotSupported,
    InvalidDevice(InvalidDevice),
    /// The state of the device is unknown: nothing is rolled back.
    BindFailed(BindFailure),
    /// The device is bound, but belongs to no IOMMU group.
    NoIommuGroup,
    /// The binder was told of an outcome that it had not asked for, or was
    /// told anything after it had finished.
    UnexpectedEvent,
}

impl BindError {
    pub open spec fn spec_kind(&self) -> ErrorKind {
        match self {
            BindError::NotSupported => ErrorKind::PolicyViolation,
            BindError::InvalidDevice(InvalidDevice::NotPlatformDevice) => ErrorKind::PolicyViolation,
            BindError::InvalidDevice(_) => ErrorKind::NotFound,
            BindError::BindFailed(BindFailure::UnbindWrite) => ErrorKind::IoFailure,
            BindError::BindFailed(BindFailure::OverrideWrite) => ErrorKind::IoFailure,
            BindError::BindFailed(BindFailure::ProbeWrite) => ErrorKind::IoFailure,
            BindError::BindFailed(_) => ErrorKind::ResourceStateError,
            BindError::NoIommuGroup => ErrorKind::ResourceStateError,
            BindError::UnexpectedEvent => ErrorKind::ResourceStateError,
        }
    }

    /// The class this failure falls under.
    #[verifier::when_used_as_spec(spec_kind)]
    pub fn kind(&self) -> (k: ErrorKind)
        ensures
            k == self.spec_kind(),
    {
        match self {
            BindError::NotSupported => ErrorKind::PolicyViolation,
            BindError::InvalidDevice(InvalidDevice::NotPlatformDevice) => ErrorKind::PolicyViolation,
            BindError::InvalidDevice(_) => ErrorKind::NotFound,
            BindError::BindFailed(BindFailure::UnbindWrite) => ErrorKind::IoFailure,
            BindError::BindFailed(BindFailure::OverrideWrite) => ErrorKind::IoFailure,
            BindError::BindFailed(BindFailure::ProbeWrite) => ErrorKind::IoFailure,
            BindError::BindFailed(_) => ErrorKind::ResourceStateError,
            BindError::NoIommuGroup => ErrorKind::ResourceStateError,
            BindError::UnexpectedEvent => ErrorKind::ResourceStateError,
        }
    }
}

/// What a failure on the device at `path` says of itself.
pub open spec fn bind_message_text(e: BindError, path: Seq<char>) -> Seq<char> {
    match e {
        BindError::NotSupported => "VFIO-platform not supported"@,
        BindError::InvalidDevice(InvalidDevice::NotCanonical) => "can't canonicalize "@ + path,
        BindError::InvalidDevice(InvalidDevice::NoSuchDevice) => "no such device "@ + path,
        BindError::InvalidDevice(InvalidDevice::NotPlatformDevice) => path
            + " is not a platform device"@,
        BindError::InvalidDevice(InvalidDevice::NoDeviceName) => "can't get device name from "@
            + path,
        BindError::BindFailed(BindFailure::UnbindWrite) => "could not unbind "@ + path,
        BindError::BindFailed(BindFailure::StillHasDriver) => "could not unbind "@ + path,
        BindError::BindFailed(BindFailure::OverrideWrite) => "could not write the driver override of "@
            + path,
        BindError::BindFailed(BindFailure::ProbeWrite) => "could not write "@ + path
            + " to drivers-probe"@,
        BindError::BindFailed(BindFailure::NotBound) => path + " still not bound to its driver"@,
        BindError::BindFailed(BindFailure::StillBoundToVfio) => path
            + " still bound to vfio driver"@,
        BindError::NoIommuGroup => "can't get iommu group for "@ + path,
        BindError::UnexpectedEvent => "unexpected event for "@ + path,
    }
}

impl BindError {
    /// What the failure on the device at `path` says of itself.
    pub fn message(&self, path: &str) -> (text: String)
        ensures
            text@ == bind_message_text(*self, path@),
    {
        match self {
            BindError::NotSupported => String::from_str("VFIO-platform not supported"),
            BindError::InvalidDevice(InvalidDevice::NotCanonical) => String::from_str(
                "can't canonicalize ",
            ).concat(path),
            BindError::InvalidDevice(InvalidDevice::NoSuchDevice) => String::from_str(
                "no such device ",
            ).concat(path),
            BindError::InvalidDevice(InvalidDevice::NotPlatformDevice) => String::from_str(
                path,
            ).concat(" is not a platform device"),
            BindError::InvalidDevice(InvalidDevice::NoDeviceName) => String::from_str(
                "can't get device name from ",
            ).concat(path),
            BindError::BindFailed(BindFailure::UnbindWrite) => String::from_str(
                "could not unbind ",
            ).concat(path),
            BindError::BindFailed(BindFailure::StillHasDriver) => String::from_str(
                "could not unbind ",
            ).concat(path),
            BindError::BindFailed(BindFailure::OverrideWrite) => String::from_str(
                "could not write the driver override of ",
            ).concat(path),
            BindError::BindFailed(BindFailure::ProbeWrite) => String::from_str(
                "could not write ",
            ).concat(path).concat(" to drivers-probe"),
            BindError::BindFailed(BindFailure::NotBound) => String::from_str(path).concat(
                " still not bound to its driver",
            ),
            BindError::BindFailed(BindFailure::StillBoundToVfio) => String::from_str(path).concat(
                " still bound to vfio driver",
            ),
            BindError::NoIommuGroup => String::from_str("can't get iommu group for ").concat(path),
            BindError::UnexpectedEvent => String::from_str("unexpected event for ").concat(path),
        }
    }
}

/// What a binder asks to be done next.
#[derive(Clone, Copy, Debug, PartialEq, Eq)]
pub enum Action {
    /// Resolve the requested path to its canonical form.
    Canonicalize,
    /// Find out whether the file exists.
    Exists(DeviceFile),
    /// Read where the link points to.
    ReadLink(DeviceFile),
    /// Write to the file.
    Write(DeviceFile, WriteData),
    /// Nothing: the binder has finished, with this outcome.
    Finish(Result<(), BindError>),
}

/// What a binder is told of the action it asked for.
#[derive(Clone, Debug, PartialEq, Eq)]
pub enum Event {
    /// The canonical form of the requested path, or `None` where there is
    /// none.
    Canonical(Option<String>),
    /// Whether the file exists.
    Exists(bool),
    /// The final component of what the link points to, or `None` where the
    /// link cannot be read or points to nothing with a name.
    Link(Option<String>),
    /// Whether the write succeeded.
    Written(bool),
}

/// What an [`Event`] holds, as plain values.
pub enum EventView {
    Canonical(Option<Seq<char>>),
    Exists(bool),
    Link(Option<Seq<char>>),
    Written(bool),
}

/// The string of an optional string.
pub open spec fn option_view(s: Option<String>) -> Option<Seq<char>> {
    match s {
        Some(s) => Some(s@),
        None => None,
    }
}

impl View for Event {
    type V = EventView;

    open spec fn view(&self) -> EventView {
        match self {
            Event::Canonical(path) => EventView::Canonical(option_view(*path)),
            Event::Exists(exists) => EventView::Exists(*exists),
            Event::Link(name) => EventView::Link(option_view(*name)),
            Event::Written(ok) => EventView::Written(*ok),
        }
    }
}

/// The final component of what a link points to; `None` where the link
/// cannot be read, or points to nothing with a name.
pub open spec fn link_name(target: Option<Seq<char>>) -> Option<Seq<char>> {
    match target {
        Some(t) => path_file_name(t),
        None => None,
    }
}

/// The name of the driver that a device is bound to, given where its driver
/// link points to, or `None` where the link cannot be read.
pub fn current_driver(target: Option<&str>) -> (driver: Option<String>)
    ensures
        option_view(driver) == link_name(
            match target {
                Some(t) => Some(t@),
                None => None,
            },
        ),
{
    match target {
        Some(t) => file_name(t),
        None => None,
    }
}

/// The number that the name of an IOMMU group stands for.
pub open spec fn iommu_group_number(group: Option<Seq<char>>) -> Option<u64> {
    match group {
        Some(name) => match parse_unsigned(name, u64::MAX as nat) {
            Some(number) => Some(number as u64),
            None => None,
        },
        None => None,
    }
}

/// The IOMMU group of a device, given the final component of where its
/// group link points to: the number that this names.
pub fn get_device_iommu_group(group: &Option<String>) -> (number: Option<u64>)
    ensures
        number == iommu_group_number(option_view(*group)),
{
    match group {
        Some(name) => parse_decimal(name.as_str(), u64::MAX),
        None => None,
    }
}

/// Whether a device is one that can be handed over: it exists, and lies
/// below the platform bus.
pub open spec fn device_check(exists: bool, below_platform_bus: bool) -> Result<(), BindError> {
    if !exists {
        Err(BindError::InvalidDevice(InvalidDevice::NoSuchDevice))
    } else if !below_platform_bus {
        Err(BindError::InvalidDevice(InvalidDevice::NotPlatformDevice))
    } else {
        Ok(())
    }
}

/// Whether the device at the canonical path `path` is one that can be handed
/// over.
pub open spec fn platform_device_check(exists: bool, path: Seq<char>) -> Result<(), BindError> {
    device_check(exists, path_starts_with(path, platform_devices_root()))
}

/// Checks a device, given whether it exists and whether its canonical path
/// lies below the platform bus.
pub fn check_device(exists: bool, below_platform_bus: bool) -> (r: Result<(), BindError>)
    ensures
        r == device_check(exists, below_platform_bus),
{
    if !exists {
        return Err(BindError::InvalidDevice(InvalidDevice::NoSuchDevice));
    }
    if !below_platform_bus {
        return Err(BindError::InvalidDevice(InvalidDevice::NotPlatformDevice));
    }
    Ok(())
}

/// Checks that the device at the canonical path `path` exists and lies below
/// the platform bus.
pub fn check_platform_device(exists: bool, path: &str) -> (r: Result<(), BindError>)
    ensures
        r == platform_device_check(exists, path@),
{
    check_device(exists, starts_with(path, "/sys/devices/platform/"))
}

/// The name of a device, given the final component of its canonical path, if
/// it has one.
pub open spec fn device_name_of(file_name: Option<Seq<char>>) -> Result<Seq<char>, BindError> {
    match file_name {
        Some(name) => Ok(name),
        None => Err(BindError::InvalidDevice(InvalidDevice::NoDeviceName)),
    }
}

/// The name of a device, given the final component of its canonical path, if
/// it has one: a device cannot be handed over without a name.
pub fn device_name(file_name: Option<String>) -> (r: Result<String, BindError>)
    ensures
        match r {
            Ok(name) => device_name_of(option_view(file_name)) == Ok::<Seq<char>, BindError>(
                name@,
            ),
            Err(e) => device_name_of(option_view(file_name)) == Err::<Seq<char>, BindError>(e),
        },
{
    match file_name {
        Some(name) => Ok(name),
        None => Err(BindError::InvalidDevice(InvalidDevice::NoDeviceName)),
    }
}

impl Event {
    /// The event for a link that was read: `target` is where the link points
    /// to, or `None` where it cannot be read.
    pub fn link(target: Option<&str>) -> (e: Event)
        ensures
            e@ == EventView::Link(
                link_name(
                    match target {
                        Some(t) => Some(t@),
                        None => None,
                    },
                ),
            ),
    {
        Event::Link(current_driver(target))
    }
}

/// How far a binder has come.
#[derive(Clone, Copy, Debug, PartialEq, Eq, Structural)]
pub enum Stage {
    /// Waiting for the canonical path.
    Canonicalizing,
    /// Waiting to learn whether the device exists.
    CheckingDevice,
    /// Waiting for the driver that the device is bound to.
    ReadingDriver,
    /// Waiting to learn whether the driver can be told to unbind the device.
    CheckingUnbind,
    /// Waiting for the write that unbinds the device.
    Unbinding,
    /// Waiting to learn whether the device still has a driver.
    CheckingUnbound,
    /// Waiting for the write of the driver override.
    Overriding,
    /// Waiting for the write that triggers the probe.
    Probing,
    /// Waiting for the driver that the device is bound to after the probe.
    Verifying,
    /// Waiting for the IOMMU group of the device.
    CheckingIsolation,
    /// Waiting for the driver of the device that was given back.
    CheckingRelease,
    /// Finished.
    Done,
}

/// The root of the platform bus.
pub open spec fn platform_devices_root() -> Seq<char> {
    "/sys/devices/platform/"@
}

/// The name of the VFIO driver for platform devices.
pub open spec fn vfio_driver() -> Seq<char> {
    "vfio-platform"@
}

/// What is written to the driver override to clear it, so that the device is
/// matched with its own driver again. Writing nothing would not clear it.
pub open spec fn default_driver() -> Seq<char> {
    "\n"@
}

/// The driver that a binder with this goal binds the device to.
pub open spec fn target_driver(goal: Goal) -> Seq<char> {
    match goal {
        Goal::Bind => vfio_driver(),
        Goal::Unbind => default_driver(),
    }
}

/// The state of a binder, as plain values.
pub struct BinderView {
    pub goal: Goal,
    pub stage: Stage,
    /// The path as it was requested.
    pub requested: Seq<char>,
    /// The canonical path, once it is known.
    pub path: Seq<char>,
    /// The name of the device, once it is known.
    pub device: Seq<char>,
}

/// The state of a binder for the device at `requested`, before its first
/// step.
pub open spec fn binder_start(goal: Goal, requested: Seq<char>) -> BinderView {
    BinderView {
        goal,
        stage: Stage::Canonicalizing,
        requested,
        path: Seq::<char>::empty(),
        device: Seq::<char>::empty(),
    }
}

/// The check that ends a binder's work, once the device is bound to the
/// driver it should be bound to: a binder that binds asks for the IOMMU
/// group, one that unbinds for the driver.
pub open spec fn final_check(b: BinderView) -> (BinderView, Action) {
    match b.goal {
        Goal::Bind => (
            BinderView { stage: Stage::CheckingIsolation, ..b },
            Action::ReadLink(DeviceFile::IommuGroup),
        ),
        Goal::Unbind => (
            BinderView { stage: Stage::CheckingRelease, ..b },
            Action::ReadLink(DeviceFile::Driver),
        ),
    }
}

/// A binder that has finished with this outcome.
pub open spec fn finished(b: BinderView, outcome: Result<(), BindError>) -> (BinderView, Action) {
    (BinderView { stage: Stage::Done, ..b }, Action::Finish(outcome))
}

/// A binder that has finished with this failure to bind.
pub open spec fn failed(b: BinderView, failure: BindFailure) -> (BinderView, Action) {
    finished(b, Err(BindError::BindFailed(failure)))
}

/// A binder that has finished because the device is not one to hand over.
pub open spec fn rejected(b: BinderView, reason: InvalidDevice) -> (BinderView, Action) {
    finished(b, Err(BindError::InvalidDevice(reason)))
}

/// What a binder does when it is told of an outcome: its next state and the
/// action it asks for next.
///
/// The device must exist at its canonical path below the platform bus. A
/// device that is bound to the target driver already is left alone. Any
/// other is unbound from its driver, if it has one; once it has none the
/// target driver is written to its driver override and a probe is triggered,
/// after which it must be bound: to the target driver where that is the VFIO
/// driver, to any driver where the override was cleared. At the end a device
/// that was bound must belong to an IOMMU group, and one that was given back
/// must not be bound to the VFIO driver.
pub open spec fn transition(b: BinderView, event: EventView) -> (BinderView, Action) {
    match (b.stage, event) {
        (Stage::Canonicalizing, EventView::Canonical(None)) => rejected(
            b,
            InvalidDevice::NotCanonical,
        ),
        (Stage::Canonicalizing, EventView::Canonical(Some(path))) => (
            BinderView { stage: Stage::CheckingDevice, path, ..b },
            Action::Exists(DeviceFile::Device),
        ),
        (Stage::CheckingDevice, EventView::Exists(exists)) => match platform_device_check(
            exists,
            b.path,
        ) {
            Err(e) => finished(b, Err(e)),
            Ok(_) => (
                BinderView { stage: Stage::ReadingDriver, ..b },
                Action::ReadLink(DeviceFile::Driver),
            ),
        },
        (Stage::ReadingDriver, EventView::Link(driver)) => if driver == Some(
            target_driver(b.goal),
        ) {
            final_check(b)
        } else {
            match device_name_of(path_file_name(b.path)) {
                Err(e) => finished(b, Err(e)),
                Ok(device) => (
                    BinderView { stage: Stage::CheckingUnbind, device, ..b },
                    Action::Exists(DeviceFile::DriverUnbind),
                ),
            }
        },
        (Stage::CheckingUnbind, EventView::Exists(exists)) => if exists {
            (
                BinderView { stage: Stage::Unbinding, ..b },
                Action::Write(DeviceFile::DriverUnbind, WriteData::DeviceName),
            )
        } else {
            (BinderView { stage: Stage::CheckingUnbound, ..b }, Action::Exists(DeviceFile::Driver))
        },
        (Stage::Unbinding, EventView::Written(ok)) => if ok {
            (BinderView { stage: Stage::CheckingUnbound, ..b }, Action::Exists(DeviceFile::Driver))
        } else {
            failed(b, BindFailure::UnbindWrite)
        },
        (Stage::CheckingUnbound, EventView::Exists(exists)) => if exists {
            failed(b, BindFailure::StillHasDriver)
        } else {
            (
                BinderView { stage: Stage::Overriding, ..b },
                Action::Write(DeviceFile::DriverOverride, WriteData::TargetDriver),
            )
        },
        (Stage::Overriding, EventView::Written(ok)) => if ok {
            (
                BinderView { stage: Stage::Probing, ..b },
                Action::Write(DeviceFile::DriversProbe, WriteData::DeviceName),
            )
        } else {
            failed(b, BindFailure::OverrideWrite)
        },
        (Stage::Probing, EventView::Written(ok)) => if ok {
            (BinderView { stage: Stage::Verifying, ..b }, Action::ReadLink(DeviceFile::Driver))
        } else {
            failed(b, BindFailure::ProbeWrite)
        },
        (Stage::Verifying, EventView::Link(driver)) => if driver is None || (driver != Some(
            target_driver(b.goal),
        ) && b.goal == Goal::Bind) {
            failed(b, BindFailure::NotBound)
        } else {
            final_check(b)
        },
        (Stage::CheckingIsolation, EventView::Link(group)) => if iommu_group_number(group)
            is Some {
            finished(b, Ok(()))
        } else {
            finished(b, Err(BindError::NoIommuGroup))
        },
        (Stage::CheckingRelease, EventView::Link(driver)) => if driver == Some(vfio_driver()) {
            failed(b, BindFailure::StillBoundToVfio)
        } else {
            finished(b, Ok(()))
        },
        _ => finished(b, Err(BindError::UnexpectedEvent)),
    }
}

/// How many steps a binder at this stage has before it at most.
pub open spec fn steps_left(stage: Stage) -> nat {
    match stage {
        Stage::Canonicalizing => 10,
        Stage::CheckingDevice => 9,
        Stage::ReadingDriver => 8,
        Stage::CheckingUnbind => 7,
        Stage::Unbinding => 6,
        Stage::CheckingUnbound => 5,
        Stage::Overriding => 4,
        Stage::Probing => 3,
        Stage::Verifying => 2,
        Stage::CheckingIsolation => 1,
        Stage::CheckingRelease => 1,
        Stage::Done => 0,
    }
}

/// Every step brings a binder nearer to its end, which it reaches with the
/// action that finishes and not otherwise; and a step changes neither what
/// the binder is to bring about nor the path that was requested.
pub proof fn lemma_transition_progress(b: BinderView, event: EventView)
    ensures
        b.stage != Stage::Done ==> steps_left(transition(b, event).0.stage) < steps_left(b.stage),
        transition(b, event).0.stage == Stage::Done <==> transition(b, event).1 is Finish,
        transition(b, event).0.goal == b.goal,
        transition(b, event).0.requested == b.requested,
{
}

/// Whether the binder has come past the check of the device.
pub open spec fn past_device_check(stage: Stage) -> bool {
    stage != Stage::Canonicalizing && stage != Stage::CheckingDevice && stage != Stage::Done
}

/// Whether the binder, if it has come past the check of the device, works on
/// a device below the platform bus.
pub open spec fn works_on_platform_device(b: BinderView) -> bool {
    past_device_check(b.stage) ==> path_starts_with(b.path, platform_devices_root())
}

/// A binder refuses to act on a device of another bus: from its start on it
/// comes past the check of the device only with a device below the platform
/// bus, and it asks for a write only once it is past that check.
pub proof fn lemma_refuses_other_buses(
    goal: Goal,
    requested: Seq<char>,
    b: BinderView,
    event: EventView,
)
    ensures
        works_on_platform_device(binder_start(goal, requested)),
        works_on_platform_device(b) ==> works_on_platform_device(transition(b, event).0),
        works_on_platform_device(b) && transition(b, event).1 is Write ==> path_starts_with(
            transition(b, event).0.path,
            platform_devices_root(),
        ),
{
}

/// A device that is found bound to the target driver is not written to: the
/// binder goes on to its final check.
pub proof fn lemma_bound_device_left_alone(b: BinderView)
    requires
        b.stage == Stage::ReadingDriver,
    ensures
        transition(b, EventView::Link(Some(target_driver(b.goal)))) == final_check(b),
{
}

/// Binds a device to the VFIO driver, or gives it back, one step at a time.
pub struct DeviceBinder {
    goal: Goal,
    stage: Stage,
    requested: String,
    path: String,
    device: String,
}

impl View for DeviceBinder {
    type V = BinderView;

    closed spec fn view(&self) -> BinderView {
        BinderView {
            goal: self.goal,
            stage: self.stage,
            requested: self.requested@,
            path: self.path@,
            device: self.device@,
        }
    }
}

/// The canonical path of the device and what is joined to it, for the files
/// of the device; the file of the bus as it is.
pub open spec fn file_path(b: BinderView, file: DeviceFile) -> Seq<char> {
    match file {
        DeviceFile::Device => b.path,
        DeviceFile::Driver => path_join(b.path, "driver"@),
        DeviceFile::DriverUnbind => path_join(b.path, "driver/unbind"@),
        DeviceFile::DriverOverride => path_join(b.path, "driver_override"@),
        DeviceFile::IommuGroup => path_join(b.path, "iommu_group"@),
        DeviceFile::DriversProbe => "/sys/bus/platform/drivers_probe"@,
    }
}

/// What is written: the name of the device, or the driver that it is to be
/// bound to.
pub open spec fn written_data(b: BinderView, data: WriteData) -> Seq<char> {
    match data {
        WriteData::DeviceName => b.device,
        WriteData::TargetDriver => target_driver(b.goal),
    }
}

impl DeviceBinder {
    /// A binder for the device at `path`. The first thing it asks for is the
    /// canonical form of that path.
    pub fn new(goal: Goal, path: String) -> (r: (DeviceBinder, Action))
        ensures
            r.0@ == binder_start(goal, path@),
            r.1 == Action::Canonicalize,
    {
        (
            DeviceBinder {
                goal,
                stage: Stage::Canonicalizing,
                requested: path,
                path: String::new(),
                device: String::new(),
            },
            Action::Canonicalize,
        )
    }

    /// The path that the binder was made for.
    pub fn requested_path(&self) -> (path: &str)
        ensures
            path@ == self@.requested,
    {
        self.requested.as_str()
    }

    /// Whether the binder has finished.
    pub fn is_done(&self) -> (done: bool)
        ensures
            done == (self@.stage == Stage::Done),
    {
        match self.stage {
            Stage::Done => true,
            _ => false,
        }
    }

    /// The path of a file that the binder works on.
    pub fn path_of(&self, file: DeviceFile) -> (path: String)
        ensures
            path@ == file_path(self@, file),
    {
        match file {
            DeviceFile::Device => self.path.clone(),
            DeviceFile::Driver => join(self.path.as_str(), "driver"),
            DeviceFile::DriverUnbind => join(self.path.as_str(), "driver/unbind"),
            DeviceFile::DriverOverride => join(self.path.as_str(), "driver_override"),
            DeviceFile::IommuGroup => join(self.path.as_str(), "iommu_group"),
            DeviceFile::DriversProbe => String::from_str("/sys/bus/platform/drivers_probe"),
        }
    }

    /// What the binder writes.
    pub fn data_of(&self, data: WriteData) -> (text: String)
        ensures
            text@ == written_data(self@, data),
    {
        match data {
            WriteData::DeviceName => self.device.clone(),
            WriteData::TargetDriver => match self.goal {
                Goal::Bind => String::from_str("vfio-platform"),
                Goal::Unbind => String::from_str("\n"),
            },
        }
    }

    fn finish(&mut self, outcome: Result<(), BindError>) -> (action: Action)
        ensures
            (final(self)@, action) == finished(old(self)@, outcome),
    {
        self.stage = Stage::Done;
        Action::Finish(outcome)
    }

    fn go(&mut self, stage: Stage, action: Action) -> (next: Action)
        ensures
            final(self)@ == (BinderView { stage, ..old(self)@ }),
            next == action,
    {
        self.stage = stage;
        action
    }

    fn go_to_final_check(&mut self) -> (action: Action)
        ensures
            (final(self)@, action) == final_check(old(self)@),
    {
        match self.goal {
            Goal::Bind => self.go(
                Stage::CheckingIsolation,
                Action::ReadLink(DeviceFile::IommuGroup),
            ),
            Goal::Unbind => self.go(Stage::CheckingRelease, Action::ReadLink(DeviceFile::Driver)),
        }
    }

    fn is_target_driver(&self, driver: &Option<String>) -> (r: bool)
        ensures
            r == (option_view(*driver) == Some(target_driver(self@.goal))),
    {
        match driver {
            None => false,
            Some(name) => match self.goal {
                Goal::Bind => *name == String::from_str("vfio-platform"),
                Goal::Unbind => *name == String::from_str("\n"),
            },
        }
    }

    /// Tells the binder the outcome of the action it asked for, and gives
    /// the action it asks for next.
    pub fn step(&mut self, event: Event) -> (action: Action)
        ensures
            (final(self)@, action) == transition(old(self)@, event@),
    {
        match (self.stage, event) {
            (Stage::Canonicalizing, Event::Canonical(None)) => self.finish(
                Err(BindError::InvalidDevice(InvalidDevice::NotCanonical)),
            ),
            (Stage::Canonicalizing, Event::Canonical(Some(path))) => {
                self.path = path;
                self.go(Stage::CheckingDevice, Action::Exists(DeviceFile::Device))
            },
            (Stage::CheckingDevice, Event::Exists(exists)) => {
                match check_platform_device(exists, self.path.as_str()) {
                    Err(e) => self.finish(Err(e)),
                    Ok(_) => self.go(Stage::ReadingDriver, Action::ReadLink(DeviceFile::Driver)),
                }
            },
            (Stage::ReadingDriver, Event::Link(driver)) => {
                if self.is_target_driver(&driver) {
                    self.go_to_final_check()
                } else {
                    match device_name(file_name(self.path.as_str())) {
                        Err(e) => self.finish(Err(e)),
                        Ok(device) => {
                            self.device = device;
                            self.go(Stage::CheckingUnbind, Action::Exists(DeviceFile::DriverUnbind))
                        },
                    }
                }
            },
            (Stage::CheckingUnbind, Event::Exists(exists)) => {
                if exists {
                    self.go(
                        Stage::Unbinding,
                        Action::Write(DeviceFile::DriverUnbind, WriteData::DeviceName),
                    )
                } else {
                    self.go(Stage::CheckingUnbound, Action::Exists(DeviceFile::Driver))
                }
            },
            (Stage::Unbinding, Event::Written(ok)) => {
                if ok {
                    self.go(Stage::CheckingUnbound, Action::Exists(DeviceFile::Driver))
                } else {
                    self.finish(Err(BindError::BindFailed(BindFailure::UnbindWrite)))
                }
            },
            (Stage::CheckingUnbound, Event::Exists(exists)) => {
                if exists {
                    self.finish(Err(BindError::BindFailed(BindFailure::StillHasDriver)))
                } else {
                    self.go(
                        Stage::Overriding,
                        Action::Write(DeviceFile::DriverOverride, WriteData::TargetDriver),
                    )
                }
            },
            (Stage::Overriding, Event::Written(ok)) => {
                if ok {
                    self.go(
                        Stage::Probing,
                        Action::Write(DeviceFile::DriversProbe, WriteData::DeviceName),
                    )
                } else {
                    self.finish(Err(BindError::BindFailed(BindFailure::OverrideWrite)))
                }
            },
            (Stage::Probing, Event::Written(ok)) => {
                if ok {
                    self.go(Stage::Verifying, Action::ReadLink(DeviceFile::Driver))
                } else {
                    self.finish(Err(BindError::BindFailed(BindFailure::ProbeWrite)))
                }
            },
            (Stage::Verifying, Event::Link(driver)) => {
                let bound = match driver {
                    None => false,
                    Some(_) => match self.goal {
                        Goal::Bind => self.is_target_driver(&driver),
                        Goal::Unbind => true,
                    },
                };
                if bound {
                    self.go_to_final_check()
                } else {
                    self.finish(Err(BindError::BindFailed(BindFailure::NotBound)))
                }
            },
            (Stage::CheckingIsolation, Event::Link(group)) => {
                if get_device_iommu_group(&group).is_some() {
                    self.finish(Ok(()))
                } else {
                    self.finish(Err(BindError::NoIommuGroup))
                }
            },
            (Stage::CheckingRelease, Event::Link(driver)) => {
                let still_vfio = match driver {
                    None => false,
                    Some(name) => name == String::from_str("vfio-platform"),
                };
                if still_vfio {
                    self.finish(Err(BindError::BindFailed(BindFailure::StillBoundToVfio)))
                } else {
                    self.finish(Ok(()))
                }
            },
            _ => self.finish(Err(BindError::UnexpectedEvent)),
        }
    }
}

/// Starts binding the device at `path` to the VFIO driver: the binder, and
/// the action that it asks for first. The binder finishes well once the
/// device is bound to the VFIO driver and belongs to an IOMMU group.
pub fn bind_device(path: String) -> (r: (DeviceBinder, Action))
    ensures
        r.0@ == binder_start(Goal::Bind, path@),
        r.1 == Action::Canonicalize,
{
    DeviceBinder::new(Goal::Bind, path)
}

/// Starts giving the device at `path` back to its own driver: the binder, and
/// the action that it asks for first. The binder finishes well once the
/// driver override is cleared and the device is bound to a driver that is not
/// the VFIO driver.
pub fn unbind_device(path: String) -> (r: (DeviceBinder, Action))
    ensures
        r.0@ == binder_start(Goal::Unbind, path@),
        r.1 == Action::Canonicalize,
{
    DeviceBinder::new(Goal::Unbind, path)
}

} // verus!
