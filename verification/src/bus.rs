//! A platform bus as the binder takes it to be, and what follows for a
//! binder that works on such a bus: binding a device and giving it back
//! leaves the device with the driver it had.
//!
//! The bus here is a description, written down to say what the binder relies
//! on; the bus of a running kernel is not looked at.

use crate::path::{path_file_name, path_starts_with};
use crate::vfio::{
    binder_start, default_driver, iommu_group_number, platform_devices_root, target_driver,
    transition, vfio_driver, Action, BindError, BinderView, DeviceFile, EventView, Goal, WriteData,
};
use vstd::prelude::*;

verus! {

/// What a bus holds of one device.
pub struct BusView {
    /// Where the requested path leads, if it leads anywhere.
    pub canonical: Option<Seq<char>>,
    /// Whether the device exists.
    pub exists: bool,
    /// The driver that the device is bound to.
    pub driver: Option<Seq<char>>,
    /// The driver that matches the device.
    pub own_driver: Option<Seq<char>>,
    /// The driver override; empty where there is none.
    pub driver_override: Seq<char>,
    /// The IOMMU group of the device.
    pub iommu_group: Option<Seq<char>>,
}

/// What a write does to the bus. Telling the driver to unbind the device
/// leaves the device without driver. Writing a line feed to the driver
/// override clears it, writing nothing leaves it as it is, and anything else
/// is the override from then on. A probe binds a device without driver to the
/// driver of its override, or to its own driver where it has no override.
pub open spec fn after_write(bus: BusView, file: DeviceFile, text: Seq<char>) -> BusView {
    match file {
        DeviceFile::DriverUnbind => BusView { driver: None, ..bus },
        DeviceFile::DriverOverride => if text == default_driver() {
            BusView { driver_override: Seq::<char>::empty(), ..bus }
        } else if text.len() == 0 {
            bus
        } else {
            BusView { driver_override: text, ..bus }
        },
        DeviceFile::DriversProbe => if bus.driver is Some {
            bus
        } else if bus.driver_override.len() == 0 {
            BusView { driver: bus.own_driver, ..bus }
        } else {
            BusView { driver: Some(bus.driver_override), ..bus }
        },
        _ => bus,
    }
}

/// What the bus answers to an action of a binder, and what it is like after
/// it. Every write succeeds. The files of the driver are there while the
/// device has a driver.
pub open spec fn response(bus: BusView, b: BinderView, action: Action) -> (BusView, EventView) {
    match action {
        Action::Canonicalize => (bus, EventView::Canonical(bus.canonical)),
        Action::Exists(DeviceFile::Device) => (bus, EventView::Exists(bus.exists)),
        Action::Exists(DeviceFile::Driver) => (bus, EventView::Exists(bus.driver is Some)),
        Action::Exists(DeviceFile::DriverUnbind) => (bus, EventView::Exists(bus.driver is Some)),
        Action::Exists(_) => (bus, EventView::Exists(true)),
        Action::ReadLink(DeviceFile::Driver) => (bus, EventView::Link(bus.driver)),
        Action::ReadLink(DeviceFile::IommuGroup) => (bus, EventView::Link(bus.iommu_group)),
        Action::ReadLink(_) => (bus, EventView::Link(None)),
        Action::Write(file, data) => (
            after_write(
                bus,
                file,
                match data {
                    WriteData::DeviceName => b.device,
                    WriteData::TargetDriver => target_driver(b.goal),
                },
            ),
            EventView::Written(true),
        ),
        Action::Finish(_) => (bus, EventView::Written(false)),
    }
}

/// The outcome of a binder that is run on the bus for `steps` steps at most,
/// and the bus as the binder leaves it.
pub open spec fn run(b: BinderView, action: Action, bus: BusView, steps: nat) -> (
    Result<(), BindError>,
    BusView,
)
    decreases steps,
{
    match action {
        Action::Finish(outcome) => (outcome, bus),
        _ => if steps == 0 {
            (Err(BindError::UnexpectedEvent), bus)
        } else {
            let (answered, event) = response(bus, b, action);
            let (next, asked) = transition(b, event);
            run(next, asked, answered, (steps - 1) as nat)
        },
    }
}

/// A binder that is run from its start to its end: ten steps are enough.
pub open spec fn bound(goal: Goal, requested: Seq<char>, bus: BusView) -> (
    Result<(), BindError>,
    BusView,
) {
    run(binder_start(goal, requested), Action::Canonicalize, bus, 10)
}

/// Whether the device can be handed over: it exists below the platform bus
/// and has a name, it is bound to its own driver, which is not the VFIO
/// driver, it has no driver override, and it belongs to an IOMMU group.
pub open spec fn can_be_handed_over(bus: BusView) -> bool {
    &&& bus.exists
    &&& bus.canonical matches Some(path)
    &&& path_starts_with(path, platform_devices_root())
    &&& path_file_name(path) is Some
    &&& bus.driver is Some
    &&& bus.driver == bus.own_driver
    &&& bus.driver != Some(vfio_driver())
    &&& bus.driver_override.len() == 0
    &&& iommu_group_number(bus.iommu_group) is Some
}

/// On a bus that answers as [`response`] says, binding a device that can be
/// handed over succeeds and leaves it bound to the VFIO driver; unbinding it
/// right after succeeds too and leaves the bus as it was before the two, the
/// device bound to the driver it had.
pub proof fn lemma_bind_then_unbind_restores(requested: Seq<char>, bus: BusView)
    ensures
        can_be_handed_over(bus) ==> {
            let (bind_outcome, handed_over) = bound(Goal::Bind, requested, bus);
            let (unbind_outcome, given_back) = bound(Goal::Unbind, requested, handed_over);
            &&& bind_outcome is Ok
            &&& handed_over.driver == Some(vfio_driver())
            &&& unbind_outcome is Ok
            &&& given_back == bus
        },
{
    reveal_strlit("vfio-platform");
    reveal_strlit("\n");
    if can_be_handed_over(bus) {
        reveal_with_fuel(run, 11);
        let (bind_outcome, handed_over) = bound(Goal::Bind, requested, bus);
        assert(bind_outcome is Ok);
        assert(handed_over == (BusView {
            driver: Some(vfio_driver()),
            driver_override: vfio_driver(),
            ..bus
        }));
        let (unbind_outcome, given_back) = bound(Goal::Unbind, requested, handed_over);
        assert(unbind_outcome is Ok);
        assert(given_back.driver == bus.driver);
        assert(given_back.driver_override =~= bus.driver_override);
    }
}

} // verus!
