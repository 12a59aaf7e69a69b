use vmprep::error::ErrorKind;
use vmprep::handler::{
    dev_vfio_path, is_vfio_supported, vfio_platform_driver_path, BoundDevice, VfioDev, VfioHandler,
};
use vmprep::vfio::{
    bind_device, check_device, check_platform_device, current_driver, device_name,
    get_device_iommu_group, unbind_device, Action, BindError, BindFailure, DeviceBinder,
    DeviceFile, Event, Goal, InvalidDevice, WriteData,
};

const DEVICE: &str = "/sys/devices/platform/16d00000.eh";

/// A platform bus that holds what the binder reads and writes, and does what
/// the bus of a kernel does with it.
#[derive(Clone, Debug, PartialEq)]
struct Bus {
    /// Where the requested path leads.
    canonical: Option<String>,
    exists: bool,
    /// The driver that the device is bound to.
    driver: Option<String>,
    /// The driver that matches the device.
    own_driver: Option<String>,
    /// What the driver override holds.
    driver_override: String,
    iommu_group: Option<String>,
    /// A file that cannot be written.
    read_only: Option<DeviceFile>,
    /// Whether the driver lets go of the device when told to.
    unbinds: bool,
    /// What was written, in order.
    written: Vec<(String, String)>,
}

impl Bus {
    fn new() -> Bus {
        Bus {
            canonical: Some(DEVICE.to_string()),
            exists: true,
            driver: Some("eh".to_string()),
            own_driver: Some("eh".to_string()),
            driver_override: String::new(),
            iommu_group: Some("7".to_string()),
            read_only: None,
            unbinds: true,
            written: Vec::new(),
        }
    }

    fn link(name: &Option<String>, directory: &str) -> Event {
        match name {
            Some(name) => Event::link(Some(&format!("../../../{directory}/{name}"))),
            None => Event::link(None),
        }
    }

    fn respond(&mut self, binder: &DeviceBinder, action: Action) -> Event {
        match action {
            Action::Canonicalize => Event::Canonical(self.canonical.clone()),
            Action::Exists(DeviceFile::Device) => {
                assert_eq!(binder.path_of(DeviceFile::Device), DEVICE);
                Event::Exists(self.exists)
            }
            Action::Exists(DeviceFile::DriverUnbind) => {
                assert_eq!(
                    binder.path_of(DeviceFile::DriverUnbind),
                    format!("{DEVICE}/driver/unbind")
                );
                Event::Exists(self.driver.is_some())
            }
            Action::Exists(DeviceFile::Driver) => Event::Exists(self.driver.is_some()),
            Action::Exists(file) => panic!("asked whether {file:?} exists"),
            Action::ReadLink(DeviceFile::Driver) => {
                assert_eq!(binder.path_of(DeviceFile::Driver), format!("{DEVICE}/driver"));
                Bus::link(&self.driver, "bus/platform/drivers")
            }
            Action::ReadLink(DeviceFile::IommuGroup) => {
                assert_eq!(binder.path_of(DeviceFile::IommuGroup), format!("{DEVICE}/iommu_group"));
                Bus::link(&self.iommu_group, "kernel/iommu_groups")
            }
            Action::ReadLink(file) => panic!("asked for the link {file:?}"),
            Action::Write(file, data) => {
                if self.read_only == Some(file) {
                    return Event::Written(false);
                }
                let text = binder.data_of(data);
                self.written.push((binder.path_of(file), text.clone()));
                match file {
                    DeviceFile::DriverUnbind => {
                        assert_eq!(text, "16d00000.eh");
                        if self.unbinds {
                            self.driver = None;
                        }
                    }
                    DeviceFile::DriverOverride => {
                        // Writing nothing leaves the override as it is.
                        if text == "\n" {
                            self.driver_override.clear();
                        } else if !text.is_empty() {
                            self.driver_override = text;
                        }
                    }
                    DeviceFile::DriversProbe => {
                        assert_eq!(text, "16d00000.eh");
                        if self.driver.is_none() {
                            self.driver = if self.driver_override.is_empty() {
                                self.own_driver.clone()
                            } else {
                                Some(self.driver_override.clone())
                            };
                        }
                    }
                    file => panic!("wrote to {file:?}"),
                }
                Event::Written(true)
            }
            Action::Finish(_) => panic!("asked to finish"),
        }
    }

    fn run(&mut self, goal: Goal) -> Result<(), BindError> {
        let requested = "/sys/devices/platform/eh".to_string();
        let (mut binder, mut action) = match goal {
            Goal::Bind => bind_device(requested),
            Goal::Unbind => unbind_device(requested),
        };
        assert_eq!(binder.requested_path(), "/sys/devices/platform/eh");
        for _ in 0..=10 {
            if let Action::Finish(outcome) = action {
                assert!(binder.is_done());
                return outcome;
            }
            assert!(!binder.is_done());
            let event = self.respond(&binder, action);
            action = binder.step(event);
        }
        panic!("the binder did not finish within ten steps");
    }
}

fn written(pairs: &[(&str, &str)]) -> Vec<(String, String)> {
    pairs.iter().map(|(p, d)| (p.to_string(), d.to_string())).collect()
}

#[test]
fn bind_rebinds_the_device_to_vfio() {
    let mut bus = Bus::new();
    assert_eq!(bus.run(Goal::Bind), Ok(()));
    assert_eq!(bus.driver.as_deref(), Some("vfio-platform"));
    assert_eq!(
        bus.written,
        written(&[
            ("/sys/devices/platform/16d00000.eh/driver/unbind", "16d00000.eh"),
            ("/sys/devices/platform/16d00000.eh/driver_override", "vfio-platform"),
            ("/sys/bus/platform/drivers_probe", "16d00000.eh"),
        ])
    );
}

#[test]
fn bind_of_a_device_without_driver_skips_the_unbind() {
    let mut bus = Bus { driver: None, ..Bus::new() };
    assert_eq!(bus.run(Goal::Bind), Ok(()));
    assert_eq!(bus.driver.as_deref(), Some("vfio-platform"));
    assert_eq!(bus.written.len(), 2);
    assert_eq!(bus.written[0].0, "/sys/devices/platform/16d00000.eh/driver_override");
}

#[test]
fn bind_of_a_bound_device_writes_nothing() {
    let mut bus = Bus { driver: Some("vfio-platform".to_string()), ..Bus::new() };
    assert_eq!(bus.run(Goal::Bind), Ok(()));
    assert!(bus.written.is_empty());
    // The device must be isolated all the same.
    let mut bus =
        Bus { driver: Some("vfio-platform".to_string()), iommu_group: None, ..Bus::new() };
    assert_eq!(bus.run(Goal::Bind), Err(BindError::NoIommuGroup));
}

#[test]
fn bind_then_unbind_restores_the_driver() {
    for own_driver in ["eh", "vfio", "x"] {
        let mut bus = Bus {
            driver: Some(own_driver.to_string()),
            own_driver: Some(own_driver.to_string()),
            ..Bus::new()
        };
        let before = bus.clone();
        assert_eq!(bus.run(Goal::Bind), Ok(()));
        assert_eq!(bus.driver.as_deref(), Some("vfio-platform"));
        assert_eq!(bus.run(Goal::Unbind), Ok(()));
        assert_eq!(bus.driver, before.driver);
        assert_eq!(bus.driver_override, before.driver_override);
        assert_eq!(
            bus.written[3..],
            written(&[
                ("/sys/devices/platform/16d00000.eh/driver/unbind", "16d00000.eh"),
                ("/sys/devices/platform/16d00000.eh/driver_override", "\n"),
                ("/sys/bus/platform/drivers_probe", "16d00000.eh"),
            ])
        );
    }
}

#[test]
fn unbind_needs_a_driver_to_go_back_to() {
    let mut bus =
        Bus { driver: Some("vfio-platform".to_string()), own_driver: None, ..Bus::new() };
    bus.driver_override = "vfio-platform".to_string();
    assert_eq!(bus.run(Goal::Unbind), Err(BindError::BindFailed(BindFailure::NotBound)));
}

#[test]
fn unbind_takes_any_driver_but_vfio() {
    // Once the override is cleared the probe binds the device's own driver.
    let mut bus = Bus { driver: Some("vfio-platform".to_string()), ..Bus::new() };
    bus.driver_override = "vfio-platform".to_string();
    assert_eq!(bus.run(Goal::Unbind), Ok(()));
    assert_eq!(bus.driver.as_deref(), Some("eh"));

    let mut bus = Bus {
        driver: Some("vfio-platform".to_string()),
        own_driver: Some("vfio-platform".to_string()),
        ..Bus::new()
    };
    assert_eq!(bus.run(Goal::Unbind), Err(BindError::BindFailed(BindFailure::StillBoundToVfio)));
}

#[test]
fn device_must_exist_below_the_platform_bus() {
    let mut bus = Bus { canonical: None, ..Bus::new() };
    let err = bus.run(Goal::Bind).unwrap_err();
    assert_eq!(err, BindError::InvalidDevice(InvalidDevice::NotCanonical));
    assert_eq!(err.kind(), ErrorKind::NotFound);

    let mut bus = Bus { exists: false, ..Bus::new() };
    assert_eq!(bus.run(Goal::Bind), Err(BindError::InvalidDevice(InvalidDevice::NoSuchDevice)));
    assert_eq!(bus.run(Goal::Unbind), Err(BindError::InvalidDevice(InvalidDevice::NoSuchDevice)));
    assert!(bus.written.is_empty());
}

fn run_on(path: &str, events: Vec<Event>) -> Action {
    let (mut binder, mut action) = DeviceBinder::new(Goal::Bind, "requested".to_string());
    assert_eq!(action, Action::Canonicalize);
    action = binder.step(Event::Canonical(Some(path.to_string())));
    assert_eq!(action, Action::Exists(DeviceFile::Device));
    for event in events {
        action = binder.step(event);
    }
    action
}

#[test]
fn devices_of_other_buses_are_refused() {
    for path in [
        "/sys/devices/pci0000:00/0000:00:01.0",
        "/sys/devices/platformer/dev",
        "/sys/devices",
        "/sys/bus/platform/devices/dev",
        "sys/devices/platform/dev",
        "/",
    ] {
        let err = BindError::InvalidDevice(InvalidDevice::NotPlatformDevice);
        assert_eq!(run_on(path, vec![Event::Exists(true)]), Action::Finish(Err(err)), "{path}");
        assert_eq!(err.kind(), ErrorKind::PolicyViolation);
    }
    for path in ["/sys/devices/platform/dev", "/sys/devices/platform", "/sys/devices/platform/a/b"] {
        assert_eq!(
            run_on(path, vec![Event::Exists(true)]),
            Action::ReadLink(DeviceFile::Driver),
            "{path}"
        );
    }
}

#[test]
fn every_write_is_checked() {
    for (file, failure) in [
        (DeviceFile::DriverUnbind, BindFailure::UnbindWrite),
        (DeviceFile::DriverOverride, BindFailure::OverrideWrite),
        (DeviceFile::DriversProbe, BindFailure::ProbeWrite),
    ] {
        let mut bus = Bus { read_only: Some(file), ..Bus::new() };
        let err = bus.run(Goal::Bind).unwrap_err();
        assert_eq!(err, BindError::BindFailed(failure));
        assert_eq!(err.kind(), ErrorKind::IoFailure);
    }
}

#[test]
fn every_step_is_verified() {
    let mut bus = Bus { unbinds: false, ..Bus::new() };
    let err = bus.run(Goal::Bind).unwrap_err();
    assert_eq!(err, BindError::BindFailed(BindFailure::StillHasDriver));
    assert_eq!(err.kind(), ErrorKind::ResourceStateError);
    assert_eq!(bus.written.len(), 1);

    // The probe binds another driver than the one asked for.
    let action = run_on(
        DEVICE,
        vec![
            Event::Exists(true),
            Event::link(Some("../drivers/eh")),
            Event::Exists(true),
            Event::Written(true),
            Event::Exists(false),
            Event::Written(true),
            Event::Written(true),
            Event::link(Some("../drivers/eh")),
        ],
    );
    assert_eq!(action, Action::Finish(Err(BindError::BindFailed(BindFailure::NotBound))));
}

#[test]
fn bound_device_must_be_in_an_iommu_group() {
    for group in [None, Some(""), Some("x"), Some("-1"), Some("18446744073709551616")] {
        let mut bus = Bus { iommu_group: group.map(|g| g.to_string()), ..Bus::new() };
        let err = bus.run(Goal::Bind).unwrap_err();
        assert_eq!(err, BindError::NoIommuGroup, "{group:?}");
        assert_eq!(err.kind(), ErrorKind::ResourceStateError);
        // The device is bound all the same.
        assert_eq!(bus.driver.as_deref(), Some("vfio-platform"));
    }
    for group in ["0", "18446744073709551615", "+3"] {
        let mut bus = Bus { iommu_group: Some(group.to_string()), ..Bus::new() };
        assert_eq!(bus.run(Goal::Bind), Ok(()), "{group:?}");
    }
    // Unbinding asks for no group.
    let mut bus = Bus { iommu_group: None, ..Bus::new() };
    bus.driver = Some("vfio-platform".to_string());
    assert_eq!(bus.run(Goal::Unbind), Ok(()));
}

#[test]
fn link_is_known_by_its_last_component() {
    assert_eq!(Event::link(None), Event::Link(None));
    assert_eq!(Event::link(Some("../../bus/platform/drivers/eh")), Event::Link(Some("eh".into())));
    assert_eq!(Event::link(Some("eh")), Event::Link(Some("eh".into())));
    assert_eq!(Event::link(Some("/a/b/")), Event::Link(Some("b".into())));
    assert_eq!(Event::link(Some("/a/b/..")), Event::Link(None));
    assert_eq!(Event::link(Some("/")), Event::Link(None));
    assert_eq!(Event::link(Some("")), Event::Link(None));
}

#[test]
fn device_without_a_name_is_refused() {
    let (mut binder, _) = DeviceBinder::new(Goal::Bind, "x".to_string());
    binder.step(Event::Canonical(Some("/sys/devices/platform/..".to_string())));
    assert_eq!(binder.step(Event::Exists(true)), Action::ReadLink(DeviceFile::Driver));
    let err = BindError::InvalidDevice(InvalidDevice::NoDeviceName);
    assert_eq!(binder.step(Event::Link(None)), Action::Finish(Err(err)));
}

#[test]
fn unexpected_events_end_the_binder() {
    let unexpected = Action::Finish(Err(BindError::UnexpectedEvent));
    let (mut binder, _) = DeviceBinder::new(Goal::Bind, DEVICE.to_string());
    assert_eq!(binder.step(Event::Exists(true)), unexpected);
    assert!(binder.is_done());
    assert_eq!(binder.step(Event::Canonical(Some(DEVICE.to_string()))), unexpected);

    let mut bus = Bus::new();
    let (mut binder, first) = DeviceBinder::new(Goal::Unbind, DEVICE.to_string());
    let event = bus.respond(&binder, first);
    assert_eq!(binder.step(event), Action::Exists(DeviceFile::Device));
    assert_eq!(binder.step(Event::Written(true)), unexpected);
    assert_eq!(binder.step(Event::Exists(true)), unexpected);
}

#[test]
fn binder_writes_what_its_goal_asks_for() {
    let (mut binder, _) = DeviceBinder::new(Goal::Bind, "x".to_string());
    assert_eq!(binder.data_of(WriteData::TargetDriver), "vfio-platform");
    assert_eq!(binder.data_of(WriteData::DeviceName), "");
    binder.step(Event::Canonical(Some("/sys/devices/platform/dev.1".to_string())));
    binder.step(Event::Exists(true));
    binder.step(Event::Link(None));
    assert_eq!(binder.data_of(WriteData::DeviceName), "dev.1");
    assert_eq!(binder.path_of(DeviceFile::Device), "/sys/devices/platform/dev.1");
    assert_eq!(binder.path_of(DeviceFile::DriverOverride), "/sys/devices/platform/dev.1/driver_override");
    assert_eq!(binder.path_of(DeviceFile::DriversProbe), "/sys/bus/platform/drivers_probe");
    let (unbinder, _) = DeviceBinder::new(Goal::Unbind, "x".to_string());
    assert_eq!(unbinder.data_of(WriteData::TargetDriver), "\n");
}

#[test]
fn handle_gives_the_device_back_once() {
    let mut device = BoundDevice::new(DEVICE.to_string(), "eh".to_string());
    assert_eq!(device.getSysfsPath(), DEVICE);
    assert_eq!(device.getDtboLabel(), "eh");
    assert!(!device.is_released());
    let (binder, first) = device.release().expect("the first release unbinds");
    assert_eq!(first, Action::Canonicalize);
    assert_eq!(binder.requested_path(), DEVICE);
    assert_eq!(binder.data_of(WriteData::TargetDriver), "\n");
    assert!(device.is_released());
    assert!(device.release().is_none());
    assert!(device.release().is_none());
    assert_eq!(device.getSysfsPath(), DEVICE);
}

fn dev(path: &str, label: &str) -> VfioDev {
    VfioDev { sysfs_path: path.to_string(), dtbo_label: label.to_string() }
}

/// Answers as a bus does on which every device named `bad` cannot be unbound.
fn run_batch(devices: Vec<VfioDev>, bad: &str) -> (Result<(), BindError>, Vec<BoundDevice>, usize) {
    let handler = VfioHandler::init();
    let (mut batch, mut action) = handler.bindDevicesToVfioDriver(true, devices);
    let mut bus = Bus::new();
    let mut canonicalized = 0;
    for _ in 0..100 {
        if let Action::Finish(outcome) = action {
            assert!(batch.is_done());
            return (outcome, batch.into_bound(), canonicalized);
        }
        assert!(!batch.is_done());
        let event = match action {
            Action::Canonicalize => {
                canonicalized += 1;
                let requested = batch.current().requested_path().to_string();
                bus = Bus { unbinds: !requested.ends_with(bad), ..Bus::new() };
                Event::Canonical(Some(DEVICE.to_string()))
            }
            action => bus.respond(batch.current(), action),
        };
        action = batch.step(event);
    }
    panic!("the batch did not finish");
}

#[test]
fn batch_binds_each_device_in_turn() {
    let (outcome, bound, asked) =
        run_batch(vec![dev("/sys/a", "la"), dev("/sys/b", "lb"), dev("/sys/c", "lc")], "none");
    assert_eq!(outcome, Ok(()));
    assert_eq!(asked, 3);
    let handles: Vec<(String, String)> =
        bound.iter().map(|b| (b.getSysfsPath(), b.getDtboLabel())).collect();
    assert_eq!(
        handles,
        vec![
            ("/sys/a".to_string(), "la".to_string()),
            ("/sys/b".to_string(), "lb".to_string()),
            ("/sys/c".to_string(), "lc".to_string())
        ]
    );
    assert!(bound.iter().all(|b| !b.is_released()));
}

#[test]
fn batch_stops_at_the_first_failure() {
    let (outcome, bound, asked) = run_batch(
        vec![dev("/sys/a", "la"), dev("/sys/bad", "lb"), dev("/sys/c", "lc")],
        "bad",
    );
    assert_eq!(outcome, Err(BindError::BindFailed(BindFailure::StillHasDriver)));
    // The third device is not tried, and the first keeps its handle.
    assert_eq!(asked, 2);
    assert_eq!(bound.len(), 1);
    assert_eq!(bound[0].getSysfsPath(), "/sys/a");
}

#[test]
fn batch_without_devices_or_without_vfio_finishes_at_once() {
    let handler = VfioHandler::default();
    let (batch, action) = handler.bindDevicesToVfioDriver(true, vec![]);
    assert_eq!(action, Action::Finish(Ok(())));
    assert!(batch.is_done());
    assert!(batch.into_bound().is_empty());

    let (mut batch, action) = handler.bindDevicesToVfioDriver(false, vec![dev("/sys/a", "la")]);
    assert_eq!(action, Action::Finish(Err(BindError::NotSupported)));
    assert_eq!(BindError::NotSupported.kind(), ErrorKind::PolicyViolation);
    assert!(batch.is_done());
    assert_eq!(
        batch.step(Event::Canonical(Some(DEVICE.to_string()))),
        Action::Finish(Err(BindError::UnexpectedEvent))
    );
    assert!(batch.into_bound().is_empty());
}

#[test]
fn vfio_needs_its_device_node_and_its_driver() {
    assert!(is_vfio_supported(true, true));
    assert!(!is_vfio_supported(true, false));
    assert!(!is_vfio_supported(false, true));
    assert!(!is_vfio_supported(false, false));
    assert_eq!(dev_vfio_path(), "/dev/vfio/vfio");
    assert_eq!(vfio_platform_driver_path(), "/sys/bus/platform/drivers/vfio-platform");
}

#[test]
fn bind_failures_say_what_failed() {
    let path = "/sys/devices/platform/dev";
    assert_eq!(BindError::NotSupported.message(path), "VFIO-platform not supported");
    assert_eq!(
        BindError::InvalidDevice(InvalidDevice::NotCanonical).message(path),
        "can't canonicalize /sys/devices/platform/dev"
    );
    assert_eq!(
        BindError::InvalidDevice(InvalidDevice::NoSuchDevice).message(path),
        "no such device /sys/devices/platform/dev"
    );
    assert_eq!(
        BindError::InvalidDevice(InvalidDevice::NotPlatformDevice).message("/sys/x"),
        "/sys/x is not a platform device"
    );
    assert_eq!(
        BindError::InvalidDevice(InvalidDevice::NoDeviceName).message("/"),
        "can't get device name from /"
    );
    assert_eq!(
        BindError::BindFailed(BindFailure::UnbindWrite).message(path),
        "could not unbind /sys/devices/platform/dev"
    );
    assert_eq!(
        BindError::BindFailed(BindFailure::StillHasDriver).message(path),
        "could not unbind /sys/devices/platform/dev"
    );
    assert_eq!(
        BindError::BindFailed(BindFailure::OverrideWrite).message(path),
        "could not write the driver override of /sys/devices/platform/dev"
    );
    assert_eq!(
        BindError::BindFailed(BindFailure::ProbeWrite).message(path),
        "could not write /sys/devices/platform/dev to drivers-probe"
    );
    assert_eq!(
        BindError::BindFailed(BindFailure::NotBound).message(path),
        "/sys/devices/platform/dev still not bound to its driver"
    );
    assert_eq!(
        BindError::BindFailed(BindFailure::StillBoundToVfio).message(path),
        "/sys/devices/platform/dev still bound to vfio driver"
    );
    assert_eq!(
        BindError::NoIommuGroup.message(path),
        "can't get iommu group for /sys/devices/platform/dev"
    );
    assert_eq!(
        BindError::UnexpectedEvent.message(path),
        "unexpected event for /sys/devices/platform/dev"
    );
}

#[test]
fn device_checks_stand_alone() {
    assert_eq!(check_platform_device(true, "/sys/devices/platform/dev"), Ok(()));
    assert_eq!(
        check_platform_device(false, "/sys/devices/platform/dev"),
        Err(BindError::InvalidDevice(InvalidDevice::NoSuchDevice))
    );
    assert_eq!(
        check_platform_device(true, "/sys/devices/virtual/dev"),
        Err(BindError::InvalidDevice(InvalidDevice::NotPlatformDevice))
    );
    assert_eq!(check_device(true, true), Ok(()));
    assert_eq!(
        check_device(true, false),
        Err(BindError::InvalidDevice(InvalidDevice::NotPlatformDevice))
    );
    // A device that is not there is not asked where it lies.
    assert_eq!(
        check_device(false, false),
        Err(BindError::InvalidDevice(InvalidDevice::NoSuchDevice))
    );
    assert_eq!(device_name(Some("dev.1".to_string())), Ok("dev.1".to_string()));
    assert_eq!(device_name(None), Err(BindError::InvalidDevice(InvalidDevice::NoDeviceName)));
    assert_eq!(current_driver(Some("../../../bus/platform/drivers/eh")), Some("eh".to_string()));
    assert_eq!(current_driver(None), None);
    assert_eq!(get_device_iommu_group(&Some("12".to_string())), Some(12));
    assert_eq!(get_device_iommu_group(&Some("twelve".to_string())), None);
    assert_eq!(get_device_iommu_group(&None), None);
}
