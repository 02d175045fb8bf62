//! The driver registry: one driver for each protocol family, picked by the
//! driver name of a catalog entry and handled through one interface.

use vstd::prelude::*;
use crate::device::{DeviceInfo, DeviceModel};
use crate::driver::{ActionModel, DeviceDriver, DriverAction, DriverEvent, DriverEventModel};
use crate::driver::asus_steps::AsusDriver;
use crate::driver::etekcity::EtekcityDriver;
use crate::driver::gskill::GskillDriver;
use crate::driver::hidpp10::Hidpp10Driver;
use crate::driver::hidpp20_driver::Hidpp20Driver;
use crate::driver::logitech_g600::LG600Driver;
use crate::driver::marsgaming::MarsGamingDriver;
use crate::driver::openinput::OpenInputDriver;
use crate::driver::sinowealth::SinowealhDriver;
use crate::driver::sinowealth_nubwo::SinowealhNubwoDriver;
use crate::driver::steelseries_driver::SteelseriesDriver;
use crate::text::{chars_eq, chars_of};

verus! {

/// The protocol families that the daemon has a driver for.
#[derive(Debug, Clone, Copy, PartialEq, Eq, Structural)]
pub enum DriverKind {
    Asus,
    Etekcity,
    Gskill,
    Hidpp10,
    Hidpp20,
    LogitechG600,
    MarsGaming,
    OpenInput,
    Sinowealth,
    SinowealthNubwo,
    Steelseries,
}

/// A driver of any protocol family.
pub enum Driver {
    Asus(AsusDriver),
    Etekcity(EtekcityDriver),
    Gskill(GskillDriver),
    Hidpp10(Hidpp10Driver),
    Hidpp20(Hidpp20Driver),
    LogitechG600(LG600Driver),
    MarsGaming(MarsGamingDriver),
    OpenInput(OpenInputDriver),
    Sinowealth(SinowealhDriver),
    SinowealthNubwo(SinowealhNubwoDriver),
    Steelseries(SteelseriesDriver),
}

/// The protocol family that a driver name of the catalog stands for.
pub open spec fn kind_of_name(name: Seq<char>) -> Option<DriverKind> {
    if name == "asus"@ {
        Some(DriverKind::Asus)
    } else if name == "etekcity"@ {
        Some(DriverKind::Etekcity)
    } else if name == "gskill"@ {
        Some(DriverKind::Gskill)
    } else if name == "hidpp10"@ {
        Some(DriverKind::Hidpp10)
    } else if name == "hidpp20"@ {
        Some(DriverKind::Hidpp20)
    } else if name == "logitech_g600"@ {
        Some(DriverKind::LogitechG600)
    } else if name == "marsgaming"@ {
        Some(DriverKind::MarsGaming)
    } else if name == "openinput"@ {
        Some(DriverKind::OpenInput)
    } else if name == "sinowealth"@ {
        Some(DriverKind::Sinowealth)
    } else if name == "sinowealth-nubwo"@ {
        Some(DriverKind::SinowealthNubwo)
    } else if name == "steelseries"@ {
        Some(DriverKind::Steelseries)
    } else {
        None
    }
}

/// The name under which the driver of a protocol family shows in messages.
pub open spec fn name_of_kind(kind: DriverKind) -> Seq<char> {
    match kind {
        DriverKind::Asus => "asus"@,
        DriverKind::Etekcity => "Etekcity"@,
        DriverKind::Gskill => "G.Skill"@,
        DriverKind::Hidpp10 => "Logitech HID++ 1.0"@,
        DriverKind::Hidpp20 => "Logitech HID++ 2.0"@,
        DriverKind::LogitechG600 => "Logitech G600"@,
        DriverKind::MarsGaming => "MarsGaming MM4"@,
        DriverKind::OpenInput => "OpenInput"@,
        DriverKind::Sinowealth => "SinoWealth"@,
        DriverKind::SinowealthNubwo => "SinoWealth-Nubwo"@,
        DriverKind::Steelseries => "SteelSeries"@,
    }
}

impl Driver {
    /// The protocol family of the driver.
    pub open spec fn kind(&self) -> DriverKind {
        match self {
            Driver::Asus(_) => DriverKind::Asus,
            Driver::Etekcity(_) => DriverKind::Etekcity,
            Driver::Gskill(_) => DriverKind::Gskill,
            Driver::Hidpp10(_) => DriverKind::Hidpp10,
            Driver::Hidpp20(_) => DriverKind::Hidpp20,
            Driver::LogitechG600(_) => DriverKind::LogitechG600,
            Driver::MarsGaming(_) => DriverKind::MarsGaming,
            Driver::OpenInput(_) => DriverKind::OpenInput,
            Driver::Sinowealth(_) => DriverKind::Sinowealth,
            Driver::SinowealthNubwo(_) => DriverKind::SinowealthNubwo,
            Driver::Steelseries(_) => DriverKind::Steelseries,
        }
    }
}

/// What a probe step of a driver does: the driver stays of its family,
/// and does what the relation of the probe of its family says.
pub open spec fn probed(pre: Driver, ev: DriverEventModel, post: Driver, r: ActionModel) -> bool {
    match (pre, post) {
        (Driver::Asus(a), Driver::Asus(b)) => crate::driver::asus_steps::probe_post(a, ev, b, r),
        (Driver::Etekcity(a), Driver::Etekcity(b)) => crate::driver::etekcity::probe_post(a, ev, b, r),
        (Driver::Gskill(a), Driver::Gskill(b)) => crate::driver::gskill::probe_post(a, ev, b, r),
        (Driver::Hidpp10(a), Driver::Hidpp10(b)) => crate::driver::hidpp10::probe_post(a, ev, b, r),
        (Driver::Hidpp20(a), Driver::Hidpp20(b)) => crate::driver::hidpp20_driver::probe_post(a, ev, b, r),
        (Driver::LogitechG600(a), Driver::LogitechG600(b)) => crate::driver::logitech_g600::probe_post(a, ev, b, r),
        (Driver::MarsGaming(a), Driver::MarsGaming(b)) => crate::driver::marsgaming::probe_post(a, ev, b, r),
        (Driver::OpenInput(a), Driver::OpenInput(b)) => crate::driver::openinput::probe_post(a, ev, b, r),
        (Driver::Sinowealth(a), Driver::Sinowealth(b)) => crate::driver::sinowealth::probe_post(a, ev, b, r),
        (Driver::SinowealthNubwo(a), Driver::SinowealthNubwo(b)) => crate::driver::sinowealth_nubwo::probe_post(a, ev, b, r),
        (Driver::Steelseries(a), Driver::Steelseries(b)) => crate::driver::steelseries_driver::probe_post(a, ev, b, r),
        _ => false,
    }
}

/// What a step of a load of a driver does: the driver stays of its family,
/// the identity of the device stays, and the driver does what the relation
/// of the load of its family says.
pub open spec fn loaded(
    pre: Driver,
    before: DeviceModel,
    ev: DriverEventModel,
    post: Driver,
    after: DeviceModel,
    r: ActionModel,
) -> bool {
    &&& after.sysname == before.sysname
    &&& after.name == before.name
    &&& after.model == before.model
    &&& after.driver_config == before.driver_config
    &&& match (pre, post) {
        (Driver::Asus(a), Driver::Asus(b)) => crate::driver::asus_steps::load_post(a, before, ev, b, after, r),
        (Driver::Etekcity(a), Driver::Etekcity(b)) => crate::driver::etekcity::load_post(a, before, ev, b, after, r),
        (Driver::Gskill(a), Driver::Gskill(b)) => crate::driver::gskill::load_post(a, before, ev, b, after, r),
        (Driver::Hidpp10(a), Driver::Hidpp10(b)) => crate::driver::hidpp10::load_post(a, before, ev, b, after, r),
        (Driver::Hidpp20(a), Driver::Hidpp20(b)) => crate::driver::hidpp20_load::load_post(a, before, ev, b, after, r),
        (Driver::LogitechG600(a), Driver::LogitechG600(b)) => crate::driver::logitech_g600::load_post(a, before, ev, b, after, r),
        (Driver::MarsGaming(a), Driver::MarsGaming(b)) => crate::driver::marsgaming::load_post(a, before, ev, b, after, r),
        (Driver::OpenInput(a), Driver::OpenInput(b)) => crate::driver::openinput::load_post(a, before, ev, b, after, r),
        (Driver::Sinowealth(a), Driver::Sinowealth(b)) => crate::driver::sinowealth::load_post(a, before, ev, b, after, r),
        (Driver::SinowealthNubwo(a), Driver::SinowealthNubwo(b)) => crate::driver::sinowealth_nubwo::load_post(a, before, ev, b, after, r),
        (Driver::Steelseries(a), Driver::Steelseries(b)) => crate::driver::steelseries_driver::load_post(a, before, ev, b, after, r),
        _ => false,
    }
}

/// What a step of a commit of a driver does: the driver stays of its
/// family, and does what the relation of the commit of its family says.
pub open spec fn committed(
    pre: Driver,
    info: DeviceModel,
    ev: DriverEventModel,
    post: Driver,
    r: ActionModel,
) -> bool {
    match (pre, post) {
        (Driver::Asus(a), Driver::Asus(b)) => crate::driver::asus_steps::commit_post(a, info, ev, b, r),
        (Driver::Etekcity(a), Driver::Etekcity(b)) => crate::driver::etekcity::commit_post(a, info, ev, b, r),
        (Driver::Gskill(a), Driver::Gskill(b)) => crate::driver::gskill::commit_post(a, info, ev, b, r),
        (Driver::Hidpp10(a), Driver::Hidpp10(b)) => crate::driver::hidpp10::commit_post(a, info, ev, b, r),
        (Driver::Hidpp20(a), Driver::Hidpp20(b)) => crate::driver::hidpp20_commit::commit_post(a, info, ev, b, r),
        (Driver::LogitechG600(a), Driver::LogitechG600(b)) => crate::driver::logitech_g600::commit_post(a, info, ev, b, r),
        (Driver::MarsGaming(a), Driver::MarsGaming(b)) => crate::driver::marsgaming::commit_post(a, info, ev, b, r),
        (Driver::OpenInput(a), Driver::OpenInput(b)) => crate::driver::openinput::commit_post(a, info, ev, b, r),
        (Driver::Sinowealth(a), Driver::Sinowealth(b)) => crate::driver::sinowealth::commit_post(a, info, ev, b, r),
        (Driver::SinowealthNubwo(a), Driver::SinowealthNubwo(b)) => crate::driver::sinowealth_nubwo::commit_post(a, info, ev, b, r),
        (Driver::Steelseries(a), Driver::Steelseries(b)) => crate::driver::steelseries_driver::commit_post(a, info, ev, b, r),
        _ => false,
    }
}

/// Whether a driver is as its constructor makes it: at rest, and knowing
/// nothing of a device yet.
pub open spec fn fresh(d: Driver) -> bool {
    match d {
        Driver::Asus(d) => {
            &&& !d.is_ready
            &&& d.stage == crate::driver::asus_steps::AsusStage::Idle
            &&& d.tables.quirks == 0
            &&& d.tables.led_modes@ == crate::driver::asus_driver::default_led_modes()
            &&& forall|i: int| 0 <= i < 34 ==> d.tables.button_mapping@[i] is None
            &&& forall|i: int| 0 <= i < 34 ==> d.tables.button_indices@[i] is None
            &&& d.initial_id == 0
            &&& d.dpi_preset is None
            &&& d.binding is None
            &&& d.settings is None
            &&& d.plan@.len() == 0
            &&& d.scratch is None
            &&& d.failure is None
        },
        Driver::Etekcity(d) => d.data is None && !d.probing,
        Driver::Gskill(d) => d.data is None && !d.probing,
        Driver::Hidpp10(d) => {
            &&& d.device_index == crate::driver::hidpp::DEVICE_IDX_WIRED
            &&& d.version_major == 0
            &&& d.version_minor == 0
            &&& d.stage == crate::driver::hidpp10::Hidpp10Stage::Idle
        },
        Driver::Hidpp20(d) => d.is_fresh(),
        Driver::LogitechG600(d) => d.data is None && !d.probing,
        Driver::MarsGaming(d) => d.active_profile is None && d.stage
            == crate::driver::marsgaming::ProbeStage::Idle,
        Driver::OpenInput(d) => d.data is None && d.stage
            == crate::driver::openinput::ProbeStage::Idle,
        Driver::Sinowealth(d) => d.data is None && !d.probing,
        Driver::SinowealthNubwo(d) => d.data is None && d.stage
            == crate::driver::sinowealth_nubwo::ProbeStage::Idle,
        Driver::Steelseries(d) => {
            &&& d.version == 0
            &&& d.stage == crate::driver::steelseries_driver::SteelseriesStage::Idle
            &&& d.plan@.len() == 0
            &&& d.next == 0
        },
    }
}

/// The kind of an optional driver.
pub open spec fn kind_of(d: Option<Driver>) -> Option<DriverKind> {
    match d {
        Some(x) => Some(x.kind()),
        None => None,
    }
}

/// Makes a fresh driver for a driver name of the catalog; `None` for a name
/// that the daemon has no driver for.
pub fn create_driver(driver_name: &str) -> (r: Option<Driver>)
    ensures
        kind_of(r) == kind_of_name(driver_name@),
        r is Some ==> fresh(r->0),
{
    let v = chars_of(driver_name);
    assert(v@.subrange(0, v@.len() as int) =~= v@);
    let n = v.len();
    if chars_eq(&v, 0, n, "asus") {
        Some(Driver::Asus(AsusDriver::new()))
    } else if chars_eq(&v, 0, n, "etekcity") {
        Some(Driver::Etekcity(EtekcityDriver::new()))
    } else if chars_eq(&v, 0, n, "gskill") {
        Some(Driver::Gskill(GskillDriver::new()))
    } else if chars_eq(&v, 0, n, "hidpp10") {
        Some(Driver::Hidpp10(Hidpp10Driver::new()))
    } else if chars_eq(&v, 0, n, "hidpp20") {
        Some(Driver::Hidpp20(Hidpp20Driver::new()))
    } else if chars_eq(&v, 0, n, "logitech_g600") {
        Some(Driver::LogitechG600(LG600Driver::new()))
    } else if chars_eq(&v, 0, n, "marsgaming") {
        Some(Driver::MarsGaming(MarsGamingDriver::new()))
    } else if chars_eq(&v, 0, n, "openinput") {
        Some(Driver::OpenInput(OpenInputDriver::new()))
    } else if chars_eq(&v, 0, n, "sinowealth") {
        Some(Driver::Sinowealth(SinowealhDriver::new()))
    } else if chars_eq(&v, 0, n, "sinowealth-nubwo") {
        Some(Driver::SinowealthNubwo(SinowealhNubwoDriver::new()))
    } else if chars_eq(&v, 0, n, "steelseries") {
        Some(Driver::Steelseries(SteelseriesDriver::new()))
    } else {
        None
    }
}

impl DeviceDriver for Driver {
    fn name(&self) -> (r: &'static str)
        ensures
            r@ == name_of_kind(self.kind()),
    {
        match self {
            Driver::Asus(d) => d.name(),
            Driver::Etekcity(d) => d.name(),
            Driver::Gskill(d) => d.name(),
            Driver::Hidpp10(d) => d.name(),
            Driver::Hidpp20(d) => d.name(),
            Driver::LogitechG600(d) => d.name(),
            Driver::MarsGaming(d) => d.name(),
            Driver::OpenInput(d) => d.name(),
            Driver::Sinowealth(d) => d.name(),
            Driver::SinowealthNubwo(d) => d.name(),
            Driver::Steelseries(d) => d.name(),
        }
    }

    fn probe(&mut self, event: DriverEvent) -> (r: DriverAction)
        ensures
            final(self).kind() == old(self).kind(),
            probed(*old(self), event@, *final(self), r@),
    {
        match self {
            Driver::Asus(d) => d.probe_step(event),
            Driver::Etekcity(d) => d.probe_step(event),
            Driver::Gskill(d) => d.probe_step(event),
            Driver::Hidpp10(d) => d.probe_step(event),
            Driver::Hidpp20(d) => d.probe_step(event),
            Driver::LogitechG600(d) => d.probe_step(event),
            Driver::MarsGaming(d) => d.probe_step(event),
            Driver::OpenInput(d) => d.probe_step(event),
            Driver::Sinowealth(d) => d.probe_step(event),
            Driver::SinowealthNubwo(d) => d.probe_step(event),
            Driver::Steelseries(d) => d.probe_step(event),
        }
    }

    fn load_profiles(&mut self, info: &mut DeviceInfo, event: DriverEvent) -> (r: DriverAction)
        ensures
            final(self).kind() == old(self).kind(),
            final(info)@.sysname == old(info)@.sysname,
            final(info)@.name == old(info)@.name,
            final(info)@.model == old(info)@.model,
            final(info)@.driver_config == old(info)@.driver_config,
            loaded(*old(self), old(info)@, event@, *final(self), final(info)@, r@),
    {
        match self {
            Driver::Asus(d) => d.load_step(info, event),
            Driver::Etekcity(d) => d.load_step(info, event),
            Driver::Gskill(d) => d.load_step(info, event),
            Driver::Hidpp10(d) => d.load_step(info, event),
            Driver::Hidpp20(d) => d.load_step(info, event),
            Driver::LogitechG600(d) => d.load_step(info, event),
            Driver::MarsGaming(d) => d.load_step(info, event),
            Driver::OpenInput(d) => d.load_step(info, event),
            Driver::Sinowealth(d) => d.load_step(info, event),
            Driver::SinowealthNubwo(d) => d.load_step(info, event),
            Driver::Steelseries(d) => d.load_step(info, event),
        }
    }

    fn commit(&mut self, info: &DeviceInfo, event: DriverEvent) -> (r: DriverAction)
        ensures
            final(self).kind() == old(self).kind(),
            committed(*old(self), info@, event@, *final(self), r@),
    {
        match self {
            Driver::Asus(d) => d.commit_step(info, event),
            Driver::Etekcity(d) => d.commit_step(info, event),
            Driver::Gskill(d) => d.commit_step(info, event),
            Driver::Hidpp10(d) => d.commit_step(info, event),
            Driver::Hidpp20(d) => d.commit_step(info, event),
            Driver::LogitechG600(d) => d.commit_step(info, event),
            Driver::MarsGaming(d) => d.commit_step(info, event),
            Driver::OpenInput(d) => d.commit_step(info, event),
            Driver::Sinowealth(d) => d.commit_step(info, event),
            Driver::SinowealthNubwo(d) => d.commit_step(info, event),
            Driver::Steelseries(d) => d.commit_step(info, event),
        }
    }
}

} // verus!
