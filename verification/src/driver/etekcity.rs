//! The Etekcity driver, for the Etekcity Scroll 1, the Redragon M709 and
//! similar mice.
//!
//! The report layouts and the probe are in place. Loading and committing
//! profiles are not: the probe confirms that the device answers and then
//! declines it.

use vstd::prelude::*;
use crate::device::{DeviceInfo, DeviceModel};
use crate::driver::{
    error_text, ActionModel, DeviceDriver, DriverAction, DriverEvent, DriverEventModel,
};
use crate::driver::hidpp20_driver::text2;

verus! {

/// The highest profile index.
pub const ETEKCITY_PROFILE_MAX: u8 = 4;

pub const ETEKCITY_BUTTON_MAX: usize = 10;

pub const ETEKCITY_NUM_DPI: usize = 6;

pub const ETEKCITY_REPORT_ID_CONFIGURE_PROFILE: u8 = 0x04;

pub const ETEKCITY_REPORT_ID_PROFILE: u8 = 0x05;

pub const ETEKCITY_REPORT_ID_SETTINGS: u8 = 0x06;

pub const ETEKCITY_REPORT_ID_KEY_MAPPING: u8 = 0x07;

pub const ETEKCITY_REPORT_ID_SPEED_SETTING: u8 = 0x08;

pub const ETEKCITY_REPORT_ID_MACRO: u8 = 0x09;

pub const ETEKCITY_REPORT_SIZE_PROFILE: usize = 50;

pub const ETEKCITY_REPORT_SIZE_SETTINGS: usize = 40;

pub const ETEKCITY_REPORT_SIZE_SPEED_SETTING: usize = 6;

pub const ETEKCITY_REPORT_SIZE_MACRO: usize = 130;

pub const ETEKCITY_CONFIG_SETTINGS: u8 = 0x10;

pub const ETEKCITY_CONFIG_KEY_MAPPING: u8 = 0x20;

/// The most key events that one macro holds.
pub const ETEKCITY_MAX_MACRO_LENGTH: usize = 50;

/// The settings report of one profile: 40 bytes.
#[derive(Debug, Clone)]
pub struct SettingsReport {
    pub report_id: u8,
    pub twenty_eight: u8,
    pub profile_id: u8,
    pub x_sensitivity: u8,
    pub y_sensitivity: u8,
    pub dpi_mask: u8,
    pub xres: [u8; 6],
    pub yres: [u8; 6],
    pub current_dpi: u8,
    pub _padding1: [u8; 7],
    pub report_rate: u8,
    pub _padding2: [u8; 4],
    pub light: u8,
    pub light_heartbeat: u8,
    pub _padding3: [u8; 5],
}

impl SettingsReport {
    /// The report with every byte zero.
    pub fn zeroed() -> (r: Self)
        ensures
            r.report_id == 0,
            r.profile_id == 0,
            r.current_dpi == 0,
            r.report_rate == 0,
            forall|i: int| 0 <= i < 6 ==> r.xres@[i] == 0 && r.yres@[i] == 0,
    {
        SettingsReport {
            report_id: 0,
            twenty_eight: 0,
            profile_id: 0,
            x_sensitivity: 0,
            y_sensitivity: 0,
            dpi_mask: 0,
            xres: [0u8; 6],
            yres: [0u8; 6],
            current_dpi: 0,
            _padding1: [0u8; 7],
            report_rate: 0,
            _padding2: [0u8; 4],
            light: 0,
            light_heartbeat: 0,
            _padding3: [0u8; 5],
        }
    }
}

/// One key event of a macro.
#[derive(Debug, Clone, Copy, PartialEq, Eq, Structural)]
pub struct MacroKey {
    pub keycode: u8,
    pub flag: u8,
}

/// The device state that the driver keeps after a probe.
#[derive(Debug, Clone)]
pub struct EtekcityData {
    /// The raw key-mapping report of each profile.
    pub profiles: Vec<[u8; 50]>,
    /// The settings of each profile.
    pub settings: Vec<SettingsReport>,
    /// The current speed-setting report.
    pub speed_setting: [u8; 6],
}

/// The Etekcity driver.
pub struct EtekcityDriver {
    pub data: Option<EtekcityData>,
    /// Whether the probe waits for the device to answer.
    pub probing: bool,
}

/// What a raw button value of a settings report stands for.
pub open spec fn button_description(raw: u8) -> Option<Seq<char>> {
    match raw {
        1 => Some("button(1)"@),
        2 => Some("button(2)"@),
        3 => Some("button(3)"@),
        4 => Some("special(double-click)"@),
        6 => Some("none"@),
        7 => Some("button(4)"@),
        8 => Some("button(5)"@),
        9 => Some("special(wheel-up)"@),
        10 => Some("special(wheel-down)"@),
        11 => Some("special(wheel-left)"@),
        12 => Some("special(wheel-right)"@),
        13 => Some("special(dpi-cycle-up)"@),
        14 => Some("special(dpi-up)"@),
        15 => Some("special(dpi-down)"@),
        16 => Some("macro"@),
        18 => Some("special(profile-cycle-up)"@),
        19 => Some("special(profile-up)"@),
        20 => Some("special(profile-down)"@),
        25 => Some("key(KEY_CONFIG)"@),
        26 => Some("key(KEY_PREVIOUSSONG)"@),
        27 => Some("key(KEY_NEXTSONG)"@),
        28 => Some("key(KEY_PLAYPAUSE)"@),
        29 => Some("key(KEY_STOPCD)"@),
        30 => Some("key(KEY_MUTE)"@),
        31 => Some("key(KEY_VOLUMEUP)"@),
        32 => Some("key(KEY_VOLUMEDOWN)"@),
        33 => Some("key(KEY_CALC)"@),
        34 => Some("key(KEY_MAIL)"@),
        35 => Some("key(KEY_BOOKMARKS)"@),
        36 => Some("key(KEY_FORWARD)"@),
        37 => Some("key(KEY_BACK)"@),
        38 => Some("key(KEY_STOP)"@),
        39 => Some("key(KEY_FILE)"@),
        40 => Some("key(KEY_REFRESH)"@),
        41 => Some("key(KEY_HOMEPAGE)"@),
        42 => Some("key(KEY_SEARCH)"@),
        _ => None,
    }
}

/// The view of an optional text.
pub open spec fn text_view(t: Option<&'static str>) -> Option<Seq<char>> {
    match t {
        Some(s) => Some(s@),
        None => None,
    }
}

/// Looks up what a raw button value stands for.
pub fn raw_to_description(raw: u8) -> (r: Option<&'static str>)
    ensures
        text_view(r) == button_description(raw),
{
    match raw {
        1 => Some("button(1)"),
        2 => Some("button(2)"),
        3 => Some("button(3)"),
        4 => Some("special(double-click)"),
        6 => Some("none"),
        7 => Some("button(4)"),
        8 => Some("button(5)"),
        9 => Some("special(wheel-up)"),
        10 => Some("special(wheel-down)"),
        11 => Some("special(wheel-left)"),
        12 => Some("special(wheel-right)"),
        13 => Some("special(dpi-cycle-up)"),
        14 => Some("special(dpi-up)"),
        15 => Some("special(dpi-down)"),
        16 => Some("macro"),
        18 => Some("special(profile-cycle-up)"),
        19 => Some("special(profile-up)"),
        20 => Some("special(profile-down)"),
        25 => Some("key(KEY_CONFIG)"),
        26 => Some("key(KEY_PREVIOUSSONG)"),
        27 => Some("key(KEY_NEXTSONG)"),
        28 => Some("key(KEY_PLAYPAUSE)"),
        29 => Some("key(KEY_STOPCD)"),
        30 => Some("key(KEY_MUTE)"),
        31 => Some("key(KEY_VOLUMEUP)"),
        32 => Some("key(KEY_VOLUMEDOWN)"),
        33 => Some("key(KEY_CALC)"),
        34 => Some("key(KEY_MAIL)"),
        35 => Some("key(KEY_BOOKMARKS)"),
        36 => Some("key(KEY_FORWARD)"),
        37 => Some("key(KEY_BACK)"),
        38 => Some("key(KEY_STOP)"),
        39 => Some("key(KEY_FILE)"),
        40 => Some("key(KEY_REFRESH)"),
        41 => Some("key(KEY_HOMEPAGE)"),
        42 => Some("key(KEY_SEARCH)"),
        _ => None,
    }
}

/// Builds the feature report that selects what of a profile is configured.
pub fn configure_profile_report(profile: u8, config_type: u8) -> (r: [u8; 3])
    ensures
        r@ == seq![ETEKCITY_REPORT_ID_CONFIGURE_PROFILE, profile, config_type],
{
    let r = [ETEKCITY_REPORT_ID_CONFIGURE_PROFILE, profile, config_type];
    assert(r@ =~= seq![ETEKCITY_REPORT_ID_CONFIGURE_PROFILE, profile, config_type]);
    r
}

/// Builds the feature report that makes a profile the active one.
pub fn set_active_profile_report(index: u8) -> (r: [u8; 3])
    ensures
        r@ == seq![ETEKCITY_REPORT_ID_PROFILE, 0x03u8, index],
{
    let r = [ETEKCITY_REPORT_ID_PROFILE, 0x03, index];
    assert(r@ =~= seq![ETEKCITY_REPORT_ID_PROFILE, 0x03u8, index]);
    r
}

/// The position of a button in the profile report: the buttons from 8 on
/// lie five positions further on.
pub open spec fn raw_index_of_button(button: usize) -> int {
    if button < 8 {
        button as int
    } else {
        button + 5
    }
}

pub fn button_to_raw_index(button: usize) -> (r: usize)
    requires
        button + 5 <= usize::MAX,
    ensures
        r == raw_index_of_button(button),
{
    if button < 8 {
        button
    } else {
        button + 5
    }
}

/// The query that the probe sends: the feature report of the current
/// profile.
pub open spec fn probe_query() -> ActionModel {
    ActionModel::GetFeatureReport(seq![ETEKCITY_REPORT_ID_PROFILE, 0u8, 0u8])
}

fn blank_data() -> (r: EtekcityData)
    ensures
        r.profiles@.len() == ETEKCITY_PROFILE_MAX + 1,
        r.settings@.len() == ETEKCITY_PROFILE_MAX + 1,
{
    let mut profiles: Vec<[u8; 50]> = Vec::new();
    let mut settings: Vec<SettingsReport> = Vec::new();
    let mut i: u8 = 0;
    while i <= ETEKCITY_PROFILE_MAX
        invariant
            i <= ETEKCITY_PROFILE_MAX + 1,
            profiles@.len() == i,
            settings@.len() == i,
        decreases ETEKCITY_PROFILE_MAX + 1 - i,
    {
        profiles.push([0u8; 50]);
        settings.push(SettingsReport::zeroed());
        i += 1;
    }
    EtekcityData { profiles, settings, speed_setting: [0u8; 6] }
}

/// Why a step of the probe fails, in words: a step that no probe is
/// waiting for is unexpected; a failure of the transport is told in its
/// own words; and a device that answered is told that its profiles cannot
/// be loaded.
pub open spec fn probe_failure(pre: EtekcityDriver, ev: DriverEventModel) -> Seq<char> {
    match ev {
        DriverEventModel::Data(reply) => if pre.probing {
            "Etekcity driver: "@ + "loading profiles is not supported"@
        } else {
            "Etekcity probe: "@ + "unexpected event"@
        },
        DriverEventModel::Failed(e) => error_text(e),
        _ => "Etekcity probe: "@ + "unexpected event"@,
    }
}

/// What a step of the probe does, given the driver before and after it,
/// the event and the action.
pub open spec fn probe_post(
    pre: EtekcityDriver,
    ev: DriverEventModel,
    post: EtekcityDriver,
    r: ActionModel,
) -> bool {
    &&& (r is Failed ==> r == ActionModel::Failed(probe_failure(pre, ev)))
    &&& (ev is Start ==> r == probe_query() && post.probing && post.data
        == pre.data)
    &&& (!(ev is Start) ==> r is Failed && !post.probing)
    &&& (!(ev is Start) && pre.probing && ev is Data ==> post.data is Some
        && post.data->0.profiles@.len() == 5)
    &&& (!(ev is Start) && !(pre.probing && ev is Data) ==> post.data
        == pre.data)
}

/// What a step of a load does, given the driver and the device state
/// before and after it, the event and the action.
pub open spec fn load_post(
    pre: EtekcityDriver,
    before: DeviceModel,
    ev: DriverEventModel,
    post: EtekcityDriver,
    after: DeviceModel,
    r: ActionModel,
) -> bool {
    &&& (r == ActionModel::Failed("Etekcity driver: "@ + "loading profiles is not supported"@))
    &&& (after == before)
    &&& (post.data == pre.data)
}

/// What a step of a commit does, given the driver before and after it,
/// the device state, the event and the action.
pub open spec fn commit_post(
    pre: EtekcityDriver,
    info: DeviceModel,
    ev: DriverEventModel,
    post: EtekcityDriver,
    r: ActionModel,
) -> bool {
    &&& (r == ActionModel::Failed("Etekcity driver: "@ + "committing is not supported"@))
    &&& (post.data == pre.data)
}

impl EtekcityDriver {
    pub fn new() -> (r: Self)
        ensures
            r.data is None,
            !r.probing,
    {
        EtekcityDriver { data: None, probing: false }
    }

    /// One step of the probe: the device is asked for its current profile.
    /// Where it answers, the driver sets up its state for five profiles;
    /// the probe fails all the same, since the driver cannot load profiles.
    pub fn probe_step(&mut self, event: DriverEvent) -> (r: DriverAction)
        ensures
            probe_post(*old(self), event@, *final(self), r@),
    {
        match event {
            DriverEvent::Start => {
                self.probing = true;
                let mut buf: Vec<u8> = Vec::new();
                buf.push(ETEKCITY_REPORT_ID_PROFILE);
                buf.push(0);
                buf.push(0);
                assert(buf@ =~= seq![ETEKCITY_REPORT_ID_PROFILE, 0u8, 0u8]);
                DriverAction::GetFeatureReport(buf)
            },
            DriverEvent::Data(_) => {
                if self.probing {
                    self.probing = false;
                    self.data = Some(blank_data());
                    DriverAction::Failed(
                        text2("Etekcity driver: ", "loading profiles is not supported"),
                    )
                } else {
                    DriverAction::Failed(text2("Etekcity probe: ", "unexpected event"))
                }
            },
            DriverEvent::Failed(e) => {
                self.probing = false;
                DriverAction::Failed(e.to_string())
            },
            _ => {
                self.probing = false;
                DriverAction::Failed(text2("Etekcity probe: ", "unexpected event"))
            },
        }
    }

    /// Loading profiles is not supported: the first step fails.
    pub fn load_step(&mut self, info: &mut DeviceInfo, event: DriverEvent) -> (r: DriverAction)
        ensures
            load_post(*old(self), old(info)@, event@, *final(self), final(info)@, r@),
            *final(info) == *old(info),
    {
        DriverAction::Failed(text2("Etekcity driver: ", "loading profiles is not supported"))
    }

    /// Committing is not supported: the first step fails.
    pub fn commit_step(&mut self, info: &DeviceInfo, event: DriverEvent) -> (r: DriverAction)
        ensures
            commit_post(*old(self), info@, event@, *final(self), r@),
    {
        DriverAction::Failed(text2("Etekcity driver: ", "committing is not supported"))
    }
}

impl DeviceDriver for EtekcityDriver {
    fn name(&self) -> (r: &'static str)
        ensures
            r@ == "Etekcity"@,
    {
        "Etekcity"
    }

    fn probe(&mut self, event: DriverEvent) -> (r: DriverAction)
        ensures
            probe_post(*old(self), event@, *final(self), r@),
    {
        self.probe_step(event)
    }

    fn load_profiles(&mut self, info: &mut DeviceInfo, event: DriverEvent) -> (r: DriverAction)
        ensures
            load_post(*old(self), old(info)@, event@, *final(self), final(info)@, r@),
    {
        self.load_step(info, event)
    }

    fn commit(&mut self, info: &DeviceInfo, event: DriverEvent) -> (r: DriverAction)
        ensures
            commit_post(*old(self), info@, event@, *final(self), r@),
    {
        self.commit_step(info, event)
    }
}

} // verus!
