//! Staging changes in the device state: what the IPC layer does to the
//! state when a client changes a setting. Every change of a profile marks
//! the profile dirty; the next commit writes the dirty profiles, and a
//! commit that succeeded clears the marks.

use vstd::prelude::*;
use crate::device::{
    ActionType, ButtonInfo, ButtonModel, Color, DeviceInfo, DeviceModel, Dpi, LedInfo, LedMode,
    LedModel, ProfileInfo, ProfileModel, ResolutionInfo, ResolutionModel, buttons_view, count_where,
    leds_view, lemma_count_where_single, resolutions_view,
};
use crate::text::{decimal, push_decimal, push_str, string_of};

verus! {

/// The value of a mapping as a client sends it.
#[derive(Debug, Clone)]
pub enum MappingValue {
    /// A number: a button, a special action or a key code.
    Number(u32),
    /// The events of a macro: key code and direction.
    Events(Vec<(u32, u32)>),
    /// Anything else.
    Other,
}

/// The value of a resolution as a client sends it.
#[derive(Debug, Clone, Copy, PartialEq, Eq, Structural)]
pub enum ResolutionValue {
    /// One value for both axes.
    Single(u32),
    /// One value for each axis.
    Pair(u32, u32),
    /// Anything else.
    Other,
}

impl ProfileInfo {
    pub fn set_name(&mut self, name: String)
        ensures
            final(self)@ == (ProfileModel { name: name@, is_dirty: true, ..old(self)@ }),
    {
        self.name = name;
        self.is_dirty = true;
    }

    pub fn set_disabled(&mut self, disabled: bool)
        ensures
            final(self)@ == (ProfileModel { is_enabled: !disabled, is_dirty: true, ..old(self)@ }),
    {
        self.is_enabled = !disabled;
        self.is_dirty = true;
    }

    pub fn set_angle_snapping(&mut self, value: i32)
        ensures
            final(self)@ == (ProfileModel { angle_snapping: value, is_dirty: true, ..old(self)@ }),
    {
        self.angle_snapping = value;
        self.is_dirty = true;
    }

    pub fn set_debounce(&mut self, value: i32)
        ensures
            final(self)@ == (ProfileModel { debounce: value, is_dirty: true, ..old(self)@ }),
    {
        self.debounce = value;
        self.is_dirty = true;
    }

    pub fn set_report_rate(&mut self, rate: u32)
        ensures
            final(self)@ == (ProfileModel { report_rate: rate, is_dirty: true, ..old(self)@ }),
    {
        self.report_rate = rate;
        self.is_dirty = true;
    }

    /// Makes the resolution at position `j` the default one, and no other.
    /// A position that the profile does not have changes nothing.
    pub fn set_default_resolution(&mut self, j: usize)
        ensures
            j >= old(self)@.resolutions.len() ==> final(self)@ == old(self)@,
            j < old(self)@.resolutions.len() ==> final(self)@ == (ProfileModel {
                is_dirty: true,
                resolutions: Seq::new(
                    old(self)@.resolutions.len(),
                    |k: int| ResolutionModel { is_default: k == j, ..old(self)@.resolutions[k] },
                ),
                ..old(self)@
            }),
    {
        if j >= self.resolutions.len() {
            return ;
        }
        let ghost want = Seq::new(
            old(self)@.resolutions.len(),
            |k: int| ResolutionModel { is_default: k == j, ..old(self)@.resolutions[k] },
        );
        let mut k: usize = 0;
        while k < self.resolutions.len()
            invariant
                k <= self.resolutions@.len(),
                self.resolutions@.len() == old(self).resolutions@.len(),
                want == Seq::new(
                    old(self)@.resolutions.len(),
                    |k: int| ResolutionModel { is_default: k == j, ..old(self)@.resolutions[k] },
                ),
                forall|i: int| 0 <= i < k ==> (#[trigger] self.resolutions@[i])@ == want[i],
                forall|i: int|
                    k <= i < self.resolutions@.len() ==> self.resolutions@[i] == old(
                        self,
                    ).resolutions@[i],
                self.index == old(self).index,
                self.name == old(self).name,
                self.is_active == old(self).is_active,
                self.is_enabled == old(self).is_enabled,
                self.report_rate == old(self).report_rate,
                self.report_rates == old(self).report_rates,
                self.angle_snapping == old(self).angle_snapping,
                self.debounce == old(self).debounce,
                self.debounces == old(self).debounces,
                self.buttons == old(self).buttons,
                self.leds == old(self).leds,
            decreases self.resolutions@.len() - k,
        {
            assert(old(self)@.resolutions[k as int] == old(self).resolutions@[k as int]@);
            self.resolutions[k].is_default = k == j;
            k += 1;
        }
        self.is_dirty = true;
        assert(resolutions_view(self.resolutions@) =~= want);
    }
}

impl ButtonInfo {
    /// Takes a mapping from a client: the action kind by its number, and the
    /// value that belongs to the kind, the events for a macro and a number
    /// for anything else. A value of the wrong shape leaves the value of the
    /// button as it was.
    pub fn set_mapping(&mut self, action_type_raw: u32, value: MappingValue)
        ensures
            final(self)@ == button_after_mapping(old(self)@, action_type_raw, value),
    {
        self.action_type = ActionType::from_code(action_type_raw);
        match self.action_type {
            ActionType::Macro => match value {
                MappingValue::Events(e) => {
                    self.macro_entries = e;
                },
                _ => {},
            },
            _ => match value {
                MappingValue::Number(n) => {
                    self.mapping_value = n;
                },
                _ => {},
            },
        }
    }
}

impl ResolutionInfo {
    /// Takes a resolution from a client; a value of another shape changes
    /// nothing.
    pub fn set_resolution(&mut self, value: ResolutionValue)
        ensures
            final(self)@ == resolution_after_value(old(self)@, value),
    {
        match value {
            ResolutionValue::Single(v) => {
                self.dpi = Dpi::Unified(v);
            },
            ResolutionValue::Pair(x, y) => {
                self.dpi = Dpi::Separate { x, y };
            },
            ResolutionValue::Other => {},
        }
    }
}

impl LedInfo {
    pub fn set_color(&mut self, color: (u32, u32, u32))
        ensures
            final(self)@ == (LedModel {
                color: Color { red: color.0, green: color.1, blue: color.2 },
                ..old(self)@
            }),
    {
        self.color = Color { red: color.0, green: color.1, blue: color.2 };
    }

    /// Takes an LED mode from a client by its number; a number that names
    /// no mode changes nothing.
    pub fn set_mode(&mut self, mode: u32)
        ensures
            final(self)@ == led_after_mode(old(self)@, mode),
    {
        match LedMode::from_u32(mode) {
            Some(m) => {
                self.mode = m;
            },
            None => {},
        }
    }
}

/// A button after a client set its mapping: the action kind by its number,
/// and the value that belongs to the kind.
pub open spec fn button_after_mapping(b: ButtonModel, raw: u32, value: MappingValue) -> ButtonModel {
    ButtonModel {
        action_type: ActionType::spec_from_code(raw),
        mapping_value: match value {
            MappingValue::Number(n) => if ActionType::spec_from_code(raw) != ActionType::Macro {
                n
            } else {
                b.mapping_value
            },
            _ => b.mapping_value,
        },
        macro_entries: match value {
            MappingValue::Events(e) => if ActionType::spec_from_code(raw) == ActionType::Macro {
                e@
            } else {
                b.macro_entries
            },
            _ => b.macro_entries,
        },
        ..b
    }
}

/// A resolution after a client set its value.
pub open spec fn resolution_after_value(r: ResolutionModel, value: ResolutionValue) -> ResolutionModel {
    ResolutionModel {
        dpi: match value {
            ResolutionValue::Single(v) => Dpi::Unified(v),
            ResolutionValue::Pair(x, y) => Dpi::Separate { x, y },
            ResolutionValue::Other => r.dpi,
        },
        ..r
    }
}

/// An LED after a client set its mode by number.
pub open spec fn led_after_mode(l: LedModel, mode: u32) -> LedModel {
    LedModel {
        mode: match LedMode::spec_from_u32(mode) {
            Some(m) => m,
            None => l.mode,
        },
        ..l
    }
}

/// What a client changes of an LED.
#[derive(Debug, Clone, Copy, PartialEq, Eq, Structural)]
pub enum LedChange {
    /// The mode, by its number.
    Mode(u32),
    /// The color: red, green and blue.
    Color(u32, u32, u32),
    /// The second color of an effect with several colors.
    SecondaryColor(u32, u32, u32),
    /// The third color of an effect with three colors.
    TertiaryColor(u32, u32, u32),
    /// The duration of the effect in milliseconds.
    EffectDuration(u32),
    Brightness(u32),
}

/// An LED after a change.
pub open spec fn led_after_change(l: LedModel, change: LedChange) -> LedModel {
    match change {
        LedChange::Mode(m) => led_after_mode(l, m),
        LedChange::Color(r, g, b) => LedModel { color: Color { red: r, green: g, blue: b }, ..l },
        LedChange::SecondaryColor(r, g, b) => LedModel {
            secondary_color: Color { red: r, green: g, blue: b },
            ..l
        },
        LedChange::TertiaryColor(r, g, b) => LedModel {
            tertiary_color: Color { red: r, green: g, blue: b },
            ..l
        },
        LedChange::EffectDuration(d) => LedModel { effect_duration: d, ..l },
        LedChange::Brightness(b) => LedModel { brightness: b, ..l },
    }
}

/// What a client changes of a resolution.
#[derive(Debug, Clone, Copy, PartialEq, Eq, Structural)]
pub enum ResolutionChange {
    /// The DPI.
    Value(ResolutionValue),
    /// Whether the resolution is switched off.
    Disabled(bool),
}

/// A resolution after a change.
pub open spec fn resolution_after_change(r: ResolutionModel, change: ResolutionChange) -> ResolutionModel {
    match change {
        ResolutionChange::Value(v) => resolution_after_value(r, v),
        ResolutionChange::Disabled(d) => ResolutionModel { is_disabled: d, ..r },
    }
}

impl LedInfo {
    /// Takes a change from a client.
    pub fn apply(&mut self, change: LedChange)
        ensures
            final(self)@ == led_after_change(old(self)@, change),
    {
        match change {
            LedChange::Mode(m) => self.set_mode(m),
            LedChange::Color(r, g, b) => self.set_color((r, g, b)),
            LedChange::SecondaryColor(r, g, b) => {
                self.secondary_color = Color { red: r, green: g, blue: b };
            },
            LedChange::TertiaryColor(r, g, b) => {
                self.tertiary_color = Color { red: r, green: g, blue: b };
            },
            LedChange::EffectDuration(d) => {
                self.effect_duration = d;
            },
            LedChange::Brightness(b) => {
                self.brightness = b;
            },
        }
    }
}

impl ResolutionInfo {
    /// Takes a change from a client.
    pub fn apply(&mut self, change: ResolutionChange)
        ensures
            final(self)@ == resolution_after_change(old(self)@, change),
    {
        match change {
            ResolutionChange::Value(v) => self.set_resolution(v),
            ResolutionChange::Disabled(d) => {
                self.is_disabled = d;
            },
        }
    }
}

impl ProfileInfo {
    /// Stages a mapping for the button at position `j` and marks the
    /// profile dirty. A position that the profile does not have changes
    /// nothing.
    pub fn stage_button(&mut self, j: usize, action_type_raw: u32, value: MappingValue)
        ensures
            j >= old(self)@.buttons.len() ==> final(self)@ == old(self)@,
            j < old(self)@.buttons.len() ==> final(self)@ == (ProfileModel {
                is_dirty: true,
                buttons: old(self)@.buttons.update(
                    j as int,
                    button_after_mapping(old(self)@.buttons[j as int], action_type_raw, value),
                ),
                ..old(self)@
            }),
    {
        if j >= self.buttons.len() {
            return ;
        }
        assert(old(self)@.buttons[j as int] == old(self).buttons@[j as int]@);
        self.buttons[j].set_mapping(action_type_raw, value);
        self.is_dirty = true;
        assert(buttons_view(self.buttons@) =~= old(self)@.buttons.update(
            j as int,
            button_after_mapping(old(self)@.buttons[j as int], action_type_raw, value),
        ));
    }

    /// Stages a change of the resolution at position `j` and marks the
    /// profile dirty. A position that the profile does not have changes
    /// nothing.
    pub fn stage_resolution(&mut self, j: usize, change: ResolutionChange)
        ensures
            j >= old(self)@.resolutions.len() ==> final(self)@ == old(self)@,
            j < old(self)@.resolutions.len() ==> final(self)@ == (ProfileModel {
                is_dirty: true,
                resolutions: old(self)@.resolutions.update(
                    j as int,
                    resolution_after_change(old(self)@.resolutions[j as int], change),
                ),
                ..old(self)@
            }),
    {
        if j >= self.resolutions.len() {
            return ;
        }
        assert(old(self)@.resolutions[j as int] == old(self).resolutions@[j as int]@);
        self.resolutions[j].apply(change);
        self.is_dirty = true;
        assert(resolutions_view(self.resolutions@) =~= old(self)@.resolutions.update(
            j as int,
            resolution_after_change(old(self)@.resolutions[j as int], change),
        ));
    }

    /// Stages a change of the LED at position `j` and marks the profile
    /// dirty. A position that the profile does not have changes nothing.
    pub fn stage_led(&mut self, j: usize, change: LedChange)
        ensures
            j >= old(self)@.leds.len() ==> final(self)@ == old(self)@,
            j < old(self)@.leds.len() ==> final(self)@ == (ProfileModel {
                is_dirty: true,
                leds: old(self)@.leds.update(
                    j as int,
                    led_after_change(old(self)@.leds[j as int], change),
                ),
                ..old(self)@
            }),
    {
        if j >= self.leds.len() {
            return ;
        }
        assert(old(self)@.leds[j as int] == old(self).leds@[j as int]@);
        self.leds[j].apply(change);
        self.is_dirty = true;
        assert(leds_view(self.leds@) =~= old(self)@.leds.update(
            j as int,
            led_after_change(old(self)@.leds[j as int], change),
        ));
    }

    /// Makes the resolution at position `j` the active one, and no other,
    /// and marks the profile dirty. A position that the profile does not
    /// have changes nothing.
    pub fn set_active_resolution(&mut self, j: usize)
        ensures
            j >= old(self)@.resolutions.len() ==> final(self)@ == old(self)@,
            j < old(self)@.resolutions.len() ==> final(self)@ == (ProfileModel {
                is_dirty: true,
                resolutions: Seq::new(
                    old(self)@.resolutions.len(),
                    |k: int| ResolutionModel { is_active: k == j, ..old(self)@.resolutions[k] },
                ),
                ..old(self)@
            }),
    {
        if j >= self.resolutions.len() {
            return ;
        }
        let ghost want = Seq::new(
            old(self)@.resolutions.len(),
            |k: int| ResolutionModel { is_active: k == j, ..old(self)@.resolutions[k] },
        );
        let mut k: usize = 0;
        while k < self.resolutions.len()
            invariant
                k <= self.resolutions@.len(),
                self.resolutions@.len() == old(self).resolutions@.len(),
                want == Seq::new(
                    old(self)@.resolutions.len(),
                    |k: int| ResolutionModel { is_active: k == j, ..old(self)@.resolutions[k] },
                ),
                forall|i: int| 0 <= i < k ==> (#[trigger] self.resolutions@[i])@ == want[i],
                forall|i: int|
                    k <= i < self.resolutions@.len() ==> self.resolutions@[i] == old(
                        self,
                    ).resolutions@[i],
                self.index == old(self).index,
                self.name == old(self).name,
                self.is_active == old(self).is_active,
                self.is_enabled == old(self).is_enabled,
                self.report_rate == old(self).report_rate,
                self.report_rates == old(self).report_rates,
                self.angle_snapping == old(self).angle_snapping,
                self.debounce == old(self).debounce,
                self.debounces == old(self).debounces,
                self.buttons == old(self).buttons,
                self.leds == old(self).leds,
            decreases self.resolutions@.len() - k,
        {
            assert(old(self)@.resolutions[k as int] == old(self).resolutions@[k as int]@);
            self.resolutions[k].is_active = k == j;
            k += 1;
        }
        self.is_dirty = true;
        assert(resolutions_view(self.resolutions@) =~= want);
    }
}

/// The profiles with the one at position `i` active, and no other, and
/// marked dirty.
pub open spec fn with_active_profile(ps: Seq<ProfileModel>, i: int) -> Seq<ProfileModel> {
    Seq::new(
        ps.len(),
        |k: int|
            if k == i {
                ProfileModel { is_active: true, is_dirty: true, ..ps[k] }
            } else {
                ProfileModel { is_active: false, ..ps[k] }
            },
    )
}

/// The profiles with no profile marked dirty.
pub open spec fn all_clean(ps: Seq<ProfileModel>) -> Seq<ProfileModel> {
    Seq::new(ps.len(), |k: int| ProfileModel { is_dirty: false, ..ps[k] })
}

impl DeviceInfo {
    /// Makes the profile at position `i` the active one, and no other. A
    /// position that the device does not have changes nothing.
    pub fn set_active_profile(&mut self, i: usize)
        ensures
            i >= old(self)@.profiles.len() ==> final(self)@ == old(self)@,
            i < old(self)@.profiles.len() ==> final(self)@ == (DeviceModel {
                profiles: with_active_profile(old(self)@.profiles, i as int),
                ..old(self)@
            }),
    {
        if i >= self.profiles.len() {
            return ;
        }
        let ghost want = with_active_profile(old(self)@.profiles, i as int);
        let mut k: usize = 0;
        while k < self.profiles.len()
            invariant
                k <= self.profiles@.len(),
                self.profiles@.len() == old(self).profiles@.len(),
                want == with_active_profile(old(self)@.profiles, i as int),
                forall|j: int| 0 <= j < k ==> (#[trigger] self.profiles@[j])@ == want[j],
                forall|j: int|
                    k <= j < self.profiles@.len() ==> self.profiles@[j] == old(self).profiles@[j],
                self.sysname == old(self).sysname,
                self.name == old(self).name,
                self.model == old(self).model,
                self.firmware_version == old(self).firmware_version,
                self.driver_config == old(self).driver_config,
            decreases self.profiles@.len() - k,
        {
            assert(old(self)@.profiles[k as int] == old(self).profiles@[k as int]@);
            if k == i {
                self.profiles[k].is_active = true;
                self.profiles[k].is_dirty = true;
            } else {
                self.profiles[k].is_active = false;
            }
            k += 1;
        }
        assert(self@.profiles =~= want);
    }

    /// Takes the result of a commit: one that succeeded clears the dirty
    /// marks, one that failed leaves every mark where it is, so that the
    /// next commit writes the same profiles again.
    pub fn commit_finished(&mut self, succeeded: bool)
        ensures
            succeeded ==> final(self)@ == (DeviceModel {
                profiles: all_clean(old(self)@.profiles),
                ..old(self)@
            }),
            !succeeded ==> final(self)@ == old(self)@,
    {
        if succeeded {
            self.mark_committed();
        }
    }

    /// Clears the dirty marks after a commit that succeeded.
    pub fn mark_committed(&mut self)
        ensures
            final(self)@ == (DeviceModel { profiles: all_clean(old(self)@.profiles), ..old(self)@ }),
    {
        let ghost want = all_clean(old(self)@.profiles);
        let mut k: usize = 0;
        while k < self.profiles.len()
            invariant
                k <= self.profiles@.len(),
                self.profiles@.len() == old(self).profiles@.len(),
                want == all_clean(old(self)@.profiles),
                forall|j: int| 0 <= j < k ==> (#[trigger] self.profiles@[j])@ == want[j],
                forall|j: int|
                    k <= j < self.profiles@.len() ==> self.profiles@[j] == old(self).profiles@[j],
                self.sysname == old(self).sysname,
                self.name == old(self).name,
                self.model == old(self).model,
                self.firmware_version == old(self).firmware_version,
                self.driver_config == old(self).driver_config,
            decreases self.profiles@.len() - k,
        {
            assert(old(self)@.profiles[k as int] == old(self).profiles@[k as int]@);
            self.profiles[k].is_dirty = false;
            k += 1;
        }
        assert(self@.profiles =~= want);
    }
}

/// After a profile was made the active one, exactly that profile is
/// active: at most one profile is active at any time.
pub proof fn lemma_active_profile_unique(ps: Seq<ProfileModel>, i: int)
    requires
        0 <= i < ps.len(),
    ensures
        count_where(with_active_profile(ps, i), |p: ProfileModel| p.is_active) == 1,
        forall|k: int|
            0 <= k < ps.len() ==> ((#[trigger] with_active_profile(ps, i)[k]).is_active <==> k
                == i),
{
    lemma_count_where_single(with_active_profile(ps, i), |p: ProfileModel| p.is_active, i);
}

/// After a resolution was made the default one, exactly that resolution is
/// the default of its profile.
pub proof fn lemma_default_resolution_unique(rs: Seq<ResolutionModel>, j: int)
    requires
        0 <= j < rs.len(),
    ensures
        count_where(
            Seq::new(rs.len(), |k: int| ResolutionModel { is_default: k == j, ..rs[k] }),
            |r: ResolutionModel| r.is_default,
        ) == 1,
{
    lemma_count_where_single(
        Seq::new(rs.len(), |k: int| ResolutionModel { is_default: k == j, ..rs[k] }),
        |r: ResolutionModel| r.is_default,
        j,
    );
}

/// Making a profile the active one keeps what holds of every device state:
/// at most one profile is active, each profile has at most one default
/// resolution, and no index changes.
pub proof fn lemma_active_profile_keeps_state(d: DeviceModel, i: int)
    requires
        0 <= i < d.profiles.len(),
        d.selection_unique(),
    ensures
        (DeviceModel { profiles: with_active_profile(d.profiles, i), ..d }).selection_unique(),
        d.indexed() ==> (DeviceModel {
            profiles: with_active_profile(d.profiles, i),
            ..d
        }).indexed(),
{
    lemma_active_profile_unique(d.profiles, i);
    let after = with_active_profile(d.profiles, i);
    assert forall|k: int| 0 <= k < after.len() implies count_where(
        (#[trigger] after[k]).resolutions,
        |r: ResolutionModel| r.is_default,
    ) <= 1 by {
        assert(after[k].resolutions == d.profiles[k].resolutions);
    }
    if d.indexed() {
        assert forall|k: int| 0 <= k < after.len() implies (#[trigger] after[k]).index == k
            && after[k].indexed() by {
            assert(d.profiles[k].index == k && d.profiles[k].indexed());
        }
    }
}

/// The object path of a profile: the path of its device, `/p` and the
/// index of the profile.
pub open spec fn profile_path_of(device_path: Seq<char>, profile: u32) -> Seq<char> {
    device_path + "/p"@ + decimal(profile as nat)
}

/// The object path of a child of a profile: the path of the profile, a
/// slash, the letter of the kind of the child (`r` for a resolution, `b` for
/// a button, `l` for an LED) and the index of the child.
pub open spec fn child_path_of(device_path: Seq<char>, profile: u32, kind: char, index: u32) -> Seq<
    char,
> {
    profile_path_of(device_path, profile) + seq!['/', kind] + decimal(index as nat)
}

pub fn profile_path(device_path: &str, profile: u32) -> (r: String)
    ensures
        r@ == profile_path_of(device_path@, profile),
{
    let mut v: Vec<char> = Vec::new();
    push_str(&mut v, device_path);
    push_str(&mut v, "/p");
    push_decimal(&mut v, profile as u64);
    string_of(&v)
}

pub fn child_path(device_path: &str, profile: u32, kind: char, index: u32) -> (r: String)
    ensures
        r@ == child_path_of(device_path@, profile, kind, index),
{
    let mut v: Vec<char> = Vec::new();
    push_str(&mut v, device_path);
    push_str(&mut v, "/p");
    push_decimal(&mut v, profile as u64);
    v.push('/');
    v.push(kind);
    push_decimal(&mut v, index as u64);
    assert(v@ =~= child_path_of(device_path@, profile, kind, index));
    string_of(&v)
}

} // verus!
