//! The layout of a profile sector in the onboard memory of a HID++ 2.0
//! device, and how a profile is read from it and written to it.
//!
//! Byte 0 holds the report interval in milliseconds, byte 1 the index of the
//! default resolution, bytes 3 to 12 five DPI values of 16 bits, low byte
//! first, and from byte 32 on each button has a binding of four bytes. The
//! last two bytes hold the checksum.

use vstd::prelude::*;
use crate::device::{
    ButtonModel, Dpi, ProfileInfo, ProfileModel, ResolutionInfo, ResolutionModel, buttons_view,
    resolutions_view,
};
use crate::driver::hidpp::{be16, hi8, lo8, seal_sector, u16_from_be, u16_hi, u16_lo, with_crc};
use crate::driver::hidpp20::{
    binding_of_action, interval_from_rate, interval_of_rate, low16, rate_from_interval,
    rate_of_interval, take_bytes, BindingModel, Hidpp20ButtonBinding,
};

verus! {

/// How many DPI values a profile sector holds.
pub const SECTOR_DPI_SLOTS: usize = 5;

/// Where the button bindings start in a profile sector.
pub const SECTOR_BUTTONS_OFFSET: usize = 32;

/// How many buttons a profile sector has bindings for, at most.
pub const SECTOR_MAX_BUTTONS: usize = 16;

/// The DPI values that a profile sector holds in the slots from `d` on: a
/// slot that lies outside the sector, or holds 0 or `0xFFFF`, is empty.
pub open spec fn sector_dpis(data: Seq<u8>, d: int) -> Seq<u32>
    decreases 5 - d,
{
    if d < 0 || d >= 5 {
        Seq::empty()
    } else {
        let off = 3 + 2 * d;
        let rest = sector_dpis(data, d + 1);
        if off + 2 <= data.len() && 0 < be16(data[off + 1], data[off]) < 0xFFFF {
            seq![be16(data[off + 1], data[off]) as u32] + rest
        } else {
            rest
        }
    }
}

/// The index of the default resolution that a profile sector names.
pub open spec fn sector_default_index(data: Seq<u8>) -> int {
    if data.len() > 1 {
        data[1] as int
    } else {
        0
    }
}

/// The resolution at position `j` of a profile that was read from a sector.
pub open spec fn sector_resolution(j: int, dpi: u32, default_index: int) -> ResolutionModel {
    ResolutionModel {
        index: j as u32,
        dpi: Dpi::Unified(dpi),
        dpi_list: Seq::empty(),
        capabilities: Seq::empty(),
        is_active: j == default_index,
        is_default: j == default_index,
        is_disabled: false,
    }
}

/// The number of buttons whose bindings are read and written: the number
/// that the device states, at most sixteen.
pub open spec fn sector_buttons(button_count: int) -> int {
    if button_count < 16 {
        button_count
    } else {
        16
    }
}

/// The binding of button `j` in a profile sector, where the sector holds
/// it.
pub open spec fn sector_binding(data: Seq<u8>, j: int) -> Option<BindingModel> {
    let off = 32 + 4 * j;
    if 0 <= j && off + 4 <= data.len() {
        Some(BindingModel { button_type: data[off], subtype: data[off + 1], id: data.subrange(off + 2, off + 4) })
    } else {
        None
    }
}

/// The button at position `j` after a profile sector was read.
pub open spec fn button_after_sector(b: ButtonModel, data: Seq<u8>, j: int, button_count: int) -> ButtonModel {
    if j < sector_buttons(button_count) {
        match sector_binding(data, j) {
            Some(binding) => ButtonModel {
                action_type: binding.action(),
                mapping_value: binding.value(),
                ..b
            },
            None => b,
        }
    } else {
        b
    }
}

/// The profile after its sector was read from the device. The sector gives
/// the report rate where its interval is not 0, the resolutions where it
/// holds at least one DPI value, and the action of each button whose binding
/// it holds. Everything else stays as it was.
pub open spec fn profile_after_sector(
    p: ProfileModel,
    data: Seq<u8>,
    enabled: bool,
    button_count: int,
) -> ProfileModel {
    let dpis = sector_dpis(data, 0);
    ProfileModel {
        is_enabled: enabled,
        report_rate: if data.len() > 0 && rate_of_interval(data[0]) is Some {
            rate_of_interval(data[0])->0
        } else {
            p.report_rate
        },
        resolutions: if dpis.len() > 0 {
            Seq::new(dpis.len(), |j: int| sector_resolution(j, dpis[j], sector_default_index(data)))
        } else {
            p.resolutions
        },
        buttons: Seq::new(
            p.buttons.len(),
            |j: int| button_after_sector(p.buttons[j], data, j, button_count),
        ),
        ..p
    }
}

fn read_sector_dpis(data: &[u8]) -> (r: Vec<u32>)
    ensures
        r@ == sector_dpis(data@, 0),
        r@.len() <= 5,
{
    let mut out: Vec<u32> = Vec::new();
    let mut d: usize = 0;
    while d < 5
        invariant
            d <= 5,
            out@.len() <= d,
            sector_dpis(data@, 0) == out@ + sector_dpis(data@, d as int),
        decreases 5 - d,
    {
        let off = 3 + 2 * d;
        let ghost before = out@;
        if off + 2 <= data.len() {
            let raw = u16_from_be(data[off + 1], data[off]);
            if raw > 0 && raw < 0xFFFF {
                out.push(raw as u32);
                assert(out@ + sector_dpis(data@, d + 1) =~= before + sector_dpis(data@, d as int));
            }
        }
        d += 1;
    }
    assert(out@ + Seq::<u32>::empty() =~= out@);
    out
}

/// Takes a profile sector as read from the device.
pub fn apply_profile_sector(p: &mut ProfileInfo, data: &[u8], enabled: bool, button_count: usize)
    ensures
        final(p)@ == profile_after_sector(old(p)@, data@, enabled, button_count as int),
{
    p.is_enabled = enabled;
    if data.len() > 0 {
        match rate_from_interval(data[0]) {
            Some(hz) => {
                p.report_rate = hz;
            },
            None => {},
        }
    }
    let dpis = read_sector_dpis(data);
    let default_index: usize = if data.len() > 1 {
        data[1] as usize
    } else {
        0
    };
    if dpis.len() > 0 {
        let mut res: Vec<ResolutionInfo> = Vec::new();
        let mut j: usize = 0;
        while j < dpis.len()
            invariant
                j <= dpis@.len() <= 5,
                res@.len() == j,
                default_index == sector_default_index(data@),
                forall|k: int|
                    0 <= k < j ==> (#[trigger] res@[k])@ == sector_resolution(
                        k,
                        dpis@[k],
                        default_index as int,
                    ),
            decreases dpis@.len() - j,
        {
            res.push(
                ResolutionInfo {
                    index: j as u32,
                    dpi: Dpi::Unified(dpis[j]),
                    dpi_list: Vec::new(),
                    capabilities: Vec::new(),
                    is_active: j == default_index,
                    is_default: j == default_index,
                    is_disabled: false,
                },
            );
            j += 1;
        }
        p.resolutions = res;
    }
    let max_buttons: usize = if button_count < 16 {
        button_count
    } else {
        16
    };
    let mut b: usize = 0;
    while b < max_buttons && b < p.buttons.len()
        invariant
            b <= max_buttons <= 16,
            max_buttons == sector_buttons(button_count as int),
            p.buttons@.len() == old(p).buttons@.len(),
            forall|k: int|
                0 <= k < b && k < p.buttons@.len() ==> (#[trigger] p.buttons@[k])@
                    == button_after_sector(old(p).buttons@[k]@, data@, k, button_count as int),
            forall|k: int| b <= k < p.buttons@.len() ==> p.buttons@[k] == old(p).buttons@[k],
            p.index == old(p).index,
            p.name == old(p).name,
            p.is_active == old(p).is_active,
            p.is_dirty == old(p).is_dirty,
            p.report_rates == old(p).report_rates,
            p.angle_snapping == old(p).angle_snapping,
            p.debounce == old(p).debounce,
            p.debounces == old(p).debounces,
            p.leds == old(p).leds,
            p.is_enabled == enabled,
            p.report_rate == profile_after_sector(
                old(p)@,
                data@,
                enabled,
                button_count as int,
            ).report_rate,
            resolutions_view(p.resolutions@) == profile_after_sector(
                old(p)@,
                data@,
                enabled,
                button_count as int,
            ).resolutions,
        decreases max_buttons - b,
    {
        let off = 32 + 4 * b;
        if off + 4 <= data.len() {
            let raw: [u8; 4] = take_bytes::<4>(data, off);
            let binding = Hidpp20ButtonBinding::from_bytes(&raw);
            proof {
                let m = sector_binding(data@, b as int)->0;
                assert(binding@.bytes() == raw@);
                assert(binding@.id =~= m.id) by {
                    assert(binding@.bytes()[2] == binding@.id[0]);
                    assert(binding@.bytes()[3] == binding@.id[1]);
                }
                assert(binding@.bytes()[0] == binding@.button_type);
                assert(binding@.bytes()[1] == binding@.subtype);
                assert(binding@ == m);
            }
            let action = binding.to_action();
            let value = binding.mapping_value();
            p.buttons[b].action_type = action;
            p.buttons[b].mapping_value = value;
        }
        b += 1;
    }
    proof {
        let want = profile_after_sector(old(p)@, data@, enabled, button_count as int);
        assert(buttons_view(p.buttons@) =~= want.buttons) by {
            assert forall|k: int| 0 <= k < p.buttons@.len() implies buttons_view(p.buttons@)[k]
                == want.buttons[k] by {
                if k >= b {
                    assert(p.buttons@[k] == old(p).buttons@[k]);
                }
            }
        }
    }
}

// ---------------------------------------------------------------------------
// Writing a profile into its sector
// ---------------------------------------------------------------------------

/// The sector with the report interval of the profile, where the profile
/// has a report rate.
pub open spec fn patch_rate(data: Seq<u8>, rate: u32) -> Seq<u8> {
    if rate > 0 && data.len() > 0 {
        data.update(0, interval_of_rate(rate))
    } else {
        data
    }
}

/// The position of the first default resolution from `j` on, or the number
/// of resolutions.
pub open spec fn first_default(res: Seq<ResolutionModel>, j: int) -> int
    decreases res.len() - j,
{
    if 0 <= j < res.len() && !res[j].is_default {
        first_default(res, j + 1)
    } else {
        j
    }
}

/// The sector with the index of the default resolution, where there is one.
pub open spec fn patch_default(data: Seq<u8>, res: Seq<ResolutionModel>) -> Seq<u8> {
    let j = first_default(res, 0);
    if j < res.len() && data.len() > 1 {
        data.update(1, (j % 256) as u8)
    } else {
        data
    }
}

/// The sector with the DPI values of the resolutions from `i` on, of the
/// first five: each unified value in its slot, low byte first.
pub open spec fn patch_dpis(data: Seq<u8>, res: Seq<ResolutionModel>, i: int) -> Seq<u8>
    decreases 5 - i,
{
    if i < 0 || i >= 5 || i >= res.len() {
        data
    } else {
        let next = match res[i].dpi {
            Dpi::Unified(v) => if 3 + 2 * i + 1 < data.len() {
                data.update(3 + 2 * i, lo8(low16(v))).update(3 + 2 * i + 1, hi8(low16(v)))
            } else {
                data
            },
            _ => data,
        };
        patch_dpis(next, res, i + 1)
    }
}

/// The sector with the binding of one button, where the button's index is
/// below `max` and the sector holds its binding.
pub open spec fn patch_button(data: Seq<u8>, b: ButtonModel, max: int) -> Seq<u8> {
    let off = 32 + 4 * b.index;
    if b.index < max && off + 4 <= data.len() {
        let bytes = binding_of_action(b.action_type, b.mapping_value).bytes();
        data.update(off, bytes[0]).update(off + 1, bytes[1]).update(off + 2, bytes[2]).update(
            off + 3,
            bytes[3],
        )
    } else {
        data
    }
}

/// The sector with the bindings of the buttons from `i` on.
pub open spec fn patch_buttons(data: Seq<u8>, buttons: Seq<ButtonModel>, max: int, i: int) -> Seq<u8>
    decreases buttons.len() - i,
{
    if i < 0 || i >= buttons.len() {
        data
    } else {
        patch_buttons(patch_button(data, buttons[i], max), buttons, max, i + 1)
    }
}

/// The sector with a fresh checksum in its last two bytes.
pub open spec fn sealed(data: Seq<u8>) -> Seq<u8> {
    if data.len() >= 2 {
        with_crc(data.subrange(0, data.len() - 2))
    } else {
        data
    }
}

/// The sector that holds a profile: the bytes that were there, with the
/// fields that the driver manages taken from the profile, and a fresh
/// checksum.
pub open spec fn sector_after_patch(data: Seq<u8>, p: ProfileModel, button_count: int) -> Seq<u8> {
    sealed(
        patch_buttons(
            patch_dpis(patch_default(patch_rate(data, p.report_rate), p.resolutions), p.resolutions, 0),
            p.buttons,
            sector_buttons(button_count),
            0,
        ),
    )
}

pub proof fn lemma_patch_keeps_length(data: Seq<u8>, p: ProfileModel, button_count: int)
    ensures
        sector_after_patch(data, p, button_count).len() == data.len(),
        patch_rate(data, p.report_rate).len() == data.len(),
        patch_default(data, p.resolutions).len() == data.len(),
{
    let a = patch_default(patch_rate(data, p.report_rate), p.resolutions);
    lemma_patch_dpis_length(a, p.resolutions, 0);
    let b = patch_dpis(a, p.resolutions, 0);
    lemma_patch_buttons_length(b, p.buttons, sector_buttons(button_count), 0);
}

pub proof fn lemma_patch_dpis_length(data: Seq<u8>, res: Seq<ResolutionModel>, i: int)
    ensures
        patch_dpis(data, res, i).len() == data.len(),
    decreases 5 - i,
{
    if !(i < 0 || i >= 5 || i >= res.len()) {
        let next = match res[i].dpi {
            Dpi::Unified(v) => if 3 + 2 * i + 1 < data.len() {
                data.update(3 + 2 * i, lo8(low16(v))).update(3 + 2 * i + 1, hi8(low16(v)))
            } else {
                data
            },
            _ => data,
        };
        lemma_patch_dpis_length(next, res, i + 1);
    }
}

pub proof fn lemma_patch_buttons_length(data: Seq<u8>, buttons: Seq<ButtonModel>, max: int, i: int)
    ensures
        patch_buttons(data, buttons, max, i).len() == data.len(),
    decreases buttons.len() - i,
{
    if !(i < 0 || i >= buttons.len()) {
        lemma_patch_buttons_length(patch_button(data, buttons[i], max), buttons, max, i + 1);
    }
}

/// Writes the fields of a profile that the driver manages into the bytes of
/// its sector and renews the checksum.
pub fn patch_profile_sector(data: &mut Vec<u8>, p: &ProfileInfo, button_count: usize)
    ensures
        final(data)@ == sector_after_patch(old(data)@, p@, button_count as int),
        final(data)@.len() == old(data)@.len(),
{
    let n = data.len();
    if p.report_rate > 0 && n > 0 {
        data[0] = interval_from_rate(p.report_rate);
    }
    let ghost d1 = data@;
    assert(d1 == patch_rate(old(data)@, p@.report_rate));

    let mut j: usize = 0;
    while j < p.resolutions.len() && !p.resolutions[j].is_default
        invariant
            j <= p.resolutions@.len(),
            first_default(p@.resolutions, 0) == first_default(p@.resolutions, j as int),
        decreases p.resolutions@.len() - j,
    {
        assert(p@.resolutions[j as int] == p.resolutions@[j as int]@);
        j += 1;
    }
    proof {
        if j < p.resolutions@.len() {
            assert(p@.resolutions[j as int] == p.resolutions@[j as int]@);
        }
    }
    if j < p.resolutions.len() && n > 1 {
        data[1] = (j % 256) as u8;
    }
    let ghost d2 = data@;
    assert(d2 == patch_default(d1, p@.resolutions));

    let mut i: usize = 0;
    while i < 5 && i < p.resolutions.len()
        invariant
            i <= 5,
            data@.len() == n,
            patch_dpis(d2, p@.resolutions, 0) == patch_dpis(data@, p@.resolutions, i as int),
        decreases 5 - i,
    {
        assert(p@.resolutions[i as int] == p.resolutions@[i as int]@);
        match p.resolutions[i].dpi {
            Dpi::Unified(v) => {
                if 3 + 2 * i + 1 < n {
                    let w: u16 = (v % 0x1_0000) as u16;
                    data[3 + 2 * i] = u16_lo(w);
                    data[3 + 2 * i + 1] = u16_hi(w);
                }
            },
            _ => {},
        }
        i += 1;
    }
    let ghost d3 = data@;
    assert(d3 == patch_dpis(d2, p@.resolutions, 0));

    let max: usize = if button_count < 16 {
        button_count
    } else {
        16
    };
    let mut k: usize = 0;
    while k < p.buttons.len()
        invariant
            k <= p.buttons@.len(),
            data@.len() == n,
            max == sector_buttons(button_count as int),
            max <= 16,
            patch_buttons(d3, p@.buttons, max as int, 0) == patch_buttons(
                data@,
                p@.buttons,
                max as int,
                k as int,
            ),
        decreases p.buttons@.len() - k,
    {
        let btn = &p.buttons[k];
        assert(p@.buttons[k as int] == btn@);
        if (btn.index as usize) < max {
            let off = 32 + 4 * (btn.index as usize);
            if off + 4 <= n {
                let bytes = Hidpp20ButtonBinding::from_action(
                    btn.action_type,
                    btn.mapping_value,
                ).into_bytes();
                data[off] = bytes[0];
                data[off + 1] = bytes[1];
                data[off + 2] = bytes[2];
                data[off + 3] = bytes[3];
            }
        }
        k += 1;
    }
    let ghost d4 = data@;
    assert(d4 == patch_buttons(d3, p@.buttons, max as int, 0));
    if n >= 2 {
        seal_sector(data);
    }
}

/// The DPI values of up to five resolutions that lie between 1 and
/// `0xFFFE` are read back from the sector as they were written.
pub proof fn lemma_sector_keeps_dpi(data: Seq<u8>, p: ProfileModel, button_count: int, i: int)
    requires
        data.len() >= 34,
        0 <= i < p.resolutions.len(),
        i < 5,
        p.resolutions[i].dpi is Unified,
    ensures
        ({
            let s = sector_after_patch(data, p, button_count);
            be16(s[3 + 2 * i + 1], s[3 + 2 * i]) == low16(p.resolutions[i].dpi->Unified_0)
        }),
{
    let a = patch_default(patch_rate(data, p.report_rate), p.resolutions);
    let b = patch_dpis(a, p.resolutions, 0);
    lemma_patch_dpis_length(a, p.resolutions, 0);
    lemma_patch_dpis_slot(a, p.resolutions, 0, i);
    let c = patch_buttons(b, p.buttons, sector_buttons(button_count), 0);
    lemma_patch_buttons_length(b, p.buttons, sector_buttons(button_count), 0);
    lemma_patch_buttons_keep_head(b, p.buttons, sector_buttons(button_count), 0, 3 + 2 * i);
    lemma_patch_buttons_keep_head(b, p.buttons, sector_buttons(button_count), 0, 3 + 2 * i + 1);
    let s = sealed(c);
    assert(s[3 + 2 * i] == c[3 + 2 * i]);
    assert(s[3 + 2 * i + 1] == c[3 + 2 * i + 1]);
    let w = low16(p.resolutions[i].dpi->Unified_0);
    crate::driver::hidpp::lemma_be16_round_trip(w, 0, 0);
}

proof fn lemma_patch_dpis_slot(data: Seq<u8>, res: Seq<ResolutionModel>, from: int, i: int)
    requires
        0 <= from <= i < res.len(),
        i < 5,
        data.len() >= 13,
        res[i].dpi is Unified,
    ensures
        patch_dpis(data, res, from)[3 + 2 * i] == lo8(low16(res[i].dpi->Unified_0)),
        patch_dpis(data, res, from)[3 + 2 * i + 1] == hi8(low16(res[i].dpi->Unified_0)),
    decreases 5 - from,
{
    let next = match res[from].dpi {
        Dpi::Unified(v) => if 3 + 2 * from + 1 < data.len() {
            data.update(3 + 2 * from, lo8(low16(v))).update(3 + 2 * from + 1, hi8(low16(v)))
        } else {
            data
        },
        _ => data,
    };
    if from < i {
        lemma_patch_dpis_slot(next, res, from + 1, i);
    } else {
        lemma_patch_dpis_keep(next, res, from + 1, 3 + 2 * i);
        lemma_patch_dpis_keep(next, res, from + 1, 3 + 2 * i + 1);
    }
}

proof fn lemma_patch_dpis_keep(data: Seq<u8>, res: Seq<ResolutionModel>, from: int, k: int)
    requires
        0 <= from,
        0 <= k < 3 + 2 * from,
        k < data.len(),
    ensures
        patch_dpis(data, res, from).len() == data.len(),
        patch_dpis(data, res, from)[k] == data[k],
    decreases 5 - from,
{
    lemma_patch_dpis_length(data, res, from);
    if !(from >= 5 || from >= res.len()) {
        let next = match res[from].dpi {
            Dpi::Unified(v) => if 3 + 2 * from + 1 < data.len() {
                data.update(3 + 2 * from, lo8(low16(v))).update(3 + 2 * from + 1, hi8(low16(v)))
            } else {
                data
            },
            _ => data,
        };
        lemma_patch_dpis_keep(next, res, from + 1, k);
    }
}

proof fn lemma_patch_buttons_keep_head(
    data: Seq<u8>,
    buttons: Seq<ButtonModel>,
    max: int,
    from: int,
    k: int,
)
    requires
        0 <= from,
        0 <= k < 32,
        k < data.len(),
    ensures
        patch_buttons(data, buttons, max, from).len() == data.len(),
        patch_buttons(data, buttons, max, from)[k] == data[k],
    decreases buttons.len() - from,
{
    lemma_patch_buttons_length(data, buttons, max, from);
    if from < buttons.len() {
        lemma_patch_buttons_keep_head(patch_button(data, buttons[from], max), buttons, max, from + 1, k);
    }
}

} // verus!
