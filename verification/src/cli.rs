//! What the command-line client computes: the names of the values that the
//! daemon shows, and the reading of what the user types.

use vstd::prelude::*;
use crate::text::{
    all_digits, ascii_lowered, chars_of, decimal, digit_value, digits_value,
    eq_ignore_ascii_case, find_char, find_from, lemma_digits_value_prefix, parse_number,
    parse_unsigned, push_decimal, push_str, string_of,
};

verus! {

/// The name of an action kind.
pub open spec fn name_of_action_type(t: u32) -> Seq<char> {
    match t {
        0 => "none"@,
        1 => "button"@,
        2 => "special"@,
        3 => "key"@,
        4 => "macro"@,
        _ => "unknown"@,
    }
}

pub fn action_type_name(t: u32) -> (r: &'static str)
    ensures
        r@ == name_of_action_type(t),
{
    match t {
        0 => "none",
        1 => "button",
        2 => "special",
        3 => "key",
        4 => "macro",
        _ => "unknown",
    }
}

/// The name of an LED mode.
pub open spec fn name_of_led_mode(m: u32) -> Seq<char> {
    match m {
        0 => "off"@,
        1 => "solid"@,
        3 => "cycle"@,
        4 => "wave"@,
        5 => "starlight"@,
        10 => "breathing"@,
        32 => "tricolor"@,
        _ => "unknown"@,
    }
}

pub fn led_mode_name(m: u32) -> (r: &'static str)
    ensures
        r@ == name_of_led_mode(m),
{
    match m {
        0 => "off",
        1 => "solid",
        3 => "cycle",
        4 => "wave",
        5 => "starlight",
        10 => "breathing",
        32 => "tricolor",
        _ => "unknown",
    }
}

/// The name of a color depth.
pub open spec fn name_of_color_depth(d: u32) -> Seq<char> {
    match d {
        0 => "monochrome"@,
        1 => "rgb"@,
        _ => "unknown"@,
    }
}

pub fn color_depth_name(d: u32) -> (r: &'static str)
    ensures
        r@ == name_of_color_depth(d),
{
    match d {
        0 => "monochrome",
        1 => "rgb",
        _ => "unknown",
    }
}

/// The LED mode that a word stands for, whatever the case of its letters.
pub open spec fn led_mode_of_word(s: Seq<char>) -> Option<u32> {
    let l = ascii_lowered(s);
    if l == ascii_lowered("off"@) {
        Some(0u32)
    } else if l == ascii_lowered("solid"@) {
        Some(1u32)
    } else if l == ascii_lowered("cycle"@) {
        Some(3u32)
    } else if l == ascii_lowered("wave"@) || l == ascii_lowered("colorwave"@) || l == ascii_lowered(
        "color-wave"@,
    ) {
        Some(4u32)
    } else if l == ascii_lowered("starlight"@) {
        Some(5u32)
    } else if l == ascii_lowered("breathing"@) || l == ascii_lowered("breathe"@) {
        Some(10u32)
    } else if l == ascii_lowered("tricolor"@) || l == ascii_lowered("tri-color"@) {
        Some(32u32)
    } else {
        None
    }
}

/// Reads the name of an LED mode.
pub fn parse_led_mode(s: &str) -> (r: Result<u32, String>)
    ensures
        match led_mode_of_word(s@) {
            Some(m) => r == Ok::<u32, String>(m),
            None => r is Err,
        },
{
    let v = chars_of(s);
    if eq_ignore_ascii_case(&v, "off") {
        Ok(0)
    } else if eq_ignore_ascii_case(&v, "solid") {
        Ok(1)
    } else if eq_ignore_ascii_case(&v, "cycle") {
        Ok(3)
    } else if eq_ignore_ascii_case(&v, "wave") || eq_ignore_ascii_case(&v, "colorwave")
        || eq_ignore_ascii_case(&v, "color-wave") {
        Ok(4)
    } else if eq_ignore_ascii_case(&v, "starlight") {
        Ok(5)
    } else if eq_ignore_ascii_case(&v, "breathing") || eq_ignore_ascii_case(&v, "breathe") {
        Ok(10)
    } else if eq_ignore_ascii_case(&v, "tricolor") || eq_ignore_ascii_case(&v, "tri-color") {
        Ok(32)
    } else {
        let mut m: Vec<char> = Vec::new();
        push_str(&mut m, "Unknown LED mode '");
        push_str(&mut m, s);
        push_str(
            &mut m,
            "'. Use: off, solid, cycle, wave, starlight, breathing, tricolor",
        );
        Err(string_of(&m))
    }
}

/// The color that six hexadecimal digits stand for, with or without a
/// leading `#`: two digits each for red, green and blue.
pub open spec fn hex_color_of(s: Seq<char>) -> Option<(u32, u32, u32)> {
    let body = if s.len() > 0 && s[0] == '#' {
        s.subrange(1, s.len() as int)
    } else {
        s
    };
    if body.len() == 6 {
        match (
            parse_unsigned(body.subrange(0, 2), 16, 0xffff_ffff),
            parse_unsigned(body.subrange(2, 4), 16, 0xffff_ffff),
            parse_unsigned(body.subrange(4, 6), 16, 0xffff_ffff),
        ) {
            (Some(r), Some(g), Some(b)) => Some((r as u32, g as u32, b as u32)),
            _ => None,
        }
    } else {
        None
    }
}

/// Reads a color such as `ff0000` or `#ff0000`.
pub fn parse_hex_color(s: &str) -> (r: Result<(u32, u32, u32), String>)
    ensures
        match hex_color_of(s@) {
            Some(c) => r == Ok::<(u32, u32, u32), String>(c),
            None => r is Err,
        },
{
    let v = chars_of(s);
    let start: usize = if v.len() > 0 && v[0] == '#' {
        1
    } else {
        0
    };
    let ghost body = v@.subrange(start as int, v@.len() as int);
    assert(body =~= (if s@.len() > 0 && s@[0] == '#' {
        s@.subrange(1, s@.len() as int)
    } else {
        s@
    }));
    if v.len() - start != 6 {
        return Err("Color must be a 6-digit hex string (e.g. ff0000)".to_string());
    }
    assert(body.subrange(0, 2) =~= v@.subrange(start as int, start + 2));
    assert(body.subrange(2, 4) =~= v@.subrange(start + 2, start + 4));
    assert(body.subrange(4, 6) =~= v@.subrange(start + 4, start + 6));
    let r = match parse_number(&v, start, start + 2, 16, 0xffff_ffff) {
        Some(x) => x,
        None => {
            return Err("Invalid red component".to_string());
        },
    };
    let g = match parse_number(&v, start + 2, start + 4, 16, 0xffff_ffff) {
        Some(x) => x,
        None => {
            return Err("Invalid green component".to_string());
        },
    };
    let b = match parse_number(&v, start + 4, start + 6, 16, 0xffff_ffff) {
        Some(x) => x,
        None => {
            return Err("Invalid blue component".to_string());
        },
    };
    Ok((r, g, b))
}

/// The event that a word `KEYCODE:DIRECTION` stands for: two decimal
/// numbers with one colon between them, the direction 0 for a release or 1
/// for a press.
pub open spec fn macro_event_of(s: Seq<char>) -> Option<(u32, u32)> {
    let colon = find_from(s, ':', 0, s.len() as int);
    if colon < s.len() && find_from(s, ':', colon + 1, s.len() as int) >= s.len() {
        match (
            parse_unsigned(s.subrange(0, colon), 10, 0xffff_ffff),
            parse_unsigned(s.subrange(colon + 1, s.len() as int), 10, 0xffff_ffff),
        ) {
            (Some(k), Some(d)) => if d <= 1 {
                Some((k as u32, d as u32))
            } else {
                None
            },
            _ => None,
        }
    } else {
        None
    }
}

/// The events that the first `n` words stand for, where each stands for
/// one.
pub open spec fn macro_events_of(words: Seq<Seq<char>>, n: int) -> Option<Seq<(u32, u32)>>
    decreases n,
{
    if n <= 0 || n > words.len() {
        Some(Seq::empty())
    } else {
        match (macro_events_of(words, n - 1), macro_event_of(words[n - 1])) {
            (Some(head), Some(e)) => Some(head.push(e)),
            _ => None,
        }
    }
}

/// The views of a slice of strings.
pub open spec fn words_view(words: Seq<String>) -> Seq<Seq<char>> {
    Seq::new(words.len(), |i: int| words[i]@)
}

fn parse_macro_event(s: &str) -> (r: Result<(u32, u32), String>)
    ensures
        match macro_event_of(s@) {
            Some(e) => r == Ok::<(u32, u32), String>(e),
            None => r is Err,
        },
{
    let v = chars_of(s);
    let n = v.len();
    let colon = find_char(&v, ':', 0, n);
    if colon >= n || find_char(&v, ':', colon + 1, n) < n {
        let mut m: Vec<char> = Vec::new();
        push_str(&mut m, "Invalid macro event '");
        push_str(&mut m, s);
        push_str(&mut m, "'. Expected KEYCODE:DIRECTION (e.g. 30:1)");
        return Err(string_of(&m));
    }
    let keycode = match parse_number(&v, 0, colon, 10, 0xffff_ffff) {
        Some(k) => k,
        None => {
            let mut m: Vec<char> = Vec::new();
            push_str(&mut m, "Invalid keycode in '");
            push_str(&mut m, s);
            push_str(&mut m, "'");
            return Err(string_of(&m));
        },
    };
    let direction = match parse_number(&v, colon + 1, n, 10, 0xffff_ffff) {
        Some(d) => d,
        None => {
            let mut m: Vec<char> = Vec::new();
            push_str(&mut m, "Invalid direction in '");
            push_str(&mut m, s);
            push_str(&mut m, "'");
            return Err(string_of(&m));
        },
    };
    if direction > 1 {
        let mut m: Vec<char> = Vec::new();
        push_str(&mut m, "Direction must be 0 (release) or 1 (press), got ");
        push_decimal(&mut m, direction as u64);
        push_str(&mut m, " in '");
        push_str(&mut m, s);
        push_str(&mut m, "'");
        return Err(string_of(&m));
    }
    Ok((keycode, direction))
}

/// Reads the events of a macro from words such as `30:1`. The first word
/// that stands for no event fails the whole.
pub fn parse_macro_events(events: &[String]) -> (r: Result<Vec<(u32, u32)>, String>)
    ensures
        match macro_events_of(words_view(events@), events@.len() as int) {
            Some(list) => r is Ok && r->Ok_0@ == list,
            None => r is Err,
        },
{
    let mut parsed: Vec<(u32, u32)> = Vec::new();
    let mut i: usize = 0;
    while i < events.len()
        invariant
            i <= events@.len(),
            macro_events_of(words_view(events@), i as int) == Some(parsed@),
        decreases events@.len() - i,
    {
        assert(words_view(events@)[i as int] == events@[i as int]@);
        match parse_macro_event(events[i].as_str()) {
            Ok(e) => {
                parsed.push(e);
            },
            Err(text) => {
                proof {
                    lemma_macro_events_fail(words_view(events@), i + 1, events@.len() as int);
                }
                return Err(text);
            },
        }
        i += 1;
    }
    Ok(parsed)
}

/// Once a word stands for no event, no longer list of words stands for
/// events.
pub proof fn lemma_macro_events_fail(words: Seq<Seq<char>>, n: int, m: int)
    requires
        0 < n <= m <= words.len(),
        macro_events_of(words, n) is None,
    ensures
        macro_events_of(words, m) is None,
    decreases m - n,
{
    if n < m {
        lemma_macro_events_fail(words, n, m - 1);
    }
}

/// Whether a color fits the three bytes of an LED: each component at most
/// 255.
pub open spec fn rgb_valid(r: u32, g: u32, b: u32) -> bool {
    r <= 255 && g <= 255 && b <= 255
}

/// The text that says that a component of a color is too large.
pub open spec fn out_of_range_text(component: Seq<char>, value: u32) -> Seq<char> {
    component + " component out of range: "@ + decimal(value as nat)
}

fn out_of_range(component: &str, value: u32) -> (r: String)
    ensures
        r@ == out_of_range_text(component@, value),
{
    let mut m: Vec<char> = Vec::new();
    push_str(&mut m, component);
    push_str(&mut m, " component out of range: ");
    push_decimal(&mut m, value as u64);
    string_of(&m)
}

/// Checks that a color fits the three bytes of an LED.
pub fn validate_rgb(r: u32, g: u32, b: u32) -> (res: Result<(), String>)
    ensures
        res is Ok <==> rgb_valid(r, g, b),
{
    if r > 255 {
        return Err(out_of_range("Red", r));
    }
    if g > 255 {
        return Err(out_of_range("Green", g));
    }
    if b > 255 {
        return Err(out_of_range("Blue", b));
    }
    Ok(())
}

/// The first position from `i` on at which `s` holds `/p`, or the length
/// of `s`.
pub open spec fn child_mark(s: Seq<char>, i: int) -> int
    decreases s.len() - i,
{
    if i < 0 || i >= s.len() {
        s.len() as int
    } else if i + 1 < s.len() && s[i] == '/' && s[i + 1] == 'p' {
        i
    } else {
        child_mark(s, i + 1)
    }
}

/// The object path of the device that the object of a profile, a
/// resolution, a button or an LED belongs to: the path up to its first `/p`,
/// and the path itself where it holds none.
pub open spec fn device_path_of(s: Seq<char>) -> Seq<char> {
    s.subrange(0, child_mark(s, 0))
}

/// Derives the object path of a device from the path of one of its
/// objects.
pub fn device_path_from_child(child_path: &str) -> (r: &str)
    ensures
        r@ == device_path_of(child_path@),
{
    let v = chars_of(child_path);
    let n = v.len();
    let mut i: usize = 0;
    let mut found = n;
    let mut open = true;
    while i < n && open
        invariant
            n == v@.len(),
            i <= n,
            v@ == child_path@,
            open ==> child_mark(v@, 0) == child_mark(v@, i as int) && found == n,
            !open ==> child_mark(v@, 0) == found && found <= n,
        decreases n - i + (if open { 1int } else { 0int }),
    {
        if i + 1 < n && v[i] == '/' && v[i + 1] == 'p' {
            found = i;
            open = false;
        } else {
            i += 1;
        }
    }
    child_path.substring_char(0, found)
}

// ---------------------------------------------------------------------------
// Choosing a device
// ---------------------------------------------------------------------------

/// Reads a word as a position in a list: a decimal number that fits the
/// word size of the machine.
fn parse_index(v: &Vec<char>) -> (r: Option<usize>)
    ensures
        match parse_unsigned(v@, 10, usize::MAX as nat) {
            Some(n) => r == Some(n as usize),
            None => r is None,
        },
{
    let n = v.len();
    let start: usize = if n > 0 && v[0] == '+' {
        1
    } else {
        0
    };
    let ghost body = v@.subrange(start as int, n as int);
    assert(body =~= if v@.len() > 0 && v@[0] == '+' {
        v@.subrange(1, v@.len() as int)
    } else {
        v@
    });
    if start == n {
        return None;
    }
    let mut acc: usize = 0;
    let mut i = start;
    while i < n
        invariant
            start <= i <= n,
            n == v@.len(),
            body == v@.subrange(start as int, n as int),
            body == (if v@.len() > 0 && v@[0] == '+' {
                v@.subrange(1, v@.len() as int)
            } else {
                v@
            }),
            all_digits(body.subrange(0, i - start), 10),
            acc == digits_value(body.subrange(0, i - start), 10),
        decreases n - i,
    {
        let ghost pre = body.subrange(0, i - start);
        let ghost cur = body.subrange(0, i - start + 1);
        proof {
            assert(cur.drop_last() =~= pre);
            assert(cur.last() == v@[i as int]);
            assert(body[i - start] == v@[i as int]);
        }
        let letter: char = v[i];
        let c = letter as u32;
        if c < '0' as u32 || c > '9' as u32 {
            assert(digit_value(body[i - start], 10) is None);
            assert(!all_digits(body, 10));
            return None;
        }
        let d = (c - '0' as u32) as usize;
        assert(digit_value(v@[i as int], 10) == Some(d as nat));
        proof {
            lemma_digits_value_prefix(body, 10, i - start + 1);
        }
        if acc > (usize::MAX - d) / 10 {
            assert(digits_value(cur, 10) > usize::MAX);
            return None;
        }
        acc = acc * 10 + d;
        i += 1;
        assert forall|k: int| 0 <= k < i - start implies (#[trigger] digit_value(
            body.subrange(0, i - start)[k],
            10,
        )) is Some by {
            if k < i - start - 1 {
                assert(body.subrange(0, i - start)[k] == pre[k]);
            }
        }
    }
    assert(body.subrange(0, n - start) =~= body);
    Some(acc)
}

/// Whether `needle` stands in `hay` at position `i`.
pub open spec fn occurs_at(hay: Seq<char>, needle: Seq<char>, i: int) -> bool {
    0 <= i && i + needle.len() <= hay.len() && hay.subrange(i, i + needle.len()) == needle
}

/// Whether `needle` stands somewhere in `hay`.
pub open spec fn contains_text(hay: Seq<char>, needle: Seq<char>) -> bool {
    exists|i: int| occurs_at(hay, needle, i)
}

fn occurs(hay: &Vec<char>, needle: &Vec<char>, i: usize) -> (r: bool)
    requires
        i + needle@.len() <= hay@.len(),
    ensures
        r == occurs_at(hay@, needle@, i as int),
{
    let size = hay.len();
    let mut k: usize = 0;
    while k < needle.len()
        invariant
            k <= needle@.len(),
            size == hay@.len(),
            i + needle@.len() <= hay@.len(),
            forall|j: int| 0 <= j < k ==> hay@[i + j] == needle@[j],
        decreases needle@.len() - k,
    {
        if hay[i + k] != needle[k] {
            assert(hay@.subrange(i as int, i + needle@.len())[k as int] != needle@[k as int]);
            return false;
        }
        k += 1;
    }
    assert(hay@.subrange(i as int, i + needle@.len()) =~= needle@);
    true
}

fn contains(hay: &Vec<char>, needle: &Vec<char>) -> (r: bool)
    ensures
        r == contains_text(hay@, needle@),
{
    if needle.len() > hay.len() {
        assert(!contains_text(hay@, needle@));
        return false;
    }
    let last = hay.len() - needle.len();
    let mut i: usize = 0;
    loop
        invariant
            i <= last,
            last == hay@.len() - needle@.len(),
            forall|j: int| 0 <= j < i ==> !occurs_at(hay@, needle@, j),
        decreases last - i,
    {
        if occurs(hay, needle, i) {
            return true;
        }
        if i == last {
            assert(!contains_text(hay@, needle@));
            return false;
        }
        i += 1;
    }
}

/// The first position from `i` on whose path holds `word`, or the number
/// of paths.
pub open spec fn first_holding(paths: Seq<Seq<char>>, word: Seq<char>, i: int) -> int
    decreases paths.len() - i,
{
    if i < 0 || i >= paths.len() {
        paths.len() as int
    } else if contains_text(paths[i], word) {
        i
    } else {
        first_holding(paths, word, i + 1)
    }
}

/// Which device a word names among the device paths: a number names the
/// device at that position; anything else names the first device whose path
/// holds the word. `None` where there is no device, where the number is no
/// position, or where no path holds the word.
pub open spec fn device_named(paths: Seq<Seq<char>>, word: Seq<char>) -> Option<int> {
    if paths.len() == 0 {
        None
    } else {
        match parse_unsigned(word, 10, usize::MAX as nat) {
            Some(n) => if n < paths.len() {
                Some(n as int)
            } else {
                None
            },
            None => if first_holding(paths, word, 0) < paths.len() {
                Some(first_holding(paths, word, 0))
            } else {
                None
            },
        }
    }
}

/// Picks the device that a word names.
pub fn resolve_device(devices: &[String], word: &str) -> (r: Result<String, String>)
    ensures
        match device_named(words_view(devices@), word@) {
            Some(i) => r is Ok && r->Ok_0@ == devices@[i]@,
            None => r is Err,
        },
{
    let ghost paths = words_view(devices@);
    if devices.len() == 0 {
        return Err("No devices found".to_string());
    }
    let w = chars_of(word);
    match parse_index(&w) {
        Some(idx) => {
            if idx < devices.len() {
                assert(paths[idx as int] == devices@[idx as int]@);
                return Ok(string_of(&chars_of(devices[idx].as_str())));
            }
            let mut m: Vec<char> = Vec::new();
            push_str(&mut m, "Device index ");
            push_decimal(&mut m, idx as u64);
            push_str(&mut m, " out of range (0..");
            push_decimal(&mut m, devices.len() as u64);
            push_str(&mut m, ")");
            Err(string_of(&m))
        },
        None => {
            let mut i: usize = 0;
            while i < devices.len()
                invariant
                    i <= devices@.len(),
                    paths == words_view(devices@),
                    w@ == word@,
                    first_holding(paths, word@, 0) == first_holding(paths, word@, i as int),
                    parse_unsigned(word@, 10, usize::MAX as nat) is None,
                decreases devices@.len() - i,
            {
                let path = chars_of(devices[i].as_str());
                assert(paths[i as int] == devices@[i as int]@);
                if contains(&path, &w) {
                    assert(first_holding(paths, word@, i as int) == i);
                    return Ok(string_of(&path));
                }
                i += 1;
            }
            let mut m: Vec<char> = Vec::new();
            push_str(&mut m, "No device matching '");
            push_str(&mut m, word);
            push_str(&mut m, "' found");
            Err(string_of(&m))
        },
    }
}

// ---------------------------------------------------------------------------
// Values as they are shown and checked
// ---------------------------------------------------------------------------

/// How a resolution is shown: one number where both axes agree.
pub open spec fn dpi_text(x: u32, y: u32) -> Seq<char> {
    if x == y {
        decimal(x as nat) + " DPI"@
    } else {
        decimal(x as nat) + seq!['x'] + decimal(y as nat) + " DPI"@
    }
}

/// Shows a resolution.
pub fn format_dpi(x: u32, y: u32) -> (r: String)
    ensures
        r@ == dpi_text(x, y),
{
    let mut v: Vec<char> = Vec::new();
    push_decimal(&mut v, x as u64);
    if x != y {
        v.push('x');
        push_decimal(&mut v, y as u64);
    }
    push_str(&mut v, " DPI");
    assert(v@ =~= dpi_text(x, y));
    string_of(&v)
}

/// Checks that a brightness is at most 255.
pub fn validate_brightness(brightness: u32) -> (res: Result<(), String>)
    ensures
        res is Ok <==> brightness <= 255,
{
    if brightness > 255 {
        let mut m: Vec<char> = Vec::new();
        push_str(&mut m, "Brightness out of range: ");
        push_decimal(&mut m, brightness as u64);
        push_str(&mut m, " (expected 0..=255)");
        return Err(string_of(&m));
    }
    Ok(())
}


/// What a word says of a switch, whatever the case of its letters: 1 for
/// on, 0 for off.
pub open spec fn switch_of_word(s: Seq<char>) -> Option<i32> {
    let l = ascii_lowered(s);
    if l == ascii_lowered("on"@) || l == ascii_lowered("1"@) || l == ascii_lowered("true"@) || l
        == ascii_lowered("yes"@) {
        Some(1i32)
    } else if l == ascii_lowered("off"@) || l == ascii_lowered("0"@) || l == ascii_lowered(
        "false"@,
    ) || l == ascii_lowered("no"@) {
        Some(0i32)
    } else {
        None
    }
}

/// Reads the setting of angle snapping.
pub fn parse_angle_snapping(s: &str) -> (r: Result<i32, String>)
    ensures
        match switch_of_word(s@) {
            Some(v) => r == Ok::<i32, String>(v),
            None => r is Err,
        },
{
    let v = chars_of(s);
    if eq_ignore_ascii_case(&v, "on") || eq_ignore_ascii_case(&v, "1") || eq_ignore_ascii_case(
        &v,
        "true",
    ) || eq_ignore_ascii_case(&v, "yes") {
        Ok(1)
    } else if eq_ignore_ascii_case(&v, "off") || eq_ignore_ascii_case(&v, "0")
        || eq_ignore_ascii_case(&v, "false") || eq_ignore_ascii_case(&v, "no") {
        Ok(0)
    } else {
        let mut m: Vec<char> = Vec::new();
        push_str(&mut m, "Invalid angle-snapping value '");
        push_str(&mut m, s);
        push_str(&mut m, "'. Use: on, off");
        Err(string_of(&m))
    }
}

/// The marks that follow a resolution in a list: one for each of active,
/// default and disabled that holds, each after a blank.
pub open spec fn flags_text(active: bool, default: bool, disabled: bool) -> Seq<char> {
    (if active {
        " [active]"@
    } else {
        ""@
    }) + (if default {
        " [default]"@
    } else {
        ""@
    }) + (if disabled {
        " [disabled]"@
    } else {
        ""@
    })
}

/// Builds the marks that follow a resolution in a list.
pub fn resolution_flags(active: bool, default: bool, disabled: bool) -> (r: String)
    ensures
        r@ == flags_text(active, default, disabled),
{
    let mut v: Vec<char> = Vec::new();
    if active {
        push_str(&mut v, " [active]");
    }
    if default {
        push_str(&mut v, " [default]");
    }
    if disabled {
        push_str(&mut v, " [disabled]");
    }
    proof {
        reveal_strlit("");
        assert(""@ =~= Seq::<char>::empty());
        assert(v@ =~= flags_text(active, default, disabled));
    }
    string_of(&v)
}

} // verus!
