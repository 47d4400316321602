//! Telemetry snapshots and the glyphs and colours that show them, together
//! with the readers of the text that the system utilities print.

use vstd::prelude::*;
use vstd::string::*;
use crate::text::{
    contains_str, digit_char, digit_str, find_char, index_of, is_digit, is_space, is_whitespace,
    line_end, occurs_in, parse_number, parse_unsigned, trim, trimmed,
};

verus! {

/// The charge of the battery.
#[derive(Debug, Clone, Copy)]
pub struct BatteryInfo {
    pub percentage: u8,
    pub charging: bool,
}

/// The glyph of a battery: a bolt while charging, else one of five levels.
pub open spec fn battery_icon(percentage: u8, charging: bool) -> Seq<char> {
    if charging {
        "\u{f0e7}"@
    } else if 90 <= percentage <= 100 {
        "\u{f240}"@
    } else if 70 <= percentage <= 89 {
        "\u{f241}"@
    } else if 40 <= percentage <= 69 {
        "\u{f242}"@
    } else if 10 <= percentage <= 39 {
        "\u{f243}"@
    } else {
        "\u{f244}"@
    }
}

impl BatteryInfo {
    /// The glyph for the battery's state.
    pub fn icon(&self) -> (icon: &'static str)
        ensures
            icon@ == battery_icon(self.percentage, self.charging),
    {
        if self.charging {
            return "\u{f0e7}";
        }
        let p: u8 = self.percentage;
        if 90 <= p && p <= 100 {
            "\u{f240}"
        } else if 70 <= p && p <= 89 {
            "\u{f241}"
        } else if 40 <= p && p <= 69 {
            "\u{f242}"
        } else if 10 <= p && p <= 39 {
            "\u{f243}"
        } else {
            "\u{f244}"
        }
    }
}

/// The output volume.
#[derive(Debug, Clone, Copy)]
pub struct VolumeInfo {
    pub percentage: u8,
    pub muted: bool,
}

/// The glyph of a volume: silent when muted or at zero, else one of three
/// levels.
pub open spec fn volume_icon(percentage: u8, muted: bool) -> Seq<char> {
    if muted || percentage == 0 {
        "\u{f0581}"@
    } else if 60 <= percentage <= 100 {
        "\u{f057e}"@
    } else if 30 <= percentage <= 59 {
        "\u{f0580}"@
    } else {
        "\u{f057f}"@
    }
}

impl VolumeInfo {
    /// The glyph for the volume level.
    pub fn icon(&self) -> (icon: &'static str)
        ensures
            icon@ == volume_icon(self.percentage, self.muted),
    {
        if self.muted || self.percentage == 0 {
            return "\u{f0581}";
        }
        let p: u8 = self.percentage;
        if 60 <= p && p <= 100 {
            "\u{f057e}"
        } else if 30 <= p && p <= 59 {
            "\u{f0580}"
        } else {
            "\u{f057f}"
        }
    }
}

/// The numbers of outdated packages.
#[derive(Debug, Clone, Copy)]
pub struct BrewInfo {
    pub formulae: usize,
    pub casks: usize,
}

impl Default for BrewInfo {
    fn default() -> (info: Self)
        ensures
            info.formulae == 0,
            info.casks == 0,
    {
        BrewInfo { formulae: 0, casks: 0 }
    }
}

/// The glyph of the package item: an open box where nothing is outdated, a
/// closed one otherwise.
pub open spec fn brew_icon(total: nat) -> Seq<char> {
    if total == 0 {
        "\u{f03d7}"@
    } else {
        "\u{f03d4}"@
    }
}

impl BrewInfo {
    /// The number of outdated packages of both kinds.
    pub fn total(&self) -> (total: usize)
        requires
            self.formulae + self.casks <= usize::MAX,
        ensures
            total == self.formulae + self.casks,
    {
        self.formulae + self.casks
    }

    /// The glyph for the number of outdated packages.
    pub fn icon(&self) -> (icon: &'static str)
        ensures
            icon@ == brew_icon((self.formulae + self.casks) as nat),
    {
        if self.formulae == 0 && self.casks == 0 {
            "\u{f03d7}"
        } else {
            "\u{f03d4}"
        }
    }
}

/// The load of processor and memory.
#[derive(Debug, Clone, Copy)]
pub struct SystemInfo {
    pub cpu_percentage: u8,
    pub ram_percentage: u8,
}

impl Default for SystemInfo {
    fn default() -> (info: Self)
        ensures
            info.cpu_percentage == 0,
            info.ram_percentage == 0,
    {
        SystemInfo { cpu_percentage: 0, ram_percentage: 0 }
    }
}

/// The glyph of a processor load: one of three levels.
pub open spec fn cpu_icon_of(percentage: u8) -> Seq<char> {
    if 80 <= percentage <= 100 {
        "\u{f0ee0}"@
    } else if 50 <= percentage <= 79 {
        "\u{f0edf}"@
    } else {
        "\u{f061a}"@
    }
}

impl SystemInfo {
    /// The glyph for the processor load.
    pub fn cpu_icon(&self) -> (icon: &'static str)
        ensures
            icon@ == cpu_icon_of(self.cpu_percentage),
    {
        let p: u8 = self.cpu_percentage;
        if 80 <= p && p <= 100 {
            "\u{f0ee0}"
        } else if 50 <= p && p <= 79 {
            "\u{f0edf}"
        } else {
            "\u{f061a}"
        }
    }

    /// The glyph for the memory load: the same at every level.
    pub fn ram_icon(&self) -> (icon: &'static str)
        ensures
            icon@ == "\u{f035b}"@,
    {
        "\u{f035b}"
    }
}

/// The state of the chat application.
#[derive(Debug, Clone, Copy)]
pub struct TeamsInfo {
    pub running: bool,
    pub notification_count: u32,
}

impl Default for TeamsInfo {
    fn default() -> (info: Self)
        ensures
            !info.running,
            info.notification_count == 0,
    {
        TeamsInfo { running: false, notification_count: 0 }
    }
}

/// The colour of the chat glyph: dim while the application is not running,
/// amber while notifications wait, white otherwise.
pub open spec fn teams_icon_color(running: bool, notification_count: u32) -> Seq<char> {
    if !running {
        "0xff3c3836"@
    } else if notification_count > 0 {
        "0xfffabd2f"@
    } else {
        "0xffffffff"@
    }
}

/// The colour of the chat item's border: amber while notifications wait.
pub open spec fn teams_border_color(notification_count: u32) -> Seq<char> {
    if notification_count > 0 {
        "0xfffabd2f"@
    } else {
        "0xff2a2c3a"@
    }
}

impl TeamsInfo {
    /// The glyph of the chat application.
    pub fn icon(&self) -> (icon: &'static str)
        ensures
            icon@ == "\u{f02bb}"@,
    {
        "\u{f02bb}"
    }

    /// The colour of the glyph.
    pub fn icon_color(&self) -> (color: &'static str)
        ensures
            color@ == teams_icon_color(self.running, self.notification_count),
    {
        if !self.running {
            "0xff3c3836"
        } else if self.notification_count > 0 {
            "0xfffabd2f"
        } else {
            "0xffffffff"
        }
    }

    /// The colour of the border.
    pub fn border_color(&self) -> (color: &'static str)
        ensures
            color@ == teams_border_color(self.notification_count),
    {
        if self.notification_count > 0 {
            "0xfffabd2f"
        } else {
            "0xff2a2c3a"
        }
    }
}

/// Where the word begins that holds the character at index `at`: after the
/// last white space before `at`, or at the start.
pub open spec fn word_start(s: Seq<char>, at: int) -> int
    decreases at,
{
    if at <= 0 || at > s.len() {
        0
    } else if is_space(s[at - 1]) {
        at
    } else {
        word_start(s, at - 1)
    }
}

/// The charge that the power report gives: the number that stands in the
/// first word with a `%`, before that `%`, where it is at most 255.
pub open spec fn battery_percentage(report: Seq<char>) -> Option<u8> {
    let percent = index_of(report, '%', 0);
    if percent >= report.len() {
        None
    } else {
        match parse_unsigned(report.subrange(word_start(report, percent), percent), 255) {
            Some(v) => Some(v as u8),
            None => None,
        }
    }
}

/// The battery that the power report describes: charging where the report
/// names mains power.
pub open spec fn battery_of(report: Seq<char>) -> Option<BatteryInfo> {
    match battery_percentage(report) {
        Some(percentage) => Some(
            BatteryInfo { percentage, charging: occurs_in(report, "AC Power"@) },
        ),
        None => None,
    }
}

/// Reads the battery's state from the power report.
pub fn parse_battery(report: &str) -> (info: Option<BatteryInfo>)
    ensures
        info == battery_of(report@),
{
    let n: usize = report.unicode_len();
    let percent = find_char(report, '%', 0);
    if percent >= n {
        return None;
    }
    let mut start: usize = percent;
    while start > 0 && !is_whitespace(report.get_char(start - 1))
        invariant
            start <= percent < n,
            n == report@.len(),
            word_start(report@, percent as int) == word_start(report@, start as int),
        decreases start,
    {
        start -= 1;
    }
    match parse_number(report.substring_char(start, percent), 255) {
        Some(v) => Some(
            BatteryInfo { percentage: v as u8, charging: contains_str(report, "AC Power") },
        ),
        None => None,
    }
}

/// The level that the volume report gives: the number it holds between white
/// space, where it is at most 255.
pub open spec fn volume_level_of(report: Seq<char>) -> Option<u8> {
    match parse_unsigned(trimmed(report), 255) {
        Some(v) => Some(v as u8),
        None => None,
    }
}

/// Reads the volume level from the volume report.
pub fn parse_volume_level(report: &str) -> (level: Option<u8>)
    ensures
        level == volume_level_of(report@),
{
    match parse_number(trim(report), 255) {
        Some(v) => Some(v as u8),
        None => None,
    }
}

/// Whether `word` is `true` in any mix of upper and lower case.
pub open spec fn is_true_word(word: Seq<char>) -> bool {
    &&& word.len() == 4
    &&& (word[0] == 't' || word[0] == 'T')
    &&& (word[1] == 'r' || word[1] == 'R')
    &&& (word[2] == 'u' || word[2] == 'U')
    &&& (word[3] == 'e' || word[3] == 'E')
}

/// Reads from the mute report whether the output is muted.
pub fn parse_muted(report: &str) -> (muted: bool)
    ensures
        muted == is_true_word(trimmed(report@)),
{
    let word = trim(report);
    if word.unicode_len() != 4 {
        return false;
    }
    let c0 = word.get_char(0);
    let c1 = word.get_char(1);
    let c2 = word.get_char(2);
    let c3 = word.get_char(3);
    (c0 == 't' || c0 == 'T') && (c1 == 'r' || c1 == 'R') && (c2 == 'u' || c2 == 'U') && (c3 == 'e'
        || c3 == 'E')
}

/// The label of the clock: the time report without surrounding white space,
/// or question marks where there is no report.
pub open spec fn clock_label_of(report: Option<Seq<char>>) -> Seq<char> {
    match report {
        Some(text) => trimmed(text),
        None => "??/?? ??:??"@,
    }
}

/// The label of the clock for a time report, if there is one.
pub fn clock_label(report: Option<&str>) -> (label: String)
    ensures
        label@ == clock_label_of(
            match report {
                Some(text) => Some(text@),
                None => None,
            },
        ),
{
    match report {
        Some(text) => String::from_str(trim(text)),
        None => String::from_str("??/?? ??:??"),
    }
}

/// What the line from `from` to `end` holds: the characters between, without
/// the carriage return that may stand before the line feed.
pub open spec fn line_content(text: Seq<char>, from: int, end: int) -> Seq<char> {
    let line = text.subrange(from, end);
    if end < text.len() && line.len() > 0 && line.last() == '\r' {
        line.drop_last()
    } else {
        line
    }
}

/// The number of lines of `text` from index `from` on that hold something.
pub open spec fn nonempty_lines(text: Seq<char>, from: int) -> nat
    decreases text.len() + 1 - from,
{
    if from < 0 || from >= text.len() {
        0
    } else {
        let end = line_end(text, from);
        let here: nat = if line_content(text, from, end).len() > 0 {
            1
        } else {
            0
        };
        here + nonempty_lines(text, end + 1)
    }
}

/// Counts the lines of a listing that hold something.
pub fn count_lines(listing: &str) -> (count: usize)
    ensures
        count == nonempty_lines(listing@, 0),
{
    let n: usize = listing.unicode_len();
    let mut count: usize = 0;
    let mut from: usize = 0;
    while from < n
        invariant
            n == listing@.len(),
            from <= n,
            count <= from,
            nonempty_lines(listing@, 0) == count + nonempty_lines(listing@, from as int),
        decreases n - from,
    {
        let end = find_char(listing, '\n', from);
        let len: usize = end - from;
        let holds = len > 1 || (len == 1 && !(end < n && listing.get_char(from) == '\r'));
        proof {
            let line = listing@.subrange(from as int, end as int);
            if len == 1 {
                assert(line.last() == listing@[from as int]);
            }
            assert(holds == (line_content(listing@, from as int, end as int).len() > 0));
            assert(line_end(listing@, from as int) == end);
            assert(nonempty_lines(listing@, n as int) == 0);
            assert(nonempty_lines(listing@, n + 1) == 0);
        }
        if holds {
            count += 1;
        }
        from = if end < n {
            end + 1
        } else {
            n
        };
    }
    count
}

/// The counts of outdated packages from the two listings; a listing that
/// could not be had counts as empty.
pub fn brew_info(formulae: Option<&str>, casks: Option<&str>) -> (info: BrewInfo)
    ensures
        info.formulae == match formulae {
            Some(listing) => nonempty_lines(listing@, 0),
            None => 0,
        },
        info.casks == match casks {
            Some(listing) => nonempty_lines(listing@, 0),
            None => 0,
        },
{
    let formulae = match formulae {
        Some(listing) => count_lines(listing),
        None => 0,
    };
    let casks = match casks {
        Some(listing) => count_lines(listing),
        None => 0,
    };
    BrewInfo { formulae, casks }
}

/// The decimal digits of `s`, in order.
pub open spec fn digits_only(s: Seq<char>) -> Seq<char>
    decreases s.len(),
{
    if s.len() == 0 {
        Seq::empty()
    } else if is_digit(s.last()) {
        digits_only(s.drop_last()).push(s.last())
    } else {
        digits_only(s.drop_last())
    }
}

/// The number of notifications that a badge shows: the number that its
/// digits write, or zero where it has none or they exceed 32 bits.
pub open spec fn badge_count(badge: Seq<char>) -> u32 {
    match parse_unsigned(digits_only(badge), u32::MAX as nat) {
        Some(v) => v as u32,
        None => 0,
    }
}

/// Reads the number of notifications from a badge.
pub fn parse_badge_count(badge: &str) -> (count: u32)
    ensures
        count == badge_count(badge@),
{
    let n: usize = badge.unicode_len();
    let mut digits = String::new();
    let mut i: usize = 0;
    while i < n
        invariant
            n == badge@.len(),
            i <= n,
            digits@ == digits_only(badge@.take(i as int)),
        decreases n - i,
    {
        let c = badge.get_char(i);
        assert(badge@.take(i + 1).drop_last() =~= badge@.take(i as int));
        if '0' <= c && c <= '9' {
            let d: u64 = (c as u32 - '0' as u32) as u64;
            assert(digit_char(d as int) == c);
            digits.append(digit_str(d));
            assert(digits@ =~= digits_only(badge@.take(i as int)).push(c));
        }
        i += 1;
    }
    assert(badge@.take(n as int) =~= badge@);
    match parse_number(digits.as_str(), 0xffff_ffff) {
        Some(v) => v as u32,
        None => 0,
    }
}

/// The state of the chat application: the badge counts only while the
/// application runs and the badge could be read.
pub fn teams_info(running: bool, badge: Option<&str>) -> (info: TeamsInfo)
    ensures
        info.running == running,
        info.notification_count == match badge {
            Some(text) => if running {
                badge_count(text@)
            } else {
                0
            },
            None => 0,
        },
{
    let notification_count: u32 = if running {
        match badge {
            Some(text) => parse_badge_count(text),
            None => 0,
        }
    } else {
        0
    };
    TeamsInfo { running, notification_count }
}

} // verus!
