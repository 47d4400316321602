use sketchybartender::providers::{
    brew_info, clock_label, count_lines, parse_badge_count, parse_battery, parse_muted,
    parse_volume_level, teams_info, BatteryInfo, BrewInfo, SystemInfo, TeamsInfo, VolumeInfo,
};

#[test]
fn battery_icon_by_level() {
    let icon = |percentage: u8, charging: bool| BatteryInfo { percentage, charging }.icon();
    assert_eq!(icon(50, true), "\u{f0e7}");
    assert_eq!(icon(0, true), "\u{f0e7}");
    assert_eq!(icon(100, false), "\u{f240}");
    assert_eq!(icon(95, false), "\u{f240}");
    assert_eq!(icon(90, false), "\u{f240}");
    assert_eq!(icon(89, false), "\u{f241}");
    assert_eq!(icon(70, false), "\u{f241}");
    assert_eq!(icon(69, false), "\u{f242}");
    assert_eq!(icon(40, false), "\u{f242}");
    assert_eq!(icon(39, false), "\u{f243}");
    assert_eq!(icon(10, false), "\u{f243}");
    assert_eq!(icon(9, false), "\u{f244}");
    assert_eq!(icon(5, false), "\u{f244}");
    assert_eq!(icon(0, false), "\u{f244}");
    assert_eq!(icon(101, false), "\u{f244}");
    assert_eq!(icon(255, false), "\u{f244}");
}

#[test]
fn volume_icon_by_level() {
    let icon = |percentage: u8, muted: bool| VolumeInfo { percentage, muted }.icon();
    assert_eq!(icon(80, true), "\u{f0581}");
    assert_eq!(icon(0, false), "\u{f0581}");
    assert_eq!(icon(100, false), "\u{f057e}");
    assert_eq!(icon(80, false), "\u{f057e}");
    assert_eq!(icon(60, false), "\u{f057e}");
    assert_eq!(icon(59, false), "\u{f0580}");
    assert_eq!(icon(30, false), "\u{f0580}");
    assert_eq!(icon(29, false), "\u{f057f}");
    assert_eq!(icon(1, false), "\u{f057f}");
    assert_eq!(icon(101, false), "\u{f057f}");
}

#[test]
fn brew_total_and_icon() {
    let none = BrewInfo::default();
    assert_eq!(none.formulae, 0);
    assert_eq!(none.casks, 0);
    assert_eq!(none.total(), 0);
    assert_eq!(none.icon(), "\u{f03d7}");
    let some = BrewInfo { formulae: 3, casks: 4 };
    assert_eq!(some.total(), 7);
    assert_eq!(some.icon(), "\u{f03d4}");
    assert_eq!(BrewInfo { formulae: 0, casks: 1 }.icon(), "\u{f03d4}");
    assert_eq!(BrewInfo { formulae: 1, casks: 0 }.icon(), "\u{f03d4}");
}

#[test]
fn system_icons_by_load() {
    let cpu = |cpu_percentage: u8| SystemInfo { cpu_percentage, ram_percentage: 0 }.cpu_icon();
    assert_eq!(cpu(100), "\u{f0ee0}");
    assert_eq!(cpu(80), "\u{f0ee0}");
    assert_eq!(cpu(79), "\u{f0edf}");
    assert_eq!(cpu(50), "\u{f0edf}");
    assert_eq!(cpu(49), "\u{f061a}");
    assert_eq!(cpu(0), "\u{f061a}");
    assert_eq!(cpu(101), "\u{f061a}");
    for ram_percentage in [0u8, 50, 80, 100, 255] {
        assert_eq!(SystemInfo { cpu_percentage: 0, ram_percentage }.ram_icon(), "\u{f035b}");
    }
    let idle = SystemInfo::default();
    assert_eq!(idle.cpu_percentage, 0);
    assert_eq!(idle.ram_percentage, 0);
}

#[test]
fn teams_colours_by_state() {
    let off = TeamsInfo::default();
    assert!(!off.running);
    assert_eq!(off.notification_count, 0);
    assert_eq!(off.icon(), "\u{f02bb}");
    assert_eq!(off.icon_color(), "0xff3c3836");
    assert_eq!(off.border_color(), "0xff2a2c3a");
    let quiet = TeamsInfo { running: true, notification_count: 0 };
    assert_eq!(quiet.icon_color(), "0xffffffff");
    assert_eq!(quiet.border_color(), "0xff2a2c3a");
    let busy = TeamsInfo { running: true, notification_count: 3 };
    assert_eq!(busy.icon_color(), "0xfffabd2f");
    assert_eq!(busy.border_color(), "0xfffabd2f");
    let stale = TeamsInfo { running: false, notification_count: 3 };
    assert_eq!(stale.icon_color(), "0xff3c3836");
    assert_eq!(stale.border_color(), "0xfffabd2f");
}

#[test]
fn parse_battery_reads_percentage_and_power_source() {
    let on_battery = "Now drawing from 'Battery Power'\n -InternalBattery-0 (id=1234567)\t26%; discharging; 3:10 remaining present: true\n";
    let info = parse_battery(on_battery).expect("a percentage");
    assert_eq!(info.percentage, 26);
    assert!(!info.charging);
    let on_mains = "Now drawing from 'AC Power'\n -InternalBattery-0 (id=1234567)\t100%; charged; 0:00 remaining present: true\n";
    let info = parse_battery(on_mains).expect("a percentage");
    assert_eq!(info.percentage, 100);
    assert!(info.charging);
}

#[test]
fn parse_battery_fails_without_a_number_before_the_percent_sign() {
    assert!(parse_battery("").is_none());
    assert!(parse_battery("no battery here").is_none());
    assert!(parse_battery("charge is % unknown, 50% later").is_none());
    assert!(parse_battery("level=50%").is_none());
    assert!(parse_battery("300%").is_none());
    assert_eq!(parse_battery("7%").map(|b| b.percentage), Some(7));
    assert_eq!(parse_battery("x 255%%").map(|b| b.percentage), Some(255));
}

#[test]
fn parse_volume_level_reads_a_trimmed_number() {
    assert_eq!(parse_volume_level("50\n"), Some(50));
    assert_eq!(parse_volume_level("  0 "), Some(0));
    assert_eq!(parse_volume_level("255"), Some(255));
    assert_eq!(parse_volume_level("256"), None);
    assert_eq!(parse_volume_level("missing value"), None);
    assert_eq!(parse_volume_level(""), None);
}

#[test]
fn parse_muted_accepts_true_in_any_case() {
    assert!(parse_muted("true\n"));
    assert!(parse_muted(" TRUE"));
    assert!(parse_muted("tRuE"));
    assert!(!parse_muted("false\n"));
    assert!(!parse_muted("truely"));
    assert!(!parse_muted("tru"));
    assert!(!parse_muted(""));
}

#[test]
fn clock_label_trims_or_falls_back() {
    assert_eq!(clock_label(Some("28/10 09:41\n")), "28/10 09:41");
    assert_eq!(clock_label(Some("")), "");
    assert_eq!(clock_label(None), "??/?? ??:??");
}

#[test]
fn count_lines_skips_empty_lines() {
    assert_eq!(count_lines(""), 0);
    assert_eq!(count_lines("\n\n"), 0);
    assert_eq!(count_lines("git"), 1);
    assert_eq!(count_lines("git\nwget\n"), 2);
    assert_eq!(count_lines("git\n\nwget"), 2);
    assert_eq!(count_lines("git\r\n\r\nwget\r\n"), 2);
    assert_eq!(count_lines("\r"), 1);
    assert_eq!(count_lines("\r\n"), 0);
    assert_eq!(count_lines("\r\r\n"), 1);
    assert_eq!(count_lines(" \n"), 1);
}

#[test]
fn brew_info_counts_both_listings() {
    let info = brew_info(Some("git\nwget\n"), Some("firefox\n"));
    assert_eq!(info.formulae, 2);
    assert_eq!(info.casks, 1);
    let info = brew_info(None, Some("a\nb\nc"));
    assert_eq!(info.formulae, 0);
    assert_eq!(info.casks, 3);
    let info = brew_info(None, None);
    assert_eq!(info.total(), 0);
}

#[test]
fn parse_badge_count_keeps_the_digits() {
    assert_eq!(parse_badge_count("3\n"), 3);
    assert_eq!(parse_badge_count("0"), 0);
    assert_eq!(parse_badge_count(""), 0);
    assert_eq!(parse_badge_count("missing value"), 0);
    assert_eq!(parse_badge_count("1,204"), 1204);
    assert_eq!(parse_badge_count("+12 new"), 12);
    assert_eq!(parse_badge_count("4294967295"), 4294967295);
    assert_eq!(parse_badge_count("4294967296"), 0);
    assert_eq!(parse_badge_count("99999999999999999999999"), 0);
}

#[test]
fn teams_info_counts_only_while_running() {
    let info = teams_info(true, Some("5"));
    assert!(info.running);
    assert_eq!(info.notification_count, 5);
    let info = teams_info(true, None);
    assert!(info.running);
    assert_eq!(info.notification_count, 0);
    let info = teams_info(false, Some("5"));
    assert!(!info.running);
    assert_eq!(info.notification_count, 0);
}
