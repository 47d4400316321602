use sketchybartender::workspace::{
    append_slot, build_workspace_batches, classify, slot_background, VisualState, WorkspaceInfo,
};
use sketchybartender::sketchybar::SketchybarBatch;
use std::collections::HashMap;

fn strings(items: &[&str]) -> Vec<String> {
    items.iter().map(|s| s.to_string()).collect()
}

fn empty_unfocused(slot: u32, display: u32) -> Vec<String> {
    vec![
        "--set".to_string(),
        format!("workspace.{}", slot),
        format!("label=\u{f444} {}", slot),
        "label.color=0xffffffff".to_string(),
        "icon.color=0xffffffff".to_string(),
        "drawing=on".to_string(),
        "icon.drawing=off".to_string(),
        "background.drawing=off".to_string(),
        format!("display={}", display),
    ]
}

fn info(apps: &[&str], icons: &str, is_focused: bool, monitor_id: u32) -> WorkspaceInfo {
    WorkspaceInfo {
        apps: apps.iter().map(|s| s.to_string()).collect(),
        icons: icons.to_string(),
        is_focused,
        monitor_id,
    }
}

#[test]
fn background_color_rotates_with_period_three() {
    let blue = "0xff83a598";
    let pink = "0xffd3869b";
    let green = "0xff8ec07c";
    let expected = [blue, pink, green, blue, pink, green, blue, pink, green];
    for index in 1u32..=9 {
        assert_eq!(slot_background(index), expected[(index - 1) as usize]);
    }
    for index in 1u32..=1000 {
        assert_eq!(slot_background(index), slot_background(index + 3));
    }
    assert_eq!(slot_background(0), green);
    assert_eq!(slot_background(u32::MAX), green);
}

#[test]
fn classify_selects_one_state_for_each_pair() {
    assert_eq!(classify(true, true), VisualState::OccupiedFocused);
    assert_eq!(classify(true, false), VisualState::OccupiedUnfocused);
    assert_eq!(classify(false, true), VisualState::EmptyFocused);
    assert_eq!(classify(false, false), VisualState::EmptyUnfocused);
}

#[test]
fn append_slot_occupied_and_focused() {
    let mut batch = SketchybarBatch::new();
    append_slot(&mut batch, 2, VisualState::OccupiedFocused, ":safari: :code:", 1);
    assert_eq!(
        batch.args,
        strings(&[
            "--set",
            "workspace.2",
            "label=2",
            "label.color=0xff1d2021",
            "icon=:safari: :code:",
            "icon.color=0xff1d2021",
            "icon.drawing=on",
            "drawing=on",
            "background.drawing=on",
            "background.color=0xffd3869b",
            "display=1",
        ])
    );
}

#[test]
fn append_slot_occupied_and_unfocused() {
    let mut batch = SketchybarBatch::new();
    append_slot(&mut batch, 4, VisualState::OccupiedUnfocused, ":slack:", 12);
    assert_eq!(
        batch.args,
        strings(&[
            "--set",
            "workspace.4",
            "label=4",
            "label.color=0xffffffff",
            "icon.color=0xffffffff",
            "icon=:slack:",
            "icon.drawing=on",
            "drawing=on",
            "background.drawing=off",
            "display=12",
        ])
    );
}

#[test]
fn append_slot_empty_and_focused() {
    let mut batch = SketchybarBatch::new();
    append_slot(&mut batch, 9, VisualState::EmptyFocused, "ignored", 2);
    assert_eq!(
        batch.args,
        strings(&[
            "--set",
            "workspace.9",
            "label=\u{f444} 9",
            "label.color=0xff1d2021",
            "icon.color=0xff1d2021",
            "drawing=on",
            "icon.drawing=off",
            "background.drawing=on",
            "background.color=0xff8ec07c",
            "display=2",
        ])
    );
}

#[test]
fn append_slot_empty_and_unfocused() {
    let mut batch = SketchybarBatch::new();
    append_slot(&mut batch, 1, VisualState::EmptyUnfocused, "", 1);
    assert_eq!(batch.args, empty_unfocused(1, 1));
    append_slot(&mut batch, 2, VisualState::EmptyUnfocused, "", 1);
    let mut both = empty_unfocused(1, 1);
    both.extend(empty_unfocused(2, 1));
    assert_eq!(batch.args, both);
}

#[test]
fn empty_snapshot_renders_nine_empty_slots_on_the_default_monitor() {
    let refresh = build_workspace_batches(&vec![(3, 1)], &HashMap::new());
    assert!(refresh.skipped.is_empty());
    assert_eq!(refresh.batches.len(), 1);
    assert_eq!(refresh.batches[0].display_id, 3);
    let mut expected = Vec::new();
    for slot in 1..=9 {
        expected.extend(empty_unfocused(slot, 3));
    }
    assert_eq!(refresh.batches[0].batch.args, expected);
}

#[test]
fn slots_are_grouped_by_display_in_slot_order() {
    let mut infos = HashMap::new();
    infos.insert(1, info(&["Safari"], ":safari:", true, 2));
    infos.insert(2, info(&[], "", false, 1));
    infos.insert(3, info(&["Slack", "Code"], ":slack: :code:", false, 2));
    infos.insert(12, info(&["Mail"], ":mail:", true, 2));
    let refresh = build_workspace_batches(&vec![(1, 1), (2, 2)], &infos);
    assert!(refresh.skipped.is_empty());
    assert_eq!(refresh.batches.len(), 2);
    assert_eq!(refresh.batches[0].display_id, 2);
    assert_eq!(refresh.batches[1].display_id, 1);
    let mut on_two = SketchybarBatch::new();
    append_slot(&mut on_two, 1, VisualState::OccupiedFocused, ":safari:", 2);
    append_slot(&mut on_two, 3, VisualState::OccupiedUnfocused, ":slack: :code:", 2);
    assert_eq!(refresh.batches[0].batch.args, on_two.args);
    let mut on_one = Vec::new();
    for slot in [2, 4, 5, 6, 7, 8, 9] {
        on_one.extend(empty_unfocused(slot, 1));
    }
    assert_eq!(refresh.batches[1].batch.args, on_one);
}

#[test]
fn a_slot_without_a_display_is_skipped() {
    let mut infos = HashMap::new();
    infos.insert(5, info(&["Safari"], ":safari:", true, 7));
    infos.insert(6, info(&[], "", true, 8));
    let refresh = build_workspace_batches(&vec![(1, 1)], &infos);
    assert_eq!(refresh.skipped, vec![5, 6]);
    assert_eq!(refresh.batches.len(), 1);
    let mut expected = Vec::new();
    for slot in [1, 2, 3, 4, 7, 8, 9] {
        expected.extend(empty_unfocused(slot, 1));
    }
    assert_eq!(refresh.batches[0].batch.args, expected);
}

#[test]
fn an_empty_mapping_skips_every_slot() {
    let refresh = build_workspace_batches(&Vec::new(), &HashMap::new());
    assert!(refresh.batches.is_empty());
    assert_eq!(refresh.skipped, vec![1, 2, 3, 4, 5, 6, 7, 8, 9]);
}

#[test]
fn the_first_matching_entry_of_the_mapping_wins() {
    let refresh = build_workspace_batches(&vec![(4, 1), (5, 1)], &HashMap::new());
    assert_eq!(refresh.batches.len(), 1);
    assert_eq!(refresh.batches[0].display_id, 4);
}

#[test]
fn a_focused_empty_slot_shows_its_background() {
    let mut infos = HashMap::new();
    infos.insert(7, info(&[], "", true, 1));
    let refresh = build_workspace_batches(&vec![(1, 1)], &infos);
    let mut expected = SketchybarBatch::new();
    for slot in 1..=6 {
        append_slot(&mut expected, slot, VisualState::EmptyUnfocused, "", 1);
    }
    append_slot(&mut expected, 7, VisualState::EmptyFocused, "", 1);
    append_slot(&mut expected, 8, VisualState::EmptyUnfocused, "", 1);
    append_slot(&mut expected, 9, VisualState::EmptyUnfocused, "", 1);
    assert_eq!(refresh.batches[0].batch.args, expected.args);
    assert!(refresh.batches[0].batch.args.contains(&"background.color=0xff83a598".to_string()));
}

#[test]
fn workspace_info_looks_up_the_icons() {
    let info = WorkspaceInfo::new(vec!["Safari".to_string(), "Unknown App".to_string(), "Code".to_string()], true, 2);
    assert_eq!(info.icons, ":safari: :default: :code:");
    assert_eq!(info.apps.len(), 3);
    assert!(info.is_focused);
    assert_eq!(info.monitor_id, 2);
    assert_eq!(WorkspaceInfo::new(Vec::new(), false, 1).icons, "");
    assert_eq!(WorkspaceInfo::new(vec!["Mail".to_string()], false, 1).icons, ":mail:");
}
