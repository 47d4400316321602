use sketchybartender::sketchybar::{
    set_item, sink_result, update_battery, update_brew, update_clock, update_front_app,
    update_teams, update_volume, Execution, RenderError, SinkOutcome, SketchybarBatch,
};

fn strings(items: &[&str]) -> Vec<String> {
    items.iter().map(|s| s.to_string()).collect()
}

#[test]
fn test_batch_building() {
    let mut batch = SketchybarBatch::new();
    batch.set("clock", &[("label", "12:00")]);
    batch.set("battery", &[("icon", ""), ("label", "100%")]);

    assert!(!batch.is_empty());
    assert!(batch.args.contains(&"--set".to_string()));
    assert!(batch.args.contains(&"clock".to_string()));
    assert!(batch.args.contains(&"label=12:00".to_string()));
}

#[test]
fn batch_keeps_the_order_of_its_instructions() {
    let mut batch = SketchybarBatch::new();
    batch.set("clock", &[("label", "12:00")]);
    batch.set("battery", &[("icon", ""), ("label", "100%")]);
    assert_eq!(
        batch.args,
        strings(&["--set", "clock", "label=12:00", "--set", "battery", "icon=", "label=100%"])
    );
}

#[test]
fn new_batch_is_empty_and_executes_at_once() {
    let batch = SketchybarBatch::new();
    assert!(batch.is_empty());
    assert!(batch.args.is_empty());
    assert!(matches!(batch.execute(), Execution::Done));
    let other = SketchybarBatch::default();
    assert!(other.is_empty());
}

#[test]
fn execute_hands_all_arguments_to_one_invocation() {
    let mut batch = SketchybarBatch::new();
    batch.set("clock", &[]);
    batch.animate("sin", 15);
    match batch.execute() {
        Execution::Invoke(args) => {
            assert_eq!(*args, strings(&["--set", "clock", "--animate", "sin", "15"]))
        }
        Execution::Done => panic!("a batch with instructions is sent"),
    }
}

#[test]
fn animate_writes_curve_and_duration() {
    let mut batch = SketchybarBatch::new();
    batch.animate("sin", 15);
    assert_eq!(batch.args, strings(&["--animate", "sin", "15"]));
    batch.animate("linear", 0).animate("tanh", 4294967295);
    assert_eq!(
        batch.args,
        strings(&["--animate", "sin", "15", "--animate", "linear", "0", "--animate", "tanh", "4294967295"])
    );
}

#[test]
fn set_and_animate_chain() {
    let mut batch = SketchybarBatch::new();
    batch.animate("sin", 15).set("brew", &[("label.y_offset", "-3")]);
    assert_eq!(batch.args, strings(&["--animate", "sin", "15", "--set", "brew", "label.y_offset=-3"]));
}

#[test]
fn sink_result_by_outcome() {
    assert_eq!(sink_result(SinkOutcome::Succeeded), Ok(()));
    assert_eq!(sink_result(SinkOutcome::Failed), Err(RenderError::Status));
    assert_eq!(sink_result(SinkOutcome::NotStarted), Err(RenderError::Invocation));
    assert_eq!(RenderError::Status.message(), "sketchybar command failed");
    assert_eq!(RenderError::Invocation.message(), "sketchybar could not be started");
}

#[test]
fn set_item_builds_one_instruction() {
    let batch = set_item("brew", &[("label", "x"), ("label.y_offset", "0")]);
    assert_eq!(batch.args, strings(&["--set", "brew", "label=x", "label.y_offset=0"]));
}

#[test]
fn update_clock_sets_the_label() {
    assert_eq!(update_clock("28/10 09:41").args, strings(&["--set", "clock", "label=28/10 09:41"]));
}

#[test]
fn update_battery_sets_icon_and_percentage() {
    assert_eq!(
        update_battery("\u{f240}", 95).args,
        strings(&["--set", "battery", "icon=\u{f240}", "label=95%"])
    );
    assert_eq!(update_battery("x", 0).args, strings(&["--set", "battery", "icon=x", "label=0%"]));
    assert_eq!(update_battery("x", 255).args, strings(&["--set", "battery", "icon=x", "label=255%"]));
}

#[test]
fn update_volume_sets_icon_and_percentage() {
    assert_eq!(update_volume("v", 42).args, strings(&["--set", "volume", "icon=v", "label=42%"]));
}

#[test]
fn update_front_app_prefixes_the_name() {
    assert_eq!(
        update_front_app(":safari:", "Safari").args,
        strings(&["--set", "front_app", "icon=:safari:", "label=\u{276f} Safari"])
    );
}

#[test]
fn update_brew_shows_a_check_mark_or_the_total() {
    assert_eq!(update_brew("b", 0, 0).args, strings(&["--set", "brew", "icon=b", "label=\u{2713}"]));
    assert_eq!(update_brew("b", 3, 4).args, strings(&["--set", "brew", "icon=b", "label=7"]));
    assert_eq!(update_brew("b", 0, 120).args, strings(&["--set", "brew", "icon=b", "label=120"]));
}

#[test]
fn update_teams_shows_the_count_only_when_positive() {
    assert_eq!(
        update_teams("t", "0xffffffff", "0xff2a2c3a", 0).args,
        strings(&[
            "--set",
            "teams",
            "icon=t",
            "icon.color=0xffffffff",
            "background.border_color=0xff2a2c3a",
            "label=",
            "drawing=on"
        ])
    );
    assert_eq!(
        update_teams("t", "0xfffabd2f", "0xfffabd2f", 12).args,
        strings(&[
            "--set",
            "teams",
            "icon=t",
            "icon.color=0xfffabd2f",
            "background.border_color=0xfffabd2f",
            "label=12",
            "drawing=on"
        ])
    );
}
