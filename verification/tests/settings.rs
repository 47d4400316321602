use sketchybartender::config::Config;

#[test]
fn test_default_config() {
    let config = Config::default();
    assert_eq!(config.clock_interval, 15);
    assert_eq!(config.battery_interval, 120);
    assert_eq!(config.brew_interval, 3600);
    assert_eq!(config.teams_interval, 30);
}

#[test]
fn parse_of_empty_text_gives_the_defaults() {
    assert_eq!(Config::parse(""), Ok(Config::default()));
    assert_eq!(Config::parse("\n\n  \n"), Ok(Config::default()));
}

#[test]
fn parse_reads_keys_in_any_order() {
    let text = "# intervals\nteams_interval = 7\r\n  clock_interval=1\nbrew_interval =  +99 \n\nbattery_interval= 0";
    assert_eq!(
        Config::parse(text),
        Ok(Config { clock_interval: 1, battery_interval: 0, brew_interval: 99, teams_interval: 7 })
    );
}

#[test]
fn parse_skips_comments_unknown_keys_and_lines_without_equals() {
    let text = "#clock_interval = 1\ncolour = blue\nclock_interval 5\nclock_interval = 20\n";
    assert_eq!(
        Config::parse(text),
        Ok(Config { clock_interval: 20, battery_interval: 120, brew_interval: 3600, teams_interval: 30 })
    );
}

#[test]
fn parse_lets_a_later_line_win() {
    assert_eq!(Config::parse("clock_interval = 1\nclock_interval = 2").map(|c| c.clock_interval), Ok(2));
}

#[test]
fn parse_rejects_a_value_that_is_no_number() {
    assert_eq!(
        Config::parse("clock_interval = soon"),
        Err("Invalid value for clock_interval: soon".to_string())
    );
    assert_eq!(
        Config::parse("battery_interval = -1\nclock_interval = x"),
        Err("Invalid value for battery_interval: -1".to_string())
    );
    assert_eq!(Config::parse("brew_interval ="), Err("Invalid value for brew_interval: ".to_string()));
    assert_eq!(
        Config::parse("teams_interval = 1 = 2"),
        Err("Invalid value for teams_interval: 1 = 2".to_string())
    );
}

#[test]
fn parse_accepts_the_largest_value_and_rejects_the_next() {
    assert_eq!(
        Config::parse("clock_interval = 18446744073709551615").map(|c| c.clock_interval),
        Ok(u64::MAX)
    );
    assert_eq!(
        Config::parse("clock_interval = 18446744073709551616"),
        Err("Invalid value for clock_interval: 18446744073709551616".to_string())
    );
    assert_eq!(Config::parse("clock_interval = 007").map(|c| c.clock_interval), Ok(7));
}

#[test]
fn render_writes_each_interval() {
    let text = Config::default().render();
    assert_eq!(
        text,
        "# Sketchybartender Configuration\n# Update intervals in seconds\n\n# Clock update interval (default: 15)\nclock_interval = 15\n\n# Battery update interval (default: 120)\nbattery_interval = 120\n\n# Brew outdated check interval (default: 3600)\nbrew_interval = 3600\n\n# Teams notification check interval (default: 30)\nteams_interval = 30\n"
    );
}

#[test]
fn render_then_parse_gives_the_configuration_back() {
    let config = Config { clock_interval: 1, battery_interval: 22, brew_interval: 0, teams_interval: u64::MAX };
    assert_eq!(Config::parse(&config.render()), Ok(config));
}

#[test]
fn load_falls_back_to_the_defaults() {
    assert_eq!(Config::load(None), Config::default());
    assert_eq!(Config::load(Some("clock_interval = never")), Config::default());
    assert_eq!(Config::load(Some("clock_interval = 5")).clock_interval, 5);
}
