use webkitten::config::{construct_lookup_key, Config, ConfigValue};
use webkitten::ui::BufferEvent;

#[test]
fn lookup_fail_uri_commands() {
    let config = Config::parse(
        r#"
        [commands]
        on-fail-uri = ["bob","refresh"]
        "#,
    )
    .unwrap();
    let commands = config.on_buffer_event_commands(&BufferEvent::Fail(String::new()));
    assert_eq!(2, commands.len());
    assert_eq!(String::from("bob"), commands[0]);
    assert_eq!(String::from("refresh"), commands[1]);
}

#[test]
fn lookup_request_uri_commands() {
    let config = Config::parse(
        r#"
        [commands]
        on-request-uri = ["bob","refresh"]
        "#,
    )
    .unwrap();
    let commands = config.on_buffer_event_commands(&BufferEvent::Request);
    assert_eq!(2, commands.len());
    assert_eq!(String::from("bob"), commands[0]);
    assert_eq!(String::from("refresh"), commands[1]);
}

#[test]
fn lookup_load_uri_commands() {
    let config = Config::parse(
        r#"
        [commands]
        on-load-uri = ["bob","refresh"]
        "#,
    )
    .unwrap();
    let commands = config.on_buffer_event_commands(&BufferEvent::Load);
    assert_eq!(2, commands.len());
    assert_eq!(String::from("bob"), commands[0]);
    assert_eq!(String::from("refresh"), commands[1]);
}

#[test]
fn lookup_site_override_vec() {
    let config = Config::parse(
        r#"
        [commands]
        on-load-uri = ["bob","refresh"]
        [sites."example.com".commands]
        on-load-uri = ["frut"]
        "#,
    )
    .unwrap();
    let commands = config
        .lookup_site_str_vec("example.com/page.html", "commands.on-load-uri")
        .unwrap();
    assert_eq!(1, commands.len());
    assert_eq!(String::from("frut"), commands[0]);
}

#[test]
fn config_dir_substitution() {
    let config = Config::parse(
        r#"
        [general]
        config-dir = "/path/to/config"
        [window]
        start-page = "file://CONFIG_DIR/page.html"
        "#,
    )
    .unwrap();
    assert_eq!("file:///path/to/config/page.html", config.start_page().unwrap());
    assert_eq!(
        "file://CONFIG_DIR/page.html",
        config.lookup_raw_str("window.start-page").unwrap()
    );
}

#[test]
fn config_dir_substitution_all_occurrences() {
    let config = Config::parse(
        r#"
        [general]
        config-dir = "/etc/w"
        [paths]
        pair = "CONFIG_DIR/a:CONFIG_DIR/b"
        "#,
    )
    .unwrap();
    assert_eq!("/etc/w/a:/etc/w/b", config.lookup_str("paths.pair").unwrap());
}

#[test]
fn site_overlay_override_bool() {
    let config = Config::parse(
        r#"
        [commands]
        disabled = []
        [sites."example.com".dessert]
        pie = true
        "#,
    )
    .unwrap();
    assert_eq!(Some(true), config.lookup_site_bool("http://example.com/x", "dessert.pie"));
}

#[test]
fn site_overlay_global_fallback() {
    let config = Config::parse(
        r#"
        [dessert]
        pie = true
        [sites."example.com".dessert]
        pie = false
        "#,
    )
    .unwrap();
    assert_eq!(Some(false), config.lookup_site_bool("http://example.com/x", "dessert.pie"));
    assert_eq!(Some(true), config.lookup_site_bool("http://example.co.uk/old", "dessert.pie"));
}

#[test]
fn alias_resolves_and_disable_wins() {
    let config = Config::parse(
        r#"
        [commands]
        disabled = ["real"]
        [commands.aliases]
        x = "real"
        y = "fine"
        "#,
    )
    .unwrap();
    assert_eq!(None, config.resolved_command_name("x"));
    assert_eq!(Some(String::from("fine")), config.resolved_command_name("y"));
    assert_eq!(Some(String::from("other")), config.resolved_command_name("other"));
    assert_eq!(None, config.resolved_command_name("real"));
}

#[test]
fn keybinding_table_skips_malformed() {
    let config = Config::parse(
        r#"
        [commands.keybindings]
        hide = "ctrl h"
        broken = "nope"
        "#,
    )
    .unwrap();
    let table = config.command_keybindings();
    assert_eq!(1, table.len());
    assert_eq!("hide", table[0].0);
    assert_eq!(('h', 0x40000), table[0].1);
}

#[test]
fn lookup_type_mismatch_is_none() {
    let config = Config::parse(
        r#"
        [general]
        level = 3
        name = "x"
        "#,
    )
    .unwrap();
    assert_eq!(Some(3), config.lookup_integer("general.level"));
    assert_eq!(None, config.lookup_bool("general.level"));
    assert_eq!(None, config.lookup_str("general.missing"));
    assert_eq!(None, config.lookup_integer("general.name"));
    assert_eq!(None, config.lookup_integer("general.name.deeper"));
}

#[test]
fn parse_reports_errors() {
    assert!(Config::parse("not [ valid = toml").is_none());
    let errors = Config::try_parse("not [ valid = toml").err().unwrap();
    assert!(!errors.is_empty());
}

#[test]
fn load_keeps_old_tree_on_failure() {
    let mut config = Config::parse("[general]\nlevel = 1\n").unwrap();
    assert!(!config.load("also not [ valid"));
    assert_eq!(Some(1), config.lookup_integer("general.level"));
    assert!(config.load("[general]\nlevel = 2\n"));
    assert_eq!(Some(2), config.lookup_integer("general.level"));
}

#[test]
fn default_config_parses() {
    let config = Config::default_config().unwrap();
    assert_eq!(Some(false), config.lookup_bool("general.private-browsing"));
    assert_eq!(false, config.new_frame_uses_focused_window());
    assert_eq!(Some(String::from("https://delisa.fuller.li")), config.start_page());
}

#[test]
fn prefix_dispatch_rule() {
    let config = Config::parse(
        r#"
        [commands.on-text-change]
        "g" = "google"
        "#,
    )
    .unwrap();
    assert_eq!(Some(String::from("google kittens")), config.command_matching_prefix("gkittens"));
    assert_eq!(None, config.command_matching_prefix("xkittens"));
    assert_eq!(None, config.command_matching_prefix(""));
}

#[test]
fn site_key_construction() {
    assert_eq!(
        Some(String::from("sites.\"example.com\".dessert.pie")),
        construct_lookup_key("example.com/x", "dessert.pie")
    );
    assert_eq!(
        Some(String::from("sites.\"example.com\".k")),
        construct_lookup_key("https://example.com/a/b", "k")
    );
    assert_eq!(None, construct_lookup_key("http://", "k"));
}

#[test]
fn quoted_key_segments_reach_the_tree() {
    let config = Config::parse(
        r#"
        [sites."dots.example.com"]
        deep = 7
        "#,
    )
    .unwrap();
    assert_eq!(Some(7), config.lookup_integer("sites.\"dots.example.com\".deep"));
    assert_eq!(None, config.lookup_integer("sites.\"unclosed"));
}

#[test]
fn home_substitution_uses_captured_home() {
    let config = Config {
        value: ConfigValue::Table(vec![(
            String::from("paths"),
            ConfigValue::Table(vec![(
                String::from("data"),
                ConfigValue::Str(String::from("HOME/data")),
            )]),
        )]),
        home: Some(String::from("/home/kit")),
    };
    assert_eq!(Some(String::from("/home/kit/data")), config.lookup_str("paths.data"));
    let without = Config { home: None, ..config };
    assert_eq!(Some(String::from("HOME/data")), without.lookup_str("paths.data"));
}

#[test]
fn site_booleans_default_false() {
    let config = Config::parse("").unwrap();
    assert!(!config.use_private_browsing("http://example.com"));
    assert!(!config.use_plugins("http://example.com"));
    assert!(!config.use_javascript("http://example.com"));
    assert!(!config.skip_content_filter("http://example.com"));
    assert_eq!(None, config.content_filter_path());
    assert_eq!(None, config.default_command());
    assert_eq!(0, config.command_search_paths().len());
}

#[test]
fn site_boolean_overlay_enables() {
    let config = Config::parse(
        r#"
        [general]
        allow-plugins = false
        [sites."media.example".general]
        allow-plugins = true
        "#,
    )
    .unwrap();
    assert!(config.use_plugins("http://media.example/clip"));
    assert!(!config.use_plugins("http://text.example/page"));
}

#[test]
fn bar_font_needs_family_and_size() {
    let config = Config::parse(
        r#"
        [general.bar-font]
        family = "Menlo"
        size = 12
        "#,
    )
    .unwrap();
    assert_eq!(Some((String::from("Menlo"), 12)), config.bar_font());
    let partial = Config::parse("[general.bar-font]\nfamily = \"Menlo\"\n").unwrap();
    assert_eq!(None, partial.bar_font());
}
