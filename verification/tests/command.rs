use webkitten::command::{join_paths, parse_command, Command};
use webkitten::config::Config;

fn search_config() -> Config {
    Config::parse(
        r#"
        [commands]
        search-paths = ["/scripts/a", "/scripts/b"]
        "#,
    )
    .unwrap()
}

#[test]
fn candidates_scan_paths_in_reverse() {
    let config = search_config();
    let cands = Command::candidates("cmd north", &config, "lua").unwrap();
    assert_eq!(
        vec![
            String::from("/scripts/b/cmd.lua"),
            String::from("/scripts/a/cmd.lua"),
        ],
        cands
    );
}

#[test]
fn later_search_path_wins() {
    let config = search_config();
    // The file is present under both declared paths: the later declared
    // path is scanned first and wins.
    let both = vec![true, true];
    let cmd = Command::parse("cmd north", &config, "lua", &both).unwrap();
    assert_eq!("/scripts/b/cmd.lua", cmd.path);
    assert_eq!(vec![String::from("north")], cmd.arguments);

    // A file present only under the later declared path is still found.
    let only_later = vec![true, false];
    let cmd = Command::parse("cmd", &config, "lua", &only_later).unwrap();
    assert_eq!("/scripts/b/cmd.lua", cmd.path);

    let only_earlier = vec![false, true];
    let cmd = Command::parse("cmd", &config, "lua", &only_earlier).unwrap();
    assert_eq!("/scripts/a/cmd.lua", cmd.path);
}

#[test]
fn absent_everywhere_is_none() {
    let config = search_config();
    assert!(Command::parse("cmd", &config, "lua", &vec![false, false]).is_none());
}

#[test]
fn aliased_and_disabled_commands() {
    let config = Config::parse(
        r#"
        [commands]
        search-paths = ["/s"]
        disabled = ["closed"]
        [commands.aliases]
        short = "long"
        "#,
    )
    .unwrap();
    let cands = Command::candidates("short x", &config, "lua").unwrap();
    assert_eq!(vec![String::from("/s/long.lua")], cands);
    assert!(Command::candidates("closed", &config, "lua").is_none());
    assert!(Command::candidates("", &config, "lua").is_none());
    assert!(Command::candidates("   ", &config, "lua").is_none());
}

#[test]
fn arguments_pass_through_verbatim() {
    let config = search_config();
    let cmd = Command::parse("cmd one  two\tthree", &config, "lua", &vec![true, true]).unwrap();
    assert_eq!(
        vec![
            String::from("one"),
            String::from("two"),
            String::from("three"),
        ],
        cmd.arguments
    );
}

#[test]
fn test_resolve_by_filename() {
    let search_paths = vec![String::from("/tmp/scripts")];
    let result = parse_command(search_paths, "hello world", &vec![true]);
    assert!(result.is_some());

    let command = result.unwrap();
    assert_eq!(command.arguments, vec![String::from("world")]);
    assert_eq!(command.path, "/tmp/scripts/hello");
}

#[test]
fn join_path_shapes() {
    assert_eq!("a/b.lua", join_paths("a", "b.lua").unwrap());
    assert_eq!("a/b.lua", join_paths("a/", "b.lua").unwrap());
    assert_eq!("b.lua", join_paths("", "b.lua").unwrap());
    assert_eq!("/b.lua", join_paths("a", "/b.lua").unwrap());
}
