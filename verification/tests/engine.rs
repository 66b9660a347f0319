use std::cell::RefCell;
use std::collections::HashMap;

use webkitten::optparse::RunConfiguration;
use webkitten::ui::{ApplicationUI, CommandError, EventHandler, URIEvent, WindowArea};
use webkitten::{Engine, WEBKITTEN_APP_ID, WEBKITTEN_TITLE};

/// A headless UI serving files from an in-memory table and recording what
/// the engine asks of it.
struct DriverUI {
    engine: Engine,
    files: RefCell<HashMap<String, String>>,
    field_text: RefCell<HashMap<u32, String>>,
    copied: RefCell<Vec<String>>,
    opened_windows: RefCell<Vec<String>>,
    opened_webviews: RefCell<Vec<(u32, String)>>,
}

impl DriverUI {
    fn with_files(engine: Engine, files: Vec<(&str, &str)>) -> DriverUI {
        let mut table = HashMap::new();
        for (path, content) in files {
            table.insert(String::from(path), String::from(content));
        }
        DriverUI {
            engine,
            files: RefCell::new(table),
            field_text: RefCell::new(HashMap::new()),
            copied: RefCell::new(Vec::new()),
            opened_windows: RefCell::new(Vec::new()),
            opened_webviews: RefCell::new(Vec::new()),
        }
    }
}

impl ApplicationUI for DriverUI {
    fn new(engine: Engine) -> Option<Self> {
        Some(DriverUI::with_files(engine, vec![]))
    }
    fn event_handler(&self) -> &Engine {
        &self.engine
    }
    fn run(&self) {}
    fn copy(&self, text: &str) {
        self.copied.borrow_mut().push(String::from(text));
    }
    fn focused_window_index(&self) -> Option<u32> {
        Some(0)
    }
    fn window_count(&self) -> u32 {
        1
    }
    fn open_window(&self, uri: Option<&str>) -> u32 {
        self.opened_windows
            .borrow_mut()
            .push(String::from(uri.unwrap_or("")));
        0
    }
    fn close_window(&self, _index: u32) {}
    fn focus_window(&self, _index: u32) {}
    fn focus_window_area(&self, _index: u32, _area: WindowArea) {}
    fn toggle_window(&self, _index: u32, _visible: bool) {}
    fn resize_window(&self, _window_index: u32, _width: u32, _height: u32) {}
    fn command_field_text(&self, window_index: u32) -> String {
        self.field_text
            .borrow()
            .get(&window_index)
            .cloned()
            .unwrap_or_default()
    }
    fn set_command_field_text(&self, window_index: u32, text: &str) {
        self.field_text
            .borrow_mut()
            .insert(window_index, String::from(text));
    }
    fn command_field_visible(&self, _window_index: u32) -> bool {
        true
    }
    fn set_command_field_visible(&self, _window_index: u32, _visible: bool) {}
    fn window_title(&self, _window_index: u32) -> String {
        String::new()
    }
    fn set_window_title(&self, _window_index: u32, _title: &str) {}
    fn focused_webview_index(&self, _window_index: u32) -> Option<u32> {
        Some(0)
    }
    fn webview_count(&self, _window_index: u32) -> u32 {
        1
    }
    fn open_webview(&self, window_index: u32, uri: Option<&str>) {
        self.opened_webviews
            .borrow_mut()
            .push((window_index, String::from(uri.unwrap_or(""))));
    }
    fn close_webview(&self, _window_index: u32, _webview_index: u32) {}
    fn focus_webview(&self, _window_index: u32, _webview_index: u32) {}
    fn reload_webview(&self, _window_index: u32, _webview_index: u32, _disable_filters: bool) {}
    fn set_uri(&self, _window_index: u32, _webview_index: u32, _uri: &str) {}
    fn go_back(&self, _window_index: u32, _webview_index: u32) -> bool {
        false
    }
    fn go_forward(&self, _window_index: u32, _webview_index: u32) -> bool {
        false
    }
    fn uri(&self, _window_index: u32, _webview_index: u32) -> String {
        String::new()
    }
    fn find_string(&self, _window_index: u32, _webview_index: u32, _query: &str) {}
    fn hide_find_results(&self, _window_index: u32, _webview_index: u32) {}
    fn webview_title(&self, _window_index: u32, _webview_index: u32) -> String {
        String::new()
    }
    fn run_javascript(&self, _window_index: u32, _webview_index: u32, _script: &str) {}
    fn apply_styles(&self, _window_index: u32, _webview_index: u32, _styles: &str) {}
    fn run_command(&self, _window_index: Option<u32>, _text: &str) {}
    fn read_file(&self, path: &str) -> Option<String> {
        self.files
            .borrow()
            .get(path)
            .cloned()
            .filter(|content| content != "<unreadable>")
    }
    fn file_exists(&self, path: &str) -> bool {
        self.files.borrow().contains_key(path)
    }
    fn list_files(&self, dir: &str) -> Vec<String> {
        let mut names: Vec<String> = self
            .files
            .borrow()
            .keys()
            .filter_map(|p| p.strip_prefix(&format!("{}/", dir)).map(String::from))
            .collect();
        names.sort();
        names
    }
}

const CONFIG: &str = r#"
[commands]
search-paths = ["/s"]
default = "go"
[commands.on-text-change]
"/" = "visit"
[commands.on-load-uri]
"#;

fn engine_with(config: &str) -> Engine {
    Engine::new(
        config,
        RunConfiguration {
            path: String::from("config.toml"),
            start_pages: vec![String::from("http://start.example")],
            exit_status: None,
        },
    )
    .unwrap()
}

#[test]
fn execute_command_runs_script_and_clears_field() {
    let engine = engine_with("[commands]\nsearch-paths = [\"/s\"]\n");
    let ui = DriverUI::with_files(
        engine,
        vec![(
            "/s/greet.lua",
            "function run()\n copy(\"ran \" .. arguments[1])\n return true\nend",
        )],
    );
    ui.set_command_field_text(0, "greet north");
    let output = ui.engine.execute_command(&ui, Some(0), "greet north");
    assert!(output.error.is_none());
    assert_eq!(vec![String::from("ran north")], *ui.copied.borrow());
    assert_eq!("", ui.command_field_text(0));
}

#[test]
fn execute_command_keeps_field_on_script_error() {
    let engine = engine_with("[commands]\nsearch-paths = [\"/s\"]\n");
    let ui = DriverUI::with_files(
        engine,
        vec![("/s/bad.lua", "function run()\n error(\"no\")\nend")],
    );
    ui.set_command_field_text(0, "bad");
    let output = ui.engine.execute_command(&ui, Some(0), "bad");
    assert_eq!(Some(CommandError::ErrorDuringExecution), output.error);
    assert!(output.message.unwrap().starts_with("script failed to execute"));
    assert_eq!("bad", ui.command_field_text(0));
}

#[test]
fn execute_command_empty_input() {
    let engine = engine_with(CONFIG);
    let ui = DriverUI::with_files(engine, vec![]);
    let output = ui.engine.execute_command(&ui, Some(0), "   ");
    assert_eq!(Some(CommandError::NoCommandSpecified), output.error);
}

#[test]
fn execute_command_unknown_without_default() {
    let engine = engine_with("[commands]\nsearch-paths = [\"/s\"]\n");
    let ui = DriverUI::with_files(engine, vec![]);
    let output = ui.engine.execute_command(&ui, Some(0), "nothing here");
    assert_eq!(Some(CommandError::CommandNotFound), output.error);
}

#[test]
fn execute_command_falls_back_to_default() {
    let engine = engine_with(CONFIG);
    let ui = DriverUI::with_files(
        engine,
        vec![(
            "/s/go.lua",
            "function run()\n copy(arguments[1] .. \" \" .. arguments[2])\n return false\nend",
        )],
    );
    ui.set_command_field_text(0, "some words");
    let output = ui.engine.execute_command(&ui, Some(0), "some words");
    assert!(output.error.is_none());
    assert_eq!(vec![String::from("some words")], *ui.copied.borrow());
    // `run` returned false: the field is left as it is.
    assert_eq!("some words", ui.command_field_text(0));
}

#[test]
fn execute_command_prefix_dispatch() {
    let engine = engine_with(CONFIG);
    let ui = DriverUI::with_files(
        engine,
        vec![(
            "/s/visit.lua",
            "function run()\n copy(arguments[1])\n return true\nend",
        )],
    );
    let output = ui.engine.execute_command(&ui, Some(0), "/north");
    assert!(output.error.is_none());
    assert_eq!(vec![String::from("north")], *ui.copied.borrow());
}

#[test]
fn completions_list_commands_for_bare_prefix() {
    let engine = engine_with(CONFIG);
    let ui = DriverUI::with_files(
        engine,
        vec![
            ("/s/greet.lua", "function run() return true end"),
            ("/s/grow.lua", "function run() return true end"),
            ("/s/other.lua", "function run() return true end"),
            ("/s/notes.txt", "not a command"),
        ],
    );
    let completions = ui.engine.command_completions(&ui, "gr");
    assert_eq!(vec![String::from("greet"), String::from("grow")], completions);
}

#[test]
fn completions_delegate_to_script_for_arguments() {
    let engine = engine_with(CONFIG);
    let ui = DriverUI::with_files(
        engine,
        vec![(
            "/s/greet.lua",
            "function complete_command()\n return prefix .. \"a,\" .. prefix .. \"b\"\nend",
        )],
    );
    let completions = ui.engine.command_completions(&ui, "greet x");
    assert_eq!(
        vec![String::from("greet xa"), String::from("greet xb")],
        completions
    );
}

#[test]
fn uri_event_fans_out_to_configured_commands() {
    let engine = engine_with(
        "[commands]\nsearch-paths = [\"/s\"]\non-load-uri = [\"hook\", \"missing\", \"hook2\"]\n",
    );
    let ui = DriverUI::with_files(
        engine,
        vec![
            (
                "/s/hook.lua",
                "function on_load_uri()\n copy(\"one \" .. requested_uri)\nend",
            ),
            (
                "/s/hook2.lua",
                "function on_load_uri()\n copy(\"two \" .. window_index .. webview_index)\nend",
            ),
        ],
    );
    ui.engine.on_uri_event(&ui, 3, 4, "http://x.example", URIEvent::Load);
    assert_eq!(
        vec![
            String::from("one http://x.example"),
            String::from("two 34"),
        ],
        *ui.copied.borrow()
    );
}

#[test]
fn new_frame_request_opens_window_or_webview() {
    let engine = engine_with(CONFIG);
    let ui = DriverUI::with_files(engine, vec![]);
    ui.engine.on_new_frame_request(&ui, 5, "http://n.example");
    assert_eq!(vec![String::from("http://n.example")], *ui.opened_windows.borrow());

    let engine = engine_with("[new-frame]\nopens-in-focused-window = true\n");
    let ui = DriverUI::with_files(engine, vec![]);
    ui.engine.on_new_frame_request(&ui, 5, "http://n.example");
    assert_eq!(vec![(5, String::from("http://n.example"))], *ui.opened_webviews.borrow());
}

#[test]
fn reload_swaps_config_wholesale() {
    let engine = engine_with("[general]\nlevel = 1\n");
    let mut ui = DriverUI::with_files(engine, vec![("config.toml", "[general]\nlevel = 2\n")]);
    assert_eq!(Some(1), ui.engine.config.lookup_integer("general.level"));
    let files = ui.files.clone();
    let copied_engine_reload = ui.engine.reload(&DriverUI {
        engine: engine_with("[general]\nlevel = 9\n"),
        files,
        field_text: RefCell::new(HashMap::new()),
        copied: RefCell::new(Vec::new()),
        opened_windows: RefCell::new(Vec::new()),
        opened_webviews: RefCell::new(Vec::new()),
    });
    assert!(copied_engine_reload);
    assert_eq!(Some(2), ui.engine.config.lookup_integer("general.level"));
    assert_eq!(
        vec![String::from("http://start.example")],
        *ui.engine.initial_pages()
    );
}

#[test]
fn unreadable_script_reports_read_failure() {
    let engine = engine_with("[commands]\nsearch-paths = [\"/s\"]\n");
    let ui = DriverUI::with_files(engine, vec![("/s/gone.lua", "<unreadable>")]);
    let output = ui.engine.execute_command(&ui, Some(0), "gone");
    assert_eq!(Some(CommandError::ErrorDuringExecution), output.error);
    assert_eq!(Some(String::from("command script could not be read")), output.message);
}

#[test]
fn app_constants() {
    assert_eq!("me.delisa.Webkitten", WEBKITTEN_APP_ID);
    assert_eq!("webkitten", WEBKITTEN_TITLE);
}
