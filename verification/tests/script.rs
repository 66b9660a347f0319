use std::cell::RefCell;
use std::collections::HashMap;

use webkitten::script::lua::LuaEngine;
use webkitten::script::{
    coerce_lua_array, ScriptErrorKind, ScriptValue, ScriptingEngine, NOT_FOUND,
};
use webkitten::optparse::RunConfiguration;
use webkitten::ui::{ApplicationUI, BufferEvent, WindowArea};
use webkitten::Engine;

/// A headless UI for driving the engine in tests: it records command-bar
/// text per window and serves files from an in-memory table.
struct TestUI {
    engine: Engine,
    files: RefCell<HashMap<String, String>>,
    field_text: RefCell<HashMap<u32, String>>,
    copied: RefCell<Vec<String>>,
}

impl TestUI {
    fn with_files(engine: Engine, files: Vec<(&str, &str)>) -> TestUI {
        let mut table = HashMap::new();
        for (path, content) in files {
            table.insert(String::from(path), String::from(content));
        }
        TestUI {
            engine,
            files: RefCell::new(table),
            field_text: RefCell::new(HashMap::new()),
            copied: RefCell::new(Vec::new()),
        }
    }
}

impl ApplicationUI for TestUI {
    fn new(engine: Engine) -> Option<Self> {
        Some(TestUI::with_files(engine, vec![]))
    }
    fn event_handler(&self) -> &Engine {
        &self.engine
    }
    fn run(&self) {}
    fn copy(&self, text: &str) {
        self.copied.borrow_mut().push(String::from(text));
    }
    fn focused_window_index(&self) -> Option<u32> {
        None
    }
    fn window_count(&self) -> u32 {
        0
    }
    fn open_window(&self, _uri: Option<&str>) -> u32 {
        0
    }
    fn close_window(&self, _index: u32) {}
    fn focus_window(&self, _index: u32) {}
    fn focus_window_area(&self, _index: u32, _area: WindowArea) {}
    fn toggle_window(&self, _index: u32, _visible: bool) {}
    fn resize_window(&self, _window_index: u32, _width: u32, _height: u32) {}
    fn command_field_text(&self, window_index: u32) -> String {
        self.field_text
            .borrow()
            .get(&window_index)
            .cloned()
            .unwrap_or_default()
    }
    fn set_command_field_text(&self, window_index: u32, text: &str) {
        self.field_text
            .borrow_mut()
            .insert(window_index, String::from(text));
    }
    fn command_field_visible(&self, _window_index: u32) -> bool {
        true
    }
    fn set_command_field_visible(&self, _window_index: u32, _visible: bool) {}
    fn window_title(&self, _window_index: u32) -> String {
        String::new()
    }
    fn set_window_title(&self, _window_index: u32, _title: &str) {}
    fn focused_webview_index(&self, _window_index: u32) -> Option<u32> {
        None
    }
    fn webview_count(&self, _window_index: u32) -> u32 {
        0
    }
    fn open_webview(&self, _window_index: u32, _uri: Option<&str>) {}
    fn close_webview(&self, _window_index: u32, _webview_index: u32) {}
    fn focus_webview(&self, _window_index: u32, _webview_index: u32) {}
    fn reload_webview(&self, _window_index: u32, _webview_index: u32, _disable_filters: bool) {}
    fn set_uri(&self, _window_index: u32, _webview_index: u32, _uri: &str) {}
    fn go_back(&self, _window_index: u32, _webview_index: u32) -> bool {
        false
    }
    fn go_forward(&self, _window_index: u32, _webview_index: u32) -> bool {
        false
    }
    fn uri(&self, _window_index: u32, _webview_index: u32) -> String {
        String::new()
    }
    fn find_string(&self, _window_index: u32, _webview_index: u32, _query: &str) {}
    fn hide_find_results(&self, _window_index: u32, _webview_index: u32) {}
    fn webview_title(&self, _window_index: u32, _webview_index: u32) -> String {
        String::new()
    }
    fn run_javascript(&self, _window_index: u32, _webview_index: u32, _script: &str) {}
    fn apply_styles(&self, _window_index: u32, _webview_index: u32, _styles: &str) {}
    fn run_command(&self, _window_index: Option<u32>, _text: &str) {}
    fn read_file(&self, path: &str) -> Option<String> {
        self.files.borrow().get(path).cloned()
    }
    fn file_exists(&self, path: &str) -> bool {
        self.files.borrow().contains_key(path)
    }
    fn list_files(&self, dir: &str) -> Vec<String> {
        let mut names: Vec<String> = self
            .files
            .borrow()
            .keys()
            .filter_map(|p| p.strip_prefix(&format!("{}/", dir)).map(String::from))
            .collect();
        names.sort();
        names
    }
}

fn test_engine() -> Engine {
    Engine::new(
        "[general]\nprivate-browsing = false\n",
        RunConfiguration {
            path: String::from("config.toml"),
            start_pages: vec![],
            exit_status: None,
        },
    )
    .unwrap()
}

#[test]
fn describe_missing_method() {
    let source = r#"
            function not_description()
                return "Sends mail"
            end
        "#;
    let result = LuaEngine::describe(source);
    assert!(result.is_err());
    assert_eq!(ScriptErrorKind::MissingEntryPoint, result.err().unwrap().kind);
}

#[test]
fn describe_invalid_string() {
    let source = r#"
            function description()
            end
        "#;
    let result = LuaEngine::describe(source);
    assert!(result.is_err());
}

#[test]
fn describe_valid_command() {
    let source = r#"
            function description()
                return "Sends mail"
            end
        "#;
    let result = LuaEngine::describe(source).ok().unwrap();
    assert_eq!(String::from("Sends mail"), result);
}

#[test]
fn describe_syntax_error() {
    let result = LuaEngine::describe("function description( end");
    let err = result.err().unwrap();
    assert_eq!(ScriptErrorKind::SyntaxError, err.kind);
    assert!(err.description.starts_with("script parsing failed: "));
}

#[test]
fn execute_returns_run_result() {
    let engine = test_engine();
    let ui = TestUI::with_files(engine, vec![]);
    let source = r#"
            function run()
                return true
            end
        "#;
    let result = LuaEngine::execute(source, vec![], &ui, "config.toml");
    assert_eq!(true, result.ok().unwrap());
}

#[test]
fn execute_missing_run() {
    let engine = test_engine();
    let ui = TestUI::with_files(engine, vec![]);
    let result = LuaEngine::execute("x = 1", vec![], &ui, "config.toml");
    let err = result.err().unwrap();
    assert_eq!(ScriptErrorKind::MissingEntryPoint, err.kind);
    assert_eq!("'run' method missing", err.description);
}

#[test]
fn execute_sees_arguments_and_sentinel() {
    let engine = test_engine();
    let ui = TestUI::with_files(engine, vec![]);
    let source = r#"
            function run()
                return arguments[1] == "north" and NOT_FOUND == 483600
            end
        "#;
    let result = LuaEngine::execute(source, vec![String::from("north")], &ui, "config.toml");
    assert_eq!(true, result.ok().unwrap());
    assert_eq!(483600, NOT_FOUND);
}

#[test]
fn execute_execution_error() {
    let engine = test_engine();
    let ui = TestUI::with_files(engine, vec![]);
    let source = r#"
            function run()
                error("sad")
            end
        "#;
    let err = LuaEngine::execute(source, vec![], &ui, "config.toml").err().unwrap();
    assert_eq!(ScriptErrorKind::ExecutionError, err.kind);
    assert!(err.description.starts_with("script failed to execute: "));
}

#[test]
fn execute_calls_host_functions() {
    let engine = test_engine();
    let ui = TestUI::with_files(engine, vec![]);
    let source = r#"
            function run()
                copy("hello")
                return config_file_path == "config.toml"
            end
        "#;
    let result = LuaEngine::execute(source, vec![], &ui, "config.toml");
    assert_eq!(true, result.ok().unwrap());
    assert_eq!(vec![String::from("hello")], *ui.copied.borrow());
}

#[test]
fn execute_config_lookup_host_function() {
    let engine = test_engine();
    let ui = TestUI::with_files(
        engine,
        vec![("other.toml", "[general]\nprivate-browsing = true\n")],
    );
    let source = r#"
            function run()
                return lookup_bool("other.toml", "general.private-browsing")
            end
        "#;
    let result = LuaEngine::execute(source, vec![], &ui, "config.toml");
    assert_eq!(true, result.ok().unwrap());
}

#[test]
fn autocomplete_empty_string_yields_empty_list() {
    let engine = test_engine();
    let ui = TestUI::with_files(engine, vec![]);
    let source = r#"
            function complete_command()
                return ""
            end
        "#;
    let result = LuaEngine::autocomplete(source, vec![], "pre", &ui, "config.toml");
    assert_eq!(Vec::<String>::new(), result.ok().unwrap());
}

#[test]
fn autocomplete_splits_on_commas() {
    let engine = test_engine();
    let ui = TestUI::with_files(engine, vec![]);
    let source = r#"
            function complete_command()
                return prefix .. "a," .. prefix .. "b"
            end
        "#;
    let result = LuaEngine::autocomplete(source, vec![], "x", &ui, "config.toml");
    assert_eq!(vec![String::from("xa"), String::from("xb")], result.ok().unwrap());
}

#[test]
fn autocomplete_wrong_type() {
    let engine = test_engine();
    let ui = TestUI::with_files(engine, vec![]);
    let source = r#"
            function complete_command()
                return 14
            end
        "#;
    let err = LuaEngine::autocomplete(source, vec![], "x", &ui, "config.toml").err().unwrap();
    assert_eq!(ScriptErrorKind::WrongType, err.kind);
    assert_eq!("Return type is not an string", err.description);
}

#[test]
fn coerce_lua_array_cases() {
    assert_eq!(
        Vec::<String>::new(),
        coerce_lua_array(ScriptValue::Str(String::new())).ok().unwrap()
    );
    assert_eq!(
        vec![String::from("a"), String::from("b")],
        coerce_lua_array(ScriptValue::Str(String::from("a,b"))).ok().unwrap()
    );
    let err = coerce_lua_array(ScriptValue::Other).err().unwrap();
    assert_eq!(ScriptErrorKind::WrongType, err.kind);
}

#[test]
fn buffer_event_entry_points() {
    let engine = test_engine();
    let ui = TestUI::with_files(engine, vec![]);
    let source = r#"
            function on_load_uri()
            end
        "#;
    let ok = LuaEngine::on_buffer_event(
        source,
        &ui,
        "config.toml",
        0,
        0,
        Some("http://example.com"),
        &BufferEvent::Load,
    );
    assert!(ok.is_ok());
    let missing = LuaEngine::on_buffer_event(
        source,
        &ui,
        "config.toml",
        0,
        0,
        None,
        &BufferEvent::Focus,
    );
    let err = missing.err().unwrap();
    assert_eq!(ScriptErrorKind::MissingEntryPoint, err.kind);
    assert_eq!("'on_focus' method missing", err.description);
}

#[test]
fn fail_event_sees_error_message() {
    let engine = test_engine();
    let ui = TestUI::with_files(engine, vec![]);
    let source = r#"
            function on_fail_uri()
                copy(error_message)
            end
        "#;
    let ok = LuaEngine::on_buffer_event(
        source,
        &ui,
        "config.toml",
        1,
        2,
        Some("http://example.com"),
        &BufferEvent::Fail(String::from("bad tls")),
    );
    assert!(ok.is_ok());
    assert_eq!(vec![String::from("bad tls")], *ui.copied.borrow());
}

#[test]
fn file_extension_is_lua() {
    assert_eq!("lua", LuaEngine::file_extension());
}

#[test]
fn execute_string_lookup_host_function() {
    let engine = test_engine();
    let ui = TestUI::with_files(
        engine,
        vec![("other.toml", "[general]\nstart-page = \"https://k.example\"\n")],
    );
    let source = r#"
            function run()
                return lookup_string("other.toml", "general.start-page") == "https://k.example"
            end
        "#;
    let result = LuaEngine::execute(source, vec![], &ui, "config.toml");
    assert_eq!(true, result.ok().unwrap());
}
