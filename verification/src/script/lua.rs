//! The embedded Lua runtime behind the scripting bridge.
//!
//! Every invocation builds a fresh interpreter, registers the host API —
//! bound to the UI capability for the duration of the call — evaluates the
//! script text, and invokes one well-known entry point. Each call into the
//! interpreter stands behind a trusted wrapper; what comes back is
//! classified and coerced by the verified functions of [`super`].

use std::io::Write;
use vstd::prelude::*;

use super::{
    coerce_lua_array, event_entry_point, missing_message, resolve_script_output, RuntimeFailure,
    ScriptError, ScriptResult, ScriptValue, ScriptingEngine, NOT_FOUND,
};
use crate::ui::{ApplicationUI, BufferEvent, WindowArea};

verus! {

/// The embedded Lua runtime: scripts are `.lua` files run in a fresh
/// interpreter per invocation.
#[allow(dead_code)]
pub struct LuaEngine;

/// The file extension of Lua command scripts.
pub const FILE_EXTENSION: &'static str = "lua";

#[verifier::external_type_specification]
#[verifier::external_body]
pub struct ExLua<'lua>(hlua::Lua<'lua>);

#[verifier::external_type_specification]
#[verifier::external_body]
pub struct ExLuaError(hlua::LuaError);

/// One outcome of invoking a named entry point: the global is not a
/// function, the call failed, or it returned a value. Looking the function
/// up and calling it stand behind one wrapper, since the looked-up function
/// value borrows the interpreter mutably and cannot stand in a verified
/// signature of its own.
pub enum CallOutcome<T> {
    Missing,
    Failed(RuntimeFailure),
    Value(T),
}

/// `None` in place of the numeric sentinel scripts use for "no index".
pub fn coerce_optional_index(value: u32) -> (r: Option<u32>)
    ensures
        r == if value == NOT_FOUND {
            None::<u32>
        } else {
            Some(value)
        },
{
    if value == NOT_FOUND {
        None
    } else {
        Some(value)
    }
}

/// `None` in place of the empty string scripts use for "no value".
pub fn coerce_optional_str(value: String) -> (r: Option<String>)
    ensures
        match r {
            Some(s) => s@ == value@ && value@.len() > 0,
            None => value@.len() == 0,
        },
{
    if value.as_str().unicode_len() == 0 {
        None
    } else {
        Some(value)
    }
}

/// The numeric sentinel in place of `None`, for scripts without optionals.
pub fn index_or_not_found(value: Option<u32>) -> (r: u32)
    ensures
        r == match value {
            Some(i) => i,
            None => NOT_FOUND,
        },
{
    match value {
        Some(i) => i,
        None => NOT_FOUND,
    }
}

/// Converts the runtime's error into the library's classification, arm for
/// arm; the read error's text is rendered.
#[verifier::external_body]
fn convert_lua_error(e: hlua::LuaError) -> RuntimeFailure {
    match e {
        hlua::LuaError::SyntaxError(s) => RuntimeFailure::Syntax(s),
        hlua::LuaError::ExecutionError(s) => RuntimeFailure::Execution(s),
        hlua::LuaError::ReadError(e) => RuntimeFailure::Read(format!("{}", e)),
        hlua::LuaError::WrongType => RuntimeFailure::WrongType,
    }
}

/// Relies on hlua's `Lua::new`: builds a fresh, empty Lua context.
#[verifier::external_body]
fn lua_new<'l>() -> hlua::Lua<'l> {
    hlua::Lua::new()
}

/// Relies on hlua's `Lua::openlibs`: opens the Lua standard libraries.
#[verifier::external_body]
fn lua_openlibs(lua: &mut hlua::Lua) {
    lua.openlibs();
}

/// Relies on hlua's `Lua::execute`: evaluates the script text at the top
/// level, defining its functions.
#[verifier::external_body]
fn lua_load(lua: &mut hlua::Lua, code: &str) -> Result<(), RuntimeFailure> {
    lua.execute::<()>(code).map_err(convert_lua_error)
}

/// Relies on hlua's `Lua::set`: binds a global number.
#[verifier::external_body]
fn lua_set_u32(lua: &mut hlua::Lua, name: &str, value: u32) {
    lua.set(name, value);
}

/// Relies on hlua's `Lua::set`: binds a global string.
#[verifier::external_body]
fn lua_set_string(lua: &mut hlua::Lua, name: &str, value: String) {
    lua.set(name, value);
}

/// Relies on hlua's `Lua::set`: binds a global string list.
#[verifier::external_body]
fn lua_set_strings(lua: &mut hlua::Lua, name: &str, value: Vec<String>) {
    lua.set(name, value);
}

/// Relies on hlua's `Lua::get` and `LuaFunction::call`: invokes a global
/// function with no arguments, expecting a boolean.
#[verifier::external_body]
fn lua_call_bool(lua: &mut hlua::Lua, name: &str) -> CallOutcome<bool> {
    let f: Option<hlua::LuaFunction<_>> = lua.get(name);
    match f {
        None => CallOutcome::Missing,
        Some(mut f) => match f.call::<bool>() {
            Ok(v) => CallOutcome::Value(v),
            Err(e) => CallOutcome::Failed(convert_lua_error(e)),
        },
    }
}

/// Relies on hlua's `Lua::get` and `LuaFunction::call`: invokes a global
/// function with no arguments, expecting a string.
#[verifier::external_body]
fn lua_call_string(lua: &mut hlua::Lua, name: &str) -> CallOutcome<String> {
    let f: Option<hlua::LuaFunction<_>> = lua.get(name);
    match f {
        None => CallOutcome::Missing,
        Some(mut f) => match f.call::<String>() {
            Ok(v) => CallOutcome::Value(v),
            Err(e) => CallOutcome::Failed(convert_lua_error(e)),
        },
    }
}

/// Relies on hlua's `Lua::get` and `LuaFunction::call`: invokes a global
/// function with no arguments, expecting nothing back.
#[verifier::external_body]
fn lua_call_unit(lua: &mut hlua::Lua, name: &str) -> CallOutcome<()> {
    let f: Option<hlua::LuaFunction<_>> = lua.get(name);
    match f {
        None => CallOutcome::Missing,
        Some(mut f) => match f.call::<()>() {
            Ok(v) => CallOutcome::Value(v),
            Err(e) => CallOutcome::Failed(convert_lua_error(e)),
        },
    }
}

/// Relies on hlua's `Lua::get` and `LuaFunction::call`: invokes a global
/// function with no arguments, keeping a string result and folding any
/// other value to `Other`.
#[verifier::external_body]
fn lua_call_value(lua: &mut hlua::Lua, name: &str) -> CallOutcome<ScriptValue> {
    let f: Option<hlua::LuaFunction<_>> = lua.get(name);
    match f {
        None => CallOutcome::Missing,
        Some(mut f) => match f.call::<hlua::AnyLuaValue>() {
            Ok(hlua::AnyLuaValue::LuaString(s)) => CallOutcome::Value(ScriptValue::Str(s)),
            Ok(_) => CallOutcome::Value(ScriptValue::Other),
            Err(e) => CallOutcome::Failed(convert_lua_error(e)),
        },
    }
}

} // verus!

verus! {
/// Open a window for a script: the empty string asks for no start page.
fn open_window_opt<T: ApplicationUI>(ui: &T, uri: String) -> u32 {
    match coerce_optional_str(uri) {
        Some(u) => ui.open_window(Some(u.as_str())),
        None => ui.open_window(None),
    }
}

/// Open a webview for a script: the empty string asks for no start page.
fn open_webview_opt<T: ApplicationUI>(ui: &T, window_index: u32, uri: String) {
    match coerce_optional_str(uri) {
        Some(u) => ui.open_webview(window_index, Some(u.as_str())),
        None => ui.open_webview(window_index, None),
    }
}
/// Relies on hlua's `Lua::set`: binds the `log_info` host function, which
/// prints a script's log line.
#[verifier::external_body]
fn reg_log_info(lua: &mut hlua::Lua) {
    lua.set("log_info", hlua::function1(move |message: String| { let _ = writeln!(std::io::stderr(), "{}", message); }));
}
/// Relies on hlua's `Lua::set`: binds the `log_debug` host function, which
/// prints a script's debug line.
#[verifier::external_body]
fn reg_log_debug(lua: &mut hlua::Lua) {
    lua.set("log_debug", hlua::function1(move |message: String| { let _ = writeln!(std::io::stderr(), "{}", message); }));
}
/// Relies on hlua's `Lua::set`: binds the `copy` host function, which
/// hands text to the UI clipboard.
#[verifier::external_body]
fn reg_copy<'lua, T: ApplicationUI>(lua: &mut hlua::Lua<'lua>, ui: &'lua T) {
    lua.set("copy", hlua::function1(move |text: String| ui.copy(&text)));
}
/// Relies on hlua's `Lua::set`: binds the `run_command` host function, which
/// runs another command through the engine.
#[verifier::external_body]
fn reg_run_command<'lua, T: ApplicationUI>(lua: &mut hlua::Lua<'lua>, ui: &'lua T) {
    lua.set("run_command", hlua::function2(move |window_index: u32, command: String| ui.run_command(coerce_optional_index(window_index), &command)));
}
/// Relies on hlua's `Lua::set`: binds the `focus_window` host function, which
/// focuses a window.
#[verifier::external_body]
fn reg_focus_window<'lua, T: ApplicationUI>(lua: &mut hlua::Lua<'lua>, ui: &'lua T) {
    lua.set("focus_window", hlua::function1(move |index: u32| ui.focus_window(index)));
}
/// Relies on hlua's `Lua::set`: binds the `focus_webview_in_window` host function, which
/// moves keyboard focus to a window's webview area.
#[verifier::external_body]
fn reg_focus_webview_in_window<'lua, T: ApplicationUI>(lua: &mut hlua::Lua<'lua>, ui: &'lua T) {
    lua.set("focus_webview_in_window", hlua::function1(move |index: u32| ui.focus_window_area(index, WindowArea::WebView)));
}
/// Relies on hlua's `Lua::set`: binds the `focus_commandbar_in_window` host function, which
/// moves keyboard focus to a window's command bar.
#[verifier::external_body]
fn reg_focus_commandbar_in_window<'lua, T: ApplicationUI>(lua: &mut hlua::Lua<'lua>, ui: &'lua T) {
    lua.set("focus_commandbar_in_window", hlua::function1(move |index: u32| ui.focus_window_area(index, WindowArea::CommandBar)));
}
/// Relies on hlua's `Lua::set`: binds the `open_window` host function, which
/// opens a window.
#[verifier::external_body]
fn reg_open_window<'lua, T: ApplicationUI>(lua: &mut hlua::Lua<'lua>, ui: &'lua T) {
    lua.set("open_window", hlua::function1(move |uri: String| open_window_opt(ui, uri)));
}
/// Relies on hlua's `Lua::set`: binds the `close_window` host function, which
/// closes a window.
#[verifier::external_body]
fn reg_close_window<'lua, T: ApplicationUI>(lua: &mut hlua::Lua<'lua>, ui: &'lua T) {
    lua.set("close_window", hlua::function1(move |window_index: u32| ui.close_window(window_index)));
}
/// Relies on hlua's `Lua::set`: binds the `window_count` host function, which
/// counts open windows.
#[verifier::external_body]
fn reg_window_count<'lua, T: ApplicationUI>(lua: &mut hlua::Lua<'lua>, ui: &'lua T) {
    lua.set("window_count", hlua::function0(move || ui.window_count()));
}
/// Relies on hlua's `Lua::set`: binds the `focused_window_index` host function, which
/// yields the focused window index or the sentinel.
#[verifier::external_body]
fn reg_focused_window_index<'lua, T: ApplicationUI>(lua: &mut hlua::Lua<'lua>, ui: &'lua T) {
    lua.set("focused_window_index", hlua::function0(move || index_or_not_found(ui.focused_window_index())));
}
/// Relies on hlua's `Lua::set`: binds the `window_title` host function, which
/// reads a window title.
#[verifier::external_body]
fn reg_window_title<'lua, T: ApplicationUI>(lua: &mut hlua::Lua<'lua>, ui: &'lua T) {
    lua.set("window_title", hlua::function1(move |window_index: u32| ui.window_title(window_index)));
}
/// Relies on hlua's `Lua::set`: binds the `set_window_title` host function, which
/// sets a window title.
#[verifier::external_body]
fn reg_set_window_title<'lua, T: ApplicationUI>(lua: &mut hlua::Lua<'lua>, ui: &'lua T) {
    lua.set("set_window_title", hlua::function2(move |window_index: u32, title: String| ui.set_window_title(window_index, &title)));
}
/// Relies on hlua's `Lua::set`: binds the `hide_window` host function, which
/// hides a window.
#[verifier::external_body]
fn reg_hide_window<'lua, T: ApplicationUI>(lua: &mut hlua::Lua<'lua>, ui: &'lua T) {
    lua.set("hide_window", hlua::function1(move |window_index: u32| ui.toggle_window(window_index, false)));
}
/// Relies on hlua's `Lua::set`: binds the `show_window` host function, which
/// shows a window.
#[verifier::external_body]
fn reg_show_window<'lua, T: ApplicationUI>(lua: &mut hlua::Lua<'lua>, ui: &'lua T) {
    lua.set("show_window", hlua::function1(move |window_index: u32| ui.toggle_window(window_index, true)));
}
/// Relies on hlua's `Lua::set`: binds the `open_webview` host function, which
/// opens a webview in a window.
#[verifier::external_body]
fn reg_open_webview<'lua, T: ApplicationUI>(lua: &mut hlua::Lua<'lua>, ui: &'lua T) {
    lua.set("open_webview", hlua::function2(move |window_index: u32, uri: String| open_webview_opt(ui, window_index, uri)));
}
/// Relies on hlua's `Lua::set`: binds the `webview_count` host function, which
/// counts a window's webviews.
#[verifier::external_body]
fn reg_webview_count<'lua, T: ApplicationUI>(lua: &mut hlua::Lua<'lua>, ui: &'lua T) {
    lua.set("webview_count", hlua::function1(move |window_index: u32| ui.webview_count(window_index)));
}
/// Relies on hlua's `Lua::set`: binds the `set_command_field_visible` host function, which
/// shows or hides a command bar.
#[verifier::external_body]
fn reg_set_command_field_visible<'lua, T: ApplicationUI>(lua: &mut hlua::Lua<'lua>, ui: &'lua T) {
    lua.set("set_command_field_visible", hlua::function2(move |window_index: u32, visible: bool| ui.set_command_field_visible(window_index, visible)));
}
/// Relies on hlua's `Lua::set`: binds the `set_command_field_text` host function, which
/// sets command bar text.
#[verifier::external_body]
fn reg_set_command_field_text<'lua, T: ApplicationUI>(lua: &mut hlua::Lua<'lua>, ui: &'lua T) {
    lua.set("set_command_field_text", hlua::function2(move |window_index: u32, text: String| ui.set_command_field_text(window_index, &text)));
}
/// Relies on hlua's `Lua::set`: binds the `command_field_visible` host function, which
/// reads whether a command bar is visible.
#[verifier::external_body]
fn reg_command_field_visible<'lua, T: ApplicationUI>(lua: &mut hlua::Lua<'lua>, ui: &'lua T) {
    lua.set("command_field_visible", hlua::function1(move |window_index: u32| ui.command_field_visible(window_index)));
}
/// Relies on hlua's `Lua::set`: binds the `command_field_text` host function, which
/// reads command bar text.
#[verifier::external_body]
fn reg_command_field_text<'lua, T: ApplicationUI>(lua: &mut hlua::Lua<'lua>, ui: &'lua T) {
    lua.set("command_field_text", hlua::function1(move |window_index: u32| ui.command_field_text(window_index)));
}
/// Relies on hlua's `Lua::set`: binds the `focused_webview_index` host function, which
/// yields a window's visible webview index or the sentinel.
#[verifier::external_body]
fn reg_focused_webview_index<'lua, T: ApplicationUI>(lua: &mut hlua::Lua<'lua>, ui: &'lua T) {
    lua.set("focused_webview_index", hlua::function1(move |window_index: u32| index_or_not_found(ui.focused_webview_index(window_index))));
}
/// Relies on hlua's `Lua::set`: binds the `resize_window` host function, which
/// resizes a window.
#[verifier::external_body]
fn reg_resize_window<'lua, T: ApplicationUI>(lua: &mut hlua::Lua<'lua>, ui: &'lua T) {
    lua.set("resize_window", hlua::function3(move |window_index: u32, width: u32, height: u32| ui.resize_window(window_index, width, height)));
}
/// Relies on hlua's `Lua::set`: binds the `close_webview` host function, which
/// closes a webview.
#[verifier::external_body]
fn reg_close_webview<'lua, T: ApplicationUI>(lua: &mut hlua::Lua<'lua>, ui: &'lua T) {
    lua.set("close_webview", hlua::function2(move |window_index: u32, webview_index: u32| ui.close_webview(window_index, webview_index)));
}
/// Relies on hlua's `Lua::set`: binds the `reload_webview` host function, which
/// reloads a webview.
#[verifier::external_body]
fn reg_reload_webview<'lua, T: ApplicationUI>(lua: &mut hlua::Lua<'lua>, ui: &'lua T) {
    lua.set("reload_webview", hlua::function3(move |window_index: u32, webview_index: u32, disable_filters: bool| ui.reload_webview(window_index, webview_index, disable_filters)));
}
/// Relies on hlua's `Lua::set`: binds the `focus_webview` host function, which
/// focuses a webview.
#[verifier::external_body]
fn reg_focus_webview<'lua, T: ApplicationUI>(lua: &mut hlua::Lua<'lua>, ui: &'lua T) {
    lua.set("focus_webview", hlua::function2(move |window_index: u32, webview_index: u32| ui.focus_webview(window_index, webview_index)));
}
/// Relies on hlua's `Lua::set`: binds the `load_uri` host function, which
/// loads a URI in a webview.
#[verifier::external_body]
fn reg_load_uri<'lua, T: ApplicationUI>(lua: &mut hlua::Lua<'lua>, ui: &'lua T) {
    lua.set("load_uri", hlua::function3(move |window_index: u32, webview_index: u32, uri: String| ui.set_uri(window_index, webview_index, &uri)));
}
/// Relies on hlua's `Lua::set`: binds the `go_back` host function, which
/// goes back in a webview's history.
#[verifier::external_body]
fn reg_go_back<'lua, T: ApplicationUI>(lua: &mut hlua::Lua<'lua>, ui: &'lua T) {
    lua.set("go_back", hlua::function2(move |window_index: u32, webview_index: u32| { ui.go_back(window_index, webview_index); }));
}
/// Relies on hlua's `Lua::set`: binds the `go_forward` host function, which
/// goes forward in a webview's history.
#[verifier::external_body]
fn reg_go_forward<'lua, T: ApplicationUI>(lua: &mut hlua::Lua<'lua>, ui: &'lua T) {
    lua.set("go_forward", hlua::function2(move |window_index: u32, webview_index: u32| { ui.go_forward(window_index, webview_index); }));
}
/// Relies on hlua's `Lua::set`: binds the `webview_uri` host function, which
/// reads a webview's URI.
#[verifier::external_body]
fn reg_webview_uri<'lua, T: ApplicationUI>(lua: &mut hlua::Lua<'lua>, ui: &'lua T) {
    lua.set("webview_uri", hlua::function2(move |window_index: u32, webview_index: u32| ui.uri(window_index, webview_index)));
}
/// Relies on hlua's `Lua::set`: binds the `webview_title` host function, which
/// reads a webview's page title.
#[verifier::external_body]
fn reg_webview_title<'lua, T: ApplicationUI>(lua: &mut hlua::Lua<'lua>, ui: &'lua T) {
    lua.set("webview_title", hlua::function2(move |window_index: u32, webview_index: u32| ui.webview_title(window_index, webview_index)));
}
/// Relies on hlua's `Lua::set`: binds the `find` host function, which
/// finds a string in a webview.
#[verifier::external_body]
fn reg_find<'lua, T: ApplicationUI>(lua: &mut hlua::Lua<'lua>, ui: &'lua T) {
    lua.set("find", hlua::function3(move |window_index: u32, webview_index: u32, query: String| ui.find_string(window_index, webview_index, &query)));
}
/// Relies on hlua's `Lua::set`: binds the `hide_find` host function, which
/// hides find results.
#[verifier::external_body]
fn reg_hide_find<'lua, T: ApplicationUI>(lua: &mut hlua::Lua<'lua>, ui: &'lua T) {
    lua.set("hide_find", hlua::function2(move |window_index: u32, webview_index: u32| ui.hide_find_results(window_index, webview_index)));
}
/// Relies on hlua's `Lua::set`: binds the `run_javascript` host function, which
/// runs JavaScript in a webview.
#[verifier::external_body]
fn reg_run_javascript<'lua, T: ApplicationUI>(lua: &mut hlua::Lua<'lua>, ui: &'lua T) {
    lua.set("run_javascript", hlua::function3(move |window_index: u32, webview_index: u32, script: String| ui.run_javascript(window_index, webview_index, &script)));
}
/// Relies on hlua's `Lua::set`: binds the `add_styles` host function, which
/// applies styles to a webview.
#[verifier::external_body]
fn reg_add_styles<'lua, T: ApplicationUI>(lua: &mut hlua::Lua<'lua>, ui: &'lua T) {
    lua.set("add_styles", hlua::function3(move |window_index: u32, webview_index: u32, styles: String| ui.apply_styles(window_index, webview_index, &styles)));
}
/// Relies on hlua's `Lua::set`: binds the `lookup_bool` host function, which
/// looks a boolean up in a configuration file the host reads.
#[verifier::external_body]
fn reg_lookup_bool<'lua, T: ApplicationUI>(lua: &mut hlua::Lua<'lua>, ui: &'lua T) {
    lua.set("lookup_bool", hlua::function2(move |config_path: String, key: String| crate::config::lookup_bool_in(ui.read_file(&config_path), &key)));
}
/// Relies on hlua's `Lua::set`: binds the `lookup_strings` host function, which
/// looks a string list up in a configuration file the host reads.
#[verifier::external_body]
fn reg_lookup_strings<'lua, T: ApplicationUI>(lua: &mut hlua::Lua<'lua>, ui: &'lua T) {
    lua.set("lookup_strings", hlua::function2(move |config_path: String, key: String| crate::config::lookup_str_vec_in(ui.read_file(&config_path), crate::config::system_home_dir(), &key)));
}
/// Relies on hlua's `Lua::set`: binds the `lookup_string` host function, which
/// looks a string up in a configuration file the host reads.
#[verifier::external_body]
fn reg_lookup_string<'lua, T: ApplicationUI>(lua: &mut hlua::Lua<'lua>, ui: &'lua T) {
    lua.set("lookup_string", hlua::function2(move |config_path: String, key: String| crate::config::lookup_str_in(ui.read_file(&config_path), crate::config::system_home_dir(), &key)));
}
/// Build one fresh runtime for one invocation: the standard libraries, the
/// sentinel, the configuration path, and the whole host API, bound to `ui`.
fn create_runtime<'lua, T: ApplicationUI>(ui: &'lua T, config_path: String) -> hlua::Lua<'lua> {
    let mut lua = lua_new();
    lua_openlibs(&mut lua);
    lua_set_u32(&mut lua, "NOT_FOUND", NOT_FOUND);
    lua_set_string(&mut lua, "config_file_path", config_path);
    reg_log_info(&mut lua);
    reg_log_debug(&mut lua);
    reg_copy(&mut lua, ui);
    reg_run_command(&mut lua, ui);
    reg_focus_window(&mut lua, ui);
    reg_focus_webview_in_window(&mut lua, ui);
    reg_focus_commandbar_in_window(&mut lua, ui);
    reg_open_window(&mut lua, ui);
    reg_close_window(&mut lua, ui);
    reg_window_count(&mut lua, ui);
    reg_focused_window_index(&mut lua, ui);
    reg_window_title(&mut lua, ui);
    reg_set_window_title(&mut lua, ui);
    reg_hide_window(&mut lua, ui);
    reg_show_window(&mut lua, ui);
    reg_open_webview(&mut lua, ui);
    reg_webview_count(&mut lua, ui);
    reg_set_command_field_visible(&mut lua, ui);
    reg_set_command_field_text(&mut lua, ui);
    reg_command_field_visible(&mut lua, ui);
    reg_command_field_text(&mut lua, ui);
    reg_focused_webview_index(&mut lua, ui);
    reg_resize_window(&mut lua, ui);
    reg_close_webview(&mut lua, ui);
    reg_reload_webview(&mut lua, ui);
    reg_focus_webview(&mut lua, ui);
    reg_load_uri(&mut lua, ui);
    reg_go_back(&mut lua, ui);
    reg_go_forward(&mut lua, ui);
    reg_webview_uri(&mut lua, ui);
    reg_webview_title(&mut lua, ui);
    reg_find(&mut lua, ui);
    reg_hide_find(&mut lua, ui);
    reg_run_javascript(&mut lua, ui);
    reg_add_styles(&mut lua, ui);
    reg_lookup_bool(&mut lua, ui);
    reg_lookup_strings(&mut lua, ui);
    reg_lookup_string(&mut lua, ui);
    lua
}

} // verus!

verus! {

impl ScriptingEngine for LuaEngine {
    fn file_extension() -> (r: &'static str)
        ensures
            r@ == "lua"@,
    {
        proof {
            reveal_strlit("lua");
        }
        FILE_EXTENSION
    }

    fn describe(source: &str) -> ScriptResult<String> {
        let mut lua = lua_new();
        match lua_load(&mut lua, source) {
            Err(f) => {
                proof {
                    super::lemma_failure_kind_not_missing(f);
                }
                Err(ScriptError::from_failure("script parsing failed", f))
            },
            Ok(()) => match lua_call_string(&mut lua, "description") {
                CallOutcome::Missing => Err(
                    ScriptError::missing_entry_point(missing_message("description").as_str()),
                ),
                CallOutcome::Failed(f) => {
                    proof {
                        super::lemma_failure_kind_not_missing(f);
                    }
                    resolve_script_output::<String>(Err(f))
                },
                CallOutcome::Value(v) => resolve_script_output::<String>(Ok(v)),
            },
        }
    }

    fn execute<T: ApplicationUI>(
        source: &str,
        arguments: Vec<String>,
        ui: &T,
        config_path: &str,
    ) -> ScriptResult<bool> {
        let mut lua = create_runtime(ui, config_path.to_owned());
        lua_set_strings(&mut lua, "arguments", arguments);
        match lua_load(&mut lua, source) {
            Err(f) => {
                proof {
                    super::lemma_failure_kind_not_missing(f);
                }
                Err(ScriptError::from_failure("script parsing failed", f))
            },
            Ok(()) => match lua_call_bool(&mut lua, "run") {
                CallOutcome::Missing => Err(
                    ScriptError::missing_entry_point(missing_message("run").as_str()),
                ),
                CallOutcome::Failed(f) => {
                    proof {
                        super::lemma_failure_kind_not_missing(f);
                    }
                    resolve_script_output::<bool>(Err(f))
                },
                CallOutcome::Value(v) => resolve_script_output::<bool>(Ok(v)),
            },
        }
    }

    fn autocomplete<T: ApplicationUI>(
        source: &str,
        arguments: Vec<String>,
        prefix: &str,
        ui: &T,
        config_path: &str,
    ) -> ScriptResult<Vec<String>> {
        let mut lua = create_runtime(ui, config_path.to_owned());
        lua_set_string(&mut lua, "prefix", prefix.to_owned());
        lua_set_strings(&mut lua, "arguments", arguments);
        match lua_load(&mut lua, source) {
            Err(f) => {
                proof {
                    super::lemma_failure_kind_not_missing(f);
                }
                Err(ScriptError::from_failure("script parsing failed", f))
            },
            Ok(()) => match lua_call_value(&mut lua, "complete_command") {
                CallOutcome::Missing => Err(
                    ScriptError::missing_entry_point(missing_message("complete_command").as_str()),
                ),
                CallOutcome::Failed(f) => {
                    proof {
                        super::lemma_failure_kind_not_missing(f);
                    }
                    Err(ScriptError::from_failure("script failed to execute", f))
                },
                CallOutcome::Value(v) => {
                    let ghost gv = v;
                    let r = coerce_lua_array(v);
                    proof {
                        if r is Ok {
                            match gv {
                                ScriptValue::Str(s) => {
                                    assert(super::spec_completions(ScriptValue::Str(s)) == Ok::<
                                        Seq<Seq<char>>,
                                        super::ScriptErrorKind,
                                    >(crate::strutil::views(r->Ok_0@)));
                                },
                                ScriptValue::Other => {},
                            }
                        }
                    }
                    r
                },
            },
        }
    }

    fn on_buffer_event<T: ApplicationUI>(
        source: &str,
        ui: &T,
        config_path: &str,
        window_index: u32,
        webview_index: u32,
        requested_uri: Option<&str>,
        event: &BufferEvent,
    ) -> ScriptResult<()> {
        let mut lua = create_runtime(ui, config_path.to_owned());
        match requested_uri {
            Some(u) => lua_set_string(&mut lua, "requested_uri", u.to_owned()),
            None => {},
        }
        lua_set_u32(&mut lua, "webview_index", webview_index);
        lua_set_u32(&mut lua, "window_index", window_index);
        match lua_load(&mut lua, source) {
            Err(f) => {
                proof {
                    super::lemma_failure_kind_not_missing(f);
                }
                Err(ScriptError::from_failure("script parsing failed", f))
            },
            Ok(()) => {
                match event {
                    BufferEvent::Fail(message) => {
                        lua_set_string(&mut lua, "error_message", message.clone());
                    },
                    _ => {},
                }
                let entry = event_entry_point(event);
                match lua_call_unit(&mut lua, entry) {
                    CallOutcome::Missing => Err(
                        ScriptError::missing_entry_point(missing_message(entry).as_str()),
                    ),
                    CallOutcome::Failed(f) => {
                        proof {
                            super::lemma_failure_kind_not_missing(f);
                        }
                        resolve_script_output::<()>(Err(f))
                    },
                    CallOutcome::Value(v) => resolve_script_output::<()>(Ok(v)),
                }
            },
        }
    }
}

} // verus!
