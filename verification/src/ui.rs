//! Types and capability traits at the boundary between the engine and a
//! host user interface.

use vstd::prelude::*;

use crate::strutil::{has_prefix, has_substring, words};

verus! {

/// An area of a browser window that can take keyboard focus.
#[derive(Debug, Clone, Copy, PartialEq, Eq, Structural)]
pub enum WindowArea {
    CommandBar,
    WebView,
}

/// Why a submitted command produced no effect.
#[derive(Debug, Clone, Copy, PartialEq, Eq, Structural)]
pub enum CommandError {
    /// No command matches the given text.
    CommandNotFound,
    /// Command execution halted with an error.
    ErrorDuringExecution,
    /// The provided arguments were invalid in the context of the command.
    InvalidArguments,
    /// There was no command text specified.
    NoCommandSpecified,
}

/// The outcome handed back to the UI after a command submission.
#[derive(Debug)]
pub struct CommandOutput {
    pub error: Option<CommandError>,
    pub message: Option<String>,
}

/// A buffer lifecycle event, as the UI reports it.
#[derive(Debug, Clone, Copy, PartialEq, Eq, Structural)]
pub enum URIEvent {
    Fail,
    Load,
    Request,
}

/// A buffer lifecycle event, as scripts see it: `Fail` carries the error
/// message handed to the script.
#[derive(Debug, PartialEq, Eq)]
pub enum BufferEvent {
    Load,
    Request,
    Focus,
    Fail(String),
}

} // verus!

verus! {

/// The capability surface a host user interface exposes to the engine and
/// to scripts: window and webview lifecycle, navigation, text fields,
/// find-in-page, script and style injection, the clipboard, and the host's
/// file access for command scripts and configuration inspection. Indices
/// are opaque unsigned integers assigned by the UI layer.
pub trait ApplicationUI: Sized {
    /// Create a new UI around an engine.
    fn new(engine: crate::Engine) -> Option<Self>;

    /// The engine handling this UI's events.
    fn event_handler(&self) -> &crate::Engine;

    /// Initialize all needed UI functions.
    fn run(&self);

    /// Copy text to the system clipboard.
    fn copy(&self, text: &str);

    /// The index of the focused window.
    fn focused_window_index(&self) -> Option<u32>;

    /// Number of open windows.
    fn window_count(&self) -> u32;

    /// Open a new window, yielding its index.
    fn open_window(&self, uri: Option<&str>) -> u32;

    /// Close a window.
    fn close_window(&self, index: u32);

    /// Focus the window at an index.
    fn focus_window(&self, index: u32);

    /// Capture keyboard input in the given area of a window.
    fn focus_window_area(&self, index: u32, area: WindowArea);

    /// Set window visibility.
    fn toggle_window(&self, index: u32, visible: bool);

    /// Change the dimensions of a window.
    fn resize_window(&self, window_index: u32, width: u32, height: u32);

    /// Text in the command bar of a window.
    fn command_field_text(&self, window_index: u32) -> String;

    /// Set the text in the command bar of a window.
    fn set_command_field_text(&self, window_index: u32, text: &str);

    /// Whether the command bar of a window is visible.
    fn command_field_visible(&self, window_index: u32) -> bool;

    /// Show or hide the command bar of a window.
    fn set_command_field_visible(&self, window_index: u32, visible: bool);

    /// Title of a window.
    fn window_title(&self, window_index: u32) -> String;

    /// Set the title of a window.
    fn set_window_title(&self, window_index: u32, title: &str);

    /// Index of the webview currently visible in a window.
    fn focused_webview_index(&self, window_index: u32) -> Option<u32>;

    /// Number of webviews in a window.
    fn webview_count(&self, window_index: u32) -> u32;

    /// Open a new webview in a window.
    fn open_webview(&self, window_index: u32, uri: Option<&str>);

    /// Close a webview in a window.
    fn close_webview(&self, window_index: u32, webview_index: u32);

    /// Focus a webview in a window, hiding the current one.
    fn focus_webview(&self, window_index: u32, webview_index: u32);

    /// Reload a webview, optionally without content filters.
    fn reload_webview(&self, window_index: u32, webview_index: u32, disable_filters: bool);

    /// Load a URI in a webview.
    fn set_uri(&self, window_index: u32, webview_index: u32, uri: &str);

    /// Go back to the previously loaded resource in a webview.
    fn go_back(&self, window_index: u32, webview_index: u32) -> bool;

    /// Go forward to the next loaded resource in a webview.
    fn go_forward(&self, window_index: u32, webview_index: u32) -> bool;

    /// The currently loaded URI, or the empty string.
    fn uri(&self, window_index: u32, webview_index: u32) -> String;

    /// Find a string within a webview.
    fn find_string(&self, window_index: u32, webview_index: u32, query: &str);

    /// Hide results from a previous find invocation.
    fn hide_find_results(&self, window_index: u32, webview_index: u32);

    /// The title of the currently loaded page, or the empty string.
    fn webview_title(&self, window_index: u32, webview_index: u32) -> String;

    /// Run a JavaScript snippet in a webview.
    fn run_javascript(&self, window_index: u32, webview_index: u32, script: &str);

    /// Apply a stylesheet to a webview.
    fn apply_styles(&self, window_index: u32, webview_index: u32, styles: &str);

    /// Run another command through the engine, as a script asks.
    fn run_command(&self, window_index: Option<u32>, text: &str);

    /// Read a text file the host can reach: configuration documents that
    /// scripts ask to inspect, and command script sources.
    fn read_file(&self, path: &str) -> Option<String>;

    /// Whether a file exists at a path the host can reach.
    fn file_exists(&self, path: &str) -> bool;

    /// The names of the files in a directory the host can reach; empty for
    /// a directory that cannot be read.
    fn list_files(&self, dir: &str) -> Vec<String>;
}

/// The engine surface a host user interface raises events against.
pub trait EventHandler {
    /// Handle a Return key press within the command bar. Text holding no
    /// words is rejected before anything is resolved or run.
    fn execute_command<T: ApplicationUI>(
        &self,
        ui: &T,
        window_index: Option<u32>,
        text: &str,
    ) -> (r: CommandOutput)
        ensures
            words(text@).len() == 0 ==> r.error == Some(CommandError::NoCommandSpecified),
    ;

    /// Close the application.
    fn close<T: ApplicationUI>(&self, ui: &T);

    /// Get available commands and/or arguments given a prefix. A prefix
    /// holding no blank is completed from the command names alone, so every
    /// completion then starts with the prefix; a prefix with a blank is
    /// completed by the named command's script.
    fn command_completions<T: ApplicationUI>(&self, ui: &T, prefix: &str) -> (r: Vec<String>)
        ensures
            !has_substring(prefix@, " "@) ==> (forall|k: int|
                0 <= k < r@.len() ==> has_prefix(#[trigger] r@[k]@, prefix@)),
    ;

    /// Handle a buffer lifecycle event in a webview.
    fn on_uri_event<T: ApplicationUI>(
        &self,
        ui: &T,
        window_index: u32,
        webview_index: u32,
        uri: &str,
        event: URIEvent,
    );

    /// Handle a request to open a URI in a new frame.
    fn on_new_frame_request<T: ApplicationUI>(&self, ui: &T, window_index: u32, uri: &str);
}

} // verus!
