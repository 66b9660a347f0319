//! Core of a scriptable browser shell: command-bar text is resolved against
//! configuration-driven aliases and search paths, loaded as a script file and
//! run inside an embedded scripting runtime that calls back into the host UI.
//!
//! The crate is organised leaf-first: [`strutil`] holds verified text
//! primitives, [`keybinding`] parses chord strings, [`config`] resolves
//! hierarchical configuration with site overlays and path substitution,
//! [`command`] turns command-bar text into a script path plus arguments,
//! [`script`] bridges to the embedded runtime, [`window`] models the
//! windowing state a host drives, and the [`Engine`] orchestrates them.

use vstd::prelude::*;

use crate::script::ScriptingEngine;

pub mod strutil;
pub mod keybinding;
pub mod config;
pub mod ui;
pub mod command;
pub mod window;
pub mod script;
pub mod optparse;

verus! {

/// Application identifier for apps built with this core.
pub const WEBKITTEN_APP_ID: &'static str = "me.delisa.Webkitten";

/// Application title for apps built with this core.
pub const WEBKITTEN_TITLE: &'static str = "webkitten";

} // verus!

verus! {

/// How many single-character prefix rewrites one submission may chain: a
/// configuration whose rewrites cycle is abandoned past this bound rather
/// than looping forever.
pub const REWRITE_LIMIT: usize = 100;

/// The core of the application: holds the live configuration and the
/// static run configuration, and responds to lifecycle and user events
/// raised by the UI.
pub struct Engine {
    pub config: config::Config,
    /// The static run configuration: the configuration file path and the
    /// pages opened on launch.
    pub run_config: optparse::RunConfiguration,
}

impl Engine {
    /// Create a new application engine from the text of the configuration
    /// file named by the run configuration; `None` when it is malformed.
    pub fn new(config_text: &str, runtime: optparse::RunConfiguration) -> (r: Option<Engine>)
        ensures
            r is Some <==> config::toml_document(config_text@) is Some,
            r matches Some(e) ==> Some(e.config.value) == config::toml_document(config_text@)
                && e.run_config == runtime,
    {
        match config::Config::parse(config_text) {
            Some(config) => Some(Engine { config, run_config: runtime }),
            None => None,
        }
    }

    /// Any arguments specified at launch to be opened.
    pub fn initial_pages<'a>(&'a self) -> (r: &'a Vec<String>)
        ensures
            r == self.run_config.start_pages,
    {
        &self.run_config.start_pages
    }

    /// Reload configuration from the configured path, read through the
    /// host: on success the tree is replaced wholesale; on a read or parse
    /// failure the previous configuration stays untouched.
    pub fn reload<T: ui::ApplicationUI>(&mut self, ui: &T) -> (r: bool)
        ensures
            !r ==> final(self).config == old(self).config,
            r ==> (exists|t: Seq<char>| config::toml_document(t) == Some(
                #[trigger] final(self).config.value,
            )),
            r ==> final(self).config.spec_home() == old(self).config.spec_home(),
            final(self).run_config == old(self).run_config,
    {
        match ui.read_file(self.run_config.path.as_str()) {
            Some(text) => {
                let loaded = self.config.load(text.as_str());
                proof {
                    if loaded {
                        assert(config::toml_document(text@) == Some(final(self).config.value));
                    }
                }
                loaded
            },
            None => false,
        }
    }

    /// Whether completion should delegate to a command script: the prefix
    /// already holds a blank, so the command name is settled.
    fn use_argument_completion(&self, prefix: &str) -> (r: bool)
        ensures
            r == crate::strutil::has_substring(prefix@, " "@),
    {
        crate::strutil::contains_str(prefix, " ")
    }
}

} // verus!

verus! {

/// One presence flag per candidate path, probed through the host.
fn probe_present<T: ui::ApplicationUI>(ui: &T, cands: &Vec<String>) -> (r: Vec<bool>)
    ensures
        r@.len() == cands@.len(),
{
    let mut present: Vec<bool> = Vec::new();
    let mut i: usize = 0;
    while i < cands.len()
        invariant
            0 <= i <= cands@.len(),
            present@.len() == i,
        decreases cands@.len() - i,
    {
        present.push(ui.file_exists(cands[i].as_str()));
        i = i + 1;
    }
    present
}

impl Engine {
    /// Chase single-character prefix rewrites, at most `REWRITE_LIMIT`
    /// deep, and yield the settled command text.
    fn apply_prefix_rewrites(&self, text: String) -> String {
        let mut text = text;
        let mut steps: usize = 0;
        while steps < REWRITE_LIMIT
            invariant
                steps <= REWRITE_LIMIT,
            decreases REWRITE_LIMIT - steps,
        {
            match self.config.command_matching_prefix(text.as_str()) {
                Some(rewritten) => {
                    text = rewritten;
                    steps = steps + 1;
                },
                None => {
                    return text;
                },
            }
        }
        text
    }

    /// Resolve `text` to a command script and run it: `None` when no
    /// command matches, so the caller may fall back to the default command.
    fn run_resolved<T: ui::ApplicationUI>(
        &self,
        ui: &T,
        window_index: Option<u32>,
        text: &str,
    ) -> Option<ui::CommandOutput> {
        let cands = match command::Command::candidates(
            text,
            &self.config,
            script::lua::FILE_EXTENSION,
        ) {
            Some(cands) => cands,
            None => {
                return None;
            },
        };
        let present = probe_present(ui, &cands);
        let cmd = match command::Command::parse(
            text,
            &self.config,
            script::lua::FILE_EXTENSION,
            &present,
        ) {
            Some(cmd) => cmd,
            None => {
                return None;
            },
        };
        match ui.read_file(cmd.path.as_str()) {
            Some(source) => {
                match script::lua::LuaEngine::execute(
                    source.as_str(),
                    cmd.arguments,
                    ui,
                    self.run_config.path.as_str(),
                ) {
                    Ok(clear) => {
                        if clear {
                            match window_index {
                                Some(index) => ui.set_command_field_text(index, ""),
                                None => {},
                            }
                        }
                        Some(ui::CommandOutput { error: None, message: None })
                    },
                    Err(e) => Some(
                        ui::CommandOutput {
                            error: Some(ui::CommandError::ErrorDuringExecution),
                            message: Some(e.description),
                        },
                    ),
                }
            },
            None => {
                let e = script::ScriptError::read_failure("command script could not be read");
                Some(
                    ui::CommandOutput {
                        error: Some(ui::CommandError::ErrorDuringExecution),
                        message: Some(e.description),
                    },
                )
            },
        }
    }

    /// The names of the command scripts under the configured search paths
    /// whose names start with `prefix` and resolve to runnable commands.
    fn list_commands<T: ui::ApplicationUI>(&self, ui: &T, prefix: &str) -> (r: Vec<String>)
        ensures
            forall|k: int|
                0 <= k < r@.len() ==> crate::strutil::has_prefix(
                    #[trigger] r@[k]@,
                    prefix@,
                ),
    {
        let mut out: Vec<String> = Vec::new();
        let paths = self.config.command_search_paths();
        let mut suffix = ".".to_owned();
        suffix.append(script::lua::FILE_EXTENSION);
        let mut i: usize = 0;
        while i < paths.len()
            invariant
                forall|k: int|
                    0 <= k < out@.len() ==> crate::strutil::has_prefix(
                        #[trigger] out@[k]@,
                        prefix@,
                    ),
            decreases paths@.len() - i,
        {
            let names = ui.list_files(paths[i].as_str());
            let mut j: usize = 0;
            while j < names.len()
                invariant
                    forall|k: int|
                        0 <= k < out@.len() ==> crate::strutil::has_prefix(
                            #[trigger] out@[k]@,
                            prefix@,
                        ),
                decreases names@.len() - j,
            {
                match crate::strutil::strip_suffix_str(names[j].as_str(), suffix.as_str()) {
                    Some(stem) => {
                        if crate::strutil::starts_with_str(stem.as_str(), prefix) {
                            match self.config.resolved_command_name(stem.as_str()) {
                                Some(_) => {
                                    let ghost prev = out@;
                                    let ghost sv = stem@;
                                    out.push(stem);
                                    proof {
                                        assert(out@[out@.len() - 1]@ == sv);
                                        assert(forall|k: int|
                                            0 <= k < prev.len() ==> out@[k] == prev[k]);
                                    }
                                },
                                None => {},
                            }
                        }
                    },
                    None => {},
                }
                j = j + 1;
            }
            i = i + 1;
        }
        out
    }

    /// Dispatch the configured commands for a buffer lifecycle event, in
    /// configuration-declared order; one failing script does not keep the
    /// rest from running.
    pub fn on_buffer_event<T: ui::ApplicationUI>(
        &self,
        ui: &T,
        window_index: u32,
        webview_index: u32,
        uri: Option<&str>,
        event: &ui::BufferEvent,
    ) {
        let commands = self.config.on_buffer_event_commands(event);
        let mut i: usize = 0;
        while i < commands.len()
            decreases commands@.len() - i,
        {
            let cands = match command::Command::candidates(
                commands[i].as_str(),
                &self.config,
                script::lua::FILE_EXTENSION,
            ) {
                Some(cands) => cands,
                None => {
                    i = i + 1;
                    continue ;
                },
            };
            let present = probe_present(ui, &cands);
            match command::Command::parse(
                commands[i].as_str(),
                &self.config,
                script::lua::FILE_EXTENSION,
                &present,
            ) {
                Some(cmd) => {
                    match ui.read_file(cmd.path.as_str()) {
                        Some(source) => {
                            let _ = script::lua::LuaEngine::on_buffer_event(
                                source.as_str(),
                                ui,
                                self.run_config.path.as_str(),
                                window_index,
                                webview_index,
                                uri,
                                event,
                            );
                        },
                        None => {},
                    }
                },
                None => {},
            }
            i = i + 1;
        }
    }
}

impl ui::EventHandler for Engine {
    fn execute_command<T: ui::ApplicationUI>(
        &self,
        ui: &T,
        window_index: Option<u32>,
        text: &str,
    ) -> ui::CommandOutput {
        let words = crate::strutil::split_words(text);
        if words.len() == 0 {
            return ui::CommandOutput {
                error: Some(ui::CommandError::NoCommandSpecified),
                message: None,
            };
        }
        let text = self.apply_prefix_rewrites(text.to_owned());
        match self.run_resolved(ui, window_index, text.as_str()) {
            Some(output) => output,
            None => {
                match self.config.default_command() {
                    Some(default) => {
                        if !crate::strutil::starts_with_str(text.as_str(), default.as_str()) {
                            let mut composed = default;
                            composed.push(' ');
                            composed.append(text.as_str());
                            let composed = self.apply_prefix_rewrites(composed);
                            match self.run_resolved(ui, window_index, composed.as_str()) {
                                Some(output) => output,
                                None => ui::CommandOutput {
                                    error: Some(ui::CommandError::CommandNotFound),
                                    message: None,
                                },
                            }
                        } else {
                            ui::CommandOutput {
                                error: Some(ui::CommandError::CommandNotFound),
                                message: None,
                            }
                        }
                    },
                    None => ui::CommandOutput {
                        error: Some(ui::CommandError::CommandNotFound),
                        message: None,
                    },
                }
            },
        }
    }

    fn close<T: ui::ApplicationUI>(&self, _ui: &T) {
    }

    fn command_completions<T: ui::ApplicationUI>(&self, ui: &T, prefix: &str) -> Vec<String> {
        if self.use_argument_completion(prefix) {
            let resolved = command::Command::candidates(
                prefix,
                &self.config,
                script::lua::FILE_EXTENSION,
            );
            match resolved {
                Some(cands) => {
                    let present = probe_present(ui, &cands);
                    match command::Command::parse(
                        prefix,
                        &self.config,
                        script::lua::FILE_EXTENSION,
                        &present,
                    ) {
                        Some(cmd) => {
                            match ui.read_file(cmd.path.as_str()) {
                                Some(source) => {
                                    match script::lua::LuaEngine::autocomplete(
                                        source.as_str(),
                                        cmd.arguments,
                                        prefix,
                                        ui,
                                        self.run_config.path.as_str(),
                                    ) {
                                        Ok(completions) => {
                                            return completions;
                                        },
                                        Err(_) => {
                                            return Vec::new();
                                        },
                                    }
                                },
                                None => {},
                            }
                        },
                        None => {},
                    }
                },
                None => {},
            }
        }
        self.list_commands(ui, prefix)
    }

    fn on_uri_event<T: ui::ApplicationUI>(
        &self,
        ui: &T,
        window_index: u32,
        webview_index: u32,
        uri: &str,
        event: ui::URIEvent,
    ) {
        let buffer_event = match event {
            ui::URIEvent::Load => ui::BufferEvent::Load,
            ui::URIEvent::Request => ui::BufferEvent::Request,
            ui::URIEvent::Fail => ui::BufferEvent::Fail(String::new()),
        };
        self.on_buffer_event(ui, window_index, webview_index, Some(uri), &buffer_event);
    }

    fn on_new_frame_request<T: ui::ApplicationUI>(&self, ui: &T, window_index: u32, uri: &str) {
        if self.config.new_frame_uses_focused_window() {
            ui.open_webview(window_index, Some(uri));
        } else {
            ui.open_window(Some(uri));
        }
    }
}

} // verus!
