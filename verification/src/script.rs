//! The scripting bridge: well-known entry points, the script error
//! taxonomy, and the coercions applied to what scripts return.
//!
//! One embedded runtime is provided, [`lua::LuaEngine`]; the
//! [`ScriptingEngine`] trait keeps the surface open to other runtimes,
//! tagged by their file extension. Every runtime failure is classified into
//! a [`ScriptError`] at this boundary: the embedded runtime's own error
//! type never escapes it.

use vstd::prelude::*;

use crate::strutil::{split_on, split_str, views};
use crate::ui::{ApplicationUI, BufferEvent};

pub mod lua;

verus! {

/// A sentinel for representing empty optional numbers to scripting
/// languages without optionals.
pub const NOT_FOUND: u32 = 483600;

/// The outcome of a script invocation.
pub type ScriptResult<T> = Result<T, ScriptError>;

/// How a script failed.
#[derive(Debug, Clone, Copy, PartialEq, Eq, Structural)]
pub enum ScriptErrorKind {
    /// The script text did not parse.
    SyntaxError,
    /// The script halted while running.
    ExecutionError,
    /// The script could not be read.
    ReadError,
    /// A return value had the wrong shape.
    WrongType,
    /// The entry point the event needs is not defined.
    MissingEntryPoint,
}

/// A failure inside the embedded runtime, already freed of the runtime's
/// own error type: the classification and the runtime's message text.
#[derive(Debug, PartialEq, Eq)]
pub enum RuntimeFailure {
    Syntax(String),
    Execution(String),
    Read(String),
    WrongType,
}

/// A classified script failure with a human-readable description.
#[derive(Debug, PartialEq, Eq)]
pub struct ScriptError {
    pub kind: ScriptErrorKind,
    pub description: String,
}

/// The message text of a runtime failure.
pub open spec fn spec_failure_text(f: RuntimeFailure) -> Seq<char> {
    match f {
        RuntimeFailure::Syntax(e) => e@,
        RuntimeFailure::Execution(e) => e@,
        RuntimeFailure::Read(e) => e@,
        RuntimeFailure::WrongType => "incorrect data type"@,
    }
}

/// The error kind a runtime failure classifies to.
pub open spec fn spec_failure_kind(f: RuntimeFailure) -> ScriptErrorKind {
    match f {
        RuntimeFailure::Syntax(_) => ScriptErrorKind::SyntaxError,
        RuntimeFailure::Execution(_) => ScriptErrorKind::ExecutionError,
        RuntimeFailure::Read(_) => ScriptErrorKind::ReadError,
        RuntimeFailure::WrongType => ScriptErrorKind::WrongType,
    }
}

impl ScriptError {
    /// A script error for a runtime failure: the context, a separator, and
    /// the runtime's own message.
    pub fn from_failure(description: &str, f: RuntimeFailure) -> (e: ScriptError)
        ensures
            e.kind == spec_failure_kind(f),
            e.description@ == description@ + ": "@ + spec_failure_text(f),
    {
        let kind = match &f {
            RuntimeFailure::Syntax(_) => ScriptErrorKind::SyntaxError,
            RuntimeFailure::Execution(_) => ScriptErrorKind::ExecutionError,
            RuntimeFailure::Read(_) => ScriptErrorKind::ReadError,
            RuntimeFailure::WrongType => ScriptErrorKind::WrongType,
        };
        let mut description = description.to_owned();
        description.append(": ");
        match f {
            RuntimeFailure::Syntax(e) => description.append(e.as_str()),
            RuntimeFailure::Execution(e) => description.append(e.as_str()),
            RuntimeFailure::Read(e) => description.append(e.as_str()),
            RuntimeFailure::WrongType => description.append("incorrect data type"),
        }
        ScriptError { kind, description }
    }

    /// A script error for an entry point the parsed script does not define.
    pub fn missing_entry_point(description: &str) -> (e: ScriptError)
        ensures
            e.kind == ScriptErrorKind::MissingEntryPoint,
            e.description@ == description@,
    {
        ScriptError { kind: ScriptErrorKind::MissingEntryPoint, description: description.to_owned() }
    }

    /// A script error for a return value of the wrong shape.
    pub fn wrong_type(description: &str) -> (e: ScriptError)
        ensures
            e.kind == ScriptErrorKind::WrongType,
            e.description@ == description@,
    {
        ScriptError { kind: ScriptErrorKind::WrongType, description: description.to_owned() }
    }

    /// A script error for a script file that could not be read; hosts build
    /// this when opening or reading the file fails before the runtime sees
    /// it.
    pub fn read_failure(description: &str) -> (e: ScriptError)
        ensures
            e.kind == ScriptErrorKind::ReadError,
            e.description@ == description@,
    {
        ScriptError { kind: ScriptErrorKind::ReadError, description: description.to_owned() }
    }
}

/// A value handed back by a script, freed of the runtime's own value type:
/// a string, or anything else.
#[derive(Debug, PartialEq, Eq)]
pub enum ScriptValue {
    Str(String),
    Other,
}

/// What a completion list coerces to: the comma-separated pieces of the
/// returned string, the empty string giving the empty list; anything but a
/// string is refused.
pub open spec fn spec_completions(raw: ScriptValue) -> Result<Seq<Seq<char>>, ScriptErrorKind> {
    match raw {
        ScriptValue::Str(s) => if s@.len() == 0 {
            Ok(Seq::empty())
        } else {
            Ok(split_on(s@, ','))
        },
        ScriptValue::Other => Err(ScriptErrorKind::WrongType),
    }
}

/// Coerce a script's return value into a completion list: the returned
/// string is cut at commas, and the empty string yields the empty list.
pub fn coerce_lua_array(raw_value: ScriptValue) -> (r: ScriptResult<Vec<String>>)
    ensures
        match r {
            Ok(items) => spec_completions(raw_value) == Ok::<_, ScriptErrorKind>(views(items@)),
            Err(e) => spec_completions(raw_value) == Err::<Seq<Seq<char>>, _>(e.kind)
                && e.description@ == "Return type is not an string"@,
        },
{
    match raw_value {
        ScriptValue::Str(value) => {
            if value.as_str().unicode_len() == 0 {
                let empty: Vec<String> = Vec::new();
                proof {
                    assert(views(empty@) =~= Seq::<Seq<char>>::empty());
                }
                Ok(empty)
            } else {
                Ok(split_str(value.as_str(), ','))
            }
        },
        ScriptValue::Other => Err(ScriptError::wrong_type("Return type is not an string")),
    }
}

/// Map a runtime outcome into a script result, classifying any failure as
/// an execution failure of the invoked entry point.
pub fn resolve_script_output<T>(output: Result<T, RuntimeFailure>) -> (r: ScriptResult<T>)
    ensures
        match r {
            Ok(v) => output matches Ok(ov) && v == ov,
            Err(e) => output matches Err(f) && e.kind == spec_failure_kind(f) && e.description@
                == "script failed to execute"@ + ": "@ + spec_failure_text(f),
        },
{
    match output {
        Ok(v) => Ok(v),
        Err(f) => Err(ScriptError::from_failure("script failed to execute", f)),
    }
}

/// The message naming an entry point the parsed script does not define.
pub open spec fn spec_missing_message(entry: Seq<char>) -> Seq<char> {
    "'"@ + entry + "' method missing"@
}

/// Build the message naming a missing entry point.
pub fn missing_message(entry: &str) -> (m: String)
    ensures
        m@ == spec_missing_message(entry@),
{
    let mut m = "'".to_owned();
    m.append(entry);
    m.append("' method missing");
    m
}

/// The shape of every error that leaves the scripting bridge for the entry
/// point `entry`: a missing entry point names it exactly; every other
/// failure carries the runtime's classification and message behind one of
/// the two call-site contexts. The runtime's own error type never escapes.
pub open spec fn spec_bridge_error(e: ScriptError, entry: Seq<char>) -> bool {
    if e.kind == ScriptErrorKind::MissingEntryPoint {
        e.description@ == spec_missing_message(entry)
    } else {
        exists|f: RuntimeFailure|
            e.kind == #[trigger] spec_failure_kind(f) && (e.description@ == "script parsing failed"@
                + ": "@ + spec_failure_text(f) || e.description@ == "script failed to execute"@
                + ": "@ + spec_failure_text(f))
    }
}

/// No runtime failure classifies as a missing entry point: that class is
/// the bridge's own.
pub proof fn lemma_failure_kind_not_missing(f: RuntimeFailure)
    ensures
        spec_failure_kind(f) != ScriptErrorKind::MissingEntryPoint,
{
}

/// Law: within the bridge taxonomy, exactly the missing-entry-point errors
/// carry the missing-entry-point message — the two call-site contexts can
/// never produce it, since their messages open differently.
pub proof fn lemma_bridge_error_kinds(e: ScriptError, entry: Seq<char>)
    requires
        spec_bridge_error(e, entry),
    ensures
        (e.kind == ScriptErrorKind::MissingEntryPoint) <==> (e.description@ == spec_missing_message(
            entry,
        )),
{
    reveal_strlit("'");
    reveal_strlit("script parsing failed");
    reveal_strlit("script failed to execute");
    if e.kind != ScriptErrorKind::MissingEntryPoint {
        let f = choose|f: RuntimeFailure|
            e.kind == #[trigger] spec_failure_kind(f) && (e.description@
                == "script parsing failed"@ + ": "@ + spec_failure_text(f) || e.description@
                == "script failed to execute"@ + ": "@ + spec_failure_text(f));
        assert(("script parsing failed"@ + ": "@ + spec_failure_text(f))[0] == 's');
        assert(("script failed to execute"@ + ": "@ + spec_failure_text(f))[0] == 's');
        assert(spec_missing_message(entry)[0] == ("'"@)[0]);
    }
}

/// The entry point a buffer event invokes.
pub open spec fn spec_event_entry_point(event: BufferEvent) -> Seq<char> {
    match event {
        BufferEvent::Load => "on_load_uri"@,
        BufferEvent::Focus => "on_focus"@,
        BufferEvent::Request => "on_request_uri"@,
        BufferEvent::Fail(_) => "on_fail_uri"@,
    }
}

/// The entry point a buffer event invokes.
pub fn event_entry_point(event: &BufferEvent) -> (r: &'static str)
    ensures
        r@ == spec_event_entry_point(*event),
{
    match event {
        BufferEvent::Load => "on_load_uri",
        BufferEvent::Focus => "on_focus",
        BufferEvent::Request => "on_request_uri",
        BufferEvent::Fail(_) => "on_fail_uri",
    }
}

/// A scripting runtime and event handler capable of evaluating script text
/// within the runtime, converting between runtime types and host types, and
/// giving scripts an interface to the UI.
pub trait ScriptingEngine {
    /// The file extension of scripts this engine runs; never empty, since
    /// command files are resolved as `<name>.<extension>`.
    fn file_extension() -> (r: &'static str)
        ensures
            r@.len() > 0,
    ;

    /// Evaluate a script and run its `description` entry point. Whatever
    /// the script does, a failure is classified: a missing `description`
    /// entry point is named exactly, and every other error carries the
    /// runtime's classification and message.
    fn describe(source: &str) -> (r: ScriptResult<String>)
        ensures
            r matches Err(e) ==> spec_bridge_error(e, "description"@),
    ;

    /// Evaluate a script and run its `run` entry point with the given
    /// arguments in scope; the boolean result asks the caller to clear the
    /// command bar. A failure is classified as in `describe`, for the
    /// `run` entry point.
    fn execute<T: ApplicationUI>(
        source: &str,
        arguments: Vec<String>,
        ui: &T,
        config_path: &str,
    ) -> (r: ScriptResult<bool>)
        ensures
            r matches Err(e) ==> spec_bridge_error(e, "run"@),
    ;

    /// Evaluate a script and run its `complete_command` entry point with
    /// the arguments and prefix in scope. A success is the comma-split of
    /// a string the script returned, the empty string giving the empty
    /// list; a script value of another shape is refused as a wrong return
    /// type, and other failures are classified as in `describe`.
    fn autocomplete<T: ApplicationUI>(
        source: &str,
        arguments: Vec<String>,
        prefix: &str,
        ui: &T,
        config_path: &str,
    ) -> (r: ScriptResult<Vec<String>>)
        ensures
            r matches Ok(items) ==> (exists|s: String|
                #[trigger] spec_completions(ScriptValue::Str(s)) == Ok::<
                    Seq<Seq<char>>,
                    ScriptErrorKind,
                >(views(items@))),
            r matches Err(e) ==> (spec_bridge_error(e, "complete_command"@) || (e.kind
                == ScriptErrorKind::WrongType && e.description@
                == "Return type is not an string"@)),
    ;

    /// Evaluate a script and run the entry point matching the buffer event
    /// — `on_load_uri`, `on_focus`, `on_request_uri` or `on_fail_uri` —
    /// with the window index, webview index, and any requested URI in
    /// scope. A failure is classified as in `describe`, for that entry
    /// point.
    fn on_buffer_event<T: ApplicationUI>(
        source: &str,
        ui: &T,
        config_path: &str,
        window_index: u32,
        webview_index: u32,
        requested_uri: Option<&str>,
        event: &BufferEvent,
    ) -> (r: ScriptResult<()>)
        ensures
            r matches Err(e) ==> spec_bridge_error(e, spec_event_entry_point(*event)),
    ;
}

} // verus!
