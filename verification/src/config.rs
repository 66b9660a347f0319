//! Configuration storage and lookup for common browser options.
//!
//! A configuration is a tree of values parsed from a structured text
//! document. Keys are dot-separated paths into the tree; a segment may be
//! double-quoted so that it can itself contain dots, as in
//! `sites."example.com".general`. String lookups substitute the tokens
//! `CONFIG_DIR` and `HOME`; a raw lookup leaves values untouched.

use vstd::prelude::*;

use crate::strutil::{opt_str_view, replace_seq, replace_str, str_eq, views};
use crate::ui::{BufferEvent, URIEvent};

verus! {

/// The default configuration used when none is given.
pub const DEFAULT_CONFIG: &'static str = r#"
[general]
private-browsing = false

[window]
start-page = "https://delisa.fuller.li"

[new-frame]
opens-in-focused-window = false
"#;

/// Placeholder replaced in string options by the configuration property
/// `general.config-dir`.
pub const CONFIG_DIR: &'static str = "CONFIG_DIR";

/// Placeholder replaced in string options by the home directory.
pub const HOME: &'static str = "HOME";

/// One node of a configuration tree: a string, an integer, a boolean, a
/// list, or a table of named children. `Other` stands for a value of a kind
/// the resolver never reads (such as a float or a date), kept so that paths
/// through it still resolve as present-but-mismatched.
#[derive(Debug, PartialEq)]
pub enum ConfigValue {
    Str(String),
    Int(i64),
    Bool(bool),
    List(Vec<ConfigValue>),
    Table(Vec<(String, ConfigValue)>),
    Other,
}

/// The value under `key` in a table, searching front to back.
pub open spec fn table_get(entries: Seq<(String, ConfigValue)>, key: Seq<char>) -> Option<
    ConfigValue,
>
    decreases entries.len(),
{
    if entries.len() == 0 {
        None
    } else if entries[0].0@ == key {
        Some(entries[0].1)
    } else {
        table_get(entries.skip(1), key)
    }
}

/// The value reached from `v` by following `path` through tables; `None` as
/// soon as a segment is missing or the current node is not a table.
pub open spec fn lookup_path(v: ConfigValue, path: Seq<Seq<char>>) -> Option<ConfigValue>
    decreases path.len(),
{
    if path.len() == 0 {
        Some(v)
    } else {
        match v {
            ConfigValue::Table(es) => match table_get(es@, path[0]) {
                Some(child) => lookup_path(child, path.skip(1)),
                None => None,
            },
            _ => None,
        }
    }
}

/// Key-splitting helper: segments of `s` cut at dots outside double quotes,
/// with `cur` the segment read so far and `in_q` whether a quote is open;
/// `None` when a quote is left open at the end.
pub open spec fn key_segments_rec(s: Seq<char>, cur: Seq<char>, in_q: bool) -> Option<
    Seq<Seq<char>>,
>
    decreases s.len(),
{
    if s.len() == 0 {
        if in_q {
            None
        } else {
            Some(seq![cur])
        }
    } else if s[0] == '"' {
        key_segments_rec(s.skip(1), cur, !in_q)
    } else if s[0] == '.' && !in_q {
        match key_segments_rec(s.skip(1), Seq::empty(), false) {
            None => None,
            Some(rest) => Some(seq![cur] + rest),
        }
    } else {
        key_segments_rec(s.skip(1), cur.push(s[0]), in_q)
    }
}

/// The segments of a dotted key: cut at dots standing outside double
/// quotes, the quotes themselves dropped; `None` for an unterminated quote.
pub open spec fn key_segments(s: Seq<char>) -> Option<Seq<Seq<char>>> {
    key_segments_rec(s, Seq::empty(), false)
}

/// What looking up the dotted key `key` from tree `v` yields.
pub open spec fn spec_lookup(v: ConfigValue, key: Seq<char>) -> Option<ConfigValue> {
    match key_segments(key) {
        Some(path) => lookup_path(v, path),
        None => None,
    }
}

proof fn lemma_key_segments_rec_step(s: Seq<char>, cur: Seq<char>, in_q: bool, i: int)
    requires
        0 <= i < s.len(),
    ensures
        key_segments_rec(s.skip(i), cur, in_q) == if s[i] == '"' {
            key_segments_rec(s.skip(i + 1), cur, !in_q)
        } else if s[i] == '.' && !in_q {
            match key_segments_rec(s.skip(i + 1), Seq::<char>::empty(), false) {
                None => None,
                Some(rest) => Some(seq![cur] + rest),
            }
        } else {
            key_segments_rec(s.skip(i + 1), cur.push(s[i]), in_q)
        },
{
    assert(s.skip(i).len() > 0);
    assert(s.skip(i)[0] == s[i]);
    assert(s.skip(i).skip(1) =~= s.skip(i + 1));
}

/// Cut a dotted key into its segments, honouring double quotes.
pub fn split_key(s: &str) -> (r: Option<Vec<String>>)
    ensures
        match r {
            Some(segs) => key_segments(s@) == Some(views(segs@)),
            None => key_segments(s@) is None,
        },
{
    let n = s.unicode_len();
    let mut done: Vec<String> = Vec::new();
    let mut cur = String::new();
    let mut in_q = false;
    let mut i: usize = 0;
    proof {
        assert(s@.skip(0) =~= s@);
        assert(views(done@) =~= Seq::<Seq<char>>::empty());
    }
    while i < n
        invariant
            0 <= i <= n,
            n == s@.len(),
            key_segments(s@) == match key_segments_rec(s@.skip(i as int), cur@, in_q) {
                None => None::<Seq<Seq<char>>>,
                Some(rest) => Some(views(done@) + rest),
            },
        decreases n - i,
    {
        let c = s.get_char(i);
        proof {
            lemma_key_segments_rec_step(s@, cur@, in_q, i as int);
        }
        if c == '"' {
            in_q = !in_q;
        } else if c == '.' && !in_q {
            let ghost prev_done = done@;
            let ghost prev_cur = cur@;
            done.push(cur);
            cur = String::new();
            proof {
                assert(views(done@) =~= views(prev_done).push(prev_cur));
                let rec = key_segments_rec(s@.skip(i + 1), Seq::<char>::empty(), false);
                if rec is Some {
                    let rest = rec->Some_0;
                    assert(views(done@) + rest =~= views(prev_done) + (seq![prev_cur] + rest));
                }
            }
        } else {
            cur.push(c);
        }
        i = i + 1;
    }
    proof {
        assert(s@.skip(n as int) =~= Seq::<char>::empty());
    }
    if in_q {
        return None;
    }
    let ghost prev_done = done@;
    let ghost prev_cur = cur@;
    done.push(cur);
    proof {
        assert(views(done@) =~= views(prev_done).push(prev_cur));
        assert(views(done@) =~= views(prev_done) + seq![prev_cur]);
    }
    Some(done)
}

/// Find the value under `key` in a table, searching front to back.
fn table_find<'a>(entries: &'a Vec<(String, ConfigValue)>, key: &str) -> (r: Option<
    &'a ConfigValue,
>)
    ensures
        match r {
            Some(v) => table_get(entries@, key@) == Some(*v),
            None => table_get(entries@, key@) is None,
        },
{
    let mut j: usize = 0;
    proof {
        assert(entries@.skip(0) =~= entries@);
    }
    while j < entries.len()
        invariant
            0 <= j <= entries@.len(),
            table_get(entries@, key@) == table_get(entries@.skip(j as int), key@),
        decreases entries@.len() - j,
    {
        proof {
            assert(entries@.skip(j as int).len() > 0);
            assert(entries@.skip(j as int)[0] == entries@[j as int]);
            assert(entries@.skip(j as int).skip(1) =~= entries@.skip(j + 1));
        }
        if str_eq(entries[j].0.as_str(), key) {
            return Some(&entries[j].1);
        }
        j = j + 1;
    }
    proof {
        assert(entries@.skip(entries@.len() as int) =~= Seq::<(String, ConfigValue)>::empty());
    }
    None
}

impl ConfigValue {
    /// Follow the dotted key `key` down from this node.
    pub fn lookup<'a>(&'a self, key: &str) -> (r: Option<&'a ConfigValue>)
        ensures
            match r {
                Some(v) => spec_lookup(*self, key@) == Some(*v),
                None => spec_lookup(*self, key@) is None,
            },
    {
        let segs = match split_key(key) {
            Some(segs) => segs,
            None => {
                return None;
            },
        };
        let ghost path = views(segs@);
        let mut cur: &ConfigValue = self;
        let mut i: usize = 0;
        proof {
            assert(path.skip(0) =~= path);
        }
        while i < segs.len()
            invariant
                0 <= i <= segs@.len(),
                path == views(segs@),
                key_segments(key@) == Some(path),
                lookup_path(*self, path) == lookup_path(*cur, path.skip(i as int)),
            decreases segs@.len() - i,
        {
            proof {
                assert(path.skip(i as int).len() > 0);
                assert(path.skip(i as int)[0] == path[i as int]);
                assert(path.skip(i as int).skip(1) =~= path.skip(i + 1));
            }
            match cur {
                ConfigValue::Table(entries) => {
                    match table_find(entries, segs[i].as_str()) {
                        Some(child) => {
                            cur = child;
                        },
                        None => {
                            return None;
                        },
                    }
                },
                _ => {
                    return None;
                },
            }
            i = i + 1;
        }
        proof {
            assert(path.skip(segs@.len() as int) =~= Seq::<Seq<char>>::empty());
        }
        Some(cur)
    }
}

} // verus!

verus! {

/// The tree that the structured-text parser yields for a document, or `None`
/// when the document is malformed; the outcome depends on the text alone.
pub uninterp spec fn toml_document(s: Seq<char>) -> Option<ConfigValue>;

#[verifier::external_type_specification]
#[verifier::external_body]
pub struct ExTomlValue(toml::Value);

/// Converts one parsed node into the library's tree, node for node; floats
/// and dates become `Other`.
#[verifier::external_body]
fn from_toml(v: toml::Value) -> ConfigValue {
    match v {
        toml::Value::String(s) => ConfigValue::Str(s),
        toml::Value::Integer(i) => ConfigValue::Int(i),
        toml::Value::Boolean(b) => ConfigValue::Bool(b),
        toml::Value::Array(items) => ConfigValue::List(
            items.into_iter().map(from_toml).collect(),
        ),
        toml::Value::Table(entries) => ConfigValue::Table(
            entries.into_iter().map(|(k, v)| (k, from_toml(v))).collect(),
        ),
        _ => ConfigValue::Other,
    }
}

/// Relies on toml's `FromStr` for `Value`: whether a document parses, and
/// the tree it parses to, depend on the text alone; on failure every syntax
/// error found is reported.
#[verifier::external_body]
fn parse_toml_text(s: &str) -> (r: Result<ConfigValue, Vec<String>>)
    ensures
        r is Ok <==> toml_document(s@) is Some,
        r matches Ok(v) ==> toml_document(s@) == Some(v),
{
    match s.parse::<toml::Value>() {
        Ok(v) => Ok(from_toml(v)),
        Err(errors) => Err(errors.iter().map(|e| format!("{}", e)).collect()),
    }
}

/// Relies on dirs::home_dir: yields the platform home directory, if there is
/// one; the result depends on the environment, so nothing is promised of it.
#[verifier::external_body]
pub fn system_home_dir() -> Option<String> {
    dirs::home_dir().and_then(|p| p.to_str().map(|s| s.to_owned()))
}

/// Configuration option storage and lookup: one parsed tree, plus the home
/// directory captured when the tree was parsed, consulted for `HOME`
/// substitution.
pub struct Config {
    /// The parsed configuration tree.
    pub value: ConfigValue,
    /// The home directory consulted for `HOME` substitution, captured when
    /// the tree was parsed.
    pub home: Option<String>,
}

/// The string value under `key`, before any substitution.
pub open spec fn spec_lookup_raw_str(v: ConfigValue, key: Seq<char>) -> Option<Seq<char>> {
    match spec_lookup(v, key) {
        Some(ConfigValue::Str(s)) => Some(s@),
        _ => None,
    }
}

/// The directory that replaces `CONFIG_DIR`, read raw from
/// `general.config-dir`.
pub open spec fn spec_config_dir(v: ConfigValue) -> Option<Seq<char>> {
    spec_lookup_raw_str(v, "general.config-dir"@)
}

/// `s` with `HOME` replaced by the home directory and then `CONFIG_DIR` by
/// the configured directory; a missing replacement leaves its token alone.
pub open spec fn spec_substitute(
    s: Seq<char>,
    dir: Option<Seq<char>>,
    home: Option<Seq<char>>,
) -> Seq<char> {
    let after_home = match home {
        Some(h) => replace_seq(s, "HOME"@, h),
        None => s,
    };
    match dir {
        Some(d) => replace_seq(after_home, "CONFIG_DIR"@, d),
        None => after_home,
    }
}

/// The boolean under `key`, or `None` on a missing key or another kind.
pub open spec fn spec_lookup_bool(v: ConfigValue, key: Seq<char>) -> Option<bool> {
    match spec_lookup(v, key) {
        Some(ConfigValue::Bool(b)) => Some(b),
        _ => None,
    }
}

/// The integer under `key`, or `None` on a missing key or another kind.
pub open spec fn spec_lookup_integer(v: ConfigValue, key: Seq<char>) -> Option<i64> {
    match spec_lookup(v, key) {
        Some(ConfigValue::Int(i)) => Some(i),
        _ => None,
    }
}

/// The string under `key` with path substitution applied.
pub open spec fn spec_lookup_str(v: ConfigValue, home: Option<Seq<char>>, key: Seq<char>) -> Option<
    Seq<char>,
> {
    match spec_lookup_raw_str(v, key) {
        Some(s) => Some(spec_substitute(s, spec_config_dir(v), home)),
        None => None,
    }
}

/// The string items of a list, each with path substitution applied; items of
/// other kinds are dropped.
pub open spec fn subst_str_items(
    items: Seq<ConfigValue>,
    dir: Option<Seq<char>>,
    home: Option<Seq<char>>,
) -> Seq<Seq<char>>
    decreases items.len(),
{
    if items.len() == 0 {
        Seq::empty()
    } else {
        match items[0] {
            ConfigValue::Str(s) => seq![spec_substitute(s@, dir, home)] + subst_str_items(
                items.skip(1),
                dir,
                home,
            ),
            _ => subst_str_items(items.skip(1), dir, home),
        }
    }
}

/// The list of substituted strings under `key`, or `None` when `key` is
/// missing or not a list.
pub open spec fn spec_lookup_str_vec(
    v: ConfigValue,
    home: Option<Seq<char>>,
    key: Seq<char>,
) -> Option<Seq<Seq<char>>> {
    match spec_lookup(v, key) {
        Some(ConfigValue::List(items)) => Some(
            subst_str_items(items@, spec_config_dir(v), home),
        ),
        _ => None,
    }
}

/// The string-valued entries of a table, raw, in table order; entries of
/// other kinds are dropped.
pub open spec fn str_entries(entries: Seq<(String, ConfigValue)>) -> Seq<(Seq<char>, Seq<char>)>
    decreases entries.len(),
{
    if entries.len() == 0 {
        Seq::empty()
    } else {
        match entries[0].1 {
            ConfigValue::Str(s) => seq![(entries[0].0@, s@)] + str_entries(entries.skip(1)),
            _ => str_entries(entries.skip(1)),
        }
    }
}

/// The string-valued entries of the table under `key`, raw, or `None` when
/// `key` is missing or not a table.
pub open spec fn spec_lookup_str_table(v: ConfigValue, key: Seq<char>) -> Option<
    Seq<(Seq<char>, Seq<char>)>,
> {
    match spec_lookup(v, key) {
        Some(ConfigValue::Table(entries)) => Some(str_entries(entries@)),
        _ => None,
    }
}

impl Config {
    /// The home directory consulted for `HOME` substitution.
    pub open spec fn spec_home(&self) -> Option<Seq<char>> {
        opt_str_view(self.home)
    }

    /// Parse a document into a `Config`, or `None` when it is malformed.
    pub fn parse(raw_input: &str) -> (r: Option<Config>)
        ensures
            r is Some <==> toml_document(raw_input@) is Some,
            r matches Some(c) ==> Some(c.value) == toml_document(raw_input@),
    {
        match Config::try_parse(raw_input) {
            Ok(c) => Some(c),
            Err(_) => None,
        }
    }

    /// Parse a document into a `Config`; a malformed document yields every
    /// syntax error found, not only the first.
    pub fn try_parse(raw_input: &str) -> (r: Result<Config, Vec<String>>)
        ensures
            r is Ok <==> toml_document(raw_input@) is Some,
            r matches Ok(c) ==> Some(c.value) == toml_document(raw_input@),
    {
        match parse_toml_text(raw_input) {
            Ok(value) => Ok(Config { value, home: system_home_dir() }),
            Err(errors) => Err(errors),
        }
    }

    /// Create a `Config` with the default options.
    pub fn default_config() -> (r: Option<Config>)
        ensures
            r is Some <==> toml_document(DEFAULT_CONFIG@) is Some,
            r matches Some(c) ==> Some(c.value) == toml_document(DEFAULT_CONFIG@),
    {
        Config::parse(DEFAULT_CONFIG)
    }

    /// Replace the tree with the parse of `text`, wholesale; a malformed
    /// document leaves the configuration untouched and yields `false`.
    pub fn load(&mut self, text: &str) -> (r: bool)
        ensures
            r == (toml_document(text@) is Some),
            r ==> Some(final(self).value) == toml_document(text@),
            r ==> final(self).spec_home() == old(self).spec_home(),
            !r ==> *final(self) == *old(self),
    {
        match parse_toml_text(text) {
            Ok(value) => {
                self.value = value;
                true
            },
            Err(_) => false,
        }
    }

    /// Look up the raw tree value under a dotted key.
    pub fn lookup<'a>(&'a self, key: &str) -> (r: Option<&'a ConfigValue>)
        ensures
            match r {
                Some(v) => spec_lookup(self.value, key@) == Some(*v),
                None => spec_lookup(self.value, key@) is None,
            },
    {
        self.value.lookup(key)
    }

    /// Look up the boolean value of an option.
    pub fn lookup_bool(&self, key: &str) -> (r: Option<bool>)
        ensures
            r == spec_lookup_bool(self.value, key@),
    {
        match self.lookup(key) {
            Some(ConfigValue::Bool(b)) => Some(*b),
            _ => None,
        }
    }

    /// Look up the integer value of an option.
    pub fn lookup_integer(&self, key: &str) -> (r: Option<i64>)
        ensures
            r == spec_lookup_integer(self.value, key@),
    {
        match self.lookup(key) {
            Some(ConfigValue::Int(i)) => Some(*i),
            _ => None,
        }
    }

    /// Look up the string value of an option without any substitution.
    pub fn lookup_raw_str(&self, key: &str) -> (r: Option<String>)
        ensures
            opt_str_view(r) == spec_lookup_raw_str(self.value, key@),
    {
        match self.lookup(key) {
            Some(ConfigValue::Str(s)) => Some(s.clone()),
            _ => None,
        }
    }

    /// The directory to replace instances of `CONFIG_DIR`, read raw from
    /// `general.config-dir`.
    pub fn config_dir(&self) -> (r: Option<String>)
        ensures
            opt_str_view(r) == spec_config_dir(self.value),
    {
        self.lookup_raw_str("general.config-dir")
    }

    /// Replace `HOME` in a value by the home directory, when one is known.
    fn replace_home(&self, value: &str) -> (r: String)
        ensures
            r@ == match self.spec_home() {
                Some(h) => replace_seq(value@, "HOME"@, h),
                None => value@,
            },
    {
        match &self.home {
            Some(h) => replace_str(value, HOME, h.as_str()),
            None => value.to_owned(),
        }
    }

    /// Replace `CONFIG_DIR` in a value by the configured directory, when one
    /// is set.
    fn replace_config_dir(&self, value: &str) -> (r: String)
        ensures
            r@ == match spec_config_dir(self.value) {
                Some(d) => replace_seq(value@, "CONFIG_DIR"@, d),
                None => value@,
            },
    {
        match self.config_dir() {
            Some(d) => replace_str(value, CONFIG_DIR, d.as_str()),
            None => value.to_owned(),
        }
    }

    /// Apply path substitution to one string value.
    fn parse_path(&self, value: &str) -> (r: String)
        ensures
            r@ == spec_substitute(value@, spec_config_dir(self.value), self.spec_home()),
    {
        let after_home = self.replace_home(value);
        self.replace_config_dir(after_home.as_str())
    }

    /// Look up the string value of an option, substituting `CONFIG_DIR` and
    /// `HOME` where possible.
    pub fn lookup_str(&self, key: &str) -> (r: Option<String>)
        ensures
            opt_str_view(r) == spec_lookup_str(self.value, self.spec_home(), key@),
    {
        match self.lookup_raw_str(key) {
            Some(s) => Some(self.parse_path(s.as_str())),
            None => None,
        }
    }

    /// Look up the string list value of an option, substituting into each
    /// string item and dropping items of other kinds.
    pub fn lookup_str_vec(&self, key: &str) -> (r: Option<Vec<String>>)
        ensures
            match r {
                Some(items) => spec_lookup_str_vec(self.value, self.spec_home(), key@) == Some(
                    views(items@),
                ),
                None => spec_lookup_str_vec(self.value, self.spec_home(), key@) is None,
            },
    {
        let items = match self.lookup(key) {
            Some(ConfigValue::List(items)) => items,
            _ => {
                return None;
            },
        };
        let ghost iv = items@;
        let ghost dir = spec_config_dir(self.value);
        let ghost home = self.spec_home();
        let mut out: Vec<String> = Vec::new();
        let mut i: usize = 0;
        proof {
            assert(iv.skip(0) =~= iv);
            assert(views(out@) =~= Seq::<Seq<char>>::empty());
            assert(views(out@) + subst_str_items(iv, dir, home) =~= subst_str_items(
                iv,
                dir,
                home,
            ));
        }
        while i < items.len()
            invariant
                0 <= i <= iv.len(),
                iv == items@,
                dir == spec_config_dir(self.value),
                home == self.spec_home(),
                subst_str_items(iv, dir, home) == views(out@) + subst_str_items(
                    iv.skip(i as int),
                    dir,
                    home,
                ),
            decreases iv.len() - i,
        {
            proof {
                assert(iv.skip(i as int).len() > 0);
                assert(iv.skip(i as int)[0] == iv[i as int]);
                assert(iv.skip(i as int).skip(1) =~= iv.skip(i + 1));
            }
            match &items[i] {
                ConfigValue::Str(s) => {
                    let ghost prev_out = out@;
                    out.push(self.parse_path(s.as_str()));
                    proof {
                        assert(views(out@) =~= views(prev_out).push(
                            spec_substitute(s@, dir, home),
                        ));
                        assert(views(out@) + subst_str_items(iv.skip(i + 1), dir, home) =~= views(
                            prev_out,
                        ) + (seq![spec_substitute(s@, dir, home)] + subst_str_items(
                            iv.skip(i + 1),
                            dir,
                            home,
                        )));
                    }
                },
                _ => {},
            }
            i = i + 1;
        }
        proof {
            assert(iv.skip(iv.len() as int) =~= Seq::<ConfigValue>::empty());
            assert(views(out@) + Seq::<Seq<char>>::empty() =~= views(out@));
        }
        Some(out)
    }

    /// Look up the string table value of an option, raw, in table order,
    /// dropping entries of other kinds.
    pub fn lookup_str_table(&self, key: &str) -> (r: Option<Vec<(String, String)>>)
        ensures
            match r {
                Some(entries) => spec_lookup_str_table(self.value, key@) == Some(
                    entries@.map_values(|e: (String, String)| (e.0@, e.1@)),
                ),
                None => spec_lookup_str_table(self.value, key@) is None,
            },
    {
        let entries = match self.lookup(key) {
            Some(ConfigValue::Table(entries)) => entries,
            _ => {
                return None;
            },
        };
        let ghost ev = entries@;
        let mut out: Vec<(String, String)> = Vec::new();
        let mut i: usize = 0;
        proof {
            assert(ev.skip(0) =~= ev);
            assert(out@.map_values(|e: (String, String)| (e.0@, e.1@)) =~= Seq::<
                (Seq<char>, Seq<char>),
            >::empty());
            assert(out@.map_values(|e: (String, String)| (e.0@, e.1@)) + str_entries(ev)
                =~= str_entries(ev));
        }
        while i < entries.len()
            invariant
                0 <= i <= ev.len(),
                ev == entries@,
                str_entries(ev) == out@.map_values(|e: (String, String)| (e.0@, e.1@))
                    + str_entries(ev.skip(i as int)),
            decreases ev.len() - i,
        {
            proof {
                assert(ev.skip(i as int).len() > 0);
                assert(ev.skip(i as int)[0] == ev[i as int]);
                assert(ev.skip(i as int).skip(1) =~= ev.skip(i + 1));
            }
            match &entries[i].1 {
                ConfigValue::Str(s) => {
                    let ghost prev_out = out@;
                    out.push((entries[i].0.clone(), s.clone()));
                    proof {
                        let f = |e: (String, String)| (e.0@, e.1@);
                        assert(out@.map_values(f) =~= prev_out.map_values(f).push(
                            (ev[i as int].0@, s@),
                        ));
                        assert(out@.map_values(f) + str_entries(ev.skip(i + 1)) =~= prev_out
                            .map_values(f) + (seq![(ev[i as int].0@, s@)] + str_entries(
                            ev.skip(i + 1),
                        )));
                    }
                },
                _ => {},
            }
            i = i + 1;
        }
        proof {
            assert(ev.skip(ev.len() as int) =~= Seq::<(String, ConfigValue)>::empty());
            assert(out@.map_values(|e: (String, String)| (e.0@, e.1@)) + Seq::<
                (Seq<char>, Seq<char>),
            >::empty() =~= out@.map_values(|e: (String, String)| (e.0@, e.1@)));
        }
        Some(out)
    }
}

} // verus!

verus! {

/// The host of a URI as the URI parser reports it, or `None` when the URI
/// does not parse or has no host; the outcome depends on the text alone.
pub uninterp spec fn uri_host(s: Seq<char>) -> Option<Seq<char>>;

/// Relies on url's `Url::parse` and `Url::host_str`: the host component of a
/// URI depends on its text alone.
#[verifier::external_body]
fn parse_uri_host(uri: &str) -> (r: Option<String>)
    ensures
        opt_str_view(r) == uri_host(uri@),
{
    url::Url::parse(uri).ok().and_then(|u| u.host_str().map(|h| h.to_owned()))
}

/// The URI as the site-overlay lookup sees it: a default scheme is put in
/// front when the URI names none.
pub open spec fn spec_formatted_uri(uri: Seq<char>) -> Seq<char> {
    if crate::strutil::has_substring(uri, "://"@) {
        uri
    } else {
        "http://"@ + uri
    }
}

/// The site-overlay key for `uri` and `key`: `sites."<host>".<key>`, or
/// `None` when no host can be drawn from the URI.
pub open spec fn spec_site_key(uri: Seq<char>, key: Seq<char>) -> Option<Seq<char>> {
    match uri_host(spec_formatted_uri(uri)) {
        Some(host) => Some("sites.\""@ + host + "\"."@ + key),
        None => None,
    }
}

/// Determine the hostname component of a URI if possible and construct the
/// key for looking up a site-specific option.
pub fn construct_lookup_key(uri: &str, key: &str) -> (r: Option<String>)
    ensures
        opt_str_view(r) == spec_site_key(uri@, key@),
{
    let formatted: String = if !crate::strutil::contains_str(uri, "://") {
        let mut f = "http://".to_owned();
        f.append(uri);
        f
    } else {
        uri.to_owned()
    };
    match parse_uri_host(formatted.as_str()) {
        Some(host) => {
            let mut out = "sites.\"".to_owned();
            out.append(host.as_str());
            out.append("\".");
            out.append(key);
            Some(out)
        },
        None => None,
    }
}

} // verus!

verus! {

/// The boolean under the site overlay of `key` for `uri`, falling back to
/// the global `key`.
pub open spec fn spec_lookup_site_bool(v: ConfigValue, uri: Seq<char>, key: Seq<char>) -> Option<
    bool,
> {
    let site = match spec_site_key(uri, key) {
        Some(sk) => spec_lookup_bool(v, sk),
        None => None,
    };
    match site {
        Some(b) => Some(b),
        None => spec_lookup_bool(v, key),
    }
}

/// The substituted string under the site overlay of `key` for `uri`, falling
/// back to the global `key`.
pub open spec fn spec_lookup_site_str(
    v: ConfigValue,
    home: Option<Seq<char>>,
    uri: Seq<char>,
    key: Seq<char>,
) -> Option<Seq<char>> {
    let site = match spec_site_key(uri, key) {
        Some(sk) => spec_lookup_str(v, home, sk),
        None => None,
    };
    match site {
        Some(s) => Some(s),
        None => spec_lookup_str(v, home, key),
    }
}

/// The substituted string list under the site overlay of `key` for `uri`,
/// falling back to the global `key`.
pub open spec fn spec_lookup_site_str_vec(
    v: ConfigValue,
    home: Option<Seq<char>>,
    uri: Seq<char>,
    key: Seq<char>,
) -> Option<Seq<Seq<char>>> {
    let site = match spec_site_key(uri, key) {
        Some(sk) => spec_lookup_str_vec(v, home, sk),
        None => None,
    };
    match site {
        Some(items) => Some(items),
        None => spec_lookup_str_vec(v, home, key),
    }
}

impl Config {
    /// Look up the boolean value of an option under `sites."<host>".<key>`,
    /// falling back to `key` when there is no match.
    pub fn lookup_site_bool(&self, uri: &str, key: &str) -> (r: Option<bool>)
        ensures
            r == spec_lookup_site_bool(self.value, uri@, key@),
    {
        let site = match construct_lookup_key(uri, key) {
            Some(sk) => self.lookup_bool(sk.as_str()),
            None => None,
        };
        match site {
            Some(b) => Some(b),
            None => self.lookup_bool(key),
        }
    }

    /// Look up the string value of an option under `sites."<host>".<key>`,
    /// falling back to `key` when there is no match.
    pub fn lookup_site_str(&self, uri: &str, key: &str) -> (r: Option<String>)
        ensures
            opt_str_view(r) == spec_lookup_site_str(self.value, self.spec_home(), uri@, key@),
    {
        let site = match construct_lookup_key(uri, key) {
            Some(sk) => self.lookup_str(sk.as_str()),
            None => None,
        };
        match site {
            Some(s) => Some(s),
            None => self.lookup_str(key),
        }
    }

    /// Look up the string list value of an option under
    /// `sites."<host>".<key>`, falling back to `key` when there is no match.
    pub fn lookup_site_str_vec(&self, uri: &str, key: &str) -> (r: Option<Vec<String>>)
        ensures
            match r {
                Some(items) => spec_lookup_site_str_vec(self.value, self.spec_home(), uri@, key@)
                    == Some(views(items@)),
                None => spec_lookup_site_str_vec(self.value, self.spec_home(), uri@, key@) is None,
            },
    {
        let site = match construct_lookup_key(uri, key) {
            Some(sk) => self.lookup_str_vec(sk.as_str()),
            None => None,
        };
        match site {
            Some(items) => Some(items),
            None => self.lookup_str_vec(key),
        }
    }
}

} // verus!

verus! {

/// Whether `name` stands in the `commands.disabled` list.
pub open spec fn spec_command_disabled(
    v: ConfigValue,
    home: Option<Seq<char>>,
    name: Seq<char>,
) -> bool {
    match spec_lookup_str_vec(v, home, "commands.disabled"@) {
        Some(items) => items.contains(name),
        None => false,
    }
}

/// The name a submitted command resolves to: the alias target under
/// `commands.aliases.<name>` read raw, or `name` itself; `None` when the
/// resolved name is disabled.
pub open spec fn spec_resolved_command_name(
    v: ConfigValue,
    home: Option<Seq<char>>,
    name: Seq<char>,
) -> Option<Seq<char>> {
    let target = match spec_lookup_raw_str(v, "commands.aliases."@ + name) {
        Some(t) => t,
        None => name,
    };
    if spec_command_disabled(v, home, target) {
        None
    } else {
        Some(target)
    }
}

/// The key consulted for a buffer lifecycle event's command list.
pub open spec fn spec_uri_event_key(event: URIEvent) -> Seq<char> {
    match event {
        URIEvent::Load => "commands.on-load-uri"@,
        URIEvent::Request => "commands.on-request-uri"@,
        URIEvent::Fail => "commands.on-fail-uri"@,
    }
}

/// The command list configured for a buffer lifecycle event; an unset list
/// is empty. Focus events have no configured list.
pub open spec fn spec_buffer_event_commands(
    v: ConfigValue,
    home: Option<Seq<char>>,
    event: BufferEvent,
) -> Seq<Seq<char>> {
    match event {
        BufferEvent::Focus => Seq::empty(),
        BufferEvent::Load => spec_event_list(v, home, URIEvent::Load),
        BufferEvent::Request => spec_event_list(v, home, URIEvent::Request),
        BufferEvent::Fail(_) => spec_event_list(v, home, URIEvent::Fail),
    }
}

/// The command list under the key for `event`, empty when unset.
pub open spec fn spec_event_list(
    v: ConfigValue,
    home: Option<Seq<char>>,
    event: URIEvent,
) -> Seq<Seq<char>> {
    match spec_lookup_str_vec(v, home, spec_uri_event_key(event)) {
        Some(items) => items,
        None => Seq::empty(),
    }
}

/// The configured command search paths, empty when unset.
pub open spec fn spec_search_paths(v: ConfigValue, home: Option<Seq<char>>) -> Seq<Seq<char>> {
    match spec_lookup_str_vec(v, home, "commands.search-paths"@) {
        Some(items) => items,
        None => Seq::empty(),
    }
}

/// The command text a single-character prefix rule rewrites `text` to:
/// the configured script for the first character, a blank, and the rest of
/// the text; `None` for empty text or an unconfigured prefix.
pub open spec fn spec_command_matching_prefix(
    v: ConfigValue,
    home: Option<Seq<char>>,
    text: Seq<char>,
) -> Option<Seq<char>> {
    if text.len() == 0 {
        None
    } else {
        match spec_lookup_str(
            v,
            home,
            "commands.on-text-change.\""@ + seq![text[0]] + "\""@,
        ) {
            Some(script) => Some(script + seq![' '] + text.skip(1)),
            None => None,
        }
    }
}

impl Config {
    /// The page opened with each new window, from `window.start-page`.
    pub fn start_page(&self) -> (r: Option<String>)
        ensures
            opt_str_view(r) == spec_lookup_str(self.value, self.spec_home(), "window.start-page"@),
    {
        self.lookup_str("window.start-page")
    }

    /// Whether a new frame opens in the focused window rather than a new
    /// one, from `new-frame.opens-in-focused-window`; unset means `false`.
    pub fn new_frame_uses_focused_window(&self) -> (r: bool)
        ensures
            r == (spec_lookup_bool(self.value, "new-frame.opens-in-focused-window"@) == Some(true)),
    {
        match self.lookup_bool("new-frame.opens-in-focused-window") {
            Some(b) => b,
            None => false,
        }
    }

    /// Whether a command is disabled by `commands.disabled`.
    pub fn command_disabled(&self, name: &str) -> (r: bool)
        ensures
            r == spec_command_disabled(self.value, self.spec_home(), name@),
    {
        let items = match self.lookup_str_vec("commands.disabled") {
            Some(items) => items,
            None => {
                return false;
            },
        };
        let mut i: usize = 0;
        while i < items.len()
            invariant
                0 <= i <= items@.len(),
                spec_lookup_str_vec(self.value, self.spec_home(), "commands.disabled"@) == Some(
                    views(items@),
                ),
                forall|k: int| 0 <= k < i ==> views(items@)[k] != name@,
            decreases items@.len() - i,
        {
            if str_eq(items[i].as_str(), name) {
                proof {
                    assert(views(items@)[i as int] == name@);
                }
                return true;
            }
            i = i + 1;
        }
        proof {
            assert(!views(items@).contains(name@));
        }
        false
    }

    /// The name of a command, resolving any alias in `commands.aliases` read
    /// raw; `None` when the resolved name is disabled.
    pub fn resolved_command_name(&self, name: &str) -> (r: Option<String>)
        ensures
            opt_str_view(r) == spec_resolved_command_name(self.value, self.spec_home(), name@),
    {
        let mut key = "commands.aliases.".to_owned();
        key.append(name);
        let target: String = match self.lookup_raw_str(key.as_str()) {
            Some(t) => t,
            None => name.to_owned(),
        };
        if self.command_disabled(target.as_str()) {
            None
        } else {
            Some(target)
        }
    }

    /// Font family and size for the command bar, from `general.bar-font`.
    pub fn bar_font(&self) -> (r: Option<(String, i64)>)
        ensures
            match r {
                Some(p) => spec_lookup_str(self.value, self.spec_home(), "general.bar-font.family"@)
                    == Some(p.0@) && spec_lookup_integer(self.value, "general.bar-font.size"@)
                    == Some(p.1),
                None => spec_lookup_str(self.value, self.spec_home(), "general.bar-font.family"@)
                    is None || spec_lookup_integer(self.value, "general.bar-font.size"@) is None,
            },
    {
        if let Some(family) = self.lookup_str("general.bar-font.family") {
            if let Some(size) = self.lookup_integer("general.bar-font.size") {
                return Some((family, size));
            }
        }
        None
    }

    /// The command to run automatically for a text prefix, from
    /// `commands.on-text-change."<first character>"`, with the rest of the
    /// text as its arguments.
    pub fn command_matching_prefix(&self, text: &str) -> (r: Option<String>)
        ensures
            opt_str_view(r) == spec_command_matching_prefix(
                self.value,
                self.spec_home(),
                text@,
            ),
    {
        let n = text.unicode_len();
        if n == 0 {
            return None;
        }
        let mut key = "commands.on-text-change.\"".to_owned();
        key.push(text.get_char(0));
        key.push('"');
        proof {
            reveal_strlit("\"");
            assert(key@ =~= "commands.on-text-change.\""@ + seq![text@[0]] + "\""@);
        }
        match self.lookup_str(key.as_str()) {
            Some(script) => {
                let mut out = script;
                out.push(' ');
                out.append(text.substring_char(1, n));
                proof {
                    assert(text@.subrange(1, n as int) =~= text@.skip(1));
                    assert(out@ =~= spec_lookup_str(
                        self.value,
                        self.spec_home(),
                        "commands.on-text-change.\""@ + seq![text@[0]] + "\""@,
                    )->Some_0 + seq![' '] + text@.skip(1));
                }
                Some(out)
            },
            None => None,
        }
    }

    /// The path to the content filter used in buffers, from
    /// `general.content-filter`.
    pub fn content_filter_path(&self) -> (r: Option<String>)
        ensures
            opt_str_view(r) == spec_lookup_str(
                self.value,
                self.spec_home(),
                "general.content-filter"@,
            ),
    {
        self.lookup_str("general.content-filter")
    }

    /// Whether to skip content filtering for a site, from the site-overlay
    /// option `general.skip-content-filter`; unset means `false`.
    pub fn skip_content_filter(&self, uri: &str) -> (r: bool)
        ensures
            r == (spec_lookup_site_bool(self.value, uri@, "general.skip-content-filter"@) == Some(
                true,
            )),
    {
        match self.lookup_site_bool(uri, "general.skip-content-filter") {
            Some(b) => b,
            None => false,
        }
    }

    /// Whether to enable private browsing for a site, from the site-overlay
    /// option `general.private-browsing`; unset means `false`.
    pub fn use_private_browsing(&self, uri: &str) -> (r: bool)
        ensures
            r == (spec_lookup_site_bool(self.value, uri@, "general.private-browsing"@) == Some(
                true,
            )),
    {
        match self.lookup_site_bool(uri, "general.private-browsing") {
            Some(b) => b,
            None => false,
        }
    }

    /// Whether to allow plugins for a site, from the site-overlay option
    /// `general.allow-plugins`; unset means `false`.
    pub fn use_plugins(&self, uri: &str) -> (r: bool)
        ensures
            r == (spec_lookup_site_bool(self.value, uri@, "general.allow-plugins"@) == Some(true)),
    {
        match self.lookup_site_bool(uri, "general.allow-plugins") {
            Some(b) => b,
            None => false,
        }
    }

    /// Whether to run JavaScript for a site, from the site-overlay option
    /// `general.allow-javascript`; unset means `false`.
    pub fn use_javascript(&self, uri: &str) -> (r: bool)
        ensures
            r == (spec_lookup_site_bool(self.value, uri@, "general.allow-javascript"@) == Some(
                true,
            )),
    {
        match self.lookup_site_bool(uri, "general.allow-javascript") {
            Some(b) => b,
            None => false,
        }
    }

    /// Paths to search for command scripts, from `commands.search-paths`;
    /// unset means none.
    pub fn command_search_paths(&self) -> (r: Vec<String>)
        ensures
            views(r@) == spec_search_paths(self.value, self.spec_home()),
    {
        match self.lookup_str_vec("commands.search-paths") {
            Some(items) => items,
            None => {
                let empty: Vec<String> = Vec::new();
                proof {
                    assert(views(empty@) =~= Seq::<Seq<char>>::empty());
                }
                empty
            },
        }
    }

    /// The command run when no other command matches, from
    /// `commands.default`.
    pub fn default_command(&self) -> (r: Option<String>)
        ensures
            opt_str_view(r) == spec_lookup_str(self.value, self.spec_home(), "commands.default"@),
    {
        self.lookup_str("commands.default")
    }

    /// The commands configured for a buffer lifecycle event; an unset list
    /// is empty.
    pub fn on_uri_event_commands(&self, event: URIEvent) -> (r: Vec<String>)
        ensures
            views(r@) == spec_event_list(self.value, self.spec_home(), event),
    {
        let key: &str = match event {
            URIEvent::Load => "commands.on-load-uri",
            URIEvent::Request => "commands.on-request-uri",
            URIEvent::Fail => "commands.on-fail-uri",
        };
        match self.lookup_str_vec(key) {
            Some(items) => items,
            None => {
                let empty: Vec<String> = Vec::new();
                proof {
                    assert(views(empty@) =~= Seq::<Seq<char>>::empty());
                }
                empty
            },
        }
    }

    /// The commands configured for a buffer event as scripts see it; focus
    /// changes have no configured list.
    pub fn on_buffer_event_commands(&self, event: &BufferEvent) -> (r: Vec<String>)
        ensures
            views(r@) == spec_buffer_event_commands(self.value, self.spec_home(), *event),
    {
        match event {
            BufferEvent::Load => self.on_uri_event_commands(URIEvent::Load),
            BufferEvent::Request => self.on_uri_event_commands(URIEvent::Request),
            BufferEvent::Fail(_) => self.on_uri_event_commands(URIEvent::Fail),
            BufferEvent::Focus => {
                let empty: Vec<String> = Vec::new();
                proof {
                    assert(views(empty@) =~= Seq::<Seq<char>>::empty());
                }
                empty
            },
        }
    }
}

} // verus!

verus! {

/// The keybinding table drawn from string entries: entries whose chord
/// parses are kept, in table order, as command name and parsed binding;
/// malformed chords are skipped without aborting the rest.
pub open spec fn spec_keybindings(entries: Seq<(Seq<char>, Seq<char>)>) -> Seq<
    (Seq<char>, (char, usize)),
>
    decreases entries.len(),
{
    if entries.len() == 0 {
        Seq::empty()
    } else {
        match crate::keybinding::spec_parse_chord(entries[0].1) {
            Ok(b) => seq![(entries[0].0, b)] + spec_keybindings(entries.skip(1)),
            Err(_) => spec_keybindings(entries.skip(1)),
        }
    }
}

/// The view of a keybinding table.
pub open spec fn keybinding_views(v: Seq<(String, (char, usize))>) -> Seq<
    (Seq<char>, (char, usize)),
> {
    v.map_values(|e: (String, (char, usize))| (e.0@, e.1))
}

impl Config {
    /// Mapping of command names to keybindings from `commands.keybindings`,
    /// in table order; entries whose chord fails to parse are skipped, and
    /// the rest of the table is still resolved.
    pub fn command_keybindings(&self) -> (r: Vec<(String, (char, usize))>)
        ensures
            keybinding_views(r@) == match spec_lookup_str_table(
                self.value,
                "commands.keybindings"@,
            ) {
                Some(entries) => spec_keybindings(entries),
                None => Seq::<(Seq<char>, (char, usize))>::empty(),
            },
    {
        let mut out: Vec<(String, (char, usize))> = Vec::new();
        let entries = match self.lookup_str_table("commands.keybindings") {
            Some(entries) => entries,
            None => {
                proof {
                    assert(keybinding_views(out@) =~= Seq::<(Seq<char>, (char, usize))>::empty());
                }
                return out;
            },
        };
        let ghost ev = entries@.map_values(|e: (String, String)| (e.0@, e.1@));
        let mut i: usize = 0;
        proof {
            assert(ev.skip(0) =~= ev);
            assert(keybinding_views(out@) =~= Seq::<(Seq<char>, (char, usize))>::empty());
            assert(keybinding_views(out@) + spec_keybindings(ev) =~= spec_keybindings(ev));
        }
        while i < entries.len()
            invariant
                0 <= i <= entries@.len(),
                ev == entries@.map_values(|e: (String, String)| (e.0@, e.1@)),
                spec_keybindings(ev) == keybinding_views(out@) + spec_keybindings(
                    ev.skip(i as int),
                ),
            decreases entries@.len() - i,
        {
            proof {
                assert(ev.skip(i as int).len() > 0);
                assert(ev.skip(i as int)[0] == ev[i as int]);
                assert(ev.skip(i as int).skip(1) =~= ev.skip(i + 1));
            }
            match crate::keybinding::parse(entries[i].1.as_str()) {
                Ok(binding) => {
                    let ghost prev_out = out@;
                    out.push((entries[i].0.clone(), binding));
                    proof {
                        assert(keybinding_views(out@) =~= keybinding_views(prev_out).push(
                            (ev[i as int].0, binding),
                        ));
                        assert(keybinding_views(out@) + spec_keybindings(ev.skip(i + 1))
                            =~= keybinding_views(prev_out) + (seq![(ev[i as int].0, binding)]
                            + spec_keybindings(ev.skip(i + 1))));
                    }
                },
                Err(_) => {},
            }
            i = i + 1;
        }
        proof {
            assert(ev.skip(ev.len() as int) =~= Seq::<(Seq<char>, Seq<char>)>::empty());
            assert(keybinding_views(out@) + Seq::<(Seq<char>, (char, usize))>::empty()
                =~= keybinding_views(out@));
        }
        out
    }
}

} // verus!

verus! {

/// The boolean under `key` in the configuration text `text`, `false` when
/// the text is absent, malformed, or holds no boolean there; this is the
/// lookup given to scripts inspecting a configuration file by path.
pub fn lookup_bool_in(text: Option<String>, key: &str) -> (r: bool)
    ensures
        r == match text {
            Some(t) => (match toml_document(t@) {
                Some(v) => spec_lookup_bool(v, key@) == Some(true),
                None => false,
            }),
            None => false,
        },
{
    match text {
        Some(t) => match Config::parse(t.as_str()) {
            Some(c) => match c.lookup_bool(key) {
                Some(b) => b,
                None => false,
            },
            None => false,
        },
        None => false,
    }
}

/// The substituted string under `key` in the configuration text `text`,
/// with `HOME` standing for the given home directory; empty when the text
/// is absent or malformed, or holds no string there. This is the lookup
/// given to scripts inspecting a configuration file by path.
pub fn lookup_str_in(text: Option<String>, home: Option<String>, key: &str) -> (r: String)
    ensures
        r@ == match text {
            Some(t) => (match toml_document(t@) {
                Some(v) => (match spec_lookup_str(v, opt_str_view(home), key@) {
                    Some(s) => s,
                    None => Seq::<char>::empty(),
                }),
                None => Seq::<char>::empty(),
            }),
            None => Seq::<char>::empty(),
        },
{
    match text {
        Some(t) => match parse_toml_text(t.as_str()) {
            Ok(value) => {
                let c = Config { value, home };
                match c.lookup_str(key) {
                    Some(s) => s,
                    None => String::new(),
                }
            },
            Err(_) => String::new(),
        },
        None => String::new(),
    }
}

/// The substituted string list under `key` in the configuration text
/// `text`, with `HOME` standing for the given home directory; empty when
/// the text is absent or malformed, or holds no list there. This is the
/// lookup given to scripts inspecting a configuration file by path.
pub fn lookup_str_vec_in(text: Option<String>, home: Option<String>, key: &str) -> (r: Vec<String>)
    ensures
        views(r@) == match text {
            Some(t) => (match toml_document(t@) {
                Some(v) => (match spec_lookup_str_vec(v, opt_str_view(home), key@) {
                    Some(items) => items,
                    None => Seq::<Seq<char>>::empty(),
                }),
                None => Seq::<Seq<char>>::empty(),
            }),
            None => Seq::<Seq<char>>::empty(),
        },
{
    match text {
        Some(t) => match parse_toml_text(t.as_str()) {
            Ok(value) => {
                let c = Config { value, home };
                match c.lookup_str_vec(key) {
                    Some(items) => items,
                    None => {
                        let empty: Vec<String> = Vec::new();
                        proof {
                            assert(views(empty@) =~= Seq::<Seq<char>>::empty());
                        }
                        empty
                    },
                }
            },
            Err(_) => {
                let empty: Vec<String> = Vec::new();
                proof {
                    assert(views(empty@) =~= Seq::<Seq<char>>::empty());
                }
                empty
            },
        },
        None => {
            let empty: Vec<String> = Vec::new();
            proof {
                assert(views(empty@) =~= Seq::<Seq<char>>::empty());
            }
            empty
        },
    }
}

} // verus!

verus! {

/// Law: path substitution. When `general.config-dir` holds `d` and the raw
/// string under `key` is `raw`, the substituted lookup yields `raw` with
/// `HOME` first replaced by the home directory, if one is known, and then
/// every occurrence of `CONFIG_DIR` replaced by `d`, scanning left to
/// right.
pub proof fn lemma_path_substitution(cfg: Config, key: Seq<char>, raw: Seq<char>, d: Seq<char>)
    requires
        spec_lookup_raw_str(cfg.value, key) == Some(raw),
        spec_config_dir(cfg.value) == Some(d),
    ensures
        spec_lookup_str(cfg.value, cfg.spec_home(), key) == Some(
            replace_seq(
                match cfg.spec_home() {
                    Some(h) => replace_seq(raw, "HOME"@, h),
                    None => raw,
                },
                "CONFIG_DIR"@,
                d,
            ),
        ),
{
}

/// Law: absent placeholders leave a value untouched. With no configured
/// directory and no known home directory, the substituted lookup yields
/// the raw string itself.
pub proof fn lemma_substitution_absent(cfg: Config, key: Seq<char>, raw: Seq<char>)
    requires
        spec_lookup_raw_str(cfg.value, key) == Some(raw),
        spec_config_dir(cfg.value) is None,
        cfg.spec_home() is None,
    ensures
        spec_lookup_str(cfg.value, cfg.spec_home(), key) == Some(raw),
{
}

/// Law: site overlay fallback. For a URI whose host has no overlay value
/// under `key`, the global value under `key` is returned — also when the
/// URI yields no host at all.
pub proof fn lemma_site_overlay_fallback(cfg: Config, uri: Seq<char>, key: Seq<char>, b: bool)
    requires
        match spec_site_key(uri, key) {
            Some(sk) => spec_lookup_bool(cfg.value, sk) is None,
            None => true,
        },
        spec_lookup_bool(cfg.value, key) == Some(b),
    ensures
        spec_lookup_site_bool(cfg.value, uri, key) == Some(b),
{
}

/// Law: a site overlay value wins. For a URI whose host holds an overlay
/// value under `key`, that value is returned, whatever stands globally.
pub proof fn lemma_site_overlay_wins(cfg: Config, uri: Seq<char>, key: Seq<char>, b: bool)
    requires
        spec_site_key(uri, key) matches Some(sk) && spec_lookup_bool(cfg.value, sk) == Some(b),
    ensures
        spec_lookup_site_bool(cfg.value, uri, key) == Some(b),
{
}

/// Law: alias and disable interact. When `name` is aliased to a target
/// that stands in `commands.disabled`, the name resolves to nothing — the
/// alias being well-formed does not save it.
pub proof fn lemma_alias_disable(cfg: Config, name: Seq<char>, target: Seq<char>)
    requires
        spec_lookup_raw_str(cfg.value, "commands.aliases."@ + name) == Some(target),
        spec_command_disabled(cfg.value, cfg.spec_home(), target),
    ensures
        spec_resolved_command_name(cfg.value, cfg.spec_home(), name) is None,
{
}

} // verus!
