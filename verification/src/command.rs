//! Command resolution: turning command-bar text into the path of a script
//! file plus an argument list.
//!
//! The input is cut into words; the first word is the command name, the rest
//! are its arguments. The name is resolved through the configured aliases
//! and the disabled list, and then looked for as `<name>.<suffix>` under the
//! configured search paths, scanned in reverse declared order so that paths
//! declared later win.
//!
//! Whether a candidate file exists on disk is not probed here: callers hand
//! in one presence flag per candidate path, so the resolution itself is
//! verified for every probe outcome.

use vstd::prelude::*;

use crate::config::{spec_resolved_command_name, Config};
use crate::strutil::{split_words, views, words};

verus! {

/// A resolved command: the path of the script file to run, and the
/// arguments handed to it verbatim.
#[derive(Debug)]
pub struct Command {
    pub path: String,
    pub arguments: Vec<String>,
}

/// A directory and a file name joined into one path: a blank separator is
/// added only where needed, and an absolute file name stands alone.
pub open spec fn spec_joined(dir: Seq<char>, file: Seq<char>) -> Seq<char> {
    if dir.len() == 0 {
        file
    } else if file.len() > 0 && file[0] == '/' {
        file
    } else if dir[dir.len() - 1] == '/' {
        dir + file
    } else {
        dir + seq!['/'] + file
    }
}

/// The candidate paths for `file` under `paths`, in priority order: the
/// declared list reversed, each joined with the file name.
pub open spec fn spec_candidate_paths(paths: Seq<Seq<char>>, file: Seq<char>) -> Seq<Seq<char>> {
    paths.reverse().map_values(|d: Seq<char>| spec_joined(d, file))
}

/// The first candidate whose presence flag is set, scanning front to back.
pub open spec fn spec_select(cands: Seq<Seq<char>>, present: Seq<bool>) -> Option<Seq<char>>
    decreases cands.len(),
{
    if cands.len() == 0 {
        None
    } else if present[0] {
        Some(cands[0])
    } else {
        spec_select(cands.skip(1), present.skip(1))
    }
}

/// The candidate paths that resolving `input` against `config` probes, in
/// priority order: `None` when the input holds no words, or the resolved
/// command name is empty or disabled.
pub open spec fn spec_candidates(
    config: Config,
    input: Seq<char>,
    suffix: Seq<char>,
) -> Option<Seq<Seq<char>>> {
    let ws = words(input);
    if ws.len() == 0 {
        None
    } else {
        match spec_resolved_command_name(config.value, config.spec_home(), ws[0]) {
            None => None,
            Some(rname) => if rname.len() == 0 {
                None
            } else {
                Some(
                    spec_candidate_paths(
                        crate::config::spec_search_paths(config.value, config.spec_home()),
                        rname + "."@ + suffix,
                    ),
                )
            },
        }
    }
}

/// Join a directory and a file name into a string path.
pub fn join_paths(dir: &str, file_name: &str) -> (r: Option<String>)
    ensures
        r matches Some(p) && p@ == spec_joined(dir@, file_name@),
{
    let dn = dir.unicode_len();
    let fn_ = file_name.unicode_len();
    if dn == 0 {
        Some(file_name.to_owned())
    } else if fn_ > 0 && file_name.get_char(0) == '/' {
        Some(file_name.to_owned())
    } else if dir.get_char(dn - 1) == '/' {
        let mut out = dir.to_owned();
        out.append(file_name);
        Some(out)
    } else {
        let mut out = dir.to_owned();
        out.push('/');
        out.append(file_name);
        proof {
            assert(out@ =~= dir@ + seq!['/'] + file_name@);
        }
        Some(out)
    }
}

/// The candidate paths for file `file` under the given search paths, in
/// priority order: later declared paths come first.
fn candidate_paths(search_paths: &Vec<String>, file: &str) -> (r: Vec<String>)
    ensures
        views(r@) == spec_candidate_paths(views(search_paths@), file@),
{
    let n = search_paths.len();
    let mut out: Vec<String> = Vec::new();
    let mut i: usize = 0;
    while i < n
        invariant
            0 <= i <= n,
            n == search_paths@.len(),
            out@.len() == i,
            forall|k: int|
                0 <= k < i ==> views(out@)[k] == spec_joined(
                    views(search_paths@)[n - 1 - k],
                    file@,
                ),
        decreases n - i,
    {
        let ghost prev = out@;
        match join_paths(search_paths[n - 1 - i].as_str(), file) {
            Some(p) => {
                let ghost pv = p@;
                out.push(p);
                proof {
                    assert(views(out@) =~= views(prev).push(pv));
                    assert(views(search_paths@)[n - 1 - i as int] == search_paths@[n - 1 - i
                        as int]@);
                }
            },
            None => {
                proof {
                    assert(false);
                }
            },
        }
        i = i + 1;
    }
    proof {
        let sv = views(search_paths@);
        assert(views(out@) =~= sv.reverse().map_values(|d: Seq<char>| spec_joined(d, file@)));
    }
    out
}

/// Pick the first candidate whose presence flag is set.
fn select_present(cands: &Vec<String>, present: &Vec<bool>) -> (r: Option<String>)
    requires
        present@.len() == cands@.len(),
    ensures
        match r {
            Some(p) => spec_select(views(cands@), present@) == Some(p@),
            None => spec_select(views(cands@), present@) is None,
        },
{
    let mut i: usize = 0;
    proof {
        assert(views(cands@).skip(0) =~= views(cands@));
        assert(present@.skip(0) =~= present@);
    }
    while i < cands.len()
        invariant
            0 <= i <= cands@.len(),
            present@.len() == cands@.len(),
            spec_select(views(cands@), present@) == spec_select(
                views(cands@).skip(i as int),
                present@.skip(i as int),
            ),
        decreases cands@.len() - i,
    {
        proof {
            assert(views(cands@).skip(i as int)[0] == views(cands@)[i as int]);
            assert(present@.skip(i as int)[0] == present@[i as int]);
            assert(views(cands@).skip(i as int).skip(1) =~= views(cands@).skip(i + 1));
            assert(present@.skip(i as int).skip(1) =~= present@.skip(i + 1));
        }
        if present[i] {
            return Some(cands[i].clone());
        }
        i = i + 1;
    }
    proof {
        assert(views(cands@).skip(cands@.len() as int) =~= Seq::<Seq<char>>::empty());
    }
    None
}

/// The words of `input` after the first, cloned into their own list.
fn tail_words(ws: &Vec<String>) -> (r: Vec<String>)
    requires
        ws@.len() >= 1,
    ensures
        views(r@) == views(ws@).skip(1),
{
    let mut out: Vec<String> = Vec::new();
    let mut j: usize = 1;
    while j < ws.len()
        invariant
            1 <= j <= ws@.len(),
            out@.len() == j - 1,
            forall|k: int| 0 <= k < j - 1 ==> views(out@)[k] == views(ws@)[k + 1],
        decreases ws@.len() - j,
    {
        let ghost prev = out@;
        let cloned = ws[j].clone();
        let ghost cv = cloned@;
        out.push(cloned);
        proof {
            assert(views(out@) =~= views(prev).push(cv));
            assert(views(ws@)[j as int] == ws@[j as int]@);
        }
        j = j + 1;
    }
    proof {
        assert(views(out@) =~= views(ws@).skip(1));
    }
    out
}

impl Command {
    /// The candidate script paths that parsing `input` would probe, in
    /// priority order; `None` when the input holds no words or its command
    /// name resolves to nothing runnable.
    pub fn candidates(input: &str, config: &Config, suffix: &str) -> (r: Option<Vec<String>>)
        ensures
            match r {
                Some(c) => spec_candidates(*config, input@, suffix@) == Some(views(c@)),
                None => spec_candidates(*config, input@, suffix@) is None,
            },
    {
        let ws = split_words(input);
        if ws.len() == 0 {
            return None;
        }
        proof {
            assert(views(ws@)[0] == words(input@)[0]);
        }
        let rname = match config.resolved_command_name(ws[0].as_str()) {
            Some(rname) => rname,
            None => {
                return None;
            },
        };
        if rname.as_str().unicode_len() == 0 {
            return None;
        }
        let ghost rv = rname@;
        let mut file = rname;
        file.push('.');
        file.append(suffix);
        proof {
            reveal_strlit(".");
            assert("."@ =~= seq!['.']);
            assert(file@ == rv + seq!['.'] + suffix@);
            assert(file@ =~= spec_resolved_command_name(
                config.value,
                config.spec_home(),
                words(input@)[0],
            )->Some_0 + "."@ + suffix@);
        }
        let search_paths = config.command_search_paths();
        Some(candidate_paths(&search_paths, file.as_str()))
    }

    /// Parse a command name and arguments into a `Command`, given one
    /// presence flag per candidate path: the first present candidate, in
    /// priority order, becomes the command's path.
    pub fn parse(input: &str, config: &Config, suffix: &str, present: &Vec<bool>) -> (r: Option<
        Command,
    >)
        requires
            spec_candidates(*config, input@, suffix@) matches Some(c) ==> present@.len()
                == c.len(),
        ensures
            match r {
                Some(cmd) => spec_candidates(*config, input@, suffix@) matches Some(c)
                    && spec_select(c, present@) == Some(cmd.path@) && views(cmd.arguments@)
                    == words(input@).skip(1),
                None => spec_candidates(*config, input@, suffix@) is None || spec_select(
                    spec_candidates(*config, input@, suffix@)->Some_0,
                    present@,
                ) is None,
            },
    {
        let cands = match Command::candidates(input, config, suffix) {
            Some(cands) => cands,
            None => {
                return None;
            },
        };
        let path = match select_present(&cands, present) {
            Some(path) => path,
            None => {
                return None;
            },
        };
        let ws = split_words(input);
        proof {
            assert(words(input@).len() >= 1);
        }
        let arguments = tail_words(&ws);
        Some(Command { path, arguments })
    }
}

/// Resolve `input` against plain search paths, without aliasing and without
/// a file suffix: the first word is looked for by name alone, under the
/// paths in reverse declared order, given one presence flag per path.
pub fn parse_command(search_paths: Vec<String>, input: &str, present: &Vec<bool>) -> (r: Option<
    Command,
>)
    requires
        present@.len() == search_paths@.len(),
    ensures
        match r {
            Some(cmd) => words(input@).len() >= 1 && spec_select(
                spec_candidate_paths(views(search_paths@), words(input@)[0]),
                present@,
            ) == Some(cmd.path@) && views(cmd.arguments@) == words(input@).skip(1),
            None => words(input@).len() == 0 || words(input@)[0].len() == 0 || spec_select(
                spec_candidate_paths(views(search_paths@), words(input@)[0]),
                present@,
            ) is None,
        },
{
    let ws = split_words(input);
    if ws.len() == 0 {
        return None;
    }
    if ws[0].as_str().unicode_len() == 0 {
        return None;
    }
    let cands = candidate_paths(&search_paths, ws[0].as_str());
    proof {
        assert(views(cands@).len() == views(search_paths@).reverse().map_values(
            |d: Seq<char>| spec_joined(d, words(input@)[0]),
        ).len());
    }
    let path = match select_present(&cands, present) {
        Some(path) => path,
        None => {
            return None;
        },
    };
    let arguments = tail_words(&ws);
    Some(Command { path, arguments })
}

} // verus!

verus! {

/// Law: the first present candidate wins. When the flag at `i` is set and
/// no earlier flag is, selection yields the candidate at `i`.
pub proof fn lemma_select_first(cands: Seq<Seq<char>>, present: Seq<bool>, i: int)
    requires
        present.len() == cands.len(),
        0 <= i < cands.len(),
        present[i],
        forall|k: int| 0 <= k < i ==> !present[k],
    ensures
        spec_select(cands, present) == Some(cands[i]),
    decreases i,
{
    if i > 0 {
        lemma_select_first(cands.skip(1), present.skip(1), i - 1);
        assert(cands.skip(1) =~= cands.subrange(1, cands.len() as int));
    }
}

/// Law: command search-path precedence. The candidate list scans the
/// declared search paths in reverse, so when the file under the path
/// declared at `j` is present and no path declared after `j` has it,
/// resolution picks the file under path `j`: later declared paths win over
/// earlier ones.
pub proof fn lemma_search_path_precedence(
    paths: Seq<Seq<char>>,
    file: Seq<char>,
    present: Seq<bool>,
    j: int,
)
    requires
        present.len() == paths.len(),
        0 <= j < paths.len(),
        present[paths.len() - 1 - j],
        forall|k: int| j < k < paths.len() ==> !present[#[trigger] (paths.len() - 1 - k)],
    ensures
        spec_select(spec_candidate_paths(paths, file), present) == Some(
            spec_joined(paths[j], file),
        ),
{
    let cands = spec_candidate_paths(paths, file);
    let i = paths.len() - 1 - j;
    assert(cands.len() == paths.len());
    assert(cands[i] == spec_joined(paths.reverse()[i], file));
    assert(paths.reverse()[i] == paths[j]);
    assert forall|k: int| 0 <= k < i implies !present[k] by {
        assert(k == paths.len() - 1 - (paths.len() - 1 - k));
    }
    lemma_select_first(cands, present, i);
}

} // verus!
