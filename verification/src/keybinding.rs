//! Parsing of human-readable keybinding chords such as `"Ctrl Alt d"` into a
//! key character and a modifier bitmask.
//!
//! A chord is cut at single spaces. Each token is either the key — a single
//! character, or the word `space` standing for a blank — or a modifier name,
//! matched ignoring ASCII case. Exactly one key token and at least one
//! modifier token are required.

use vstd::prelude::*;

use crate::strutil::{
    eq_ignore_case, eq_ignore_case_exec, lower, opt_str_view, split_on, split_str, str_eq, views,
};

verus! {

/// Bit set in a modifier mask by the `shift` modifier.
pub const MASK_SHIFT: usize = 0x10000;

/// Bit set in a modifier mask by the `control` and `ctrl` modifiers.
pub const MASK_CONTROL: usize = 0x40000;

/// Bit set in a modifier mask by the `alt`, `option` and `opt` modifiers.
pub const MASK_ALTERNATE: usize = 0x80000;

/// Bit set in a modifier mask by the `super`, `cmd` and `command` modifiers.
pub const MASK_SUPER: usize = 0x100000;

/// Bit set in a modifier mask by the `fn` and `function` modifiers.
pub const MASK_FUNCTION: usize = 0x800000;

/// A named modifier key, standing for one bit of a modifier mask.
#[derive(Debug, Clone, Copy, PartialEq, Eq)]
pub enum KeyMask {
    Shift,
    Control,
    Alternate,
    Super,
    Function,
}

impl KeyMask {
    /// The mask bit this modifier stands for.
    pub open spec fn spec_mask(self) -> usize {
        match self {
            KeyMask::Shift => MASK_SHIFT,
            KeyMask::Control => MASK_CONTROL,
            KeyMask::Alternate => MASK_ALTERNATE,
            KeyMask::Super => MASK_SUPER,
            KeyMask::Function => MASK_FUNCTION,
        }
    }

    /// The mask bit this modifier stands for.
    pub fn mask(&self) -> (r: usize)
        ensures
            r == self.spec_mask(),
    {
        match self {
            KeyMask::Shift => MASK_SHIFT,
            KeyMask::Control => MASK_CONTROL,
            KeyMask::Alternate => MASK_ALTERNATE,
            KeyMask::Super => MASK_SUPER,
            KeyMask::Function => MASK_FUNCTION,
        }
    }
}

/// Why a chord failed to parse.
#[derive(Debug, Clone, Copy, PartialEq, Eq, Structural)]
pub enum ParseErrorReason {
    ModifierNotFound,
    NoKeySpecified,
    NoModifierSpecified,
    TooManyKeysSpecified,
}

/// A failed chord parse: the reason, and a human-readable message.
#[derive(Debug, PartialEq)]
pub struct ParseError {
    pub message: String,
    pub reason: ParseErrorReason,
}

/// The mask bit a modifier token sets, or `None` when the token names no
/// modifier; matching ignores ASCII case.
pub open spec fn modifier_mask(tok: Seq<char>) -> Option<usize> {
    let l = lower(tok);
    if l == "alt"@ || l == "option"@ || l == "opt"@ {
        Some(MASK_ALTERNATE)
    } else if l == "super"@ || l == "cmd"@ || l == "command"@ {
        Some(MASK_SUPER)
    } else if l == "shift"@ {
        Some(MASK_SHIFT)
    } else if l == "control"@ || l == "ctrl"@ {
        Some(MASK_CONTROL)
    } else if l == "fn"@ || l == "function"@ {
        Some(MASK_FUNCTION)
    } else {
        None
    }
}

/// Whether a token is a key token: a single character, or the word `space`.
pub open spec fn is_key_token(tok: Seq<char>) -> bool {
    tok.len() == 1 || tok == "space"@
}

/// The key a key token stands for: the word `space` stands for a blank.
pub open spec fn key_of_token(tok: Seq<char>) -> Seq<char> {
    if tok == "space"@ {
        seq![' ']
    } else {
        tok
    }
}

/// The pieces of a sequence of strings, joined with single blanks.
pub open spec fn join_space(pieces: Seq<Seq<char>>) -> Seq<char>
    decreases pieces.len(),
{
    if pieces.len() == 0 {
        Seq::empty()
    } else if pieces.len() == 1 {
        pieces[0]
    } else {
        pieces[0] + seq![' '] + join_space(pieces.skip(1))
    }
}

/// The message reported for a failed chord parse.
pub open spec fn spec_error_message(
    reason: ParseErrorReason,
    keys: Seq<Seq<char>>,
    modifier: Seq<char>,
) -> Seq<char> {
    match reason {
        ParseErrorReason::ModifierNotFound => "Modifier not found for '"@ + modifier + "'"@,
        ParseErrorReason::NoKeySpecified => "No key specified in chord"@,
        ParseErrorReason::NoModifierSpecified => "No modifier specified in chord"@,
        ParseErrorReason::TooManyKeysSpecified => "Too many keys specified in chord: "@
            + join_space(keys),
    }
}

/// One outcome of parsing a chord: the key character and the mask, or the
/// reason and message of the failure.
pub open spec fn parse_chord_rec(
    toks: Seq<Seq<char>>,
    key: Option<Seq<char>>,
    mask: usize,
) -> Result<(char, usize), (ParseErrorReason, Seq<char>)>
    decreases toks.len(),
{
    if toks.len() == 0 {
        match key {
            None => Err(
                (
                    ParseErrorReason::NoKeySpecified,
                    spec_error_message(ParseErrorReason::NoKeySpecified, Seq::empty(), Seq::empty()),
                ),
            ),
            Some(k) => {
                if mask == 0 {
                    Err(
                        (
                            ParseErrorReason::NoModifierSpecified,
                            spec_error_message(
                                ParseErrorReason::NoModifierSpecified,
                                Seq::empty(),
                                Seq::empty(),
                            ),
                        ),
                    )
                } else {
                    Ok((k[0], mask))
                }
            },
        }
    } else {
        let t = toks[0];
        if is_key_token(t) {
            match key {
                Some(k) => Err(
                    (
                        ParseErrorReason::TooManyKeysSpecified,
                        spec_error_message(
                            ParseErrorReason::TooManyKeysSpecified,
                            seq![k, t],
                            Seq::empty(),
                        ),
                    ),
                ),
                None => parse_chord_rec(toks.skip(1), Some(key_of_token(t)), mask),
            }
        } else {
            match modifier_mask(t) {
                Some(m) => parse_chord_rec(toks.skip(1), key, mask | m),
                None => Err(
                    (
                        ParseErrorReason::ModifierNotFound,
                        spec_error_message(ParseErrorReason::ModifierNotFound, Seq::empty(), t),
                    ),
                ),
            }
        }
    }
}

/// What parsing a chord string yields: its tokens are the pieces cut at
/// single spaces, read left to right.
pub open spec fn spec_parse_chord(s: Seq<char>) -> Result<
    (char, usize),
    (ParseErrorReason, Seq<char>),
> {
    parse_chord_rec(split_on(s, ' '), None, 0)
}

} // verus!

verus! {

/// The views of a sequence of borrowed strings.
pub open spec fn str_views(v: Seq<&str>) -> Seq<Seq<char>> {
    v.map_values(|s: &str| s@)
}

proof fn lemma_modifier_names_lower()
    ensures
        lower("alt"@) == "alt"@,
        lower("option"@) == "option"@,
        lower("opt"@) == "opt"@,
        lower("super"@) == "super"@,
        lower("cmd"@) == "cmd"@,
        lower("command"@) == "command"@,
        lower("shift"@) == "shift"@,
        lower("control"@) == "control"@,
        lower("ctrl"@) == "ctrl"@,
        lower("fn"@) == "fn"@,
        lower("function"@) == "function"@,
{
    reveal_strlit("alt");
    reveal_strlit("option");
    reveal_strlit("opt");
    reveal_strlit("super");
    reveal_strlit("cmd");
    reveal_strlit("command");
    reveal_strlit("shift");
    reveal_strlit("control");
    reveal_strlit("ctrl");
    reveal_strlit("fn");
    reveal_strlit("function");
    assert(lower("alt"@) =~= "alt"@);
    assert(lower("option"@) =~= "option"@);
    assert(lower("opt"@) =~= "opt"@);
    assert(lower("super"@) =~= "super"@);
    assert(lower("cmd"@) =~= "cmd"@);
    assert(lower("command"@) =~= "command"@);
    assert(lower("shift"@) =~= "shift"@);
    assert(lower("control"@) =~= "control"@);
    assert(lower("ctrl"@) =~= "ctrl"@);
    assert(lower("fn"@) =~= "fn"@);
    assert(lower("function"@) =~= "function"@);
}

/// Classify one token as a modifier, ignoring ASCII case.
fn modifier_mask_exec(tok: &str) -> (r: Option<usize>)
    ensures
        r == modifier_mask(tok@),
{
    proof {
        lemma_modifier_names_lower();
    }
    if eq_ignore_case_exec(tok, "alt") || eq_ignore_case_exec(tok, "option")
        || eq_ignore_case_exec(tok, "opt") {
        Some(MASK_ALTERNATE)
    } else if eq_ignore_case_exec(tok, "super") || eq_ignore_case_exec(tok, "cmd")
        || eq_ignore_case_exec(tok, "command") {
        Some(MASK_SUPER)
    } else if eq_ignore_case_exec(tok, "shift") {
        Some(MASK_SHIFT)
    } else if eq_ignore_case_exec(tok, "control") || eq_ignore_case_exec(tok, "ctrl") {
        Some(MASK_CONTROL)
    } else if eq_ignore_case_exec(tok, "fn") || eq_ignore_case_exec(tok, "function") {
        Some(MASK_FUNCTION)
    } else {
        None
    }
}

/// Join the strings of `pieces` from index `i` on with single blanks.
fn join_space_exec(pieces: &Vec<&str>, i: usize) -> (r: String)
    requires
        i <= pieces@.len(),
    ensures
        r@ == join_space(str_views(pieces@).skip(i as int)),
    decreases pieces@.len() - i,
{
    let n = pieces.len();
    if i == n {
        proof {
            assert(str_views(pieces@).skip(i as int) =~= Seq::<Seq<char>>::empty());
        }
        String::new()
    } else if i + 1 == n {
        proof {
            assert(str_views(pieces@).skip(i as int) =~= seq![pieces@[i as int]@]);
        }
        pieces[i].to_owned()
    } else {
        let rest = join_space_exec(pieces, i + 1);
        let mut m = pieces[i].to_owned();
        m.append(" ");
        m.append(rest.as_str());
        proof {
            let v = str_views(pieces@);
            assert(v.skip(i as int).len() >= 2);
            assert(v.skip(i as int)[0] == v[i as int]);
            assert(v.skip(i as int).skip(1) =~= v.skip(i + 1));
            reveal_strlit(" ");
            assert(" "@ =~= seq![' ']);
        }
        m
    }
}

impl ParseError {
    /// Build a parse error, deriving the message from the reason, the key
    /// tokens seen, and the offending modifier token.
    fn new(reason: ParseErrorReason, keys: Vec<&str>, modifier: &str) -> (e: ParseError)
        ensures
            e.reason == reason,
            e.message@ == spec_error_message(reason, str_views(keys@), modifier@),
    {
        let message: String = match reason {
            ParseErrorReason::ModifierNotFound => {
                let mut m = "Modifier not found for '".to_owned();
                m.append(modifier);
                m.append("'");
                m
            },
            ParseErrorReason::NoKeySpecified => "No key specified in chord".to_owned(),
            ParseErrorReason::NoModifierSpecified => "No modifier specified in chord".to_owned(),
            ParseErrorReason::TooManyKeysSpecified => {
                let mut m = "Too many keys specified in chord: ".to_owned();
                let joined = join_space_exec(&keys, 0);
                proof {
                    assert(str_views(keys@).skip(0) =~= str_views(keys@));
                }
                m.append(joined.as_str());
                m
            },
        };
        ParseError { reason, message }
    }
}

} // verus!

verus! {

proof fn lemma_parse_chord_rec_step(
    toks: Seq<Seq<char>>,
    key: Option<Seq<char>>,
    mask: usize,
    i: int,
)
    requires
        0 <= i < toks.len(),
    ensures
        parse_chord_rec(toks.skip(i), key, mask) == ({
            let t = toks[i];
            if is_key_token(t) {
                match key {
                    Some(k) => Err::<(char, usize), _>(
                        (
                            ParseErrorReason::TooManyKeysSpecified,
                            spec_error_message(
                                ParseErrorReason::TooManyKeysSpecified,
                                seq![k, t],
                                Seq::<char>::empty(),
                            ),
                        ),
                    ),
                    None => parse_chord_rec(toks.skip(i + 1), Some(key_of_token(t)), mask),
                }
            } else {
                match modifier_mask(t) {
                    Some(m) => parse_chord_rec(toks.skip(i + 1), key, (mask | m) as usize),
                    None => Err(
                        (
                            ParseErrorReason::ModifierNotFound,
                            spec_error_message(
                                ParseErrorReason::ModifierNotFound,
                                Seq::empty(),
                                t,
                            ),
                        ),
                    ),
                }
            }
        }),
{
    assert(toks.skip(i).len() > 0);
    assert(toks.skip(i)[0] == toks[i]);
    assert(toks.skip(i).skip(1) =~= toks.skip(i + 1));
}

/// Parse a chord string into its key character and modifier bitmask.
///
/// The chord is cut at single spaces; one token must be a key — a single
/// character, or the word `space` — and every other token a modifier name,
/// matched ignoring ASCII case. The masks of all modifier tokens are OR-ed
/// together.
pub fn parse(chord: &str) -> (r: Result<(char, usize), ParseError>)
    ensures
        match r {
            Ok(p) => spec_parse_chord(chord@) == Ok::<(char, usize), (ParseErrorReason, Seq<char>)>(
                p,
            ),
            Err(e) => spec_parse_chord(chord@) matches Err(se) && e.reason == se.0 && e.message@
                == se.1,
        },
{
    let toks = split_str(chord, ' ');
    let ghost tv = views(toks@);
    let mut key: Option<String> = None;
    let mut mask: usize = 0;
    let mut i: usize = 0;
    proof {
        assert(tv.skip(0) =~= tv);
    }
    while i < toks.len()
        invariant
            0 <= i <= toks@.len(),
            tv == views(toks@),
            spec_parse_chord(chord@) == parse_chord_rec(tv.skip(i as int), opt_str_view(key), mask),
            key matches Some(k) ==> k@.len() == 1,
        decreases toks@.len() - i,
    {
        let t: &String = &toks[i];
        proof {
            lemma_parse_chord_rec_step(tv, opt_str_view(key), mask, i as int);
            assert(tv[i as int] == t@);
        }
        let is_space_word = str_eq(t.as_str(), "space");
        if t.as_str().unicode_len() == 1 || is_space_word {
            match &key {
                Some(k) => {
                    let keys: Vec<&str> = vec![k.as_str(), t.as_str()];
                    let ghost kv = keys@;
                    let e = ParseError::new(ParseErrorReason::TooManyKeysSpecified, keys, "");
                    proof {
                        assert(str_views(kv) =~= seq![k@, t@]);
                    }
                    return Err(e);
                },
                None => {
                    if is_space_word {
                        let s = " ".to_owned();
                        proof {
                            reveal_strlit(" ");
                            assert(s@ =~= seq![' ']);
                        }
                        key = Some(s);
                    } else {
                        key = Some(t.clone());
                    }
                },
            }
        } else {
            match modifier_mask_exec(t.as_str()) {
                Some(m) => {
                    mask = mask | m;
                },
                None => {
                    let keys: Vec<&str> = Vec::new();
                    let ghost kv = keys@;
                    let e = ParseError::new(ParseErrorReason::ModifierNotFound, keys, t.as_str());
                    proof {
                        assert(str_views(kv) =~= Seq::<Seq<char>>::empty());
                    }
                    return Err(e);
                },
            }
        }
        i = i + 1;
    }
    proof {
        assert(tv.skip(toks@.len() as int) =~= Seq::<Seq<char>>::empty());
    }
    match key {
        None => {
            let keys: Vec<&str> = Vec::new();
            let ghost kv = keys@;
            let e = ParseError::new(ParseErrorReason::NoKeySpecified, keys, "");
            proof {
                assert(str_views(kv) =~= Seq::<Seq<char>>::empty());
            }
            Err(e)
        },
        Some(k) => {
            if mask == 0 {
                let keys: Vec<&str> = Vec::new();
                let ghost kv = keys@;
                let e = ParseError::new(ParseErrorReason::NoModifierSpecified, keys, "");
                proof {
                    assert(str_views(kv) =~= Seq::<Seq<char>>::empty());
                }
                Err(e)
            } else {
                Ok((k.as_str().get_char(0), mask))
            }
        },
    }
}

} // verus!

verus! {

/// How many key tokens a token list holds.
pub open spec fn key_count(toks: Seq<Seq<char>>) -> int
    decreases toks.len(),
{
    if toks.len() == 0 {
        0
    } else if is_key_token(toks[0]) {
        1 + key_count(toks.skip(1))
    } else {
        key_count(toks.skip(1))
    }
}

/// Whether every token is a key token or a recognised modifier.
pub open spec fn all_tokens_valid(toks: Seq<Seq<char>>) -> bool {
    forall|k: int|
        0 <= k < toks.len() ==> is_key_token(#[trigger] toks[k]) || modifier_mask(toks[k]) is Some
}

/// The modifier bitmask a token list folds to, left to right, starting
/// from `mask`; key tokens contribute nothing.
pub open spec fn fold_masks(toks: Seq<Seq<char>>, mask: usize) -> usize
    decreases toks.len(),
{
    if toks.len() == 0 {
        mask
    } else if is_key_token(toks[0]) {
        fold_masks(toks.skip(1), mask)
    } else {
        fold_masks(toks.skip(1), (mask | modifier_mask(toks[0])->Some_0) as usize)
    }
}

/// The key the single key token of a list stands for.
pub open spec fn chord_key(toks: Seq<Seq<char>>) -> Seq<char>
    decreases toks.len(),
{
    if toks.len() == 0 {
        Seq::empty()
    } else if is_key_token(toks[0]) {
        key_of_token(toks[0])
    } else {
        chord_key(toks.skip(1))
    }
}

proof fn lemma_key_count_nonneg(toks: Seq<Seq<char>>)
    ensures
        key_count(toks) >= 0,
    decreases toks.len(),
{
    if toks.len() > 0 {
        lemma_key_count_nonneg(toks.skip(1));
    }
}

proof fn lemma_or_nonzero(a: usize, b: usize)
    requires
        a != 0 || b != 0,
    ensures
        (a | b) != 0,
{
    assert((a | b) != 0) by (bit_vector)
        requires
            a != 0 || b != 0,
    ;
}

proof fn lemma_fold_nonzero(toks: Seq<Seq<char>>, mask: usize)
    requires
        all_tokens_valid(toks),
        mask != 0 || (exists|k: int| 0 <= k < toks.len() && !is_key_token(#[trigger] toks[k])),
    ensures
        fold_masks(toks, mask) != 0,
    decreases toks.len(),
{
    if mask != 0 {
        if toks.len() > 0 {
            if is_key_token(toks[0]) {
                lemma_fold_nonzero(toks.skip(1), mask);
            } else {
                let m = modifier_mask(toks[0])->Some_0;
                assert(m != 0);
                lemma_or_nonzero(mask, m);
                lemma_fold_nonzero(toks.skip(1), (mask | m) as usize);
            }
        }
    } else {
        let k = choose|k: int| 0 <= k < toks.len() && !is_key_token(#[trigger] toks[k]);
        if is_key_token(toks[0]) {
            assert(!is_key_token(toks.skip(1)[k - 1]));
            lemma_fold_nonzero(toks.skip(1), mask);
        } else {
            let m = modifier_mask(toks[0])->Some_0;
            assert(m != 0);
            lemma_or_nonzero(mask, m);
            lemma_fold_nonzero(toks.skip(1), (mask | m) as usize);
        }
    }
}

proof fn lemma_chord_ok_rec(toks: Seq<Seq<char>>, key: Option<Seq<char>>, mask: usize)
    requires
        all_tokens_valid(toks),
        key_count(toks) + (if key is Some {
            1int
        } else {
            0int
        }) == 1,
        key matches Some(k) ==> k.len() == 1,
        fold_masks(toks, mask) != 0,
    ensures
        parse_chord_rec(toks, key, mask) == Ok::<(char, usize), (ParseErrorReason, Seq<char>)>(
            (
                match key {
                    Some(k) => k[0],
                    None => chord_key(toks)[0],
                },
                fold_masks(toks, mask),
            ),
        ),
    decreases toks.len(),
{
    if toks.len() == 0 {
    } else if is_key_token(toks[0]) {
        lemma_key_count_nonneg(toks.skip(1));
        assert(key is None);
        assert(key_of_token(toks[0]).len() == 1) by {
            if toks[0] == "space"@ {
            }
        }
        lemma_chord_ok_rec(toks.skip(1), Some(key_of_token(toks[0])), mask);
    } else {
        let m = modifier_mask(toks[0])->Some_0;
        lemma_chord_ok_rec(toks.skip(1), key, (mask | m) as usize);
    }
}

/// Law: keybinding round trip. For every chord whose tokens hold exactly
/// one key token — a single character or the word `space` — and otherwise
/// only recognised modifier names, with at least one modifier, parsing
/// succeeds and yields that key together with the OR of the modifiers'
/// mask bits, whatever order the tokens stand in.
pub proof fn lemma_keybinding_round_trip(chord: Seq<char>)
    requires
        all_tokens_valid(split_on(chord, ' ')),
        key_count(split_on(chord, ' ')) == 1,
        exists|k: int|
            0 <= k < split_on(chord, ' ').len() && !is_key_token(
                #[trigger] split_on(chord, ' ')[k],
            ),
    ensures
        spec_parse_chord(chord) == Ok::<(char, usize), (ParseErrorReason, Seq<char>)>(
            (chord_key(split_on(chord, ' '))[0], fold_masks(split_on(chord, ' '), 0)),
        ),
{
    let toks = split_on(chord, ' ');
    lemma_fold_nonzero(toks, 0);
    lemma_chord_ok_rec(toks, None, 0);
}

proof fn lemma_chord_no_key_rec(toks: Seq<Seq<char>>, mask: usize)
    requires
        all_tokens_valid(toks),
        key_count(toks) == 0,
    ensures
        parse_chord_rec(toks, None, mask) matches Err(e) && e.0
            == ParseErrorReason::NoKeySpecified,
    decreases toks.len(),
{
    if toks.len() > 0 {
        lemma_key_count_nonneg(toks.skip(1));
        assert(!is_key_token(toks[0]));
        let m = modifier_mask(toks[0])->Some_0;
        lemma_chord_no_key_rec(toks.skip(1), (mask | m) as usize);
    }
}

/// Law: a chord of recognised modifiers with no key token fails to parse,
/// and the failure names the missing key.
pub proof fn lemma_keybinding_no_key(chord: Seq<char>)
    requires
        all_tokens_valid(split_on(chord, ' ')),
        key_count(split_on(chord, ' ')) == 0,
    ensures
        spec_parse_chord(chord) matches Err(e) && e.0 == ParseErrorReason::NoKeySpecified,
{
    lemma_chord_no_key_rec(split_on(chord, ' '), 0);
}

proof fn lemma_chord_too_many_rec(toks: Seq<Seq<char>>, key: Option<Seq<char>>, mask: usize)
    requires
        all_tokens_valid(toks),
        key_count(toks) + (if key is Some {
            1int
        } else {
            0int
        }) >= 2,
    ensures
        parse_chord_rec(toks, key, mask) matches Err(e) && e.0
            == ParseErrorReason::TooManyKeysSpecified,
    decreases toks.len(),
{
    lemma_key_count_nonneg(toks);
    assert(toks.len() > 0);
    lemma_key_count_nonneg(toks.skip(1));
    if is_key_token(toks[0]) {
        if key is None {
            lemma_chord_too_many_rec(toks.skip(1), Some(key_of_token(toks[0])), mask);
        }
    } else {
        let m = modifier_mask(toks[0])->Some_0;
        lemma_chord_too_many_rec(toks.skip(1), key, (mask | m) as usize);
    }
}

/// Law: a chord of recognised tokens holding two or more key tokens fails
/// to parse, and the failure names the surplus of keys.
pub proof fn lemma_keybinding_too_many_keys(chord: Seq<char>)
    requires
        all_tokens_valid(split_on(chord, ' ')),
        key_count(split_on(chord, ' ')) >= 2,
    ensures
        spec_parse_chord(chord) matches Err(e) && e.0 == ParseErrorReason::TooManyKeysSpecified,
{
    lemma_chord_too_many_rec(split_on(chord, ' '), None, 0);
}

/// Law: modifier matching ignores ASCII case — two tokens that agree once
/// lowercased are the same modifier.
pub proof fn lemma_modifier_case_insensitive(a: Seq<char>, b: Seq<char>)
    requires
        eq_ignore_case(a, b),
    ensures
        modifier_mask(a) == modifier_mask(b),
{
}

} // verus!
