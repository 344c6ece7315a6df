//! The intent classifier: a total, deterministic map from a query to what it asks for.

use vstd::prelude::*;
use crate::text::{first_word, lemma_first_word_prefix, starts_with, tail, word};

verus! {

/// What a query asks for.
#[derive(Debug)]
pub enum InputType {
    Search,
    Mathematical,
    Url,
    /// A built-in `@` command, by its name.
    Command(String),
    /// A `file://` path, with the scheme taken off.
    File(String),
}

/// The mathematical value of an [`InputType`].
pub enum Intent {
    Search,
    Mathematical,
    Url,
    Command(Seq<char>),
    File(Seq<char>),
}

impl View for InputType {
    type V = Intent;

    open spec fn view(&self) -> Intent {
        match self {
            InputType::Search => Intent::Search,
            InputType::Mathematical => Intent::Mathematical,
            InputType::Url => Intent::Url,
            InputType::Command(c) => Intent::Command(c@),
            InputType::File(p) => Intent::File(p@),
        }
    }
}

pub open spec fn file_scheme() -> Seq<char> {
    seq!['f', 'i', 'l', 'e', ':', '/', '/']
}

pub open spec fn http_scheme() -> Seq<char> {
    seq!['h', 't', 't', 'p', ':', '/', '/']
}

pub open spec fn https_scheme() -> Seq<char> {
    seq!['h', 't', 't', 'p', 's', ':', '/', '/']
}

pub open spec fn exit_word() -> Seq<char> {
    seq!['e', 'x', 'i', 't']
}

pub open spec fn open_word() -> Seq<char> {
    seq!['o', 'p', 'e', 'n']
}

pub open spec fn exp_word() -> Seq<char> {
    seq!['e', 'x', 'p']
}

pub open spec fn help_word() -> Seq<char> {
    seq!['h', 'e', 'l', 'p']
}

/// The built-in commands: `@exit`, `@open`, `@exp` and `@help`.
pub open spec fn is_builtin(w: Seq<char>) -> bool {
    w == exit_word() || w == open_word() || w == exp_word() || w == help_word()
}

pub open spec fn is_url(s: Seq<char>) -> bool {
    http_scheme().is_prefix_of(s) || https_scheme().is_prefix_of(s)
}

/// The word after a leading `@`.
pub open spec fn command_word(s: Seq<char>) -> Seq<char> {
    first_word(s.drop_first())
}

pub open spec fn is_at(s: Seq<char>) -> bool {
    s.len() > 0 && s[0] == '@'
}

/// The intent of query `s`, where `evaluates` says whether the expression
/// evaluator accepts `s`. The first rule that matches wins.
pub open spec fn intent_of(s: Seq<char>, evaluates: bool) -> Intent {
    if file_scheme().is_prefix_of(s) {
        Intent::File(s.skip(7))
    } else if is_url(s) {
        Intent::Url
    } else if is_at(s) {
        if is_builtin(command_word(s)) {
            Intent::Command(command_word(s))
        } else {
            Intent::Search
        }
    } else if evaluates {
        Intent::Mathematical
    } else {
        Intent::Search
    }
}

/// The text that the evaluator is asked about for query `s`: what follows
/// `@exp` for that command, else the query itself.
pub open spec fn expression_text(s: Seq<char>) -> Seq<char> {
    if !file_scheme().is_prefix_of(s) && !is_url(s) && is_at(s) && command_word(s)
        == exp_word() {
        s.skip(4)
    } else {
        s
    }
}

/// Whether `a` and `b` hold the same characters.
pub fn same_text(a: &str, b: &str) -> (r: bool)
    ensures
        r == (a@ == b@),
{
    if a.unicode_len() != b.unicode_len() {
        return false;
    }
    let r = starts_with(a, b);
    proof {
        if r {
            assert(a@ =~= b@.subrange(0, b@.len() as int));
            assert(b@.subrange(0, b@.len() as int) =~= b@);
        }
    }
    r
}

pub fn is_builtin_command(w: &str) -> (r: bool)
    ensures
        r == is_builtin(w@),
{
    proof {
        reveal_strlit("exit");
        reveal_strlit("open");
        reveal_strlit("exp");
        reveal_strlit("help");
        assert("exit"@ =~= exit_word());
        assert("open"@ =~= open_word());
        assert("exp"@ =~= exp_word());
        assert("help"@ =~= help_word());
    }
    same_text(w, "exit") || same_text(w, "open") || same_text(w, "exp") || same_text(w, "help")
}

fn has_file_scheme(s: &str) -> (r: bool)
    ensures
        r == file_scheme().is_prefix_of(s@),
{
    proof {
        reveal_strlit("file://");
        assert("file://"@ =~= file_scheme());
    }
    starts_with(s, "file://")
}

fn has_web_scheme(s: &str) -> (r: bool)
    ensures
        r == is_url(s@),
{
    proof {
        reveal_strlit("http://");
        reveal_strlit("https://");
        assert("http://"@ =~= http_scheme());
        assert("https://"@ =~= https_scheme());
    }
    starts_with(s, "http://") || starts_with(s, "https://")
}

fn has_at(s: &str) -> (r: bool)
    ensures
        r == is_at(s@),
{
    s.unicode_len() > 0 && s.get_char(0) == '@'
}

/// The built-in command that `s` names after its `@`.
pub(crate) fn command_name(s: &str) -> (r: String)
    requires
        is_at(s@),
    ensures
        r@ == command_word(s@),
{
    let rest = tail(s, 1);
    assert(s@.skip(1) =~= s@.drop_first());
    word(rest.as_str())
}

/// Classifies `input`; `evaluates` is whether the expression evaluator
/// accepts `input` (it is consulted only when no prefix rule applies).
pub fn detect_input_type(input: &str, evaluates: bool) -> (r: InputType)
    ensures
        r@ == intent_of(input@, evaluates),
{
    if has_file_scheme(input) {
        return InputType::File(tail(input, 7));
    }
    if has_web_scheme(input) {
        return InputType::Url;
    }
    if has_at(input) {
        let cmd = command_name(input);
        if is_builtin_command(cmd.as_str()) {
            return InputType::Command(cmd);
        }
        return InputType::Search;
    }
    if evaluates {
        InputType::Mathematical
    } else {
        InputType::Search
    }
}

/// The text to hand to the expression evaluator for `input`.
pub fn expression_of(input: &str) -> (r: String)
    ensures
        r@ == expression_text(input@),
{
    proof {
        reveal_strlit("exp");
        assert("exp"@ =~= exp_word());
    }
    if !has_file_scheme(input) && !has_web_scheme(input) && has_at(input) {
        let cmd = command_name(input);
        if same_text(cmd.as_str(), "exp") {
            proof {
                lemma_first_word_prefix(input@.drop_first());
            }
            return tail(input, 4);
        }
    }
    input.to_string()
}


/// A query that starts with `http://` or `https://` is a web address,
/// whatever the evaluator says of it.
pub proof fn lemma_web_address_is_url(s: Seq<char>, evaluates: bool)
    requires
        is_url(s),
    ensures
        intent_of(s, evaluates) == Intent::Url,
{
    assert(s[0] == 'h');
    if file_scheme().is_prefix_of(s) {
        assert(s[0] == file_scheme()[0]);
    }
}

/// `file://<path>` asks about `<path>`: the scheme is taken off exactly once.
pub proof fn lemma_file_scheme_stripped_once(path: Seq<char>, evaluates: bool)
    ensures
        intent_of(file_scheme() + path, evaluates) == Intent::File(path),
{
    let s = file_scheme() + path;
    assert(file_scheme() =~= s.subrange(0, 7));
    assert(s.skip(7) =~= path);
}

/// A query that the evaluator accepts, and that starts with none of `@`,
/// `file://`, `http://` and `https://`, is mathematical.
pub proof fn lemma_expression_is_mathematical(s: Seq<char>)
    requires
        !is_at(s),
        !file_scheme().is_prefix_of(s),
        !is_url(s),
    ensures
        intent_of(s, true) == Intent::Mathematical,
        expression_text(s) == s,
{
}

} // verus!
