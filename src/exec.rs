//! The pipeline: classify a query, then build its response from what the
//! caller observed outside (the evaluator, the plugins, the file system).

use vstd::prelude::*;
use crate::classify::{
    command_name, command_word, detect_input_type, file_scheme, http_scheme, https_scheme,
    exp_word, intent_of, is_at, is_builtin, is_url, lemma_expression_is_mathematical,
    lemma_web_address_is_url, Intent, InputType,
};
use crate::config::opt_view;
use crate::file::{
    expand_home, expanded, file_response, is_file_response, modified_text, FileInfo,
};
use crate::model::{ActionView, PluginConfig, PluginResponse};
use crate::response::{
    action_of, command, empty_response, is_command_response, is_empty_response, is_math_response,
    is_open_response, mathematical, url,
};
use crate::search::{
    is_fan_out, is_first_named, is_search_response, named_index, named_query, names_plugin,
    runs_on_any, search,
};
use crate::text::{after, is_space, lemma_first_word, tail};

verus! {

/// The longest query that is answered, in characters.
pub const MAX_INPUT_CHARS: usize = 1000;

/// What the caller observed outside the library for one query.
#[derive(Debug)]
pub struct Observed {
    /// The evaluator's outcome on `expression_of(input)`: the number as text,
    /// or the evaluator's message.
    pub evaluation: Result<String, String>,
    /// The decoded response of each plugin that `plugin_queries` asked to
    /// run, by plugin index; `None` where it wrote nothing, failed, or was not run.
    pub responses: Vec<Option<PluginResponse>>,
    /// The home directory, which a leading `~` of a file path stands for.
    pub home: Option<String>,
    /// What the file system says of `file_target(input, home)`, for a
    /// `file://` query.
    pub file: FileInfo,
}

/// A query is answered where it is neither empty nor too long.
pub open spec fn answered(input: Seq<char>) -> bool {
    0 < input.len() <= MAX_INPUT_CHARS
}

/// The path that a `file://` query asks about.
pub open spec fn target_of(input: Seq<char>, home: Option<Seq<char>>) -> Seq<char> {
    expanded(input.skip(7), home)
}

/// The response to `input`, given what was observed.
pub open spec fn is_dispatch_response(
    r: PluginResponse,
    input: Seq<char>,
    plugins: Seq<PluginConfig>,
    observed: Observed,
) -> bool {
    if !answered(input) {
        is_empty_response(r)
    } else {
        match intent_of(input, observed.evaluation is Ok) {
            Intent::Url => is_open_response(r, "Url"@, "url"@, input),
            Intent::Mathematical => is_math_response(r, input, observed.evaluation),
            Intent::Command(c) => is_command_response(r, c, input, plugins, observed.evaluation),
            Intent::File(_) => is_file_response(
                r,
                target_of(input, opt_view(observed.home)),
                observed.file,
                modified_text(observed.file),
            ),
            Intent::Search => is_search_response(r, input, plugins, observed.responses@),
        }
    }
}

/// What plugin `i` is asked for query `input`, if it is run at all: the
/// plugin named after `@` gets the text after its name; otherwise each
/// plugin that runs on any query gets the whole query.
pub open spec fn query_for(
    input: Seq<char>,
    evaluates: bool,
    plugins: Seq<PluginConfig>,
    i: int,
) -> Option<Seq<char>> {
    if !answered(input) || intent_of(input, evaluates) != Intent::Search {
        None
    } else if names_plugin(input, plugins) {
        if i == named_index(input, plugins) {
            Some(named_query(input))
        } else {
            None
        }
    } else if runs_on_any(plugins[i]) {
        Some(input)
    } else {
        None
    }
}

/// The path that a `file://` query asks about, with `~` expanded.
pub fn file_target(input: &str, home: &Option<String>) -> (r: String)
    ensures
        file_scheme().is_prefix_of(input@) ==> r@ == target_of(input@, opt_view(*home)),
{
    let rest = tail(input, 7);
    expand_home(rest.as_str(), home)
}

fn is_answered(input: &str) -> (r: bool)
    ensures
        r == answered(input@),
{
    let n = input.unicode_len();
    0 < n && n <= MAX_INPUT_CHARS
}

/// Which plugins to run for `input`, and with what argument; `evaluates`
/// is whether the evaluator accepts `expression_of(input)`.
pub fn plugin_queries(input: &str, evaluates: bool, plugins: &Vec<PluginConfig>) -> (r: Vec<
    Option<String>,
>)
    ensures
        r@.len() == plugins@.len(),
        forall|i: int|
            0 <= i < plugins@.len() ==> match #[trigger] r@[i] {
                Some(q) => query_for(input@, evaluates, plugins@, i) == Some(q@),
                None => query_for(input@, evaluates, plugins@, i) is None,
            },
{
    let searched = is_answered(input) && match detect_input_type(input, evaluates) {
        InputType::Search => true,
        _ => false,
    };
    let mut named: Option<usize> = None;
    if searched && input.get_char(0) == '@' {
        let name = command_name(input);
        named = crate::plugin::find_plugin(plugins, name.as_str());
        proof {
            if named is Some {
                let k = named->0 as int;
                assert(is_first_named(plugins@, crate::classify::command_word(input@), k));
                let c = named_index(input@, plugins@);
                assert(c == k);
            }
        }
    }
    let mut r: Vec<Option<String>> = Vec::new();
    let mut i: usize = 0;
    while i < plugins.len()
        invariant
            i <= plugins@.len(),
            r@.len() == i,
            searched == (answered(input@) && intent_of(input@, evaluates) == Intent::Search),
            searched && is_at(input@) ==> match named {
                Some(k) => names_plugin(input@, plugins@) && named_index(input@, plugins@) == k,
                None => !names_plugin(input@, plugins@),
            },
            !(searched && is_at(input@)) ==> named is None,
            searched ==> answered(input@),
            forall|j: int|
                0 <= j < i ==> match #[trigger] r@[j] {
                    Some(q) => query_for(input@, evaluates, plugins@, j) == Some(q@),
                    None => query_for(input@, evaluates, plugins@, j) is None,
                },
        decreases plugins@.len() - i,
    {
        let q = if !searched {
            None
        } else {
            match named {
                Some(k) => {
                    if k == i {
                        let name = command_name(input);
                        proof {
                            crate::text::lemma_first_word_prefix(input@.drop_first());
                        }
                        Some(tail(input, name.unicode_len() + 2))
                    } else {
                        None
                    }
                },
                None => {
                    let runs = match plugins[i].run_on_any_query {
                        Some(b) => b,
                        None => false,
                    };
                    if runs {
                        Some(input.to_string())
                    } else {
                        None
                    }
                },
            }
        };
        r.push(q);
        i = i + 1;
    }
    r
}

/// Answers `input`: classifies it, then builds the response of its intent
/// from what was observed. An empty query, or one over
/// [`MAX_INPUT_CHARS`] characters, gets the empty response.
pub fn exec(input: String, plugins: &Vec<PluginConfig>, observed: Observed) -> (r: PluginResponse)
    ensures
        is_dispatch_response(r, input@, plugins@, observed),
{
    if !is_answered(input.as_str()) {
        return empty_response();
    }
    let Observed { evaluation, responses, home, file: info } = observed;
    let evaluates = evaluation.is_ok();
    match detect_input_type(input.as_str(), evaluates) {
        InputType::Search => search(input.as_str(), plugins, responses),
        InputType::Mathematical => mathematical(input.as_str(), evaluation),
        InputType::Url => url(input.as_str()),
        InputType::Command(cmd) => command(cmd.as_str(), input.as_str(), plugins, evaluation),
        InputType::File(_) => {
            let target = file_target(input.as_str(), &home);
            file_response(target.as_str(), &info)
        },
    }
}

/// A web address is opened as typed, scheme included.
pub proof fn lemma_url_opens_itself(
    r: PluginResponse,
    input: Seq<char>,
    plugins: Seq<PluginConfig>,
    observed: Observed,
)
    requires
        is_url(input),
        answered(input),
        is_dispatch_response(r, input, plugins, observed),
    ensures
        action_of(r) == Some(ActionView::Open(input)),
{
    lemma_web_address_is_url(input, observed.evaluation is Ok);
}

/// A number that the evaluator returns for a mathematical query is what the
/// response copies.
pub proof fn lemma_number_is_copied(
    r: PluginResponse,
    input: Seq<char>,
    plugins: Seq<PluginConfig>,
    observed: Observed,
    value: String,
)
    requires
        answered(input),
        !is_at(input),
        !file_scheme().is_prefix_of(input),
        !is_url(input),
        observed.evaluation == Ok::<String, String>(value),
        is_dispatch_response(r, input, plugins, observed),
    ensures
        action_of(r) == Some(ActionView::Copy(value@)),
{
    lemma_expression_is_mathematical(input);
}

/// A query over the length limit gets the empty response, whatever it holds.
pub proof fn lemma_long_query_is_empty(
    r: PluginResponse,
    input: Seq<char>,
    plugins: Seq<PluginConfig>,
    observed: Observed,
)
    requires
        input.len() > MAX_INPUT_CHARS,
        is_dispatch_response(r, input, plugins, observed),
    ensures
        is_empty_response(r),
        r.elements@.len() == 0,
        r.action is None,
{
}

/// `@word ...`, where `word` is neither a built-in command nor the name of a
/// plugin, is a search that only the plugins running on any query answer.
pub proof fn lemma_unknown_name_fans_out(
    r: PluginResponse,
    input: Seq<char>,
    plugins: Seq<PluginConfig>,
    observed: Observed,
)
    requires
        answered(input),
        is_at(input),
        !is_builtin(command_word(input)),
        forall|j: int| 0 <= j < plugins.len() ==> plugins[j].name@ != command_word(input),
        is_dispatch_response(r, input, plugins, observed),
    ensures
        intent_of(input, observed.evaluation is Ok) == Intent::Search,
        is_fan_out(r, input, plugins, observed.responses@),
        forall|i: int|
            0 <= i < plugins.len() ==> query_for(input, observed.evaluation is Ok, plugins, i)
                == if runs_on_any(plugins[i]) {
                Some(input)
            } else {
                None
            },
{
    assert(input[0] == '@');
    if file_scheme().is_prefix_of(input) {
        assert(input[0] == file_scheme()[0]);
    }
    if is_url(input) {
        if http_scheme().is_prefix_of(input) {
            assert(input[0] == http_scheme()[0]);
        } else {
            assert(input[0] == https_scheme()[0]);
        }
    }
    if names_plugin(input, plugins) {
        let k = choose|k: int| is_first_named(plugins, command_word(input), k);
        assert(plugins[k].name@ == command_word(input));
    }
}

/// `@exp <expr>` and an expression typed alone are answered alike: where
/// the evaluator accepts both with the same number, both copy that number.
pub proof fn lemma_exp_command_agrees(
    r1: PluginResponse,
    r2: PluginResponse,
    input: Seq<char>,
    expr: Seq<char>,
    plugins: Seq<PluginConfig>,
    o1: Observed,
    o2: Observed,
    value: String,
)
    requires
        answered(input),
        is_at(input),
        command_word(input) == exp_word(),
        after(input, 4).len() > 0,
        answered(expr),
        !is_at(expr),
        !file_scheme().is_prefix_of(expr),
        !is_url(expr),
        o1.evaluation == Ok::<String, String>(value),
        o2.evaluation == Ok::<String, String>(value),
        is_dispatch_response(r1, input, plugins, o1),
        is_dispatch_response(r2, expr, plugins, o2),
    ensures
        action_of(r1) == Some(ActionView::Copy(value@)),
        action_of(r2) == Some(ActionView::Copy(value@)),
{
    reveal_strlit("exit");
    reveal_strlit("open");
    reveal_strlit("exp");
    assert("exp"@ =~= exp_word());
    assert("exit"@ != exp_word()) by {
        assert("exit"@.len() != exp_word().len());
    }
    assert("open"@ != exp_word()) by {
        assert("open"@.len() != exp_word().len());
    }
    assert(input[0] == '@');
    if file_scheme().is_prefix_of(input) {
        assert(input[0] == file_scheme()[0]);
    }
    if is_url(input) {
        if http_scheme().is_prefix_of(input) {
            assert(input[0] == http_scheme()[0]);
        } else {
            assert(input[0] == https_scheme()[0]);
        }
    }
    lemma_expression_is_mathematical(expr);
}

/// `@name <query>`, where `name` holds no white space and is neither a
/// built-in command nor the name of a plugin, is a search that only the
/// plugins running on any query answer, each with the whole query.
pub proof fn lemma_unregistered_name_fans_out(
    r: PluginResponse,
    name: Seq<char>,
    query: Seq<char>,
    plugins: Seq<PluginConfig>,
    observed: Observed,
)
    requires
        forall|j: int| 0 <= j < name.len() ==> !is_space(#[trigger] name[j]),
        !is_builtin(name),
        forall|j: int| 0 <= j < plugins.len() ==> plugins[j].name@ != name,
        answered(seq!['@'] + name + seq![' '] + query),
        is_dispatch_response(r, seq!['@'] + name + seq![' '] + query, plugins, observed),
    ensures
        intent_of(seq!['@'] + name + seq![' '] + query, observed.evaluation is Ok)
            == Intent::Search,
        is_fan_out(r, seq!['@'] + name + seq![' '] + query, plugins, observed.responses@),
        forall|i: int|
            0 <= i < plugins.len() ==> query_for(
                seq!['@'] + name + seq![' '] + query,
                observed.evaluation is Ok,
                plugins,
                i,
            ) == if runs_on_any(plugins[i]) {
                Some(seq!['@'] + name + seq![' '] + query)
            } else {
                None
            },
{
    let input = seq!['@'] + name + seq![' '] + query;
    let rest = input.drop_first();
    assert(rest =~= name + seq![' '] + query);
    assert forall|j: int| 0 <= j < name.len() implies !is_space(rest[j]) by {
        assert(rest[j] == name[j]);
    }
    assert(rest[name.len() as int] == ' ');
    lemma_first_word(rest, name.len() as int);
    assert(rest.take(name.len() as int) =~= name);
    assert(command_word(input) == name);
    assert(is_at(input));
    lemma_unknown_name_fans_out(r, input, plugins, observed);
}

} // verus!
