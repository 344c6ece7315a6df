//! The search intent: a header, then what plugins contribute, either the one
//! plugin named after `@` or every plugin that runs on any query.

use vstd::prelude::*;
use crate::classify::{command_word, is_at};
use crate::model::{
    children_of, is_node, strings_view, Align, DataType, Element, ElementBuilder, Orientation,
    PluginAction, PluginConfig, PluginResponse,
};
use crate::plugin::{
    contribution_title, find_plugin, has_elements, is_contribution, is_plugin_section,
    plugin_contribution,
};
use crate::response::{empty_response, is_empty_response};
use crate::text::{after, cat};

verus! {

/// The decoded response of plugin `i`; `None` past the end of `rs`.
pub open spec fn response_at(rs: Seq<Option<PluginResponse>>, i: int) -> Option<PluginResponse> {
    if 0 <= i < rs.len() {
        rs[i]
    } else {
        None
    }
}

pub open spec fn runs_on_any(p: PluginConfig) -> bool {
    p.run_on_any_query == Some(true)
}

/// Plugin `i` adds a section to a search.
pub open spec fn contributes(
    ps: Seq<PluginConfig>,
    rs: Seq<Option<PluginResponse>>,
    i: int,
) -> bool {
    runs_on_any(ps[i]) && has_elements(response_at(rs, i))
}

/// How many of the first `k` plugins add a section.
pub open spec fn contributors(
    ps: Seq<PluginConfig>,
    rs: Seq<Option<PluginResponse>>,
    k: int,
) -> int
    decreases k,
{
    if k <= 0 {
        0
    } else {
        contributors(ps, rs, k - 1) + if contributes(ps, rs, k - 1) {
            1int
        } else {
            0int
        }
    }
}

/// The action of the last of the first `k` plugins that adds a section and sets one.
pub open spec fn last_action(
    ps: Seq<PluginConfig>,
    rs: Seq<Option<PluginResponse>>,
    k: int,
) -> Option<PluginAction>
    decreases k,
{
    if k <= 0 {
        None
    } else if contributes(ps, rs, k - 1) && response_at(rs, k - 1)->0.action is Some {
        response_at(rs, k - 1)->0.action
    } else {
        last_action(ps, rs, k - 1)
    }
}

/// The icon of the last of the first `k` plugins that adds a section and sets one.
pub open spec fn last_icon(
    ps: Seq<PluginConfig>,
    rs: Seq<Option<PluginResponse>>,
    k: int,
) -> Option<String>
    decreases k,
{
    if k <= 0 {
        None
    } else if contributes(ps, rs, k - 1) && response_at(rs, k - 1)->0.set_icon is Some {
        response_at(rs, k - 1)->0.set_icon
    } else {
        last_icon(ps, rs, k - 1)
    }
}

/// The header of a search: a vertical `Search` box holding the label
/// "Searching for " and the query in guillemets.
pub open spec fn is_search_header(e: Element, input: Seq<char>) -> bool {
    &&& is_node(
        e,
        DataType::Box,
        "Search"@,
        None,
        None,
        None,
        None,
        None,
        Some(Orientation::Vertical),
        seq![],
        None,
    )
    &&& e.children is Some
    &&& children_of(e).len() == 2
    &&& is_node(
        children_of(e)[0],
        DataType::Label,
        "SearchPrefix"@,
        None,
        None,
        None,
        None,
        Some(Align::Start),
        None,
        seq![],
        Some("Searching for "@),
    )
    &&& children_of(e)[0].children is None
    &&& is_node(
        children_of(e)[1],
        DataType::Label,
        "SearchQuery"@,
        Some(true),
        None,
        Some(true),
        Some(true),
        Some(Align::Start),
        None,
        seq![],
        Some("«"@ + input + "»"@),
    )
    &&& children_of(e)[1].children is None
}

/// The search response when every plugin that runs on any query was run.
pub open spec fn is_fan_out(
    r: PluginResponse,
    input: Seq<char>,
    ps: Seq<PluginConfig>,
    rs: Seq<Option<PluginResponse>>,
) -> bool {
    &&& r.elements@.len() == 1 + contributors(ps, rs, ps.len() as int)
    &&& is_search_header(r.elements@[0], input)
    &&& forall|i: int|
        0 <= i < ps.len() && #[trigger] contributes(ps, rs, i) ==> is_plugin_section(
            r.elements@[1 + contributors(ps, rs, i)],
            contribution_title(ps[i], response_at(rs, i)->0),
            response_at(rs, i)->0.elements@,
        )
    &&& r.action == last_action(ps, rs, ps.len() as int)
    &&& r.set_icon == last_icon(ps, rs, ps.len() as int)
    &&& r.title is None
    &&& r.error is None
}

/// `k` is the first plugin named `name`.
pub open spec fn is_first_named(ps: Seq<PluginConfig>, name: Seq<char>, k: int) -> bool {
    &&& 0 <= k < ps.len()
    &&& ps[k].name@ == name
    &&& forall|j: int| 0 <= j < k ==> ps[j].name@ != name
}

/// The query names a plugin after its `@`.
pub open spec fn names_plugin(input: Seq<char>, ps: Seq<PluginConfig>) -> bool {
    is_at(input) && exists|k: int| is_first_named(ps, command_word(input), k)
}

/// The plugin that the query names.
pub open spec fn named_index(input: Seq<char>, ps: Seq<PluginConfig>) -> int {
    choose|k: int| is_first_named(ps, command_word(input), k)
}

/// What a plugin called by name is asked: the text after `@name` and the
/// one white-space character that ends the name.
pub open spec fn named_query(input: Seq<char>) -> Seq<char> {
    after(input, command_word(input).len() + 2int)
}

/// The response to a search-classified query, given the decoded response of
/// each plugin that was run.
pub open spec fn is_search_response(
    r: PluginResponse,
    input: Seq<char>,
    ps: Seq<PluginConfig>,
    rs: Seq<Option<PluginResponse>>,
) -> bool {
    if names_plugin(input, ps) {
        let k = named_index(input, ps);
        if has_elements(response_at(rs, k)) {
            is_contribution(r, ps[k], response_at(rs, k)->0)
        } else {
            is_empty_response(r)
        }
    } else {
        is_fan_out(r, input, ps, rs)
    }
}

proof fn lemma_first_named_unique(ps: Seq<PluginConfig>, name: Seq<char>, a: int, b: int)
    requires
        is_first_named(ps, name, a),
        is_first_named(ps, name, b),
    ensures
        a == b,
{
}

proof fn lemma_contributors_grow(
    ps: Seq<PluginConfig>,
    rs: Seq<Option<PluginResponse>>,
    j: int,
    k: int,
)
    requires
        0 <= j <= k,
    ensures
        contributors(ps, rs, j) <= contributors(ps, rs, k),
    decreases k - j,
{
    if j < k {
        lemma_contributors_grow(ps, rs, j, k - 1);
    }
}

/// The header of a search for `input`.
pub fn search_header(input: &str) -> (e: Element)
    ensures
        is_search_header(e, input@),
{
    let prefix = ElementBuilder::new(DataType::Label).id("SearchPrefix").halign(
        Align::Start,
    ).text("Searching for ").build();
    let quoted = cat(cat("«", input).as_str(), "»");
    let query = ElementBuilder::new(DataType::Label).id("SearchQuery").wrap(true).hexpand(
        true,
    ).halign(Align::Start).ellipsize(true).text(quoted.as_str()).build();
    let e = ElementBuilder::new(DataType::Box).id("Search").orientation(
        Orientation::Vertical,
    ).append(prefix).append(query).build();
    assert(children_of(e) =~= seq![prefix, query]);
    assert(strings_view(e.classes@) =~= seq![]);
    assert(strings_view(prefix.classes@) =~= seq![]);
    assert(strings_view(query.classes@) =~= seq![]);
    e
}

/// Folds the contribution of every plugin that runs on any query, in list
/// order, under the search header; a later action or icon replaces an earlier
/// one. `responses[i]` is the decoded response of plugin `i`.
pub fn fan_out(
    input: &str,
    plugins: &Vec<PluginConfig>,
    responses: Vec<Option<PluginResponse>>,
) -> (r: PluginResponse)
    ensures
        is_fan_out(r, input@, plugins@, responses@),
{
    let ghost ps = plugins@;
    let ghost rs = responses@;
    let mut rest = responses;
    let mut elements: Vec<Element> = Vec::new();
    elements.push(search_header(input));
    let mut action: Option<PluginAction> = None;
    let mut icon: Option<String> = None;
    let mut i: usize = 0;
    while i < plugins.len()
        invariant
            ps == plugins@,
            i <= ps.len(),
            rest@ == after(rs, i as int),
            elements@.len() == 1 + contributors(ps, rs, i as int),
            is_search_header(elements@[0], input@),
            forall|j: int|
                0 <= j < i && #[trigger] contributes(ps, rs, j) ==> is_plugin_section(
                    elements@[1 + contributors(ps, rs, j)],
                    contribution_title(ps[j], response_at(rs, j)->0),
                    response_at(rs, j)->0.elements@,
                ),
            action == last_action(ps, rs, i as int),
            icon == last_icon(ps, rs, i as int),
        decreases ps.len() - i,
    {
        let resp = if rest.len() > 0 {
            rest.remove(0)
        } else {
            None
        };
        assert(resp == response_at(rs, i as int));
        assert(rest@ =~= after(rs, i + 1));
        let ghost before = elements@;
        proof {
            lemma_contributors_grow(ps, rs, 0, i as int);
        }
        let runs = match plugins[i].run_on_any_query {
            Some(b) => b,
            None => false,
        };
        assert(runs == runs_on_any(ps[i as int]));
        if runs {
            match plugin_contribution(&plugins[i], resp) {
                Some(w) => {
                    let PluginResponse { elements: mut section, action: a, set_icon: ic, .. } = w;
                    let e = section.remove(0);
                    elements.push(e);
                    assert(is_plugin_section(
                        elements@[before.len() as int],
                        contribution_title(ps[i as int], response_at(rs, i as int)->0),
                        response_at(rs, i as int)->0.elements@,
                    ));
                    if a.is_some() {
                        action = a;
                    }
                    if ic.is_some() {
                        icon = ic;
                    }
                },
                None => {},
            }
        }
        assert(forall|k: int| 0 <= k < before.len() ==> elements@[k] == before[k]);
        assert(elements@.len() == 1 + contributors(ps, rs, i + 1));
        assert(elements@[0] == before[0]);
        proof {
            assert forall|j: int|
                0 <= j < i + 1 && #[trigger] contributes(ps, rs, j) implies is_plugin_section(
                elements@[1 + contributors(ps, rs, j)],
                contribution_title(ps[j], response_at(rs, j)->0),
                response_at(rs, j)->0.elements@,
            ) by {
                if j < i {
                    lemma_contributors_grow(ps, rs, j + 1, i as int);
                    lemma_contributors_grow(ps, rs, 0, j);
                    assert(contributors(ps, rs, j + 1) == contributors(ps, rs, j) + 1);
                    assert(elements@[1 + contributors(ps, rs, j)] == before[1 + contributors(
                        ps,
                        rs,
                        j,
                    )]);
                }
            }
        }
        i = i + 1;
    }
    PluginResponse { title: None, elements, action, error: None, set_icon: icon }
}

/// The response to a search-classified query. Where the word after `@` is a
/// plugin's name, only that plugin answers; else every plugin that runs on
/// any query does. `responses[i]` is the decoded response of plugin `i`.
pub fn search(
    input: &str,
    plugins: &Vec<PluginConfig>,
    responses: Vec<Option<PluginResponse>>,
) -> (r: PluginResponse)
    ensures
        is_search_response(r, input@, plugins@, responses@),
{
    let ghost rs = responses@;
    if input.unicode_len() > 0 && input.get_char(0) == '@' {
        let name = crate::classify::command_name(input);
        match find_plugin(plugins, name.as_str()) {
            Some(k) => {
                proof {
                    assert(is_first_named(plugins@, command_word(input@), k as int));
                    let c = named_index(input@, plugins@);
                    lemma_first_named_unique(plugins@, command_word(input@), c, k as int);
                }
                let mut rest = responses;
                let resp = if k < rest.len() {
                    rest.remove(k)
                } else {
                    None
                };
                return match plugin_contribution(&plugins[k], resp) {
                    Some(w) => w,
                    None => empty_response(),
                };
            },
            None => {
                assert(!names_plugin(input@, plugins@));
            },
        }
    }
    fan_out(input, plugins, responses)
}

proof fn lemma_remove_silent(
    ps: Seq<PluginConfig>,
    rs: Seq<Option<PluginResponse>>,
    i: int,
    k: int,
)
    requires
        0 <= i < ps.len(),
        rs.len() == ps.len(),
        !has_elements(rs[i]),
        0 <= k <= ps.len(),
    ensures
        k <= i ==> contributors(ps.remove(i), rs.remove(i), k) == contributors(ps, rs, k)
            && last_action(ps.remove(i), rs.remove(i), k) == last_action(ps, rs, k) && last_icon(
            ps.remove(i),
            rs.remove(i),
            k,
        ) == last_icon(ps, rs, k),
        k > i ==> contributors(ps.remove(i), rs.remove(i), k - 1) == contributors(ps, rs, k)
            && last_action(ps.remove(i), rs.remove(i), k - 1) == last_action(ps, rs, k)
            && last_icon(ps.remove(i), rs.remove(i), k - 1) == last_icon(ps, rs, k),
    decreases k,
{
    let ps2 = ps.remove(i);
    let rs2 = rs.remove(i);
    if k > 0 {
        lemma_remove_silent(ps, rs, i, k - 1);
        if k <= i {
            assert(ps2[k - 1] == ps[k - 1]);
            assert(response_at(rs2, k - 1) == response_at(rs, k - 1));
        } else if k == i + 1 {
            assert(!contributes(ps, rs, i));
        } else {
            assert(ps2[k - 2] == ps[k - 1]);
            assert(response_at(rs2, k - 2) == response_at(rs, k - 1));
        }
    }
}

/// A plugin that contributes nothing to a search (it wrote nothing, wrote
/// what did not decode, or sent no elements) takes nothing from the others:
/// the response is exactly the one for the plugin list without it, every
/// other section in place and the same action and icon.
pub proof fn lemma_silent_plugin_is_isolated(
    r: PluginResponse,
    input: Seq<char>,
    ps: Seq<PluginConfig>,
    rs: Seq<Option<PluginResponse>>,
    i: int,
)
    requires
        0 <= i < ps.len(),
        rs.len() == ps.len(),
        !has_elements(rs[i]),
        is_fan_out(r, input, ps, rs),
    ensures
        is_fan_out(r, input, ps.remove(i), rs.remove(i)),
{
    let ps2 = ps.remove(i);
    let rs2 = rs.remove(i);
    lemma_remove_silent(ps, rs, i, ps.len() as int);
    assert forall|j: int|
        0 <= j < ps2.len() && #[trigger] contributes(ps2, rs2, j) implies is_plugin_section(
        r.elements@[1 + contributors(ps2, rs2, j)],
        contribution_title(ps2[j], response_at(rs2, j)->0),
        response_at(rs2, j)->0.elements@,
    ) by {
        if j < i {
            lemma_remove_silent(ps, rs, i, j);
            assert(ps2[j] == ps[j]);
            assert(response_at(rs2, j) == response_at(rs, j));
            assert(contributes(ps, rs, j));
        } else {
            lemma_remove_silent(ps, rs, i, j + 1);
            assert(ps2[j] == ps[j + 1]);
            assert(response_at(rs2, j) == response_at(rs, j + 1));
            assert(contributes(ps, rs, j + 1));
        }
    }
}

} // verus!
