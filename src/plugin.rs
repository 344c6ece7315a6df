//! The plugin protocol: resolving a plugin's command, reading its output,
//! and turning a decoded response into a contribution.

use vstd::prelude::*;
use crate::model::{
    children_of, is_node, strings_view, DataType, Element, ElementBuilder, Orientation,
    PluginConfig, PluginResponse,
};
use crate::response::{is_section, section, section_body, section_title};
use crate::text::{cat, starts_with, tail, trim, trim_of};

verus! {

pub open spec fn script_marker() -> Seq<char> {
    "@script:"@
}

/// The program to run for plugin command `cmd`, where `scripts_dir` is the
/// scripts directory (empty where none could be found). `@script:<name>`
/// stands for `<scripts_dir>/<name>`; `None` means: run nothing.
pub open spec fn resolved(cmd: Seq<char>, scripts_dir: Seq<char>) -> Option<Seq<char>> {
    if cmd.len() == 0 {
        None
    } else if script_marker().is_prefix_of(cmd) {
        if scripts_dir.len() == 0 {
            None
        } else {
            Some(scripts_dir + "/"@ + cmd.skip(8))
        }
    } else {
        Some(cmd)
    }
}

/// The text to decode from a plugin's standard output: `None` where it is
/// blank, the plugin's way to say nothing.
pub open spec fn payload_of(stdout: Seq<char>) -> Option<Seq<char>> {
    if trim_of(stdout).len() == 0 {
        None
    } else {
        Some(trim_of(stdout))
    }
}

/// The title of a plugin's section: the response's own, else the plugin's name.
pub open spec fn contribution_title(plugin: PluginConfig, response: PluginResponse) -> Seq<char> {
    match response.title {
        Some(t) => t@,
        None => plugin.name@,
    }
}

/// A decoded response adds something only where it has elements.
pub open spec fn has_elements(response: Option<PluginResponse>) -> bool {
    response matches Some(r) && r.elements@.len() > 0
}

/// `e` is a section titled `title` whose one body box holds `elements`.
pub open spec fn is_plugin_section(e: Element, title: Seq<char>, elements: Seq<Element>) -> bool {
    &&& is_section(e)
    &&& section_title(e) == Some(title)
    &&& section_body(e).len() == 1
    &&& is_node(
        section_body(e)[0],
        DataType::Box,
        "Content"@,
        Some(true),
        None,
        None,
        None,
        None,
        Some(Orientation::Vertical),
        seq![],
        None,
    )
    &&& section_body(e)[0].children is Some
    &&& children_of(section_body(e)[0]) == elements
}

/// `w` is what `plugin` contributes with `response`: its elements in one
/// titled section, the rest passed through.
pub open spec fn is_contribution(
    w: PluginResponse,
    plugin: PluginConfig,
    response: PluginResponse,
) -> bool {
    &&& w.elements@.len() == 1
    &&& is_plugin_section(w.elements@[0], contribution_title(plugin, response), response.elements@)
    &&& w.title matches Some(t) && t@ == contribution_title(plugin, response)
    &&& w.action == response.action
    &&& w.error == response.error
    &&& w.set_icon == response.set_icon
}

/// Resolves the program that runs plugin command `cmd`.
pub fn resolve_command(cmd: &str, scripts_dir: &str) -> (r: Option<String>)
    ensures
        match r {
            Some(p) => resolved(cmd@, scripts_dir@) == Some(p@),
            None => resolved(cmd@, scripts_dir@) is None,
        },
{
    if cmd.unicode_len() == 0 {
        return None;
    }
    proof {
        reveal_strlit("@script:");
    }
    if starts_with(cmd, "@script:") {
        if scripts_dir.unicode_len() == 0 {
            return None;
        }
        let name = tail(cmd, 8);
        let dir = cat(scripts_dir, "/");
        return Some(cat(dir.as_str(), name.as_str()));
    }
    Some(cmd.to_string())
}

/// What to decode from a plugin's standard output.
pub fn plugin_payload(stdout: &str) -> (r: Option<String>)
    ensures
        match r {
            Some(p) => payload_of(stdout@) == Some(p@),
            None => payload_of(stdout@) is None,
        },
{
    let t = trim(stdout);
    if t.unicode_len() == 0 {
        None
    } else {
        Some(t)
    }
}

/// The contribution of `plugin`, given its decoded response (`None` where it
/// wrote nothing or what it wrote did not decode). A response without
/// elements contributes nothing either.
pub fn plugin_contribution(plugin: &PluginConfig, response: Option<PluginResponse>) -> (r: Option<
    PluginResponse,
>)
    ensures
        !has_elements(response) ==> r is None,
        has_elements(response) ==> (r matches Some(w) && is_contribution(
            w,
            *plugin,
            response->0,
        )),
{
    match response {
        None => None,
        Some(resp) => {
            if resp.elements.len() == 0 {
                return None;
            }
            let PluginResponse { title, elements, action, error, set_icon } = resp;
            let title = match title {
                Some(t) => t,
                None => plugin.name.clone(),
            };
            let content = ElementBuilder::new(DataType::Box).id("Content").orientation(
                Orientation::Vertical,
            ).hexpand(true).children(elements).build();
            let sec = section(title.as_str(), vec![content]);
            assert(section_body(sec) =~= seq![content]);
            assert(strings_view(content.classes@) =~= seq![]);
            Some(
                PluginResponse {
                    title: Some(title),
                    elements: vec![sec],
                    action,
                    error,
                    set_icon,
                },
            )
        },
    }
}

/// The first plugin named `name`.
pub fn find_plugin(plugins: &Vec<PluginConfig>, name: &str) -> (r: Option<usize>)
    ensures
        match r {
            Some(k) => k < plugins@.len() && plugins@[k as int].name@ == name@ && forall|j: int|
                0 <= j < k ==> plugins@[j].name@ != name@,
            None => forall|j: int| 0 <= j < plugins@.len() ==> plugins@[j].name@ != name@,
        },
{
    let mut i: usize = 0;
    while i < plugins.len()
        invariant
            i <= plugins@.len(),
            forall|j: int| 0 <= j < i ==> plugins@[j].name@ != name@,
        decreases plugins@.len() - i,
    {
        if crate::classify::same_text(plugins[i].name.as_str(), name) {
            return Some(i);
        }
        i = i + 1;
    }
    None
}

} // verus!
