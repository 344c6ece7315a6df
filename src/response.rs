//! The response builder: the element tree, action and icon for each intent.

use vstd::prelude::*;
use crate::model::{
    children_of, is_node, strings_view, ActionView, Align, DataType, Element, ElementBuilder,
    Orientation, PluginAction, PluginActionType, PluginConfig, PluginResponse,
};
use crate::text::{after, cat, tail, trim, trim_of, trim_start, trim_start_of};

verus! {

/// The text of `e`, where it has one.
pub open spec fn label_text(e: Element) -> Option<Seq<char>> {
    match e.text {
        Some(t) => Some(t@),
        None => None,
    }
}

/// The content box of a section.
pub open spec fn section_inner(e: Element) -> Element {
    children_of(e)[0]
}

/// A vertical or horizontal box named `id` with CSS classes `classes` and
/// a child list.
pub open spec fn is_box(
    e: Element,
    id: Seq<char>,
    orientation: Orientation,
    classes: Seq<Seq<char>>,
) -> bool {
    &&& is_node(
        e,
        DataType::Box,
        id,
        None,
        None,
        None,
        None,
        None,
        Some(orientation),
        classes,
        None,
    )
    &&& e.children is Some
}

/// The title label of a section, reading `title`.
pub open spec fn is_title_label(e: Element, title: Seq<char>) -> bool {
    &&& is_node(
        e,
        DataType::Label,
        "SectionTitle"@,
        Some(true),
        None,
        None,
        Some(true),
        Some(Align::Start),
        None,
        seq![],
        Some(title),
    )
    &&& e.children is None
}

/// A wrapping label of CSS class `class` reading `text`.
pub open spec fn is_content_label(e: Element, text: Seq<char>, class: Seq<char>) -> bool {
    &&& is_node(
        e,
        DataType::Label,
        "Content"@,
        Some(true),
        None,
        Some(true),
        None,
        Some(Align::Start),
        None,
        seq![class],
        Some(text),
    )
    &&& e.children is None
}

/// A section: a vertical `Section` box around one vertical `BoxContent`
/// box, whose first child is the title label.
pub open spec fn is_section(e: Element) -> bool {
    &&& is_box(e, "Section"@, Orientation::Vertical, seq![])
    &&& children_of(e).len() == 1
    &&& is_box(section_inner(e), "BoxContent"@, Orientation::Vertical, seq![])
    &&& children_of(section_inner(e)).len() >= 1
    &&& children_of(section_inner(e))[0].text is Some
    &&& is_title_label(
        children_of(section_inner(e))[0],
        children_of(section_inner(e))[0].text->0@,
    )
}

pub open spec fn section_title(e: Element) -> Option<Seq<char>> {
    label_text(children_of(section_inner(e))[0])
}

/// What follows the title in a section.
pub open spec fn section_body(e: Element) -> Seq<Element> {
    children_of(section_inner(e)).skip(1)
}

/// A section titled `title` whose body is one label of CSS class `class`
/// reading `text`.
pub open spec fn is_text_section(
    e: Element,
    title: Seq<char>,
    text: Seq<char>,
    class: Seq<char>,
) -> bool {
    &&& is_section(e)
    &&& section_title(e) == Some(title)
    &&& section_body(e).len() == 1
    &&& is_content_label(section_body(e)[0], text, class)
}

/// The action of `r`, as a value.
pub open spec fn action_of(r: PluginResponse) -> Option<ActionView> {
    match r.action {
        Some(a) => Some(a.action@),
        None => None,
    }
}

pub open spec fn icon_of(r: PluginResponse) -> Option<Seq<char>> {
    match r.set_icon {
        Some(i) => Some(i@),
        None => None,
    }
}

/// Nothing to show and nothing to do.
pub open spec fn is_empty_response(r: PluginResponse) -> bool {
    &&& r.elements@.len() == 0
    &&& r.action is None
    &&& r.title is None
    &&& r.error is None
    &&& r.set_icon is None
}

/// The title of the evaluation section for expression `expr`.
pub open spec fn evaluation_title(expr: Seq<char>) -> Seq<char> {
    "("@ + trim_of(expr) + ") evaluation"@
}

/// The response to expression `expr`, given the evaluator's outcome on it:
/// the number with a copy action, or the evaluator's message and no action.
pub open spec fn is_math_response(
    r: PluginResponse,
    expr: Seq<char>,
    evaluation: Result<String, String>,
) -> bool {
    &&& r.elements@.len() == 1
    &&& r.title is None
    &&& r.set_icon is None
    &&& match evaluation {
        Ok(v) => {
            &&& is_text_section(r.elements@[0], evaluation_title(expr), v@, "mathematical"@)
            &&& action_of(r) == Some(ActionView::Copy(v@))
            &&& r.error is None
        },
        Err(m) => {
            &&& is_text_section(r.elements@[0], evaluation_title(expr), m@, "error"@)
            &&& r.action is None
            &&& r.error matches Some(e) && e@ == m@
        },
    }
}

/// One titled section with a label of class `class`, and the action to
/// open `target`.
pub open spec fn is_open_response(
    r: PluginResponse,
    title: Seq<char>,
    class: Seq<char>,
    target: Seq<char>,
) -> bool {
    &&& r.elements@.len() == 1
    &&& is_text_section(r.elements@[0], title, "open "@ + target, class)
    &&& action_of(r) == Some(ActionView::Open(target))
    &&& r.title is None
    &&& r.error is None
    &&& r.set_icon is None
}

/// The help line of each plugin: `@name <query>: description`.
pub open spec fn plugin_lines(plugins: Seq<PluginConfig>) -> Seq<char>
    decreases plugins.len(),
{
    if plugins.len() == 0 {
        Seq::empty()
    } else {
        plugin_lines(plugins.drop_last()) + "@"@ + plugins.last().name@ + " <query>: "@
            + plugins.last().description@ + "\n"@
    }
}

/// The help of the built-in commands.
pub const HELP: &'static str = "@exit: exit the program
@open <file>: open a file
@exp <expression>: evaluate a mathematical expression
@help: show help
";

pub open spec fn help_text() -> Seq<char> {
    HELP@
}

/// What the built-in command `cmd` answers to `input`; `evaluation` is the
/// evaluator's outcome on the text after `@exp`.
pub open spec fn is_command_response(
    r: PluginResponse,
    cmd: Seq<char>,
    input: Seq<char>,
    plugins: Seq<PluginConfig>,
    evaluation: Result<String, String>,
) -> bool {
    if cmd == "exit"@ {
        &&& r.elements@.len() == 0
        &&& action_of(r) == Some(ActionView::Exit)
        &&& r.title is None
        &&& r.error is None
        &&& r.set_icon is None
    } else if cmd == "open"@ {
        is_open_response(r, "Open"@, "open"@, trim_start_of(after(input, 5)))
    } else if cmd == "exp"@ {
        if after(input, 4).len() == 0 {
            is_empty_response(r)
        } else {
            is_math_response(r, after(input, 4), evaluation)
        }
    } else if cmd == "help"@ {
        &&& r.elements@.len() == 2
        &&& is_text_section(r.elements@[0], "Help"@, help_text(), "help"@)
        &&& is_text_section(r.elements@[1], "Plugins"@, plugin_lines(plugins), "help"@)
        &&& r.action is None
        &&& r.title is None
        &&& r.error is None
        &&& r.set_icon is None
    } else {
        is_empty_response(r)
    }
}

/// A response of `elements` with `action` and nothing else.
pub fn respond(elements: Vec<Element>, action: Option<PluginActionType>) -> (r: PluginResponse)
    ensures
        r.elements == elements,
        match action {
            Some(a) => r.action matches Some(pa) && pa.action == a && pa.close_after_run is None,
            None => r.action is None,
        },
        r.title is None,
        r.error is None,
        r.set_icon is None,
{
    let action = match action {
        Some(a) => Some(PluginAction { action: a, close_after_run: None }),
        None => None,
    };
    PluginResponse { title: None, elements, action, error: None, set_icon: None }
}

/// The empty response.
pub fn empty_response() -> (r: PluginResponse)
    ensures
        is_empty_response(r),
{
    respond(Vec::new(), None)
}

/// The title label of a section.
pub fn get_section_title(title: &str) -> (e: Element)
    ensures
        is_title_label(e, title@),
{
    let e = ElementBuilder::new(DataType::Label).id("SectionTitle").hexpand(true).ellipsize(
        true,
    ).halign(Align::Start).text(title).build();
    assert(strings_view(e.classes@) =~= seq![]);
    e
}

/// A wrapping label of CSS class `class` reading `text`.
pub fn content_label(text: &str, class: &str) -> (e: Element)
    ensures
        is_content_label(e, text@, class@),
{
    let classes = vec![class.to_string()];
    let e = ElementBuilder::new(DataType::Label).id("Content").wrap(true).classes(
        classes,
    ).hexpand(true).halign(Align::Start).text(text).build();
    assert(strings_view(e.classes@) =~= seq![class@]);
    e
}

/// A section titled `title` around `body`.
pub fn section(title: &str, body: Vec<Element>) -> (e: Element)
    ensures
        is_section(e),
        section_title(e) == Some(title@),
        section_body(e) == body@,
{
    let ghost given = body@;
    let mut body = body;
    let mut kids: Vec<Element> = Vec::new();
    kids.push(get_section_title(title));
    kids.append(&mut body);
    let inner = ElementBuilder::new(DataType::Box).id("BoxContent").orientation(
        Orientation::Vertical,
    ).children(kids).build();
    assert(strings_view(inner.classes@) =~= seq![]);
    let e = wrap_section(inner);
    assert(section_body(e) =~= given);
    e
}

/// The outer box of a section, around its content box `bx`.
pub fn wrap_section(bx: Element) -> (e: Element)
    ensures
        is_box(e, "Section"@, Orientation::Vertical, seq![]),
        children_of(e) == seq![bx],
{
    let e = ElementBuilder::new(DataType::Box).id("Section").orientation(
        Orientation::Vertical,
    ).append(bx).build();
    assert(children_of(e) =~= seq![bx]);
    assert(strings_view(e.classes@) =~= seq![]);
    e
}

/// A section titled `title` with one label reading `text`.
pub fn text_section(title: &str, text: &str, class: &str) -> (e: Element)
    ensures
        is_text_section(e, title@, text@, class@),
{
    let body = vec![content_label(text, class)];
    section(title, body)
}

/// The section and action that open `target`.
fn open_response(title: &str, target: String, class: &str) -> (r: PluginResponse)
    ensures
        is_open_response(r, title@, class@, target@),
{
    let text = cat("open ", target.as_str());
    let elements = vec![text_section(title, text.as_str(), class)];
    respond(elements, Some(PluginActionType::Open(target)))
}

/// The response to a web address: a section that shows it, and the action
/// that opens it.
pub fn url(input: &str) -> (r: PluginResponse)
    ensures
        is_open_response(r, "Url"@, "url"@, input@),
{
    open_response("Url", input.to_string(), "url")
}

/// The section for an evaluated number.
pub fn mathematical_result(input: &str, value: String) -> (r: PluginResponse)
    ensures
        is_math_response(r, input@, Ok(value)),
{
    let t = trim(input);
    let title = cat(cat("(", t.as_str()).as_str(), ") evaluation");
    let elements = vec![text_section(title.as_str(), value.as_str(), "mathematical")];
    respond(elements, Some(PluginActionType::Copy(value)))
}

/// The section for an expression that the evaluator refused.
pub fn mathematical_error(input: &str, message: String) -> (r: PluginResponse)
    ensures
        is_math_response(r, input@, Err(message)),
{
    let t = trim(input);
    let title = cat(cat("(", t.as_str()).as_str(), ") evaluation");
    let elements = vec![text_section(title.as_str(), message.as_str(), "error")];
    let mut r = respond(elements, None);
    r.error = Some(message);
    r
}

/// The response to expression `input`, given the evaluator's outcome on it.
pub fn mathematical(input: &str, evaluation: Result<String, String>) -> (r: PluginResponse)
    ensures
        input@.len() == 0 ==> is_empty_response(r),
        input@.len() > 0 ==> is_math_response(r, input@, evaluation),
{
    if input.unicode_len() == 0 {
        return empty_response();
    }
    match evaluation {
        Ok(v) => mathematical_result(input, v),
        Err(e) => mathematical_error(input, e),
    }
}

/// The help lines of `plugins`.
pub fn plugin_help(plugins: &Vec<PluginConfig>) -> (r: String)
    ensures
        r@ == plugin_lines(plugins@),
{
    let mut out = String::new();
    let mut i: usize = 0;
    while i < plugins.len()
        invariant
            i <= plugins@.len(),
            out@ == plugin_lines(plugins@.take(i as int)),
        decreases plugins@.len() - i,
    {
        let p = &plugins[i];
        out.append("@");
        out.append(p.name.as_str());
        out.append(" <query>: ");
        out.append(p.description.as_str());
        out.append("\n");
        assert(plugins@.take(i + 1).drop_last() =~= plugins@.take(i as int));
        i = i + 1;
    }
    assert(plugins@.take(i as int) =~= plugins@);
    out
}

/// The response to built-in command `cmd` in query `input`; `evaluation` is
/// the evaluator's outcome on the text after `@exp`.
pub fn command(
    cmd: &str,
    input: &str,
    plugins: &Vec<PluginConfig>,
    evaluation: Result<String, String>,
) -> (r: PluginResponse)
    ensures
        is_command_response(r, cmd@, input@, plugins@, evaluation),
{
    let c = cmd.to_string();
    if c == String::from_str("exit") {
        respond(Vec::new(), Some(PluginActionType::Exit))
    } else if c == String::from_str("open") {
        let rest = tail(input, 5);
        let target = trim_start(rest.as_str());
        open_response("Open", target, "open")
    } else if c == String::from_str("exp") {
        let expr = tail(input, 4);
        mathematical(expr.as_str(), evaluation)
    } else if c == String::from_str("help") {
        let lines = plugin_help(plugins);
        let elements = vec![
            text_section("Help", HELP, "help"),
            text_section("Plugins", lines.as_str(), "help"),
        ];
        respond(elements, None)
    } else {
        empty_response()
    }
}

} // verus!
