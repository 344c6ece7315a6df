//! The data that flows between the core, its plugins and the presentation layer.

use vstd::prelude::*;

verus! {

/// The settings file: `[look]` holds the window's look.
#[derive(Debug)]
pub struct Config {
    pub look: Option<Look>,
}

/// The `[look]` section of the settings file.
#[derive(Debug)]
pub struct Look {
    /// The initial width of the window.
    pub initial_width: Option<u32>,
    /// Disable the tip suggestion.
    pub disable_tip: Option<bool>,
    /// The placeholder of the input field.
    pub input_placeholder: Option<String>,
}

/// A plugin descriptor: one TOML file per plugin.
///
/// `cmd` is an executable (absolute, or found through `PATH`) or
/// `@script:<name>`, a file under the scripts directory. It is run with the
/// query as its single argument.
#[derive(Debug)]
pub struct PluginConfig {
    /// The name, used as `@name` in a query.
    pub name: String,
    pub description: String,
    /// The command to execute.
    pub cmd: String,
    /// Run on every search, not only when called by name.
    pub run_on_any_query: Option<bool>,
    /// Display priority, 0 to 3; default 0.
    pub priority: Option<i32>,
    /// Reserved.
    pub dev: Option<bool>,
}

/// What a confirmed result does.
#[derive(Debug)]
pub enum PluginActionType {
    Copy(String),
    Open(String),
    RunCmd(String),
    RunScript(String),
    Launch(String),
    Exit,
}

/// The mathematical value of a [`PluginActionType`].
pub enum ActionView {
    Copy(Seq<char>),
    Open(Seq<char>),
    RunCmd(Seq<char>),
    RunScript(Seq<char>),
    Launch(Seq<char>),
    Exit,
}

impl View for PluginActionType {
    type V = ActionView;

    open spec fn view(&self) -> ActionView {
        match self {
            PluginActionType::Copy(s) => ActionView::Copy(s@),
            PluginActionType::Open(s) => ActionView::Open(s@),
            PluginActionType::RunCmd(s) => ActionView::RunCmd(s@),
            PluginActionType::RunScript(s) => ActionView::RunScript(s@),
            PluginActionType::Launch(s) => ActionView::Launch(s@),
            PluginActionType::Exit => ActionView::Exit,
        }
    }
}

/// An action with the hint whether the window closes after it ran.
#[derive(Debug)]
pub struct PluginAction {
    pub action: PluginActionType,
    pub close_after_run: Option<bool>,
}

/// The kind of a UI node.
#[derive(Debug, Clone, Copy, PartialEq, Eq, Structural)]
pub enum DataType {
    Box,
    Button,
    EventBox,
    Image,
    Label,
}

/// Horizontal alignment of a UI node.
#[derive(Debug, Clone, Copy, PartialEq, Eq, Structural)]
pub enum Align {
    Start,
    End,
    Center,
    Fill,
    Baseline,
}

/// Orientation of a box or button.
#[derive(Debug, Clone, Copy, PartialEq, Eq, Structural)]
pub enum Orientation {
    Horizontal,
    Vertical,
}

/// A node of the toolkit-agnostic UI tree. A parent owns its children.
#[derive(Debug)]
pub struct Element {
    pub element_type: DataType,
    /// Widget name, also used as CSS name.
    pub id: String,
    pub hexpand: Option<bool>,
    pub vexpand: Option<bool>,
    /// Text wrap.
    pub wrap: Option<bool>,
    /// Ellipsize the text.
    pub ellipsize: Option<bool>,
    pub halign: Option<Align>,
    pub orientation: Option<Orientation>,
    /// CSS classes.
    pub classes: Vec<String>,
    /// A label's text.
    pub text: Option<String>,
    pub children: Option<Vec<Element>>,
    /// What a click on a button does.
    pub on_click: Option<PluginAction>,
    pub image_path: Option<String>,
}

/// Builds an [`Element`] one field at a time.
#[derive(Debug)]
pub struct ElementBuilder {
    element_type: DataType,
    id: String,
    hexpand: Option<bool>,
    vexpand: Option<bool>,
    wrap: Option<bool>,
    ellipsize: Option<bool>,
    halign: Option<Align>,
    orientation: Option<Orientation>,
    classes: Vec<String>,
    text: Option<String>,
    children: Option<Vec<Element>>,
    on_click: Option<PluginAction>,
    image_path: Option<String>,
}

impl View for ElementBuilder {
    type V = Element;

    /// The element that `build` returns.
    closed spec fn view(&self) -> Element {
        Element {
            element_type: self.element_type,
            id: self.id,
            hexpand: self.hexpand,
            vexpand: self.vexpand,
            wrap: self.wrap,
            ellipsize: self.ellipsize,
            halign: self.halign,
            orientation: self.orientation,
            classes: self.classes,
            text: self.text,
            children: self.children,
            on_click: self.on_click,
            image_path: self.image_path,
        }
    }
}

/// The texts of a list of strings.
pub open spec fn strings_view(v: Seq<String>) -> Seq<Seq<char>> {
    v.map_values(|s: String| s@)
}

/// Every field of `e` but its children is as given; it has no click action
/// and no image.
pub open spec fn is_node(
    e: Element,
    kind: DataType,
    id: Seq<char>,
    hexpand: Option<bool>,
    vexpand: Option<bool>,
    wrap: Option<bool>,
    ellipsize: Option<bool>,
    halign: Option<Align>,
    orientation: Option<Orientation>,
    classes: Seq<Seq<char>>,
    text: Option<Seq<char>>,
) -> bool {
    &&& e.element_type == kind
    &&& e.id@ == id
    &&& e.hexpand == hexpand
    &&& e.vexpand == vexpand
    &&& e.wrap == wrap
    &&& e.ellipsize == ellipsize
    &&& e.halign == halign
    &&& e.orientation == orientation
    &&& strings_view(e.classes@) == classes
    &&& match e.text {
        Some(t) => text == Some(t@),
        None => text is None,
    }
    &&& e.on_click is None
    &&& e.image_path is None
}

/// The children of `e`, none where it has no child list.
pub open spec fn children_of(e: Element) -> Seq<Element> {
    match e.children {
        Some(c) => c@,
        None => Seq::empty(),
    }
}

impl ElementBuilder {
    pub fn new(element_type: DataType) -> (r: Self)
        ensures
            r@.element_type == element_type,
            r@.id@ == Seq::<char>::empty(),
            r@.hexpand is None,
            r@.vexpand is None,
            r@.wrap is None,
            r@.ellipsize is None,
            r@.halign is None,
            r@.orientation is None,
            r@.classes@.len() == 0,
            r@.text is None,
            r@.children is None,
            r@.on_click is None,
            r@.image_path is None,
    {
        Self {
            element_type,
            id: String::new(),
            hexpand: None,
            vexpand: None,
            wrap: None,
            ellipsize: None,
            halign: None,
            orientation: None,
            classes: Vec::new(),
            text: None,
            children: None,
            on_click: None,
            image_path: None,
        }
    }

    pub fn id(self, id: &str) -> (r: Self)
        ensures
            r@.id@ == id@,
            r@ == (Element { id: r@.id, ..self@ }),
    {
        let mut b = self;
        b.id = id.to_string();
        b
    }

    pub fn hexpand(self, hexpand: bool) -> (r: Self)
        ensures
            r@ == (Element { hexpand: Some(hexpand), ..self@ }),
    {
        let mut b = self;
        b.hexpand = Some(hexpand);
        b
    }
    pub fn vexpand(self, vexpand: bool) -> (r: Self)
        ensures
            r@ == (Element { vexpand: Some(vexpand), ..self@ }),
    {
        let mut b = self;
        b.vexpand = Some(vexpand);
        b
    }

    pub fn wrap(self, wrap: bool) -> (r: Self)
        ensures
            r@ == (Element { wrap: Some(wrap), ..self@ }),
    {
        let mut b = self;
        b.wrap = Some(wrap);
        b
    }

    pub fn ellipsize(self, ellipsize: bool) -> (r: Self)
        ensures
            r@ == (Element { ellipsize: Some(ellipsize), ..self@ }),
    {
        let mut b = self;
        b.ellipsize = Some(ellipsize);
        b
    }

    pub fn halign(self, halign: Align) -> (r: Self)
        ensures
            r@ == (Element { halign: Some(halign), ..self@ }),
    {
        let mut b = self;
        b.halign = Some(halign);
        b
    }

    pub fn orientation(self, orientation: Orientation) -> (r: Self)
        ensures
            r@ == (Element { orientation: Some(orientation), ..self@ }),
    {
        let mut b = self;
        b.orientation = Some(orientation);
        b
    }

    pub fn classes(self, classes: Vec<String>) -> (r: Self)
        ensures
            r@ == (Element { classes: classes, ..self@ }),
    {
        let mut b = self;
        b.classes = classes;
        b
    }

    pub fn text(self, text: &str) -> (r: Self)
        ensures
            r@.text matches Some(t) && t@ == text@,
            r@ == (Element { text: r@.text, ..self@ }),
    {
        let mut b = self;
        b.text = Some(text.to_string());
        b
    }

    pub fn children(self, children: Vec<Element>) -> (r: Self)
        ensures
            r@ == (Element { children: Some(children), ..self@ }),
    {
        let mut b = self;
        b.children = Some(children);
        b
    }

    pub fn on_click(self, on_click: PluginAction) -> (r: Self)
        ensures
            r@ == (Element { on_click: Some(on_click), ..self@ }),
    {
        let mut b = self;
        b.on_click = Some(on_click);
        b
    }

    /// Adds `child` after the children already there.
    pub fn append(self, child: Element) -> (r: Self)
        ensures
            r@.children is Some,
            children_of(r@) == children_of(self@).push(child),
            r@ == (Element { children: r@.children, ..self@ }),
    {
        let mut b = self;
        match b.children {
            Some(mut children) => {
                children.push(child);
                b.children = Some(children);
            },
            None => {
                b.children = Some(vec![child]);
            },
        }
        b
    }

    pub fn image_path(self, image_path: &str) -> (r: Self)
        ensures
            r@.image_path matches Some(p) && p@ == image_path@,
            r@ == (Element { image_path: r@.image_path, ..self@ }),
    {
        let mut b = self;
        b.image_path = Some(image_path.to_string());
        b
    }

    pub fn build(self) -> (r: Element)
        ensures
            r == self@,
    {
        Element {
            element_type: self.element_type,
            id: self.id,
            hexpand: self.hexpand,
            vexpand: self.vexpand,
            wrap: self.wrap,
            ellipsize: self.ellipsize,
            halign: self.halign,
            orientation: self.orientation,
            classes: self.classes,
            text: self.text,
            children: self.children,
            on_click: self.on_click,
            image_path: self.image_path,
        }
    }
}

/// What a plugin writes on its standard output, and what every handler of
/// the core returns: a title, a tree of elements, an action, an error and an
/// icon path. Empty `elements` mean "no contribution".
#[derive(Debug)]
pub struct PluginResponse {
    pub title: Option<String>,
    pub elements: Vec<Element>,
    pub action: Option<PluginAction>,
    pub error: Option<String>,
    pub set_icon: Option<String>,
}

pub fn new_plugin_action(action: PluginActionType, close_after_run: Option<bool>) -> (r:
    PluginAction)
    ensures
        r == (PluginAction { action, close_after_run }),
{
    PluginAction { action, close_after_run }
}

} // verus!
