//! The tree of nodes: the root, outputs, workspaces and containers.
//!
//! A node owns its children. The tree is decoded as it is written: the
//! children of a node are the elements of its `nodes` and `floating_nodes`
//! arrays, in their order, and `focus` stays a list of ids.

use crate::decode::{
    failed, flag, flag_at, known, lemma_each, lemma_elements_decrease, opt, opt_string_set,
    optional, optional_string_set, req, req_list, required, required_list, FromJson,
};
use crate::error::ShapeError;
use crate::json::{lemma_field_decreases, Binary64, Json, JsonValue};
use crate::outputs::Rect;
use crate::text::{result_view, str_eq};
use vstd::prelude::*;

verus! {

/// What a node of the tree is.
#[derive(Clone, Copy, Debug, PartialEq, Eq, Hash, Structural)]
pub enum SwayNodeType {
    Root,
    Output,
    Workspace,
    Con,
    FloatingCon,
}

impl DeepView for SwayNodeType {
    type V = SwayNodeType;

    open spec fn deep_view(&self) -> SwayNodeType {
        *self
    }
}

impl SwayNodeType {
    /// The kind of node that a name of the protocol stands for.
    pub open spec fn spec_from_name(name: Seq<char>) -> Option<SwayNodeType> {
        if name == "root"@ {
            Some(SwayNodeType::Root)
        } else if name == "output"@ {
            Some(SwayNodeType::Output)
        } else if name == "workspace"@ {
            Some(SwayNodeType::Workspace)
        } else if name == "con"@ {
            Some(SwayNodeType::Con)
        } else if name == "floating_con"@ {
            Some(SwayNodeType::FloatingCon)
        } else {
            None
        }
    }

    pub fn from_name(name: &str) -> (r: Option<SwayNodeType>)
        ensures
            r == SwayNodeType::spec_from_name(name@),
    {
        if str_eq(name, "root") {
            Some(SwayNodeType::Root)
        } else if str_eq(name, "output") {
            Some(SwayNodeType::Output)
        } else if str_eq(name, "workspace") {
            Some(SwayNodeType::Workspace)
        } else if str_eq(name, "con") {
            Some(SwayNodeType::Con)
        } else if str_eq(name, "floating_con") {
            Some(SwayNodeType::FloatingCon)
        } else {
            None
        }
    }
}

impl FromJson for SwayNodeType {
    open spec fn decoded(j: JsonValue) -> Result<SwayNodeType, ShapeError> {
        match j.as_str() {
            Some(name) => known(SwayNodeType::spec_from_name(name)),
            None => Err(ShapeError::TypeMismatch),
        }
    }

    fn from_json(j: &Json) -> (r: Result<SwayNodeType, ShapeError>) {
        match j.as_str() {
            Some(name) => match SwayNodeType::from_name(name) {
                Some(v) => Ok(v),
                None => Err(ShapeError::UnknownVariant),
            },
            None => Err(ShapeError::TypeMismatch),
        }
    }
}

/// How the border of a container is drawn.
#[derive(Clone, Copy, Debug, PartialEq, Eq, Hash, Structural)]
pub enum SwayBorderStyle {
    Normal,
    NoBorder,
    Pixel,
    Csd,
}

impl DeepView for SwayBorderStyle {
    type V = SwayBorderStyle;

    open spec fn deep_view(&self) -> SwayBorderStyle {
        *self
    }
}

impl SwayBorderStyle {
    /// The border style that a name of the protocol stands for.
    pub open spec fn spec_from_name(name: Seq<char>) -> Option<SwayBorderStyle> {
        if name == "normal"@ {
            Some(SwayBorderStyle::Normal)
        } else if name == "none"@ {
            Some(SwayBorderStyle::NoBorder)
        } else if name == "pixel"@ {
            Some(SwayBorderStyle::Pixel)
        } else if name == "csd"@ {
            Some(SwayBorderStyle::Csd)
        } else {
            None
        }
    }

    pub fn from_name(name: &str) -> (r: Option<SwayBorderStyle>)
        ensures
            r == SwayBorderStyle::spec_from_name(name@),
    {
        if str_eq(name, "normal") {
            Some(SwayBorderStyle::Normal)
        } else if str_eq(name, "none") {
            Some(SwayBorderStyle::NoBorder)
        } else if str_eq(name, "pixel") {
            Some(SwayBorderStyle::Pixel)
        } else if str_eq(name, "csd") {
            Some(SwayBorderStyle::Csd)
        } else {
            None
        }
    }
}

impl FromJson for SwayBorderStyle {
    open spec fn decoded(j: JsonValue) -> Result<SwayBorderStyle, ShapeError> {
        match j.as_str() {
            Some(name) => known(SwayBorderStyle::spec_from_name(name)),
            None => Err(ShapeError::TypeMismatch),
        }
    }

    fn from_json(j: &Json) -> (r: Result<SwayBorderStyle, ShapeError>) {
        match j.as_str() {
            Some(name) => match SwayBorderStyle::from_name(name) {
                Some(v) => Ok(v),
                None => Err(ShapeError::UnknownVariant),
            },
            None => Err(ShapeError::TypeMismatch),
        }
    }
}

/// How a node lays out its children.
#[derive(Clone, Copy, Debug, PartialEq, Eq, Hash, Structural)]
pub enum SwayLayout {
    Splith,
    Splitv,
    Stacked,
    Tabbed,
    Output,
}

impl DeepView for SwayLayout {
    type V = SwayLayout;

    open spec fn deep_view(&self) -> SwayLayout {
        *self
    }
}

impl SwayLayout {
    /// The layout that a name of the protocol stands for.
    pub open spec fn spec_from_name(name: Seq<char>) -> Option<SwayLayout> {
        if name == "splith"@ {
            Some(SwayLayout::Splith)
        } else if name == "splitv"@ {
            Some(SwayLayout::Splitv)
        } else if name == "stacked"@ {
            Some(SwayLayout::Stacked)
        } else if name == "tabbed"@ {
            Some(SwayLayout::Tabbed)
        } else if name == "output"@ {
            Some(SwayLayout::Output)
        } else {
            None
        }
    }

    pub fn from_name(name: &str) -> (r: Option<SwayLayout>)
        ensures
            r == SwayLayout::spec_from_name(name@),
    {
        if str_eq(name, "splith") {
            Some(SwayLayout::Splith)
        } else if str_eq(name, "splitv") {
            Some(SwayLayout::Splitv)
        } else if str_eq(name, "stacked") {
            Some(SwayLayout::Stacked)
        } else if str_eq(name, "tabbed") {
            Some(SwayLayout::Tabbed)
        } else if str_eq(name, "output") {
            Some(SwayLayout::Output)
        } else {
            None
        }
    }
}

impl FromJson for SwayLayout {
    open spec fn decoded(j: JsonValue) -> Result<SwayLayout, ShapeError> {
        match j.as_str() {
            Some(name) => known(SwayLayout::spec_from_name(name)),
            None => Err(ShapeError::TypeMismatch),
        }
    }

    fn from_json(j: &Json) -> (r: Result<SwayLayout, ShapeError>) {
        match j.as_str() {
            Some(name) => match SwayLayout::from_name(name) {
                Some(v) => Ok(v),
                None => Err(ShapeError::UnknownVariant),
            },
            None => Err(ShapeError::TypeMismatch),
        }
    }
}

/// The direction in which a node splits.
#[derive(Clone, Copy, Debug, PartialEq, Eq, Hash, Structural)]
pub enum Orientation {
    Vertical,
    Horizontal,
    Unoriented,
}

impl DeepView for Orientation {
    type V = Orientation;

    open spec fn deep_view(&self) -> Orientation {
        *self
    }
}

impl Orientation {
    /// The orientation that a name of the protocol stands for.
    pub open spec fn spec_from_name(name: Seq<char>) -> Option<Orientation> {
        if name == "vertical"@ {
            Some(Orientation::Vertical)
        } else if name == "horizontal"@ {
            Some(Orientation::Horizontal)
        } else if name == "none"@ {
            Some(Orientation::Unoriented)
        } else {
            None
        }
    }

    pub fn from_name(name: &str) -> (r: Option<Orientation>)
        ensures
            r == Orientation::spec_from_name(name@),
    {
        if str_eq(name, "vertical") {
            Some(Orientation::Vertical)
        } else if str_eq(name, "horizontal") {
            Some(Orientation::Horizontal)
        } else if str_eq(name, "none") {
            Some(Orientation::Unoriented)
        } else {
            None
        }
    }
}

impl FromJson for Orientation {
    open spec fn decoded(j: JsonValue) -> Result<Orientation, ShapeError> {
        match j.as_str() {
            Some(name) => known(Orientation::spec_from_name(name)),
            None => Err(ShapeError::TypeMismatch),
        }
    }

    fn from_json(j: &Json) -> (r: Result<Orientation, ShapeError>) {
        match j.as_str() {
            Some(name) => match Orientation::from_name(name) {
                Some(v) => Ok(v),
                None => Err(ShapeError::UnknownVariant),
            },
            None => Err(ShapeError::TypeMismatch),
        }
    }
}

/// How far a container is fullscreen. On the wire it is a number.
#[derive(Clone, Copy, Debug, PartialEq, Eq, Hash, Structural)]
pub enum SwayFullscreenMode {
    Windowed,
    Workspace,
    Global,
}

impl DeepView for SwayFullscreenMode {
    type V = SwayFullscreenMode;

    open spec fn deep_view(&self) -> SwayFullscreenMode {
        *self
    }
}

impl SwayFullscreenMode {
    /// The mode that a number of the protocol stands for.
    pub open spec fn spec_from_number(n: u64) -> Option<SwayFullscreenMode> {
        if n == 0 {
            Some(SwayFullscreenMode::Windowed)
        } else if n == 1 {
            Some(SwayFullscreenMode::Workspace)
        } else if n == 2 {
            Some(SwayFullscreenMode::Global)
        } else {
            None
        }
    }

    pub fn from_number(n: u64) -> (r: Option<SwayFullscreenMode>)
        ensures
            r == SwayFullscreenMode::spec_from_number(n),
    {
        if n == 0 {
            Some(SwayFullscreenMode::Windowed)
        } else if n == 1 {
            Some(SwayFullscreenMode::Workspace)
        } else if n == 2 {
            Some(SwayFullscreenMode::Global)
        } else {
            None
        }
    }
}

impl FromJson for SwayFullscreenMode {
    open spec fn decoded(j: JsonValue) -> Result<SwayFullscreenMode, ShapeError> {
        match j.as_u64() {
            Some(n) => known(SwayFullscreenMode::spec_from_number(n)),
            None => Err(ShapeError::TypeMismatch),
        }
    }

    fn from_json(j: &Json) -> (r: Result<SwayFullscreenMode, ShapeError>) {
        match j.as_u64() {
            Some(n) => match SwayFullscreenMode::from_number(n) {
                Some(v) => Ok(v),
                None => Err(ShapeError::UnknownVariant),
            },
            None => Err(ShapeError::TypeMismatch),
        }
    }
}

/// Whether the application of a window keeps the session from going idle.
#[derive(Clone, Copy, Debug, PartialEq, Eq, Hash, Structural)]
pub enum IdleInhibitorApplication {
    Enabled,
    NoInhibitor,
}

impl DeepView for IdleInhibitorApplication {
    type V = IdleInhibitorApplication;

    open spec fn deep_view(&self) -> IdleInhibitorApplication {
        *self
    }
}

impl IdleInhibitorApplication {
    /// The inhibitor that a name of the protocol stands for.
    pub open spec fn spec_from_name(name: Seq<char>) -> Option<IdleInhibitorApplication> {
        if name == "enabled"@ {
            Some(IdleInhibitorApplication::Enabled)
        } else if name == "none"@ {
            Some(IdleInhibitorApplication::NoInhibitor)
        } else {
            None
        }
    }

    pub fn from_name(name: &str) -> (r: Option<IdleInhibitorApplication>)
        ensures
            r == IdleInhibitorApplication::spec_from_name(name@),
    {
        if str_eq(name, "enabled") {
            Some(IdleInhibitorApplication::Enabled)
        } else if str_eq(name, "none") {
            Some(IdleInhibitorApplication::NoInhibitor)
        } else {
            None
        }
    }
}

impl FromJson for IdleInhibitorApplication {
    open spec fn decoded(j: JsonValue) -> Result<IdleInhibitorApplication, ShapeError> {
        match j.as_str() {
            Some(name) => known(IdleInhibitorApplication::spec_from_name(name)),
            None => Err(ShapeError::TypeMismatch),
        }
    }

    fn from_json(j: &Json) -> (r: Result<IdleInhibitorApplication, ShapeError>) {
        match j.as_str() {
            Some(name) => match IdleInhibitorApplication::from_name(name) {
                Some(v) => Ok(v),
                None => Err(ShapeError::UnknownVariant),
            },
            None => Err(ShapeError::TypeMismatch),
        }
    }
}

/// When the user has a window keep the session from going idle.
#[derive(Clone, Copy, Debug, PartialEq, Eq, Hash, Structural)]
pub enum IdleInhibitorUser {
    Focus,
    Fullscreen,
    Open,
    Visible,
    NoInhibitor,
}

impl DeepView for IdleInhibitorUser {
    type V = IdleInhibitorUser;

    open spec fn deep_view(&self) -> IdleInhibitorUser {
        *self
    }
}

impl IdleInhibitorUser {
    /// The inhibitor that a name of the protocol stands for.
    pub open spec fn spec_from_name(name: Seq<char>) -> Option<IdleInhibitorUser> {
        if name == "focus"@ {
            Some(IdleInhibitorUser::Focus)
        } else if name == "fullscreen"@ {
            Some(IdleInhibitorUser::Fullscreen)
        } else if name == "open"@ {
            Some(IdleInhibitorUser::Open)
        } else if name == "visible"@ {
            Some(IdleInhibitorUser::Visible)
        } else if name == "none"@ {
            Some(IdleInhibitorUser::NoInhibitor)
        } else {
            None
        }
    }

    pub fn from_name(name: &str) -> (r: Option<IdleInhibitorUser>)
        ensures
            r == IdleInhibitorUser::spec_from_name(name@),
    {
        if str_eq(name, "focus") {
            Some(IdleInhibitorUser::Focus)
        } else if str_eq(name, "fullscreen") {
            Some(IdleInhibitorUser::Fullscreen)
        } else if str_eq(name, "open") {
            Some(IdleInhibitorUser::Open)
        } else if str_eq(name, "visible") {
            Some(IdleInhibitorUser::Visible)
        } else if str_eq(name, "none") {
            Some(IdleInhibitorUser::NoInhibitor)
        } else {
            None
        }
    }
}

impl FromJson for IdleInhibitorUser {
    open spec fn decoded(j: JsonValue) -> Result<IdleInhibitorUser, ShapeError> {
        match j.as_str() {
            Some(name) => known(IdleInhibitorUser::spec_from_name(name)),
            None => Err(ShapeError::TypeMismatch),
        }
    }

    fn from_json(j: &Json) -> (r: Result<IdleInhibitorUser, ShapeError>) {
        match j.as_str() {
            Some(name) => match IdleInhibitorUser::from_name(name) {
                Some(v) => Ok(v),
                None => Err(ShapeError::UnknownVariant),
            },
            None => Err(ShapeError::TypeMismatch),
        }
    }
}

/// The idle inhibitors of a window.
#[derive(Clone, Copy, Debug, PartialEq, Eq, Hash, Structural)]
pub struct IdleInhibitors {
    pub application: IdleInhibitorApplication,
    pub user: IdleInhibitorUser,
}

impl DeepView for IdleInhibitors {
    type V = IdleInhibitors;

    open spec fn deep_view(&self) -> IdleInhibitors {
        *self
    }
}

impl FromJson for IdleInhibitors {
    open spec fn decoded(j: JsonValue) -> Result<IdleInhibitors, ShapeError> {
        let application = required::<IdleInhibitorApplication>(j, "application"@);
        let user = required::<IdleInhibitorUser>(j, "user"@);
        if !(j is Object) {
            Err(ShapeError::TypeMismatch)
        } else if application is Err {
            failed(application)
        } else if user is Err {
            failed(user)
        } else {
            Ok(
                IdleInhibitors {
                    application: application.unwrap(),
                    user: user.unwrap(),
                },
            )
        }
    }

    fn from_json(j: &Json) -> (r: Result<IdleInhibitors, ShapeError>) {
        if !j.is_object() {
            return Err(ShapeError::TypeMismatch);
        }
        let application = req::<IdleInhibitorApplication>(j, "application")?;
        let user = req::<IdleInhibitorUser>(j, "user")?;
        Ok(IdleInhibitors { application, user })
    }
}

/// A node of the tree.
#[derive(Debug, PartialEq)]
pub struct SwayNode {
    /// The id of the node, unique within one tree.
    pub id: u64,
    pub name: String,
    /// The member `type`.
    pub node_type: SwayNodeType,
    pub border: SwayBorderStyle,
    pub current_border_width: u64,
    pub layout: SwayLayout,
    pub orientation: Orientation,
    /// The share of the parent that the node takes; of meaning for the children of a
    /// split container.
    pub percent: Option<Binary64>,
    /// Where the node is, on the layout.
    pub rect: Rect,
    /// Where the window is, inside the node.
    pub window_rect: Rect,
    /// Where the decorations are.
    pub deco_rect: Rect,
    /// The geometry that the window asked for.
    pub geometry: Rect,
    /// `false` where the member is missing.
    pub urgent: bool,
    pub sticky: bool,
    /// The marks of the node, each once.
    pub marks: Option<Vec<String>>,
    pub focused: bool,
    /// The ids of the children in the order of their focus. They are ids and
    /// nothing more: to find a child, look for its id in `nodes` and
    /// `floating_nodes`.
    pub focus: Vec<u64>,
    /// The tiled children.
    pub nodes: Vec<SwayNode>,
    /// The floating children.
    pub floating_nodes: Vec<SwayNode>,
    pub representation: Option<String>,
    pub fullscreen_mode: Option<SwayFullscreenMode>,
    /// Of meaning for the containers of applications only, as are `pid` and `shell`.
    pub app_id: Option<String>,
    pub pid: Option<u64>,
    pub visible: Option<bool>,
    pub shell: Option<String>,
    pub inhibit_idle: Option<bool>,
    pub idle_inhibitors: Option<IdleInhibitors>,
    pub window: Option<u64>,
}

/// The mathematical model of [`SwayNode`].
pub struct SwayNodeView {
    pub id: u64,
    pub name: Seq<char>,
    pub node_type: SwayNodeType,
    pub border: SwayBorderStyle,
    pub current_border_width: u64,
    pub layout: SwayLayout,
    pub orientation: Orientation,
    pub percent: Option<Binary64>,
    pub rect: Rect,
    pub window_rect: Rect,
    pub deco_rect: Rect,
    pub geometry: Rect,
    pub urgent: bool,
    pub sticky: bool,
    pub marks: Option<Seq<Seq<char>>>,
    pub focused: bool,
    pub focus: Seq<u64>,
    pub nodes: Seq<SwayNodeView>,
    pub floating_nodes: Seq<SwayNodeView>,
    pub representation: Option<Seq<char>>,
    pub fullscreen_mode: Option<SwayFullscreenMode>,
    pub app_id: Option<Seq<char>>,
    pub pid: Option<u64>,
    pub visible: Option<bool>,
    pub shell: Option<Seq<char>>,
    pub inhibit_idle: Option<bool>,
    pub idle_inhibitors: Option<IdleInhibitors>,
    pub window: Option<u64>,
}

/// The model of a node: the models of its children in the places of the
/// children.
pub open spec fn node_view(n: SwayNode) -> SwayNodeView
    decreases n,
{
    SwayNodeView {
        id: n.id,
        name: n.name.deep_view(),
        node_type: n.node_type,
        border: n.border,
        current_border_width: n.current_border_width,
        layout: n.layout,
        orientation: n.orientation,
        percent: n.percent,
        rect: n.rect,
        window_rect: n.window_rect,
        deco_rect: n.deco_rect,
        geometry: n.geometry,
        urgent: n.urgent,
        sticky: n.sticky,
        marks: n.marks.deep_view(),
        focused: n.focused,
        focus: n.focus.deep_view(),
        nodes: Seq::new(
            n.nodes@.len(),
            |i: int|
                if 0 <= i < n.nodes@.len() {
                    node_view(n.nodes@[i])
                } else {
                    arbitrary()
                },
        ),
        floating_nodes: Seq::new(
            n.floating_nodes@.len(),
            |i: int|
                if 0 <= i < n.floating_nodes@.len() {
                    node_view(n.floating_nodes@[i])
                } else {
                    arbitrary()
                },
        ),
        representation: n.representation.deep_view(),
        fullscreen_mode: n.fullscreen_mode,
        app_id: n.app_id.deep_view(),
        pid: n.pid,
        visible: n.visible,
        shell: n.shell.deep_view(),
        inhibit_idle: n.inhibit_idle,
        idle_inhibitors: n.idle_inhibitors,
        window: n.window,
    }
}

impl DeepView for SwayNode {
    type V = SwayNodeView;

    open spec fn deep_view(&self) -> SwayNodeView {
        node_view(*self)
    }
}

/// The nodes that the elements of an array decode to, in their order;
/// where some do not decode, the cause of the first of them.
pub open spec fn nodes_decoded(items: Seq<JsonValue>) -> Result<Seq<SwayNodeView>, ShapeError>
    decreases items, 0int,
{
    if items.len() == 0 {
        Ok(Seq::empty())
    } else {
        match nodes_decoded(items.drop_last()) {
            Ok(before) => match node_decoded(items.last()) {
                Ok(node) => Ok(before.push(node)),
                Err(e) => Err(e),
            },
            Err(e) => Err(e),
        }
    }
}

/// The children that the array `key` of `j` holds: each element decoded as a
/// node, in the order of the array.
pub open spec fn children_decoded(j: JsonValue, key: Seq<char>) -> Result<
    Seq<SwayNodeView>,
    ShapeError,
>
    decreases j, 1int,
{
    proof {
        lemma_field_decreases(j, key);
    }
    match j.field(key) {
        Some(JsonValue::Array(items)) => nodes_decoded(items),
        Some(_) => Err(ShapeError::TypeMismatch),
        None => Err(ShapeError::MissingField),
    }
}

/// The node that a document decodes to.
pub open spec fn node_decoded(j: JsonValue) -> Result<SwayNodeView, ShapeError>
    decreases j, 2int,
{
    let id = required::<u64>(j, "id"@);
    let name = required::<String>(j, "name"@);
    let node_type = required::<SwayNodeType>(j, "type"@);
    let border = required::<SwayBorderStyle>(j, "border"@);
    let current_border_width = required::<u64>(j, "current_border_width"@);
    let layout = required::<SwayLayout>(j, "layout"@);
    let orientation = required::<Orientation>(j, "orientation"@);
    let percent = optional::<Binary64>(j, "percent"@);
    let rect = required::<Rect>(j, "rect"@);
    let window_rect = required::<Rect>(j, "window_rect"@);
    let deco_rect = required::<Rect>(j, "deco_rect"@);
    let geometry = required::<Rect>(j, "geometry"@);
    let urgent = flag(j, "urgent"@);
    let sticky = required::<bool>(j, "sticky"@);
    let marks = optional_string_set(j, "marks"@);
    let focused = required::<bool>(j, "focused"@);
    let focus = required_list::<u64>(j, "focus"@);
    let nodes = children_decoded(j, "nodes"@);
    let floating_nodes = children_decoded(j, "floating_nodes"@);
    let representation = optional::<String>(j, "representation"@);
    let fullscreen_mode = optional::<SwayFullscreenMode>(j, "fullscreen_mode"@);
    let app_id = optional::<String>(j, "app_id"@);
    let pid = optional::<u64>(j, "pid"@);
    let visible = optional::<bool>(j, "visible"@);
    let shell = optional::<String>(j, "shell"@);
    let inhibit_idle = optional::<bool>(j, "inhibit_idle"@);
    let idle_inhibitors = optional::<IdleInhibitors>(j, "idle_inhibitors"@);
    let window = optional::<u64>(j, "window"@);
    if !(j is Object) {
        Err(ShapeError::TypeMismatch)
    } else if id is Err {
        failed(id)
    } else if name is Err {
        failed(name)
    } else if node_type is Err {
        failed(node_type)
    } else if border is Err {
        failed(border)
    } else if current_border_width is Err {
        failed(current_border_width)
    } else if layout is Err {
        failed(layout)
    } else if orientation is Err {
        failed(orientation)
    } else if percent is Err {
        failed(percent)
    } else if rect is Err {
        failed(rect)
    } else if window_rect is Err {
        failed(window_rect)
    } else if deco_rect is Err {
        failed(deco_rect)
    } else if geometry is Err {
        failed(geometry)
    } else if urgent is Err {
        failed(urgent)
    } else if sticky is Err {
        failed(sticky)
    } else if marks is Err {
        failed(marks)
    } else if focused is Err {
        failed(focused)
    } else if focus is Err {
        failed(focus)
    } else if nodes is Err {
        failed(nodes)
    } else if floating_nodes is Err {
        failed(floating_nodes)
    } else if representation is Err {
        failed(representation)
    } else if fullscreen_mode is Err {
        failed(fullscreen_mode)
    } else if app_id is Err {
        failed(app_id)
    } else if pid is Err {
        failed(pid)
    } else if visible is Err {
        failed(visible)
    } else if shell is Err {
        failed(shell)
    } else if inhibit_idle is Err {
        failed(inhibit_idle)
    } else if idle_inhibitors is Err {
        failed(idle_inhibitors)
    } else if window is Err {
        failed(window)
    } else {
        Ok(
            SwayNodeView {
                id: id.unwrap(),
                name: name.unwrap(),
                node_type: node_type.unwrap(),
                border: border.unwrap(),
                current_border_width: current_border_width.unwrap(),
                layout: layout.unwrap(),
                orientation: orientation.unwrap(),
                percent: percent.unwrap(),
                rect: rect.unwrap(),
                window_rect: window_rect.unwrap(),
                deco_rect: deco_rect.unwrap(),
                geometry: geometry.unwrap(),
                urgent: urgent.unwrap(),
                sticky: sticky.unwrap(),
                marks: marks.unwrap(),
                focused: focused.unwrap(),
                focus: focus.unwrap(),
                nodes: nodes.unwrap(),
                floating_nodes: floating_nodes.unwrap(),
                representation: representation.unwrap(),
                fullscreen_mode: fullscreen_mode.unwrap(),
                app_id: app_id.unwrap(),
                pid: pid.unwrap(),
                visible: visible.unwrap(),
                shell: shell.unwrap(),
                inhibit_idle: inhibit_idle.unwrap(),
                idle_inhibitors: idle_inhibitors.unwrap(),
                window: window.unwrap(),
            },
        )
    }
}

/// A list of nodes that fails at a prefix fails in the same way as a whole.
proof fn lemma_nodes_stop(items: Seq<JsonValue>, n: int)
    requires
        0 <= n <= items.len(),
    ensures
        nodes_decoded(items.take(n)) matches Err(e) ==> nodes_decoded(items) == Err::<
            Seq<SwayNodeView>,
            ShapeError,
        >(e),
    decreases items.len() - n,
{
    if n == items.len() {
        assert(items.take(n) =~= items);
    } else {
        lemma_nodes_stop(items, n + 1);
        assert(items.take(n + 1).drop_last() =~= items.take(n));
    }
}

/// Decodes the array `key` of `j` as a list of nodes.
fn decode_children(j: &Json, key: &str) -> (r: Result<Vec<SwayNode>, ShapeError>)
    ensures
        result_view(r) == children_decoded(j@, key@),
    decreases j@, 1int,
{
    let items = match j.get(key) {
        Some(v) => match v.as_array() {
            Some(items) => items,
            None => {
                return Err(ShapeError::TypeMismatch);
            },
        },
        None => {
            return Err(ShapeError::MissingField);
        },
    };
    let ghost model = items.deep_view();
    let mut out: Vec<SwayNode> = Vec::new();
    let mut i: usize = 0;
    assert(out.deep_view() =~= Seq::<SwayNodeView>::empty());
    while i < items.len()
        invariant
            i <= items.len(),
            model == items.deep_view(),
            j@.field(key@) == Some(JsonValue::Array(model)),
            nodes_decoded(model.take(i as int)) == Ok::<Seq<SwayNodeView>, ShapeError>(
                out.deep_view(),
            ),
        decreases items.len() - i,
    {
        proof {
            lemma_elements_decrease(j@, key@);
            let next = model.take(i + 1);
            assert(next.drop_last() =~= model.take(i as int));
            lemma_nodes_stop(model, i + 1);
        }
        match decode_node(&items[i]) {
            Ok(node) => {
                let ghost before = out.deep_view();
                out.push(node);
                assert(out.deep_view() =~= before.push(node.deep_view()));
            },
            Err(e) => {
                return Err(e);
            },
        }
        i += 1;
    }
    assert(model.take(i as int) =~= model);
    Ok(out)
}

/// Decodes a node with all that is below it.
pub fn decode_node(j: &Json) -> (r: Result<SwayNode, ShapeError>)
    ensures
        result_view(r) == node_decoded(j@),
    decreases j@, 2int,
{
    if !j.is_object() {
        return Err(ShapeError::TypeMismatch);
    }
    let id = req::<u64>(j, "id")?;
    let name = req::<String>(j, "name")?;
    let node_type = req::<SwayNodeType>(j, "type")?;
    let border = req::<SwayBorderStyle>(j, "border")?;
    let current_border_width = req::<u64>(j, "current_border_width")?;
    let layout = req::<SwayLayout>(j, "layout")?;
    let orientation = req::<Orientation>(j, "orientation")?;
    let percent = opt::<Binary64>(j, "percent")?;
    let rect = req::<Rect>(j, "rect")?;
    let window_rect = req::<Rect>(j, "window_rect")?;
    let deco_rect = req::<Rect>(j, "deco_rect")?;
    let geometry = req::<Rect>(j, "geometry")?;
    let urgent = flag_at(j, "urgent")?;
    let sticky = req::<bool>(j, "sticky")?;
    let marks = opt_string_set(j, "marks")?;
    let focused = req::<bool>(j, "focused")?;
    let focus = req_list::<u64>(j, "focus")?;
    let nodes = decode_children(j, "nodes")?;
    let floating_nodes = decode_children(j, "floating_nodes")?;
    let representation = opt::<String>(j, "representation")?;
    let fullscreen_mode = opt::<SwayFullscreenMode>(j, "fullscreen_mode")?;
    let app_id = opt::<String>(j, "app_id")?;
    let pid = opt::<u64>(j, "pid")?;
    let visible = opt::<bool>(j, "visible")?;
    let shell = opt::<String>(j, "shell")?;
    let inhibit_idle = opt::<bool>(j, "inhibit_idle")?;
    let idle_inhibitors = opt::<IdleInhibitors>(j, "idle_inhibitors")?;
    let window = opt::<u64>(j, "window")?;
    let node = SwayNode {
        id,
        name,
        node_type,
        border,
        current_border_width,
        layout,
        orientation,
        percent,
        rect,
        window_rect,
        deco_rect,
        geometry,
        urgent,
        sticky,
        marks,
        focused,
        focus,
        nodes,
        floating_nodes,
        representation,
        fullscreen_mode,
        app_id,
        pid,
        visible,
        shell,
        inhibit_idle,
        idle_inhibitors,
        window,
    };
    proof {
        assert(node.deep_view().nodes =~= node.nodes.deep_view());
        assert(node.deep_view().floating_nodes =~= node.floating_nodes.deep_view());
    }
    Ok(node)
}

/// A copy of a list of strings.
fn clone_strings(names: &Vec<String>) -> (r: Vec<String>)
    ensures
        r.deep_view() == names.deep_view(),
{
    let mut out: Vec<String> = Vec::new();
    let mut i: usize = 0;
    while i < names.len()
        invariant
            i <= names.len(),
            out@.len() == i,
            forall|k: int| 0 <= k < i ==> out@[k]@ == names@[k]@,
        decreases names.len() - i,
    {
        out.push(names[i].clone());
        i += 1;
    }
    out
}

/// A copy of a node with all that is below it.
impl Clone for SwayNode {
    fn clone(&self) -> (r: SwayNode)
        ensures
            r.deep_view() == self.deep_view(),
        decreases self,
    {
        let mut nodes: Vec<SwayNode> = Vec::new();
        let mut i: usize = 0;
        while i < self.nodes.len()
            invariant
                i <= self.nodes.len(),
                nodes@.len() == i,
                forall|k: int| 0 <= k < i ==> nodes@[k].deep_view() == self.nodes@[k].deep_view(),
            decreases self.nodes.len() - i,
        {
            nodes.push(self.nodes[i].clone());
            i += 1;
        }
        let mut floating_nodes: Vec<SwayNode> = Vec::new();
        let mut i: usize = 0;
        while i < self.floating_nodes.len()
            invariant
                i <= self.floating_nodes.len(),
                floating_nodes@.len() == i,
                forall|k: int|
                    0 <= k < i ==> floating_nodes@[k].deep_view()
                        == self.floating_nodes@[k].deep_view(),
            decreases self.floating_nodes.len() - i,
        {
            floating_nodes.push(self.floating_nodes[i].clone());
            i += 1;
        }
        let mut focus: Vec<u64> = Vec::new();
        let mut i: usize = 0;
        while i < self.focus.len()
            invariant
                i <= self.focus.len(),
                focus@ == self.focus@.take(i as int),
            decreases self.focus.len() - i,
        {
            focus.push(self.focus[i]);
            i += 1;
        }
        assert(self.focus@.take(self.focus@.len() as int) =~= self.focus@);
        let r = SwayNode {
            id: self.id,
            name: self.name.clone(),
            node_type: self.node_type,
            border: self.border,
            current_border_width: self.current_border_width,
            layout: self.layout,
            orientation: self.orientation,
            percent: self.percent,
            rect: self.rect,
            window_rect: self.window_rect,
            deco_rect: self.deco_rect,
            geometry: self.geometry,
            urgent: self.urgent,
            sticky: self.sticky,
            marks: match &self.marks {
                Some(marks) => Some(clone_strings(marks)),
                None => None,
            },
            focused: self.focused,
            focus,
            nodes,
            floating_nodes,
            representation: match &self.representation {
                Some(s) => Some(s.clone()),
                None => None,
            },
            fullscreen_mode: self.fullscreen_mode,
            app_id: match &self.app_id {
                Some(s) => Some(s.clone()),
                None => None,
            },
            pid: self.pid,
            visible: self.visible,
            shell: match &self.shell {
                Some(s) => Some(s.clone()),
                None => None,
            },
            inhibit_idle: self.inhibit_idle,
            idle_inhibitors: self.idle_inhibitors,
            window: self.window,
        };
        proof {
            assert(r.deep_view().nodes =~= self.deep_view().nodes);
            assert(r.deep_view().floating_nodes =~= self.deep_view().floating_nodes);
        }
        r
    }
}

impl FromJson for SwayNode {
    open spec fn decoded(j: JsonValue) -> Result<SwayNodeView, ShapeError> {
        node_decoded(j)
    }

    fn from_json(j: &Json) -> (r: Result<SwayNode, ShapeError>) {
        decode_node(j)
    }
}

/// The elements of the array that is the member `key` of `j`; none where
/// `j` has no such array.
pub open spec fn elements(j: JsonValue, key: Seq<char>) -> Seq<JsonValue> {
    match j.field(key) {
        Some(JsonValue::Array(items)) => items,
        _ => Seq::empty(),
    }
}

/// The depth of the deepest of a list of trees; zero for no tree.
pub open spec fn deepest(nodes: Seq<SwayNodeView>) -> nat
    decreases nodes, 0int,
{
    if nodes.len() == 0 {
        0
    } else {
        let before = deepest(nodes.drop_last());
        let last = node_depth(nodes.last());
        if last > before {
            last
        } else {
            before
        }
    }
}

/// The depth of a tree: one for a node without children.
pub open spec fn node_depth(n: SwayNodeView) -> nat
    decreases n, 1int,
{
    let tiled = deepest(n.nodes);
    let floating = deepest(n.floating_nodes);
    if tiled > floating {
        1 + tiled
    } else {
        1 + floating
    }
}

/// The nesting of the deepest of a list of documents; zero for no document.
pub open spec fn deepest_nesting(items: Seq<JsonValue>) -> nat
    decreases items, 0int,
{
    if items.len() == 0 {
        0
    } else {
        let before = deepest_nesting(items.drop_last());
        let last = nesting_depth(items.last());
        if last > before {
            last
        } else {
            before
        }
    }
}

/// How deep the `nodes` and `floating_nodes` arrays of a document nest: one
/// for a document in which both are empty or missing.
pub open spec fn nesting_depth(j: JsonValue) -> nat
    decreases j, 1int,
{
    proof {
        lemma_field_decreases(j, "nodes"@);
        lemma_field_decreases(j, "floating_nodes"@);
    }
    let tiled = match j.field("nodes"@) {
        Some(JsonValue::Array(items)) => {
            proof {
                assert(decreases_to!(j.field("nodes"@).unwrap() => j.field(
                    "nodes"@,
                ).unwrap()->Array_0));
            }
            deepest_nesting(items)
        },
        _ => 0,
    };
    let floating = match j.field("floating_nodes"@) {
        Some(JsonValue::Array(items)) => {
            proof {
                assert(decreases_to!(j.field("floating_nodes"@).unwrap() => j.field(
                    "floating_nodes"@,
                ).unwrap()->Array_0));
            }
            deepest_nesting(items)
        },
        _ => 0,
    };
    if tiled > floating {
        1 + tiled
    } else {
        1 + floating
    }
}

/// Lists of trees and of documents that agree in depth place by place agree
/// in the depth of their deepest.
proof fn lemma_deepest_agrees(nodes: Seq<SwayNodeView>, items: Seq<JsonValue>)
    requires
        nodes.len() == items.len(),
        forall|i: int|
            0 <= i < nodes.len() ==> node_depth(#[trigger] nodes[i]) == nesting_depth(items[i]),
    ensures
        deepest(nodes) == deepest_nesting(items),
    decreases nodes.len(),
{
    if nodes.len() > 0 {
        assert forall|i: int| 0 <= i < nodes.drop_last().len() implies node_depth(
            #[trigger] nodes.drop_last()[i],
        ) == nesting_depth(items.drop_last()[i]) by {
            assert(nodes.drop_last()[i] == nodes[i]);
        }
        lemma_deepest_agrees(nodes.drop_last(), items.drop_last());
    }
}

/// A list of nodes decodes exactly when each element does, and then place
/// by place.
pub proof fn lemma_nodes_decoded(items: Seq<JsonValue>)
    ensures
        nodes_decoded(items) is Ok <==> forall|i: int|
            0 <= i < items.len() ==> node_decoded(#[trigger] items[i]) is Ok,
        nodes_decoded(items) matches Ok(nodes) ==> nodes.len() == items.len() && forall|i: int|
            0 <= i < items.len() ==> node_decoded(#[trigger] items[i]) == Ok::<
                SwayNodeView,
                ShapeError,
            >(nodes[i]),
    decreases items.len(),
{
    if items.len() > 0 {
        let head = items.drop_last();
        lemma_nodes_decoded(head);
        assert(forall|i: int| 0 <= i < head.len() ==> head[i] == items[i]);
        if nodes_decoded(head) is Err {
            let bad = choose|i: int|
                0 <= i < head.len() && !(node_decoded(#[trigger] head[i]) is Ok);
            assert(head[bad] == items[bad]);
        }
    }
}

/// The children that decode from the array `key` of `j` are as many as the
/// elements of the array, and each is what its element decodes to.
pub proof fn lemma_children_shape(j: JsonValue, key: Seq<char>)
    requires
        children_decoded(j, key) is Ok,
    ensures
        j.field(key) is Some,
        j.field(key).unwrap() is Array,
        children_decoded(j, key).unwrap().len() == elements(j, key).len(),
        forall|i: int|
            0 <= i < elements(j, key).len() ==> node_decoded(#[trigger] elements(j, key)[i])
                == Ok::<SwayNodeView, ShapeError>(children_decoded(j, key).unwrap()[i]),
{
    lemma_nodes_decoded(elements(j, key));
}

/// A decoded tree has the shape of the document: under every node as many
/// children as the `nodes` and `floating_nodes` arrays have elements, each
/// child decoded from its element, and so the same depth; and `focus` holds
/// the numbers of the `focus` array as they stand.
pub proof fn lemma_tree_shape(j: JsonValue)
    requires
        node_decoded(j) is Ok,
    ensures
        ({
            let n = node_decoded(j).unwrap();
            &&& n.nodes.len() == elements(j, "nodes"@).len()
            &&& forall|i: int|
                0 <= i < n.nodes.len() ==> node_decoded(#[trigger] elements(j, "nodes"@)[i])
                    == Ok::<SwayNodeView, ShapeError>(n.nodes[i])
            &&& n.floating_nodes.len() == elements(j, "floating_nodes"@).len()
            &&& forall|i: int|
                0 <= i < n.floating_nodes.len() ==> node_decoded(
                    #[trigger] elements(j, "floating_nodes"@)[i],
                ) == Ok::<SwayNodeView, ShapeError>(n.floating_nodes[i])
            &&& n.focus.len() == elements(j, "focus"@).len()
            &&& forall|i: int|
                0 <= i < n.focus.len() ==> (#[trigger] elements(j, "focus"@)[i]).as_u64() == Some(
                    n.focus[i],
                )
            &&& node_depth(n) == nesting_depth(j)
        }),
    decreases j,
{
    let n = node_decoded(j).unwrap();
    lemma_children_shape(j, "nodes"@);
    lemma_children_shape(j, "floating_nodes"@);
    lemma_elements_decrease(j, "nodes"@);
    lemma_elements_decrease(j, "floating_nodes"@);
    let tiled = elements(j, "nodes"@);
    let floating = elements(j, "floating_nodes"@);
    assert forall|i: int| 0 <= i < n.nodes.len() implies node_depth(#[trigger] n.nodes[i])
        == nesting_depth(tiled[i]) by {
        lemma_tree_shape(tiled[i]);
    }
    assert forall|i: int| 0 <= i < n.floating_nodes.len() implies node_depth(
        #[trigger] n.floating_nodes[i],
    ) == nesting_depth(floating[i]) by {
        lemma_tree_shape(floating[i]);
    }
    lemma_deepest_agrees(n.nodes, tiled);
    lemma_deepest_agrees(n.floating_nodes, floating);
    reveal(required_list);
    lemma_each::<u64>(elements(j, "focus"@));
}

} // verus!
