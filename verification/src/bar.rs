//! The configuration of a bar.

use crate::decode::{
    failed, known, lemma_each, list, list_from_json, req, required, FromJson,
};
use crate::error::{DecodeCause, IpcError, ShapeError};
use crate::json::{json_document, parse, Json, JsonValue};
use crate::registry::RequestKind;
use crate::scalar::{req_sentinel, required_sentinel, BarConfigColor, NonZeroU64};
use crate::text::{result_view, str_eq};
use vstd::prelude::*;

verus! {

/// The edge of the output that a bar is on.
#[derive(Clone, Copy, Debug, PartialEq, Eq, Hash, Structural)]
pub enum SwayBarPosition {
    Bottom,
    Top,
}

impl DeepView for SwayBarPosition {
    type V = SwayBarPosition;

    open spec fn deep_view(&self) -> SwayBarPosition {
        *self
    }
}

impl SwayBarPosition {
    /// The position that a name of the protocol stands for.
    pub open spec fn spec_from_name(name: Seq<char>) -> Option<SwayBarPosition> {
        if name == "bottom"@ {
            Some(SwayBarPosition::Bottom)
        } else if name == "top"@ {
            Some(SwayBarPosition::Top)
        } else {
            None
        }
    }

    pub fn from_name(name: &str) -> (r: Option<SwayBarPosition>)
        ensures
            r == SwayBarPosition::spec_from_name(name@),
    {
        if str_eq(name, "bottom") {
            Some(SwayBarPosition::Bottom)
        } else if str_eq(name, "top") {
            Some(SwayBarPosition::Top)
        } else {
            None
        }
    }
}

impl FromJson for SwayBarPosition {
    open spec fn decoded(j: JsonValue) -> Result<SwayBarPosition, ShapeError> {
        match j.as_str() {
            Some(name) => known(SwayBarPosition::spec_from_name(name)),
            None => Err(ShapeError::TypeMismatch),
        }
    }

    fn from_json(j: &Json) -> (r: Result<SwayBarPosition, ShapeError>) {
        match j.as_str() {
            Some(name) => match SwayBarPosition::from_name(name) {
                Some(v) => Ok(v),
                None => Err(ShapeError::UnknownVariant),
            },
            None => Err(ShapeError::TypeMismatch),
        }
    }
}

/// When a bar shows.
#[derive(Clone, Copy, Debug, PartialEq, Eq, Hash, Structural)]
pub enum SwayBarMode {
    Dock,
    Hide,
    Invisible,
}

impl DeepView for SwayBarMode {
    type V = SwayBarMode;

    open spec fn deep_view(&self) -> SwayBarMode {
        *self
    }
}

impl SwayBarMode {
    /// The mode that a name of the protocol stands for.
    pub open spec fn spec_from_name(name: Seq<char>) -> Option<SwayBarMode> {
        if name == "dock"@ {
            Some(SwayBarMode::Dock)
        } else if name == "hide"@ {
            Some(SwayBarMode::Hide)
        } else if name == "invisible"@ {
            Some(SwayBarMode::Invisible)
        } else {
            None
        }
    }

    pub fn from_name(name: &str) -> (r: Option<SwayBarMode>)
        ensures
            r == SwayBarMode::spec_from_name(name@),
    {
        if str_eq(name, "dock") {
            Some(SwayBarMode::Dock)
        } else if str_eq(name, "hide") {
            Some(SwayBarMode::Hide)
        } else if str_eq(name, "invisible") {
            Some(SwayBarMode::Invisible)
        } else {
            None
        }
    }
}

impl FromJson for SwayBarMode {
    open spec fn decoded(j: JsonValue) -> Result<SwayBarMode, ShapeError> {
        match j.as_str() {
            Some(name) => known(SwayBarMode::spec_from_name(name)),
            None => Err(ShapeError::TypeMismatch),
        }
    }

    fn from_json(j: &Json) -> (r: Result<SwayBarMode, ShapeError>) {
        match j.as_str() {
            Some(name) => match SwayBarMode::from_name(name) {
                Some(v) => Ok(v),
                None => Err(ShapeError::UnknownVariant),
            },
            None => Err(ShapeError::TypeMismatch),
        }
    }
}

/// The gaps around a bar, in pixels.
#[derive(Clone, Copy, Debug, PartialEq, Eq, Hash, Structural)]
pub struct Gaps {
    pub top: u64,
    pub right: u64,
    pub bottom: u64,
    pub left: u64,
}

impl DeepView for Gaps {
    type V = Gaps;

    open spec fn deep_view(&self) -> Gaps {
        *self
    }
}

impl FromJson for Gaps {
    open spec fn decoded(j: JsonValue) -> Result<Gaps, ShapeError> {
        let top = required::<u64>(j, "top"@);
        let right = required::<u64>(j, "right"@);
        let bottom = required::<u64>(j, "bottom"@);
        let left = required::<u64>(j, "left"@);
        if !(j is Object) {
            Err(ShapeError::TypeMismatch)
        } else if top is Err {
            failed(top)
        } else if right is Err {
            failed(right)
        } else if bottom is Err {
            failed(bottom)
        } else if left is Err {
            failed(left)
        } else {
            Ok(
                Gaps {
                    top: top.unwrap(),
                    right: right.unwrap(),
                    bottom: bottom.unwrap(),
                    left: left.unwrap(),
                },
            )
        }
    }

    fn from_json(j: &Json) -> (r: Result<Gaps, ShapeError>) {
        if !j.is_object() {
            return Err(ShapeError::TypeMismatch);
        }
        let top = req::<u64>(j, "top")?;
        let right = req::<u64>(j, "right")?;
        let bottom = req::<u64>(j, "bottom")?;
        let left = req::<u64>(j, "left")?;
        Ok(Gaps { top, right, bottom, left })
    }
}

/// The colors of a bar, each written as `#RRGGBBAA`.
#[derive(Clone, Copy, Debug, PartialEq, Eq, Hash, Structural)]
pub struct BarConfigColors {
    pub background: BarConfigColor,
    pub statusline: BarConfigColor,
    pub separator: BarConfigColor,
    pub focused_background: BarConfigColor,
    pub focused_statusline: BarConfigColor,
    pub focused_separator: BarConfigColor,
    pub focused_workspace_text: BarConfigColor,
    pub focused_workspace_bg: BarConfigColor,
    pub focused_workspace_border: BarConfigColor,
    pub active_workspace_text: BarConfigColor,
    pub active_workspace_bg: BarConfigColor,
    pub active_workspace_border: BarConfigColor,
    pub inactive_workspace_text: BarConfigColor,
    pub inactive_workspace_bg: BarConfigColor,
    pub inactive_workspace_border: BarConfigColor,
    pub urgent_workspace_text: BarConfigColor,
    pub urgent_workspace_bg: BarConfigColor,
    pub urgent_workspace_border: BarConfigColor,
    pub binding_mode_text: BarConfigColor,
    pub binding_mode_bg: BarConfigColor,
    pub binding_mode_border: BarConfigColor,
}

impl DeepView for BarConfigColors {
    type V = BarConfigColors;

    open spec fn deep_view(&self) -> BarConfigColors {
        *self
    }
}

impl FromJson for BarConfigColors {
    open spec fn decoded(j: JsonValue) -> Result<BarConfigColors, ShapeError> {
        let background = required::<BarConfigColor>(j, "background"@);
        let statusline = required::<BarConfigColor>(j, "statusline"@);
        let separator = required::<BarConfigColor>(j, "separator"@);
        let focused_background = required::<BarConfigColor>(j, "focused_background"@);
        let focused_statusline = required::<BarConfigColor>(j, "focused_statusline"@);
        let focused_separator = required::<BarConfigColor>(j, "focused_separator"@);
        let focused_workspace_text = required::<BarConfigColor>(j, "focused_workspace_text"@);
        let focused_workspace_bg = required::<BarConfigColor>(j, "focused_workspace_bg"@);
        let focused_workspace_border = required::<BarConfigColor>(j, "focused_workspace_border"@);
        let active_workspace_text = required::<BarConfigColor>(j, "active_workspace_text"@);
        let active_workspace_bg = required::<BarConfigColor>(j, "active_workspace_bg"@);
        let active_workspace_border = required::<BarConfigColor>(j, "active_workspace_border"@);
        let inactive_workspace_text = required::<BarConfigColor>(j, "inactive_workspace_text"@);
        let inactive_workspace_bg = required::<BarConfigColor>(j, "inactive_workspace_bg"@);
        let inactive_workspace_border = required::<BarConfigColor>(j, "inactive_workspace_border"@);
        let urgent_workspace_text = required::<BarConfigColor>(j, "urgent_workspace_text"@);
        let urgent_workspace_bg = required::<BarConfigColor>(j, "urgent_workspace_bg"@);
        let urgent_workspace_border = required::<BarConfigColor>(j, "urgent_workspace_border"@);
        let binding_mode_text = required::<BarConfigColor>(j, "binding_mode_text"@);
        let binding_mode_bg = required::<BarConfigColor>(j, "binding_mode_bg"@);
        let binding_mode_border = required::<BarConfigColor>(j, "binding_mode_border"@);
        if !(j is Object) {
            Err(ShapeError::TypeMismatch)
        } else if background is Err {
            failed(background)
        } else if statusline is Err {
            failed(statusline)
        } else if separator is Err {
            failed(separator)
        } else if focused_background is Err {
            failed(focused_background)
        } else if focused_statusline is Err {
            failed(focused_statusline)
        } else if focused_separator is Err {
            failed(focused_separator)
        } else if focused_workspace_text is Err {
            failed(focused_workspace_text)
        } else if focused_workspace_bg is Err {
            failed(focused_workspace_bg)
        } else if focused_workspace_border is Err {
            failed(focused_workspace_border)
        } else if active_workspace_text is Err {
            failed(active_workspace_text)
        } else if active_workspace_bg is Err {
            failed(active_workspace_bg)
        } else if active_workspace_border is Err {
            failed(active_workspace_border)
        } else if inactive_workspace_text is Err {
            failed(inactive_workspace_text)
        } else if inactive_workspace_bg is Err {
            failed(inactive_workspace_bg)
        } else if inactive_workspace_border is Err {
            failed(inactive_workspace_border)
        } else if urgent_workspace_text is Err {
            failed(urgent_workspace_text)
        } else if urgent_workspace_bg is Err {
            failed(urgent_workspace_bg)
        } else if urgent_workspace_border is Err {
            failed(urgent_workspace_border)
        } else if binding_mode_text is Err {
            failed(binding_mode_text)
        } else if binding_mode_bg is Err {
            failed(binding_mode_bg)
        } else if binding_mode_border is Err {
            failed(binding_mode_border)
        } else {
            Ok(
                BarConfigColors {
                    background: background.unwrap(),
                    statusline: statusline.unwrap(),
                    separator: separator.unwrap(),
                    focused_background: focused_background.unwrap(),
                    focused_statusline: focused_statusline.unwrap(),
                    focused_separator: focused_separator.unwrap(),
                    focused_workspace_text: focused_workspace_text.unwrap(),
                    focused_workspace_bg: focused_workspace_bg.unwrap(),
                    focused_workspace_border: focused_workspace_border.unwrap(),
                    active_workspace_text: active_workspace_text.unwrap(),
                    active_workspace_bg: active_workspace_bg.unwrap(),
                    active_workspace_border: active_workspace_border.unwrap(),
                    inactive_workspace_text: inactive_workspace_text.unwrap(),
                    inactive_workspace_bg: inactive_workspace_bg.unwrap(),
                    inactive_workspace_border: inactive_workspace_border.unwrap(),
                    urgent_workspace_text: urgent_workspace_text.unwrap(),
                    urgent_workspace_bg: urgent_workspace_bg.unwrap(),
                    urgent_workspace_border: urgent_workspace_border.unwrap(),
                    binding_mode_text: binding_mode_text.unwrap(),
                    binding_mode_bg: binding_mode_bg.unwrap(),
                    binding_mode_border: binding_mode_border.unwrap(),
                },
            )
        }
    }

    fn from_json(j: &Json) -> (r: Result<BarConfigColors, ShapeError>) {
        if !j.is_object() {
            return Err(ShapeError::TypeMismatch);
        }
        let background = req::<BarConfigColor>(j, "background")?;
        let statusline = req::<BarConfigColor>(j, "statusline")?;
        let separator = req::<BarConfigColor>(j, "separator")?;
        let focused_background = req::<BarConfigColor>(j, "focused_background")?;
        let focused_statusline = req::<BarConfigColor>(j, "focused_statusline")?;
        let focused_separator = req::<BarConfigColor>(j, "focused_separator")?;
        let focused_workspace_text = req::<BarConfigColor>(j, "focused_workspace_text")?;
        let focused_workspace_bg = req::<BarConfigColor>(j, "focused_workspace_bg")?;
        let focused_workspace_border = req::<BarConfigColor>(j, "focused_workspace_border")?;
        let active_workspace_text = req::<BarConfigColor>(j, "active_workspace_text")?;
        let active_workspace_bg = req::<BarConfigColor>(j, "active_workspace_bg")?;
        let active_workspace_border = req::<BarConfigColor>(j, "active_workspace_border")?;
        let inactive_workspace_text = req::<BarConfigColor>(j, "inactive_workspace_text")?;
        let inactive_workspace_bg = req::<BarConfigColor>(j, "inactive_workspace_bg")?;
        let inactive_workspace_border = req::<BarConfigColor>(j, "inactive_workspace_border")?;
        let urgent_workspace_text = req::<BarConfigColor>(j, "urgent_workspace_text")?;
        let urgent_workspace_bg = req::<BarConfigColor>(j, "urgent_workspace_bg")?;
        let urgent_workspace_border = req::<BarConfigColor>(j, "urgent_workspace_border")?;
        let binding_mode_text = req::<BarConfigColor>(j, "binding_mode_text")?;
        let binding_mode_bg = req::<BarConfigColor>(j, "binding_mode_bg")?;
        let binding_mode_border = req::<BarConfigColor>(j, "binding_mode_border")?;
        Ok(
            BarConfigColors {
                background,
                statusline,
                separator,
                focused_background,
                focused_statusline,
                focused_separator,
                focused_workspace_text,
                focused_workspace_bg,
                focused_workspace_border,
                active_workspace_text,
                active_workspace_bg,
                active_workspace_border,
                inactive_workspace_text,
                inactive_workspace_bg,
                inactive_workspace_border,
                urgent_workspace_text,
                urgent_workspace_bg,
                urgent_workspace_border,
                binding_mode_text,
                binding_mode_bg,
                binding_mode_border,
            },
        )
    }
}

/// The reply to a request for bar configuration: the identifiers of all
/// bars where the request named none, the configuration of one bar where it
/// named that bar.
#[derive(Clone, Debug, PartialEq)]
pub enum GetBarConfigResult {
    IDs(Vec<String>),
    Config {
        id: String,
        mode: SwayBarMode,
        position: SwayBarPosition,
        status_command: String,
        font: String,
        workspace_buttons: bool,
        workspace_min_width: u64,
        binding_mode_indicator: bool,
        /// Kept for compatibility; always `false`.
        verbose: bool,
        colors: BarConfigColors,
        gaps: Gaps,
        /// The height of the bar; on the wire, zero where the height follows the font.
        bar_height: Option<NonZeroU64>,
        status_padding: u64,
        status_edge_padding: u64,
    },
}

/// The mathematical model of [`GetBarConfigResult`].
pub enum GetBarConfigResultView {
    IDs(Seq<Seq<char>>),
    Config {
        id: Seq<char>,
        mode: SwayBarMode,
        position: SwayBarPosition,
        status_command: Seq<char>,
        font: Seq<char>,
        workspace_buttons: bool,
        workspace_min_width: u64,
        binding_mode_indicator: bool,
        verbose: bool,
        colors: BarConfigColors,
        gaps: Gaps,
        bar_height: Option<NonZeroU64>,
        status_padding: u64,
        status_edge_padding: u64,
    },
}

impl DeepView for GetBarConfigResult {
    type V = GetBarConfigResultView;

    open spec fn deep_view(&self) -> GetBarConfigResultView {
        match self {
            GetBarConfigResult::IDs(ids) => GetBarConfigResultView::IDs(ids.deep_view()),
            GetBarConfigResult::Config {
                id,
                mode,
                position,
                status_command,
                font,
                workspace_buttons,
                workspace_min_width,
                binding_mode_indicator,
                verbose,
                colors,
                gaps,
                bar_height,
                status_padding,
                status_edge_padding,
            } => GetBarConfigResultView::Config {
                id: id.deep_view(),
                mode: *mode,
                position: *position,
                status_command: status_command.deep_view(),
                font: font.deep_view(),
                workspace_buttons: *workspace_buttons,
                workspace_min_width: *workspace_min_width,
                binding_mode_indicator: *binding_mode_indicator,
                verbose: *verbose,
                colors: *colors,
                gaps: *gaps,
                bar_height: *bar_height,
                status_padding: *status_padding,
                status_edge_padding: *status_edge_padding,
            },
        }
    }
}

impl GetBarConfigResult {
    /// The list of identifiers that a document decodes to: an array of
    /// strings.
    pub open spec fn ids_decoded(j: JsonValue) -> Result<GetBarConfigResultView, ShapeError> {
        match list::<String>(j) {
            Ok(ids) => Ok(GetBarConfigResultView::IDs(ids)),
            Err(e) => Err(e),
        }
    }

    /// The configuration that a document decodes to.
    pub open spec fn config_decoded(j: JsonValue) -> Result<GetBarConfigResultView, ShapeError> {
        let id = required::<String>(j, "id"@);
        let mode = required::<SwayBarMode>(j, "mode"@);
        let position = required::<SwayBarPosition>(j, "position"@);
        let status_command = required::<String>(j, "status_command"@);
        let font = required::<String>(j, "font"@);
        let workspace_buttons = required::<bool>(j, "workspace_buttons"@);
        let workspace_min_width = required::<u64>(j, "workspace_min_width"@);
        let binding_mode_indicator = required::<bool>(j, "binding_mode_indicator"@);
        let verbose = required::<bool>(j, "verbose"@);
        let colors = required::<BarConfigColors>(j, "colors"@);
        let gaps = required::<Gaps>(j, "gaps"@);
        let bar_height = required_sentinel(j, "bar_height"@);
        let status_padding = required::<u64>(j, "status_padding"@);
        let status_edge_padding = required::<u64>(j, "status_edge_padding"@);
        if !(j is Object) {
            Err(ShapeError::TypeMismatch)
        } else if id is Err {
            failed(id)
        } else if mode is Err {
            failed(mode)
        } else if position is Err {
            failed(position)
        } else if status_command is Err {
            failed(status_command)
        } else if font is Err {
            failed(font)
        } else if workspace_buttons is Err {
            failed(workspace_buttons)
        } else if workspace_min_width is Err {
            failed(workspace_min_width)
        } else if binding_mode_indicator is Err {
            failed(binding_mode_indicator)
        } else if verbose is Err {
            failed(verbose)
        } else if colors is Err {
            failed(colors)
        } else if gaps is Err {
            failed(gaps)
        } else if bar_height is Err {
            failed(bar_height)
        } else if status_padding is Err {
            failed(status_padding)
        } else if status_edge_padding is Err {
            failed(status_edge_padding)
        } else {
            Ok(
                GetBarConfigResultView::Config {
                    id: id.unwrap(),
                    mode: mode.unwrap(),
                    position: position.unwrap(),
                    status_command: status_command.unwrap(),
                    font: font.unwrap(),
                    workspace_buttons: workspace_buttons.unwrap(),
                    workspace_min_width: workspace_min_width.unwrap(),
                    binding_mode_indicator: binding_mode_indicator.unwrap(),
                    verbose: verbose.unwrap(),
                    colors: colors.unwrap(),
                    gaps: gaps.unwrap(),
                    bar_height: bar_height.unwrap(),
                    status_padding: status_padding.unwrap(),
                    status_edge_padding: status_edge_padding.unwrap(),
                },
            )
        }
    }

    /// The two shapes do not meet: an array is no configuration and an
    /// object is no list, so a document has at most one of them and the
    /// order in which they are tried decides nothing.
    pub proof fn lemma_shapes_apart(j: JsonValue)
        ensures
            !(GetBarConfigResult::ids_decoded(j) is Ok && GetBarConfigResult::config_decoded(j)
                is Ok),
            GetBarConfigResult::ids_decoded(j) is Ok ==> j is Array,
            GetBarConfigResult::config_decoded(j) is Ok ==> j is Object,
            GetBarConfigResult::ids_decoded(j) matches Ok(v) ==> v is IDs,
            GetBarConfigResult::config_decoded(j) matches Ok(v) ==> v is Config,
    {
    }

    /// An array of strings is a list of identifiers: the strings, in their
    /// order.
    pub proof fn lemma_identifier_list(items: Seq<JsonValue>)
        requires
            forall|i: int| 0 <= i < items.len() ==> (#[trigger] items[i]) is String,
        ensures
            GetBarConfigResult::ids_decoded(JsonValue::Array(items)) matches Ok(
                GetBarConfigResultView::IDs(ids),
            ) && ids.len() == items.len() && forall|i: int|
                0 <= i < items.len() ==> ids[i] == (#[trigger] items[i])->String_0,
    {
        lemma_each::<String>(items);
    }

    /// Decodes the reply to a request that named no bar.
    pub fn decode_ids(j: &Json) -> (r: Result<GetBarConfigResult, ShapeError>)
        ensures
            result_view(r) == GetBarConfigResult::ids_decoded(j@),
    {
        match list_from_json::<String>(j) {
            Ok(ids) => Ok(GetBarConfigResult::IDs(ids)),
            Err(e) => Err(e),
        }
    }

    /// Decodes the reply to a request that named a bar.
    pub fn decode_config(j: &Json) -> (r: Result<GetBarConfigResult, ShapeError>)
        ensures
            result_view(r) == GetBarConfigResult::config_decoded(j@),
    {
        if !j.is_object() {
            return Err(ShapeError::TypeMismatch);
        }
        let id = req::<String>(j, "id")?;
        let mode = req::<SwayBarMode>(j, "mode")?;
        let position = req::<SwayBarPosition>(j, "position")?;
        let status_command = req::<String>(j, "status_command")?;
        let font = req::<String>(j, "font")?;
        let workspace_buttons = req::<bool>(j, "workspace_buttons")?;
        let workspace_min_width = req::<u64>(j, "workspace_min_width")?;
        let binding_mode_indicator = req::<bool>(j, "binding_mode_indicator")?;
        let verbose = req::<bool>(j, "verbose")?;
        let colors = req::<BarConfigColors>(j, "colors")?;
        let gaps = req::<Gaps>(j, "gaps")?;
        let bar_height = req_sentinel(j, "bar_height")?;
        let status_padding = req::<u64>(j, "status_padding")?;
        let status_edge_padding = req::<u64>(j, "status_edge_padding")?;
        Ok(
            GetBarConfigResult::Config {
                id,
                mode,
                position,
                status_command,
                font,
                workspace_buttons,
                workspace_min_width,
                binding_mode_indicator,
                verbose,
                colors,
                gaps,
                bar_height,
                status_padding,
                status_edge_padding,
            },
        )
    }
}

/// What a request for bar configuration asked for.
#[derive(Clone, Copy, Debug, PartialEq, Eq, Hash, Structural)]
pub enum BarConfigQuery {
    /// The request had no payload: it asked for the identifiers of all bars.
    Identifiers,
    /// The request named a bar: it asked for the configuration of that bar.
    Configuration,
}

/// What a payload resolves to as the reply to a request for bar
/// configuration, where what was asked is known: the one shape that answers
/// it, and no other.
pub open spec fn spec_resolve_bar_config(asked: BarConfigQuery, document: Option<JsonValue>) -> Result<
    GetBarConfigResultView,
    IpcError,
> {
    match document {
        None => Err(
            IpcError::MalformedReply {
                request_kind: RequestKind::GetBarConfig,
                cause: DecodeCause::InvalidJson,
            },
        ),
        Some(j) => {
            let decoded = match asked {
                BarConfigQuery::Identifiers => GetBarConfigResult::ids_decoded(j),
                BarConfigQuery::Configuration => GetBarConfigResult::config_decoded(j),
            };
            match decoded {
                Ok(reply) => Ok(reply),
                Err(e) => Err(
                    IpcError::MalformedReply {
                        request_kind: RequestKind::GetBarConfig,
                        cause: DecodeCause::Shape(e),
                    },
                ),
            }
        },
    }
}

/// Resolves the payload of the reply to a request for bar configuration by
/// what the request asked for.
pub fn resolve_bar_config(asked: BarConfigQuery, payload: &[u8]) -> (r: Result<
    GetBarConfigResult,
    IpcError,
>)
    ensures
        result_view(r) == spec_resolve_bar_config(asked, json_document(payload@)),
{
    let j = match parse(payload) {
        Some(j) => j,
        None => {
            return Err(
                IpcError::MalformedReply {
                    request_kind: RequestKind::GetBarConfig,
                    cause: DecodeCause::InvalidJson,
                },
            );
        },
    };
    let decoded = match asked {
        BarConfigQuery::Identifiers => GetBarConfigResult::decode_ids(&j),
        BarConfigQuery::Configuration => GetBarConfigResult::decode_config(&j),
    };
    match decoded {
        Ok(reply) => Ok(reply),
        Err(e) => Err(
            IpcError::MalformedReply {
                request_kind: RequestKind::GetBarConfig,
                cause: DecodeCause::Shape(e),
            },
        ),
    }
}

/// Without knowing what was asked, the reply is told by its shape: the list
/// of identifiers is tried first, then the configuration, and where neither
/// fits the cause is that of the configuration. A caller that knows what it
/// asked for can call `decode_ids` or `decode_config`.
impl FromJson for GetBarConfigResult {
    open spec fn decoded(j: JsonValue) -> Result<GetBarConfigResultView, ShapeError> {
        match GetBarConfigResult::ids_decoded(j) {
            Ok(ids) => Ok(ids),
            Err(_) => GetBarConfigResult::config_decoded(j),
        }
    }

    fn from_json(j: &Json) -> (r: Result<GetBarConfigResult, ShapeError>) {
        match GetBarConfigResult::decode_ids(j) {
            Ok(ids) => Ok(ids),
            Err(_) => GetBarConfigResult::decode_config(j),
        }
    }
}

} // verus!
