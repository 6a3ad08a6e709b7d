//! The replies, and the resolver that decodes a payload as the reply to the
//! request that was sent.

use crate::bar::{GetBarConfigResult, GetBarConfigResultView};
use crate::decode::{
    failed, list, list_from_json, only, only_at, opt, optional, req, required, string_set,
    string_set_from_json, FromJson,
};
use crate::error::{DecodeCause, IpcError, ShapeError};
use crate::inputs::{SwayInput, SwayInputView, SwaySeat, SwaySeatView};
use crate::json::{json_document, parse, Json, JsonValue};
use crate::outputs::{Output, OutputView, Workspace, WorkspaceView};
use crate::registry::RequestKind;
use crate::text::result_view;
use crate::tree::{SwayNode, SwayNodeView};
use vstd::prelude::*;

verus! {

/// How one command of a `RunCommand` request went.
#[derive(Clone, Debug, PartialEq, Eq)]
pub struct CommandResult {
    pub success: bool,
    /// Whether the command failed because it could not be parsed; absent where the
    /// reply does not say.
    pub parse_error: Option<bool>,
    /// The message of the failure; absent where the reply gives none.
    pub error: Option<String>,
}

/// The mathematical model of [`CommandResult`].
pub struct CommandResultView {
    pub success: bool,
    pub parse_error: Option<bool>,
    pub error: Option<Seq<char>>,
}

impl DeepView for CommandResult {
    type V = CommandResultView;

    open spec fn deep_view(&self) -> CommandResultView {
        CommandResultView {
            success: self.success,
            parse_error: self.parse_error,
            error: self.error.deep_view(),
        }
    }
}

impl FromJson for CommandResult {
    open spec fn decoded(j: JsonValue) -> Result<CommandResultView, ShapeError> {
        let success = required::<bool>(j, "success"@);
        let parse_error = optional::<bool>(j, "parse_error"@);
        let error = optional::<String>(j, "error"@);
        if !(j is Object) {
            Err(ShapeError::TypeMismatch)
        } else if success is Err {
            failed(success)
        } else if parse_error is Err {
            failed(parse_error)
        } else if error is Err {
            failed(error)
        } else {
            Ok(
                CommandResultView {
                    success: success.unwrap(),
                    parse_error: parse_error.unwrap(),
                    error: error.unwrap(),
                },
            )
        }
    }

    fn from_json(j: &Json) -> (r: Result<CommandResult, ShapeError>) {
        if !j.is_object() {
            return Err(ShapeError::TypeMismatch);
        }
        let success = req::<bool>(j, "success")?;
        let parse_error = opt::<bool>(j, "parse_error")?;
        let error = opt::<String>(j, "error")?;
        Ok(CommandResult { success, parse_error, error })
    }
}

/// The version of the window manager.
#[derive(Clone, Debug, PartialEq, Eq)]
pub struct SwayVersionInfo {
    pub major: u64,
    pub minor: u64,
    pub patch: u64,
    pub human_readable: String,
    pub loaded_config_file_name: String,
}

/// The mathematical model of [`SwayVersionInfo`].
pub struct SwayVersionInfoView {
    pub major: u64,
    pub minor: u64,
    pub patch: u64,
    pub human_readable: Seq<char>,
    pub loaded_config_file_name: Seq<char>,
}

impl DeepView for SwayVersionInfo {
    type V = SwayVersionInfoView;

    open spec fn deep_view(&self) -> SwayVersionInfoView {
        SwayVersionInfoView {
            major: self.major,
            minor: self.minor,
            patch: self.patch,
            human_readable: self.human_readable.deep_view(),
            loaded_config_file_name: self.loaded_config_file_name.deep_view(),
        }
    }
}

impl FromJson for SwayVersionInfo {
    open spec fn decoded(j: JsonValue) -> Result<SwayVersionInfoView, ShapeError> {
        let major = required::<u64>(j, "major"@);
        let minor = required::<u64>(j, "minor"@);
        let patch = required::<u64>(j, "patch"@);
        let human_readable = required::<String>(j, "human_readable"@);
        let loaded_config_file_name = required::<String>(j, "loaded_config_file_name"@);
        if !(j is Object) {
            Err(ShapeError::TypeMismatch)
        } else if major is Err {
            failed(major)
        } else if minor is Err {
            failed(minor)
        } else if patch is Err {
            failed(patch)
        } else if human_readable is Err {
            failed(human_readable)
        } else if loaded_config_file_name is Err {
            failed(loaded_config_file_name)
        } else {
            Ok(
                SwayVersionInfoView {
                    major: major.unwrap(),
                    minor: minor.unwrap(),
                    patch: patch.unwrap(),
                    human_readable: human_readable.unwrap(),
                    loaded_config_file_name: loaded_config_file_name.unwrap(),
                },
            )
        }
    }

    fn from_json(j: &Json) -> (r: Result<SwayVersionInfo, ShapeError>) {
        if !j.is_object() {
            return Err(ShapeError::TypeMismatch);
        }
        let major = req::<u64>(j, "major")?;
        let minor = req::<u64>(j, "minor")?;
        let patch = req::<u64>(j, "patch")?;
        let human_readable = req::<String>(j, "human_readable")?;
        let loaded_config_file_name = req::<String>(j, "loaded_config_file_name")?;
        Ok(
            SwayVersionInfo {
                major,
                minor,
                patch,
                human_readable,
                loaded_config_file_name,
            },
        )
    }
}

/// A reply, by the request that it answers.
#[derive(Clone, Debug, PartialEq)]
pub enum SwayMessageReply {
    /// One result for each command of the request.
    RunCommand(Vec<CommandResult>),
    /// The workspaces.
    GetWorkspaces(Vec<Workspace>),
    /// Whether the subscription was made.
    Subscribe { success: bool },
    /// The outputs.
    GetOutputs(Vec<Output>),
    /// The root of the tree of nodes.
    GetTree(SwayNode),
    /// The marks that are set, each once.
    GetMarks(Vec<String>),
    /// The identifiers of the bars, or the configuration of one bar.
    GetBarConfig(GetBarConfigResult),
    /// The version of the window manager.
    GetVersion(SwayVersionInfo),
    /// The binding modes that are configured.
    GetBindingModes(Vec<String>),
    /// The text of the configuration that was loaded last.
    GetConfig { config: String },
    /// Whether the tick was sent.
    SendTick { success: bool },
    /// Always a failure.
    Sync { success: bool },
    /// The binding mode that is active.
    GetBindingState { name: String },
    /// The input devices.
    GetInputs(Vec<SwayInput>),
    /// The seats.
    GetSeats(Vec<SwaySeat>),
}

/// The mathematical model of [`SwayMessageReply`].
pub enum SwayMessageReplyView {
    RunCommand(Seq<CommandResultView>),
    GetWorkspaces(Seq<WorkspaceView>),
    Subscribe { success: bool },
    GetOutputs(Seq<OutputView>),
    GetTree(SwayNodeView),
    GetMarks(Seq<Seq<char>>),
    GetBarConfig(GetBarConfigResultView),
    GetVersion(SwayVersionInfoView),
    GetBindingModes(Seq<Seq<char>>),
    GetConfig { config: Seq<char> },
    SendTick { success: bool },
    Sync { success: bool },
    GetBindingState { name: Seq<char> },
    GetInputs(Seq<SwayInputView>),
    GetSeats(Seq<SwaySeatView>),
}

impl DeepView for SwayMessageReply {
    type V = SwayMessageReplyView;

    open spec fn deep_view(&self) -> SwayMessageReplyView {
        match self {
            SwayMessageReply::RunCommand(v) => SwayMessageReplyView::RunCommand(v.deep_view()),
            SwayMessageReply::GetWorkspaces(v) => SwayMessageReplyView::GetWorkspaces(
                v.deep_view(),
            ),
            SwayMessageReply::Subscribe { success } => SwayMessageReplyView::Subscribe {
                success: success.deep_view(),
            },
            SwayMessageReply::GetOutputs(v) => SwayMessageReplyView::GetOutputs(v.deep_view()),
            SwayMessageReply::GetTree(v) => SwayMessageReplyView::GetTree(v.deep_view()),
            SwayMessageReply::GetMarks(v) => SwayMessageReplyView::GetMarks(v.deep_view()),
            SwayMessageReply::GetBarConfig(v) => SwayMessageReplyView::GetBarConfig(v.deep_view()),
            SwayMessageReply::GetVersion(v) => SwayMessageReplyView::GetVersion(v.deep_view()),
            SwayMessageReply::GetBindingModes(v) => SwayMessageReplyView::GetBindingModes(
                v.deep_view(),
            ),
            SwayMessageReply::GetConfig { config } => SwayMessageReplyView::GetConfig {
                config: config.deep_view(),
            },
            SwayMessageReply::SendTick { success } => SwayMessageReplyView::SendTick {
                success: success.deep_view(),
            },
            SwayMessageReply::Sync { success } => SwayMessageReplyView::Sync {
                success: success.deep_view(),
            },
            SwayMessageReply::GetBindingState { name } => SwayMessageReplyView::GetBindingState {
                name: name.deep_view(),
            },
            SwayMessageReply::GetInputs(v) => SwayMessageReplyView::GetInputs(v.deep_view()),
            SwayMessageReply::GetSeats(v) => SwayMessageReplyView::GetSeats(v.deep_view()),
        }
    }
}

impl SwayMessageReplyView {
    /// The request that the reply answers.
    pub open spec fn kind(self) -> RequestKind {
        match self {
            SwayMessageReplyView::RunCommand(_) => RequestKind::RunCommand,
            SwayMessageReplyView::GetWorkspaces(_) => RequestKind::GetWorkspaces,
            SwayMessageReplyView::Subscribe { .. } => RequestKind::Subscribe,
            SwayMessageReplyView::GetOutputs(_) => RequestKind::GetOutputs,
            SwayMessageReplyView::GetTree(_) => RequestKind::GetTree,
            SwayMessageReplyView::GetMarks(_) => RequestKind::GetMarks,
            SwayMessageReplyView::GetBarConfig(_) => RequestKind::GetBarConfig,
            SwayMessageReplyView::GetVersion(_) => RequestKind::GetVersion,
            SwayMessageReplyView::GetBindingModes(_) => RequestKind::GetBindingModes,
            SwayMessageReplyView::GetConfig { .. } => RequestKind::GetConfig,
            SwayMessageReplyView::SendTick { .. } => RequestKind::SendTick,
            SwayMessageReplyView::Sync { .. } => RequestKind::Sync,
            SwayMessageReplyView::GetBindingState { .. } => RequestKind::GetBindingState,
            SwayMessageReplyView::GetInputs(_) => RequestKind::GetInputs,
            SwayMessageReplyView::GetSeats(_) => RequestKind::GetSeats,
        }
    }
}

impl SwayMessageReply {
    /// The request that the reply answers.
    pub fn kind(&self) -> (k: RequestKind)
        ensures
            k == self.deep_view().kind(),
    {
        match self {
            SwayMessageReply::RunCommand(_) => RequestKind::RunCommand,
            SwayMessageReply::GetWorkspaces(_) => RequestKind::GetWorkspaces,
            SwayMessageReply::Subscribe { .. } => RequestKind::Subscribe,
            SwayMessageReply::GetOutputs(_) => RequestKind::GetOutputs,
            SwayMessageReply::GetTree(_) => RequestKind::GetTree,
            SwayMessageReply::GetMarks(_) => RequestKind::GetMarks,
            SwayMessageReply::GetBarConfig(_) => RequestKind::GetBarConfig,
            SwayMessageReply::GetVersion(_) => RequestKind::GetVersion,
            SwayMessageReply::GetBindingModes(_) => RequestKind::GetBindingModes,
            SwayMessageReply::GetConfig { .. } => RequestKind::GetConfig,
            SwayMessageReply::SendTick { .. } => RequestKind::SendTick,
            SwayMessageReply::Sync { .. } => RequestKind::Sync,
            SwayMessageReply::GetBindingState { .. } => RequestKind::GetBindingState,
            SwayMessageReply::GetInputs(_) => RequestKind::GetInputs,
            SwayMessageReply::GetSeats(_) => RequestKind::GetSeats,
        }
    }
}

/// The reply that a document decodes to, for the request that was sent.
///
/// Each kind of request has one shape of reply, but for `GetBarConfig`, whose
/// reply is a list of identifiers or a configuration: there the list is tried
/// first.
pub open spec fn reply_decoded(requested: RequestKind, j: JsonValue) -> Result<
    SwayMessageReplyView,
    ShapeError,
> {
    match requested {
        RequestKind::RunCommand => match list::<CommandResult>(j) {
            Ok(v) => Ok(SwayMessageReplyView::RunCommand(v)),
            Err(e) => Err(e),
        },
        RequestKind::GetWorkspaces => match list::<Workspace>(j) {
            Ok(v) => Ok(SwayMessageReplyView::GetWorkspaces(v)),
            Err(e) => Err(e),
        },
        RequestKind::Subscribe => match only::<bool>(j, "success"@) {
            Ok(success) => Ok(SwayMessageReplyView::Subscribe { success }),
            Err(e) => Err(e),
        },
        RequestKind::GetOutputs => match list::<Output>(j) {
            Ok(v) => Ok(SwayMessageReplyView::GetOutputs(v)),
            Err(e) => Err(e),
        },
        RequestKind::GetTree => match SwayNode::decoded(j) {
            Ok(v) => Ok(SwayMessageReplyView::GetTree(v)),
            Err(e) => Err(e),
        },
        RequestKind::GetMarks => match string_set(j) {
            Ok(v) => Ok(SwayMessageReplyView::GetMarks(v)),
            Err(e) => Err(e),
        },
        RequestKind::GetBarConfig => match GetBarConfigResult::decoded(j) {
            Ok(v) => Ok(SwayMessageReplyView::GetBarConfig(v)),
            Err(e) => Err(e),
        },
        RequestKind::GetVersion => match SwayVersionInfo::decoded(j) {
            Ok(v) => Ok(SwayMessageReplyView::GetVersion(v)),
            Err(e) => Err(e),
        },
        RequestKind::GetBindingModes => match list::<String>(j) {
            Ok(v) => Ok(SwayMessageReplyView::GetBindingModes(v)),
            Err(e) => Err(e),
        },
        RequestKind::GetConfig => match only::<String>(j, "config"@) {
            Ok(config) => Ok(SwayMessageReplyView::GetConfig { config }),
            Err(e) => Err(e),
        },
        RequestKind::SendTick => match only::<bool>(j, "success"@) {
            Ok(success) => Ok(SwayMessageReplyView::SendTick { success }),
            Err(e) => Err(e),
        },
        RequestKind::Sync => match only::<bool>(j, "success"@) {
            Ok(success) => Ok(SwayMessageReplyView::Sync { success }),
            Err(e) => Err(e),
        },
        RequestKind::GetBindingState => match only::<String>(j, "name"@) {
            Ok(name) => Ok(SwayMessageReplyView::GetBindingState { name }),
            Err(e) => Err(e),
        },
        RequestKind::GetInputs => match list::<SwayInput>(j) {
            Ok(v) => Ok(SwayMessageReplyView::GetInputs(v)),
            Err(e) => Err(e),
        },
        RequestKind::GetSeats => match list::<SwaySeat>(j) {
            Ok(v) => Ok(SwayMessageReplyView::GetSeats(v)),
            Err(e) => Err(e),
        },
    }
}

/// Decodes a document as the reply to a request.
pub fn decode_reply(requested: RequestKind, j: &Json) -> (r: Result<SwayMessageReply, ShapeError>)
    ensures
        result_view(r) == reply_decoded(requested, j@),
{
    match requested {
        RequestKind::RunCommand => match list_from_json::<CommandResult>(j) {
            Ok(v) => Ok(SwayMessageReply::RunCommand(v)),
            Err(e) => Err(e),
        },
        RequestKind::GetWorkspaces => match list_from_json::<Workspace>(j) {
            Ok(v) => Ok(SwayMessageReply::GetWorkspaces(v)),
            Err(e) => Err(e),
        },
        RequestKind::Subscribe => match only_at::<bool>(j, "success") {
            Ok(success) => Ok(SwayMessageReply::Subscribe { success }),
            Err(e) => Err(e),
        },
        RequestKind::GetOutputs => match list_from_json::<Output>(j) {
            Ok(v) => Ok(SwayMessageReply::GetOutputs(v)),
            Err(e) => Err(e),
        },
        RequestKind::GetTree => match SwayNode::from_json(j) {
            Ok(v) => Ok(SwayMessageReply::GetTree(v)),
            Err(e) => Err(e),
        },
        RequestKind::GetMarks => match string_set_from_json(j) {
            Ok(v) => Ok(SwayMessageReply::GetMarks(v)),
            Err(e) => Err(e),
        },
        RequestKind::GetBarConfig => match GetBarConfigResult::from_json(j) {
            Ok(v) => Ok(SwayMessageReply::GetBarConfig(v)),
            Err(e) => Err(e),
        },
        RequestKind::GetVersion => match SwayVersionInfo::from_json(j) {
            Ok(v) => Ok(SwayMessageReply::GetVersion(v)),
            Err(e) => Err(e),
        },
        RequestKind::GetBindingModes => match list_from_json::<String>(j) {
            Ok(v) => Ok(SwayMessageReply::GetBindingModes(v)),
            Err(e) => Err(e),
        },
        RequestKind::GetConfig => match only_at::<String>(j, "config") {
            Ok(config) => Ok(SwayMessageReply::GetConfig { config }),
            Err(e) => Err(e),
        },
        RequestKind::SendTick => match only_at::<bool>(j, "success") {
            Ok(success) => Ok(SwayMessageReply::SendTick { success }),
            Err(e) => Err(e),
        },
        RequestKind::Sync => match only_at::<bool>(j, "success") {
            Ok(success) => Ok(SwayMessageReply::Sync { success }),
            Err(e) => Err(e),
        },
        RequestKind::GetBindingState => match only_at::<String>(j, "name") {
            Ok(name) => Ok(SwayMessageReply::GetBindingState { name }),
            Err(e) => Err(e),
        },
        RequestKind::GetInputs => match list_from_json::<SwayInput>(j) {
            Ok(v) => Ok(SwayMessageReply::GetInputs(v)),
            Err(e) => Err(e),
        },
        RequestKind::GetSeats => match list_from_json::<SwaySeat>(j) {
            Ok(v) => Ok(SwayMessageReply::GetSeats(v)),
            Err(e) => Err(e),
        },
    }
}

/// What a parsed payload resolves to: the reply, or the failure that names
/// the request.
pub open spec fn spec_resolve_value(requested: RequestKind, j: JsonValue) -> Result<
    SwayMessageReplyView,
    IpcError,
> {
    match reply_decoded(requested, j) {
        Ok(reply) => Ok(reply),
        Err(e) => Err(
            IpcError::MalformedReply { request_kind: requested, cause: DecodeCause::Shape(e) },
        ),
    }
}

/// What a payload resolves to, given the document that it parses to.
pub open spec fn spec_resolve(requested: RequestKind, document: Option<JsonValue>) -> Result<
    SwayMessageReplyView,
    IpcError,
> {
    match document {
        Some(j) => spec_resolve_value(requested, j),
        None => Err(
            IpcError::MalformedReply { request_kind: requested, cause: DecodeCause::InvalidJson },
        ),
    }
}

/// Resolves a parsed payload as the reply to the request that was sent.
pub fn resolve_value(requested: RequestKind, j: &Json) -> (r: Result<SwayMessageReply, IpcError>)
    ensures
        result_view(r) == spec_resolve_value(requested, j@),
{
    match decode_reply(requested, j) {
        Ok(reply) => Ok(reply),
        Err(e) => Err(
            IpcError::MalformedReply { request_kind: requested, cause: DecodeCause::Shape(e) },
        ),
    }
}

/// Resolves the payload of a reply frame. The caller says which request the
/// payload answers: the wire does not tell.
pub fn resolve(requested: RequestKind, payload: &[u8]) -> (r: Result<SwayMessageReply, IpcError>)
    ensures
        result_view(r) == spec_resolve(requested, json_document(payload@)),
{
    match parse(payload) {
        Some(j) => resolve_value(requested, &j),
        None => Err(
            IpcError::MalformedReply { request_kind: requested, cause: DecodeCause::InvalidJson },
        ),
    }
}

/// A document that decodes as the reply to a request decodes to a reply to
/// that request.
pub proof fn lemma_decoded_kind(requested: RequestKind, j: JsonValue)
    ensures
        reply_decoded(requested, j) matches Ok(reply) ==> reply.kind() == requested,
{
    match requested {
        RequestKind::RunCommand => {},
        RequestKind::GetWorkspaces => {},
        RequestKind::Subscribe => {},
        RequestKind::GetOutputs => {},
        RequestKind::GetTree => {},
        RequestKind::GetMarks => {},
        RequestKind::GetBarConfig => {},
        RequestKind::GetVersion => {},
        RequestKind::GetBindingModes => {},
        RequestKind::GetConfig => {},
        RequestKind::SendTick => {},
        RequestKind::Sync => {},
        RequestKind::GetBindingState => {},
        RequestKind::GetInputs => {},
        RequestKind::GetSeats => {},
    }
}

/// The reply to a request for bar configuration resolves to the list where
/// the document is a list of identifiers, to the configuration where it is
/// one, and is malformed where it is neither.
pub proof fn lemma_bar_config_resolution(j: JsonValue)
    ensures
        GetBarConfigResult::ids_decoded(j) matches Ok(ids) ==> spec_resolve_value(
            RequestKind::GetBarConfig,
            j,
        ) == Ok::<SwayMessageReplyView, IpcError>(SwayMessageReplyView::GetBarConfig(ids)),
        GetBarConfigResult::config_decoded(j) matches Ok(config) ==> spec_resolve_value(
            RequestKind::GetBarConfig,
            j,
        ) == Ok::<SwayMessageReplyView, IpcError>(SwayMessageReplyView::GetBarConfig(config)),
        GetBarConfigResult::ids_decoded(j) is Err && GetBarConfigResult::config_decoded(j)
            is Err ==> spec_resolve_value(RequestKind::GetBarConfig, j) == Err::<
            SwayMessageReplyView,
            IpcError,
        >(
            IpcError::MalformedReply {
                request_kind: RequestKind::GetBarConfig,
                cause: DecodeCause::Shape(GetBarConfigResult::config_decoded(j)->Err_0),
            },
        ),
{
    GetBarConfigResult::lemma_shapes_apart(j);
}

/// A reply that resolves is a reply to the request that was named, and a
/// failure names that request.
pub proof fn lemma_resolved_kind(requested: RequestKind, document: Option<JsonValue>)
    ensures
        spec_resolve(requested, document) matches Ok(reply) ==> reply.kind() == requested,
        spec_resolve(requested, document) matches Err(e) ==> e matches IpcError::MalformedReply {
            request_kind,
            ..
        } && request_kind == requested,
{
    if let Some(j) = document {
        lemma_decoded_kind(requested, j);
    }
}

} // verus!
