//! herdr's control plane: which request each operation sends, and what its response
//! comes to.
//!
//! [`HerdrControl`] holds no connection. An operation gives the request to send, or
//! answers at once when an id it was given is unknown; the response goes to the
//! matching `*_reply` function. Panes and tabs are addressed by the daemon's numeric
//! ids, which the registries translate.
//!
//! An action that herdr refuses is a failed [`ActionAck`], never an error. A query
//! that herdr refuses, or answers with a result of another type, is an error.

use vstd::prelude::*;
use vstd::string::*;

use super::api::{
    flag_field, opt_field, opt_text, text_field, ApiErrorBody, ApiRequest, ApiResponseBody,
    ApiResult, HerdrServerInfo, LayoutDescription, LayoutExportParams, PaneCloseParams,
    PaneDirection, PaneFocusDirectionParams, PaneInfo, PaneLayoutParams, PaneLayoutSnapshot,
    PaneRenameParams, PaneSplitParams, PaneZoomMode, PaneZoomParams, PingParams, SessionSnapshot,
    SessionSnapshotParams, SplitDirection, TabCloseParams, TabCreateParams, TabFocusParams, TabInfo,
    TabRenameParams, WorkspaceCloseParams, WorkspaceCreateParams, WorkspaceInfo,
    WorkspaceListParams, WorkspaceRenameParams, WorkspaceScopedParams,
};
use super::json::{params_view, ParamModel, ParamValue};
use super::registry::{pane_entry, tab_entry, HerdrPaneRegistry, HerdrTabRegistry, PaneKey};
use crate::multiplexer::types::{ActionAck, UnknownSpace};
use crate::text::{
    decimal, decimal_text, ends_with_char, lemma_decimal_is_injective, text_eq, trim_end,
    trimmed_end,
};

verus! {

/// Longest wait for a response, in milliseconds.
pub const READ_TIMEOUT_MS: u64 = 3_000;

/// Largest response line, in bytes: 8 MiB. A peer that streams without a newline
/// must not grow the response without bound.
pub const MAX_RESPONSE_BYTES: u64 = 8_388_608;

/// Why a query failed.
#[derive(Debug, PartialEq, Eq)]
pub enum ControlError {
    /// The exchange failed, herdr refused, or the response was not the expected one.
    Failed(String),
    /// The workspace does not exist.
    UnknownSpace(UnknownSpace),
}

impl ControlError {
    /// The error is a failure with this text.
    pub open spec fn says(&self, text: Seq<char>) -> bool {
        self matches ControlError::Failed(t) && t@ == text
    }
}

/// What an operation does first.
#[derive(Debug)]
pub enum Outgoing {
    /// Send this request and hand the response to [`action_reply`].
    Send(ApiRequest),
    /// Nothing to send: this is the answer.
    Answered(ActionAck),
}

impl Outgoing {
    /// The operation sends a request for `method` with `params` under `id`.
    pub open spec fn sends(
        &self,
        id: Seq<char>,
        method: Seq<char>,
        params: Seq<(Seq<char>, ParamModel)>,
    ) -> bool {
        self matches Outgoing::Send(r) && r.id@ == id && r.asks(method, params)
    }

    /// The operation fails at once with this message.
    pub open spec fn fails(&self, message: Seq<char>) -> bool {
        self matches Outgoing::Answered(a) && a.is_failure(message)
    }
}

// ----------------------------------------------------------------------- acks

/// A plain success.
pub fn ack_ok() -> (a: ActionAck)
    ensures
        a.is_success(),
{
    ActionAck { ok: true, error: None, info: None }
}

/// A failure with this message.
pub fn ack_err(message: String) -> (a: ActionAck)
    ensures
        a.is_failure(message@),
{
    ActionAck { ok: false, error: Some(message), info: None }
}

/// What an unknown pane id is answered.
pub open spec fn unknown_pane_text(id: u32) -> Seq<char> {
    "unknown herdr pane id "@ + decimal(id as nat)
}

/// What an unknown tab id is answered.
pub open spec fn unknown_tab_text(id: u64) -> Seq<char> {
    "unknown herdr tab id "@ + decimal(id as nat)
}

/// The answer to an unknown pane id.
pub fn unknown_pane(id: u32) -> (a: ActionAck)
    ensures
        a.is_failure(unknown_pane_text(id)),
{
    ack_err("unknown herdr pane id ".to_owned().concat(decimal_text(id as u64).as_str()))
}

/// The answer to an unknown tab id.
pub fn unknown_tab(id: u64) -> (a: ActionAck)
    ensures
        a.is_failure(unknown_tab_text(id)),
{
    ack_err("unknown herdr tab id ".to_owned().concat(decimal_text(id).as_str()))
}

/// What is said of a refused close of a worktree-group primary.
pub open spec fn group_close_text(message: Seq<char>) -> Seq<char> {
    "this space is a worktree-group primary with linked worktree spaces — closing it alone is not possible; re-issue CloseSpace with group intent (close_group=true) to close the whole group ("@
        + message + ")"@
}

/// What is said of a refused close of a group primary's last tab or pane.
pub open spec fn last_close_text(message: Seq<char>) -> Seq<char> {
    "this would close the last of its space, and that space is a worktree-group primary — close the space with group intent (CloseSpace with close_group=true) to remove the group ("@
        + message + ")"@
}

/// The wording of the two refusals that have to do with worktree groups. It goes by
/// method and code together: `confirmation_required` is a general code, and another
/// method's refusal must not read as a group close.
pub open spec fn group_refusal_text(
    method: Seq<char>,
    code: Seq<char>,
    message: Seq<char>,
) -> Option<Seq<char>> {
    if method == "workspace.close"@ && code == "workspace_group_close_required"@ {
        Some(group_close_text(message))
    } else if (method == "tab.close"@ || method == "pane.close"@) && code
        == "confirmation_required"@ {
        Some(last_close_text(message))
    } else {
        None
    }
}

/// Rewords the refusals that have to do with worktree groups, so that the caller
/// learns why and how to proceed.
pub fn worktree_group_refusal(method: &str, error: &ApiErrorBody) -> (a: Option<ActionAck>)
    ensures
        match group_refusal_text(method@, error.code@, error.message@) {
            Some(t) => a matches Some(ack) && ack.is_failure(t),
            None => a is None,
        },
{
    let code = error.code.as_str();
    if text_eq(method, "workspace.close") && text_eq(code, "workspace_group_close_required") {
        let mut t =
            "this space is a worktree-group primary with linked worktree spaces — closing it alone is not possible; re-issue CloseSpace with group intent (close_group=true) to close the whole group (".to_owned();
        t.append(error.message.as_str());
        t.append(")");
        return Some(ack_err(t));
    }
    if (text_eq(method, "tab.close") || text_eq(method, "pane.close")) && text_eq(
        code,
        "confirmation_required",
    ) {
        let mut t =
            "this would close the last of its space, and that space is a worktree-group primary — close the space with group intent (CloseSpace with close_group=true) to remove the group (".to_owned();
        t.append(error.message.as_str());
        t.append(")");
        return Some(ack_err(t));
    }
    None
}

/// What a refused action is answered.
pub open spec fn refusal_text(method: Seq<char>, error: ApiErrorBody) -> Seq<char> {
    match group_refusal_text(method, error.code@, error.message@) {
        Some(t) => t,
        None => error.code@ + ": "@ + error.message@,
    }
}

/// What the response to an action comes to. Its payload does not matter.
pub fn action_reply(method: &str, reply: &ApiResponseBody) -> (a: ActionAck)
    ensures
        match reply {
            ApiResponseBody::Success { .. } => a.is_success(),
            ApiResponseBody::Failure { error } => a.is_failure(refusal_text(method@, *error)),
        },
{
    match reply {
        ApiResponseBody::Success { .. } => ack_ok(),
        ApiResponseBody::Failure { error } => match worktree_group_refusal(method, error) {
            Some(a) => a,
            None => {
                let mut t = error.code.clone();
                t.append(": ");
                t.append(error.message.as_str());
                ack_err(t)
            },
        },
    }
}

// ------------------------------------------------------------------ responses

/// What is said when herdr closes the connection without a response.
pub open spec fn no_response_text(method: Seq<char>) -> Seq<char> {
    "herdr closed the JSON-API connection without responding to "@ + method
}

/// What is said when a response has no end.
pub open spec fn endless_text(method: Seq<char>) -> Seq<char> {
    "herdr "@ + method + " response exceeded the "@ + decimal(MAX_RESPONSE_BYTES as nat)
        + "-byte limit without a newline"@
}

/// Takes the line that was read for `method`, at most [`MAX_RESPONSE_BYTES`] of it:
/// nothing at all means that herdr hung up, and a full measure without a newline is
/// refused rather than parsed.
pub fn response_line(method: &str, resp: &str) -> (r: Result<String, ControlError>)
    ensures
        if resp@.len() == 0 {
            r matches Err(e) && e.says(no_response_text(method@))
        } else if vstd::utf8::encode_utf8(resp@).len() >= MAX_RESPONSE_BYTES && resp@.last()
            != '\n' {
            r matches Err(e) && e.says(endless_text(method@))
        } else {
            r matches Ok(line) && line@ == trimmed_end(resp@)
        },
{
    if resp.is_empty() {
        return Err(
            ControlError::Failed(
                "herdr closed the JSON-API connection without responding to ".to_owned().concat(
                    method,
                ),
            ),
        );
    }
    if resp.as_bytes().len() as u64 >= MAX_RESPONSE_BYTES && !ends_with_char(resp, '\n') {
        let mut t = "herdr ".to_owned();
        t.append(method);
        t.append(" response exceeded the ");
        t.append(decimal_text(MAX_RESPONSE_BYTES).as_str());
        t.append("-byte limit without a newline");
        return Err(ControlError::Failed(t));
    }
    Ok(trim_end(resp).to_owned())
}

/// What a response to a query comes to: a result, or why there is none. A failed
/// exchange is given as its text.
pub open spec fn reply_result(method: Seq<char>, reply: Result<ApiResponseBody, String>) -> Result<
    ApiResult,
    Seq<char>,
> {
    match reply {
        Err(t) => Err(t@),
        Ok(ApiResponseBody::Success { result: Ok(r), .. }) => Ok(r),
        Ok(ApiResponseBody::Success { result: Err(t), .. }) => Err(
            "decode herdr "@ + method + " result: "@ + t@,
        ),
        Ok(ApiResponseBody::Failure { error }) => Err(
            "herdr "@ + method + " error "@ + error.code@ + ": "@ + error.message@,
        ),
    }
}

/// The result of a response in print.
pub open spec fn printed_in(reply: Result<ApiResponseBody, String>) -> Seq<char> {
    match reply {
        Ok(ApiResponseBody::Success { printed, .. }) => printed@,
        _ => Seq::empty(),
    }
}

/// What is said of a result of another type, given that result in print.
pub open spec fn unexpected_text(method: Seq<char>, printed: Seq<char>) -> Seq<char> {
    "herdr "@ + method + " returned unexpected result: "@ + printed
}

/// Takes the result out of a response to a query, as it is and in print.
fn typed_reply(method: &str, reply: Result<ApiResponseBody, String>) -> (r: Result<
    (ApiResult, String),
    ControlError,
>)
    ensures
        match reply_result(method@, reply) {
            Ok(v) => r matches Ok(got) && got.0 == v && got.1@ == printed_in(reply),
            Err(t) => r matches Err(e) && e.says(t),
        },
{
    match reply {
        Err(t) => Err(ControlError::Failed(t)),
        Ok(ApiResponseBody::Success { result: Ok(v), printed }) => Ok((v, printed)),
        Ok(ApiResponseBody::Success { result: Err(why), .. }) => {
            let mut t = "decode herdr ".to_owned();
            t.append(method);
            t.append(" result: ");
            t.append(why.as_str());
            Err(ControlError::Failed(t))
        },
        Ok(ApiResponseBody::Failure { error }) => {
            let mut t = "herdr ".to_owned();
            t.append(method);
            t.append(" error ");
            t.append(error.code.as_str());
            t.append(": ");
            t.append(error.message.as_str());
            Err(ControlError::Failed(t))
        },
    }
}

fn unexpected(method: &str, printed: &str) -> (e: ControlError)
    ensures
        e.says(unexpected_text(method@, printed@)),
{
    let mut t = "herdr ".to_owned();
    t.append(method);
    t.append(" returned unexpected result: ");
    t.append(printed);
    ControlError::Failed(t)
}

/// What the response to `ping` says about the server.
pub fn ping_reply(reply: Result<ApiResponseBody, String>) -> (r: Result<HerdrServerInfo, ControlError>)
    ensures
        match reply_result("ping"@, reply) {
            Ok(ApiResult::Pong { version, protocol, .. }) => r == Ok::<HerdrServerInfo, ControlError>((HerdrServerInfo { version, protocol })),
            Ok(_) => r matches Err(e) && e.says(unexpected_text("ping"@, printed_in(reply))),
            Err(t) => r matches Err(e) && e.says(t),
        },
{
    match typed_reply("ping", reply) {
        Ok((ApiResult::Pong { version, protocol, .. }, _)) => Ok(HerdrServerInfo { version, protocol }),
        Ok((_, printed)) => Err(unexpected("ping", printed.as_str())),
        Err(e) => Err(e),
    }
}

/// The workspaces in a response to `workspace.list`.
pub fn workspaces_reply(reply: Result<ApiResponseBody, String>) -> (r: Result<Vec<WorkspaceInfo>, ControlError>)
    ensures
        match reply_result("workspace.list"@, reply) {
            Ok(ApiResult::WorkspaceList { workspaces }) => r == Ok::<Vec<WorkspaceInfo>, ControlError>(workspaces),
            Ok(_) => r matches Err(e) && e.says(unexpected_text("workspace.list"@, printed_in(reply))),
            Err(t) => r matches Err(e) && e.says(t),
        },
{
    match typed_reply("workspace.list", reply) {
        Ok((ApiResult::WorkspaceList { workspaces }, _)) => Ok(workspaces),
        Ok((_, printed)) => Err(unexpected("workspace.list", printed.as_str())),
        Err(e) => Err(e),
    }
}

/// The tabs in a response to `tab.list`.
pub fn tabs_reply(reply: Result<ApiResponseBody, String>) -> (r: Result<Vec<TabInfo>, ControlError>)
    ensures
        match reply_result("tab.list"@, reply) {
            Ok(ApiResult::TabList { tabs }) => r == Ok::<Vec<TabInfo>, ControlError>(tabs),
            Ok(_) => r matches Err(e) && e.says(unexpected_text("tab.list"@, printed_in(reply))),
            Err(t) => r matches Err(e) && e.says(t),
        },
{
    match typed_reply("tab.list", reply) {
        Ok((ApiResult::TabList { tabs }, _)) => Ok(tabs),
        Ok((_, printed)) => Err(unexpected("tab.list", printed.as_str())),
        Err(e) => Err(e),
    }
}

/// The panes in a response to `pane.list`.
pub fn panes_reply(reply: Result<ApiResponseBody, String>) -> (r: Result<Vec<PaneInfo>, ControlError>)
    ensures
        match reply_result("pane.list"@, reply) {
            Ok(ApiResult::PaneList { panes }) => r == Ok::<Vec<PaneInfo>, ControlError>(panes),
            Ok(_) => r matches Err(e) && e.says(unexpected_text("pane.list"@, printed_in(reply))),
            Err(t) => r matches Err(e) && e.says(t),
        },
{
    match typed_reply("pane.list", reply) {
        Ok((ApiResult::PaneList { panes }, _)) => Ok(panes),
        Ok((_, printed)) => Err(unexpected("pane.list", printed.as_str())),
        Err(e) => Err(e),
    }
}

/// The layout in a response to `pane.layout`.
pub fn pane_layout_reply(reply: Result<ApiResponseBody, String>) -> (r: Result<PaneLayoutSnapshot, ControlError>)
    ensures
        match reply_result("pane.layout"@, reply) {
            Ok(ApiResult::PaneLayout { layout }) => r == Ok::<PaneLayoutSnapshot, ControlError>(layout),
            Ok(_) => r matches Err(e) && e.says(unexpected_text("pane.layout"@, printed_in(reply))),
            Err(t) => r matches Err(e) && e.says(t),
        },
{
    match typed_reply("pane.layout", reply) {
        Ok((ApiResult::PaneLayout { layout }, _)) => Ok(layout),
        Ok((_, printed)) => Err(unexpected("pane.layout", printed.as_str())),
        Err(e) => Err(e),
    }
}

/// The layout tree in a response to `layout.export`.
pub fn layout_export_reply(reply: Result<ApiResponseBody, String>) -> (r: Result<LayoutDescription, ControlError>)
    ensures
        match reply_result("layout.export"@, reply) {
            Ok(ApiResult::LayoutExport { layout }) => r == Ok::<LayoutDescription, ControlError>(*layout),
            Ok(_) => r matches Err(e) && e.says(unexpected_text("layout.export"@, printed_in(reply))),
            Err(t) => r matches Err(e) && e.says(t),
        },
{
    match typed_reply("layout.export", reply) {
        Ok((ApiResult::LayoutExport { layout }, _)) => Ok(*layout),
        Ok((_, printed)) => Err(unexpected("layout.export", printed.as_str())),
        Err(e) => Err(e),
    }
}

/// The snapshot in a response to `session.snapshot`.
pub fn session_snapshot_reply(reply: Result<ApiResponseBody, String>) -> (r: Result<SessionSnapshot, ControlError>)
    ensures
        match reply_result("session.snapshot"@, reply) {
            Ok(ApiResult::SessionSnapshot { snapshot }) => r == Ok::<SessionSnapshot, ControlError>(*snapshot),
            Ok(_) => r matches Err(e) && e.says(unexpected_text("session.snapshot"@, printed_in(reply))),
            Err(t) => r matches Err(e) && e.says(t),
        },
{
    match typed_reply("session.snapshot", reply) {
        Ok((ApiResult::SessionSnapshot { snapshot }, _)) => Ok(*snapshot),
        Ok((_, printed)) => Err(unexpected("session.snapshot", printed.as_str())),
        Err(e) => Err(e),
    }
}

// --------------------------------------------------------------- the operations

/// State of the control plane: the registries, the request counter, and whether
/// layout queries currently have to do without `session.snapshot`.
#[derive(Debug)]
pub struct HerdrControl {
    api_socket: String,
    panes: HerdrPaneRegistry,
    tabs: HerdrTabRegistry,
    next_req_id: u64,
    snapshot_degraded: bool,
}

/// The request id with this number.
pub open spec fn request_id(n: u64) -> Seq<char> {
    "muxrd-"@ + decimal(n as nat)
}

/// The number after `n`; the last one is followed by 0.
pub open spec fn number_after(n: u64) -> u64 {
    if n == u64::MAX {
        0
    } else {
        (n + 1) as u64
    }
}

impl HerdrControl {
    /// Path of the socket.
    pub closed spec fn socket(&self) -> Seq<char> {
        self.api_socket@
    }

    /// The registered panes.
    pub closed spec fn panes(&self) -> HerdrPaneRegistry {
        self.panes
    }

    /// The registered tabs.
    pub closed spec fn tabs(&self) -> HerdrTabRegistry {
        self.tabs
    }

    /// Number of the next request.
    pub closed spec fn next_number(&self) -> u64 {
        self.next_req_id
    }

    /// Whether the last snapshot query failed.
    pub closed spec fn degraded(&self) -> bool {
        self.snapshot_degraded
    }

    /// The registries are well formed.
    pub open spec fn wf(&self) -> bool {
        self.panes().wf() && self.tabs().wf()
    }

    /// `self` has sent one request since `before`, and nothing else has changed.
    pub open spec fn one_request_after(&self, before: &HerdrControl) -> bool {
        &&& self.socket() == before.socket()
        &&& self.panes() == before.panes()
        &&& self.tabs() == before.tabs()
        &&& self.degraded() == before.degraded()
        &&& self.next_number() == number_after(before.next_number())
    }

    /// A control plane for the herdr at `api_socket`.
    pub fn new(api_socket: String, panes: HerdrPaneRegistry, tabs: HerdrTabRegistry) -> (c: Self)
        ensures
            c.socket() == api_socket@,
            c.panes() == panes,
            c.tabs() == tabs,
            c.next_number() == 1,
            !c.degraded(),
    {
        HerdrControl { api_socket, panes, tabs, next_req_id: 1, snapshot_degraded: false }
    }

    /// Path of the socket.
    pub fn api_socket(&self) -> (s: &str)
        ensures
            s@ == self.socket(),
    {
        self.api_socket.as_str()
    }

    /// The registered panes.
    pub fn pane_registry(&self) -> (r: &HerdrPaneRegistry)
        ensures
            *r == self.panes(),
    {
        &self.panes
    }

    /// The registered tabs.
    pub fn tab_registry(&self) -> (r: &HerdrTabRegistry)
        ensures
            *r == self.tabs(),
    {
        &self.tabs
    }

    /// The registries, to be filled from a response.
    pub fn registries(&mut self) -> (r: (&mut HerdrPaneRegistry, &mut HerdrTabRegistry))
        ensures
            *r.0 == old(self).panes(),
            *r.1 == old(self).tabs(),
            final(self).panes() == *final(r.0),
            final(self).tabs() == *final(r.1),
            final(self).socket() == old(self).socket(),
            final(self).next_number() == old(self).next_number(),
            final(self).degraded() == old(self).degraded(),
    {
        (&mut self.panes, &mut self.tabs)
    }

    /// The next request id.
    fn next_id(&mut self) -> (id: String)
        ensures
            id@ == request_id(old(self).next_number()),
            final(self).one_request_after(old(self)),
    {
        let n: u64 = self.next_req_id;
        self.next_req_id = if n == u64::MAX {
            0
        } else {
            n + 1
        };
        "muxrd-".to_owned().concat(decimal_text(n).as_str())
    }

    /// A request under the next id.
    fn request(&mut self, method: &str, params: Vec<(String, ParamValue)>) -> (r: ApiRequest)
        ensures
            r.id@ == request_id(old(self).next_number()),
            r.asks(method@, params_view(params@)),
            final(self).one_request_after(old(self)),
    {
        let id = self.next_id();
        ApiRequest::new(id, method.to_owned(), params)
    }

    /// Asks which version and protocol the server has.
    pub fn ping(&mut self) -> (r: ApiRequest)
        ensures
            r.id@ == request_id(old(self).next_number()),
            r.asks("ping"@, Seq::<(Seq<char>, ParamModel)>::empty()),
            final(self).one_request_after(old(self)),
    {
        let params = (PingParams {}).fields();
        proof {
            assert(params_view(params@) =~= Seq::<(Seq<char>, ParamModel)>::empty());
        }
        self.request("ping", params)
    }

    /// Asks for all workspaces.
    pub fn list_workspaces(&mut self) -> (r: ApiRequest)
        ensures
            r.id@ == request_id(old(self).next_number()),
            r.asks("workspace.list"@, Seq::<(Seq<char>, ParamModel)>::empty()),
            final(self).one_request_after(old(self)),
    {
        let params = (WorkspaceListParams {}).fields();
        proof {
            assert(params_view(params@) =~= Seq::<(Seq<char>, ParamModel)>::empty());
        }
        self.request("workspace.list", params)
    }

    /// Creates a workspace and focuses it.
    pub fn create_workspace(&mut self, label: Option<String>) -> (r: ApiRequest)
        ensures
            r.id@ == request_id(old(self).next_number()),
            r.asks("workspace.create"@, flag_field("focus"@, true) + opt_field("label"@, opt_text(label))),
            final(self).one_request_after(old(self)),
    {
        let params = WorkspaceCreateParams { cwd: None, focus: true, label, env: Vec::new() }.fields();
        proof {
            assert(params_view(params@) =~= flag_field("focus"@, true) + opt_field("label"@, opt_text(label)));
        }
        self.request("workspace.create", params)
    }

    /// Renames a workspace.
    pub fn rename_workspace(&mut self, workspace_id: &str, label: &str) -> (r: ApiRequest)
        ensures
            r.id@ == request_id(old(self).next_number()),
            r.asks("workspace.rename"@, text_field("workspace_id"@, workspace_id@) + text_field("label"@, label@)),
            final(self).one_request_after(old(self)),
    {
        let params = WorkspaceRenameParams { workspace_id: workspace_id.to_owned(), label: label.to_owned() }.fields();
        proof {
            assert(params_view(params@) =~= text_field("workspace_id"@, workspace_id@) + text_field("label"@, label@));
        }
        self.request("workspace.rename", params)
    }

    /// Closes a workspace. Whether its worktree group goes with it is the caller's to
    /// say, and is sent as given.
    pub fn close_workspace(&mut self, workspace_id: &str, close_group: bool) -> (r: ApiRequest)
        ensures
            r.id@ == request_id(old(self).next_number()),
            r.asks("workspace.close"@, text_field("workspace_id"@, workspace_id@) + flag_field("close_group"@, close_group)),
            final(self).one_request_after(old(self)),
    {
        let params = WorkspaceCloseParams { workspace_id: workspace_id.to_owned(), close_group }.fields();
        proof {
            assert(params_view(params@) =~= text_field("workspace_id"@, workspace_id@) + flag_field("close_group"@, close_group));
        }
        self.request("workspace.close", params)
    }

    /// Creates a tab in a workspace, or in the focused one, and focuses it.
    pub fn create_tab(&mut self, workspace_id: Option<String>, label: Option<String>) -> (r: ApiRequest)
        ensures
            r.id@ == request_id(old(self).next_number()),
            r.asks("tab.create"@, opt_field("workspace_id"@, opt_text(workspace_id)) + flag_field("focus"@, true) + opt_field("label"@, opt_text(label))),
            final(self).one_request_after(old(self)),
    {
        let params = TabCreateParams { workspace_id, cwd: None, focus: true, label, env: Vec::new() }.fields();
        proof {
            assert(params_view(params@) =~= opt_field("workspace_id"@, opt_text(workspace_id)) + flag_field("focus"@, true) + opt_field("label"@, opt_text(label)));
        }
        self.request("tab.create", params)
    }

    /// Asks for the tabs of a workspace.
    pub fn list_tabs(&mut self, workspace_id: &str) -> (r: ApiRequest)
        ensures
            r.id@ == request_id(old(self).next_number()),
            r.asks("tab.list"@, text_field("workspace_id"@, workspace_id@)),
            final(self).one_request_after(old(self)),
    {
        let params = (WorkspaceScopedParams { workspace_id: Some(workspace_id.to_owned()) }).fields();
        proof {
            assert(params_view(params@) =~= text_field("workspace_id"@, workspace_id@));
        }
        self.request("tab.list", params)
    }

    /// Asks for the panes of a workspace.
    pub fn list_panes(&mut self, workspace_id: &str) -> (r: ApiRequest)
        ensures
            r.id@ == request_id(old(self).next_number()),
            r.asks("pane.list"@, text_field("workspace_id"@, workspace_id@)),
            final(self).one_request_after(old(self)),
    {
        let params = (WorkspaceScopedParams { workspace_id: Some(workspace_id.to_owned()) }).fields();
        proof {
            assert(params_view(params@) =~= text_field("workspace_id"@, workspace_id@));
        }
        self.request("pane.list", params)
    }

    /// Asks for the layout of the tab of a pane, or of the focused one.
    pub fn pane_layout(&mut self, pane_id: Option<String>) -> (r: ApiRequest)
        ensures
            r.id@ == request_id(old(self).next_number()),
            r.asks("pane.layout"@, opt_field("pane_id"@, opt_text(pane_id))),
            final(self).one_request_after(old(self)),
    {
        let params = (PaneLayoutParams { pane_id }).fields();
        proof {
            assert(params_view(params@) =~= opt_field("pane_id"@, opt_text(pane_id)));
        }
        self.request("pane.layout", params)
    }

    /// Asks for the layout tree of a tab or a pane.
    pub fn layout_export(&mut self, tab_id: Option<String>, pane_id: Option<String>) -> (r: ApiRequest)
        ensures
            r.id@ == request_id(old(self).next_number()),
            r.asks("layout.export"@, opt_field("tab_id"@, opt_text(tab_id)) + opt_field("pane_id"@, opt_text(pane_id))),
            final(self).one_request_after(old(self)),
    {
        let params = (LayoutExportParams { tab_id, pane_id }).fields();
        proof {
            assert(params_view(params@) =~= opt_field("tab_id"@, opt_text(tab_id)) + opt_field("pane_id"@, opt_text(pane_id)));
        }
        self.request("layout.export", params)
    }

    /// Asks for the whole daemon at once.
    pub fn session_snapshot(&mut self) -> (r: ApiRequest)
        ensures
            r.id@ == request_id(old(self).next_number()),
            r.asks("session.snapshot"@, Seq::<(Seq<char>, ParamModel)>::empty()),
            final(self).one_request_after(old(self)),
    {
        let params = (SessionSnapshotParams {}).fields();
        proof {
            assert(params_view(params@) =~= Seq::<(Seq<char>, ParamModel)>::empty());
        }
        self.request("session.snapshot", params)
    }

    /// Focuses a tab.
    pub fn focus_tab(&mut self, tab_id: u64) -> (r: Outgoing)
        ensures
            match tab_entry(old(self).tabs()@, tab_id) {
                Some(tab) => r.sends(
                    request_id(old(self).next_number()),
                    "tab.focus"@,
                    text_field("tab_id"@, tab),
                ) && final(self).one_request_after(old(self)),
                None => r.fails(unknown_tab_text(tab_id)) && *final(self) == *old(self),
            },
    {
        match self.tabs.herdr_tab_id(tab_id) {
            None => Outgoing::Answered(unknown_tab(tab_id)),
            Some(tab) => {
                let ghost name = tab@;
                let params = (TabFocusParams { tab_id: tab }).fields();
                proof {
                    assert(params_view(params@) =~= text_field("tab_id"@, name));
                }
                Outgoing::Send(self.request("tab.focus", params))
            },
        }
    }

    /// Closes a tab.
    pub fn close_tab(&mut self, tab_id: u64) -> (r: Outgoing)
        ensures
            match tab_entry(old(self).tabs()@, tab_id) {
                Some(tab) => r.sends(
                    request_id(old(self).next_number()),
                    "tab.close"@,
                    text_field("tab_id"@, tab),
                ) && final(self).one_request_after(old(self)),
                None => r.fails(unknown_tab_text(tab_id)) && *final(self) == *old(self),
            },
    {
        match self.tabs.herdr_tab_id(tab_id) {
            None => Outgoing::Answered(unknown_tab(tab_id)),
            Some(tab) => {
                let ghost name = tab@;
                let params = (TabCloseParams { tab_id: tab }).fields();
                proof {
                    assert(params_view(params@) =~= text_field("tab_id"@, name));
                }
                Outgoing::Send(self.request("tab.close", params))
            },
        }
    }

    /// Renames a tab.
    pub fn rename_tab(&mut self, tab_id: u64, label: String) -> (r: Outgoing)
        ensures
            match tab_entry(old(self).tabs()@, tab_id) {
                Some(tab) => r.sends(
                    request_id(old(self).next_number()),
                    "tab.rename"@,
                    text_field("tab_id"@, tab) + text_field("label"@, label@),
                ) && final(self).one_request_after(old(self)),
                None => r.fails(unknown_tab_text(tab_id)) && *final(self) == *old(self),
            },
    {
        match self.tabs.herdr_tab_id(tab_id) {
            None => Outgoing::Answered(unknown_tab(tab_id)),
            Some(tab) => {
                let ghost name = tab@;
                let params = (TabRenameParams { tab_id: tab, label }).fields();
                proof {
                    assert(params_view(params@) =~= text_field("tab_id"@, name) + text_field("label"@, label@));
                }
                Outgoing::Send(self.request("tab.rename", params))
            },
        }
    }

    /// Closes a pane.
    pub fn close_pane(&mut self, pane: u32) -> (r: Outgoing)
        ensures
            match pane_entry(old(self).panes()@, pane) {
                Some(key) => r.sends(
                    request_id(old(self).next_number()),
                    "pane.close"@,
                    text_field("pane_id"@, key.pane_id),
                ) && final(self).one_request_after(old(self)),
                None => r.fails(unknown_pane_text(pane)) && *final(self) == *old(self),
            },
    {
        match self.panes.herdr_pane_id(pane) {
            None => Outgoing::Answered(unknown_pane(pane)),
            Some(id) => {
                let ghost name = id@;
                let params = (PaneCloseParams { pane_id: id }).fields();
                proof {
                    assert(params_view(params@) =~= text_field("pane_id"@, name));
                }
                Outgoing::Send(self.request("pane.close", params))
            },
        }
    }

    /// Renames a pane.
    pub fn rename_pane(&mut self, pane: u32, label: Option<String>) -> (r: Outgoing)
        ensures
            match pane_entry(old(self).panes()@, pane) {
                Some(key) => r.sends(
                    request_id(old(self).next_number()),
                    "pane.rename"@,
                    text_field("pane_id"@, key.pane_id) + opt_field("label"@, opt_text(label)),
                ) && final(self).one_request_after(old(self)),
                None => r.fails(unknown_pane_text(pane)) && *final(self) == *old(self),
            },
    {
        match self.panes.herdr_pane_id(pane) {
            None => Outgoing::Answered(unknown_pane(pane)),
            Some(id) => {
                let ghost name = id@;
                let params = (PaneRenameParams { pane_id: id, label }).fields();
                proof {
                    assert(params_view(params@) =~= text_field("pane_id"@, name) + opt_field("label"@, opt_text(label)));
                }
                Outgoing::Send(self.request("pane.rename", params))
            },
        }
    }

    /// herdr's id of an optional pane. No pane means the focused one; an unknown one
    /// is answered.
    fn resolve_opt_pane(&self, pane: Option<u32>) -> (r: Result<Option<String>, ActionAck>)
        ensures
            match opt_pane(self.panes()@, pane) {
                Ok(id) => r matches Ok(o) && opt_text(o) == id,
                Err(n) => r matches Err(a) && a.is_failure(unknown_pane_text(n)),
            },
    {
        match pane {
            None => Ok(None),
            Some(id) => match self.panes.herdr_pane_id(id) {
                Some(name) => Ok(Some(name)),
                None => Err(unknown_pane(id)),
            },
        }
    }

    /// Splits a pane, or the focused one.
    pub fn split_pane(&mut self, workspace_id: Option<String>, target: Option<u32>, direction: SplitDirection, focus: bool) -> (r: Outgoing)
        ensures
            match opt_pane(old(self).panes()@, target) {
                Ok(id) => r.sends(
                    request_id(old(self).next_number()),
                    "pane.split"@,
                    opt_field("workspace_id"@, opt_text(workspace_id)) + opt_field("target_pane_id"@, id) + text_field("direction"@, direction.wire_name()) + flag_field("focus"@, focus),
                ) && final(self).one_request_after(old(self)),
                Err(n) => r.fails(unknown_pane_text(n)) && *final(self) == *old(self),
            },
            r matches Outgoing::Send(q) ==> params_view(q.params@).contains(
                (
                    "direction"@,
                    ParamModel::Text(
                        if direction is Down {
                            "down"@
                        } else {
                            "right"@
                        },
                    ),
                ),
            ),
    {
        match self.resolve_opt_pane(target) {
            Err(ack) => Outgoing::Answered(ack),
            Ok(name) => {
                let ghost id = opt_text(name);
                let params = PaneSplitParams {
                    workspace_id,
                    target_pane_id: name,
                    direction,
                    cwd: None,
                    focus,
                    env: Vec::new(),
                }.fields();
                proof {
                    assert(params_view(params@) =~= opt_field("workspace_id"@, opt_text(workspace_id)) + opt_field("target_pane_id"@, id) + text_field("direction"@, direction.wire_name()) + flag_field("focus"@, focus));
                    let at = (opt_field("workspace_id"@, opt_text(workspace_id)) + opt_field("target_pane_id"@, id)).len() as int;
                    assert(params_view(params@)[at] == ("direction"@, ParamModel::Text(direction.wire_name())));
                }
                Outgoing::Send(self.request("pane.split", params))
            },
        }
    }

    /// Moves the focus from a pane, or from the focused one.
    pub fn focus_pane_direction(&mut self, pane: Option<u32>, direction: PaneDirection) -> (r: Outgoing)
        ensures
            match opt_pane(old(self).panes()@, pane) {
                Ok(id) => r.sends(
                    request_id(old(self).next_number()),
                    "pane.focus_direction"@,
                    opt_field("pane_id"@, id) + text_field("direction"@, direction.wire_name()),
                ) && final(self).one_request_after(old(self)),
                Err(n) => r.fails(unknown_pane_text(n)) && *final(self) == *old(self),
            },
    {
        match self.resolve_opt_pane(pane) {
            Err(ack) => Outgoing::Answered(ack),
            Ok(name) => {
                let ghost id = opt_text(name);
                let params = (PaneFocusDirectionParams { pane_id: name, direction }).fields();
                proof {
                    assert(params_view(params@) =~= opt_field("pane_id"@, id) + text_field("direction"@, direction.wire_name()));
                }
                Outgoing::Send(self.request("pane.focus_direction", params))
            },
        }
    }

    /// Zooms a pane, or the focused one.
    pub fn zoom_pane(&mut self, pane: Option<u32>, mode: PaneZoomMode) -> (r: Outgoing)
        ensures
            match opt_pane(old(self).panes()@, pane) {
                Ok(id) => r.sends(
                    request_id(old(self).next_number()),
                    "pane.zoom"@,
                    opt_field("pane_id"@, id) + text_field("mode"@, mode.wire_name()),
                ) && final(self).one_request_after(old(self)),
                Err(n) => r.fails(unknown_pane_text(n)) && *final(self) == *old(self),
            },
    {
        match self.resolve_opt_pane(pane) {
            Err(ack) => Outgoing::Answered(ack),
            Ok(name) => {
                let ghost id = opt_text(name);
                let params = (PaneZoomParams { pane_id: name, mode }).fields();
                proof {
                    assert(params_view(params@) =~= opt_field("pane_id"@, id) + text_field("mode"@, mode.wire_name()));
                }
                Outgoing::Send(self.request("pane.zoom", params))
            },
        }
    }

    /// Whether `session.snapshot` failed when it was last asked.
    pub fn is_degraded(&self) -> (yes: bool)
        ensures
            yes == self.degraded(),
    {
        self.snapshot_degraded
    }

    /// Notes that `session.snapshot` works, and says whether that is news.
    pub fn note_snapshot_ok(&mut self) -> (recovered: bool)
        ensures
            recovered == old(self).degraded(),
            !final(self).degraded(),
            final(self).socket() == old(self).socket(),
            final(self).panes() == old(self).panes(),
            final(self).tabs() == old(self).tabs(),
            final(self).next_number() == old(self).next_number(),
    {
        let was: bool = self.snapshot_degraded;
        self.snapshot_degraded = false;
        was
    }

    /// Notes that `session.snapshot` failed, and says whether that is news.
    pub fn note_snapshot_degraded(&mut self) -> (entered: bool)
        ensures
            entered == !old(self).degraded(),
            final(self).degraded(),
            final(self).socket() == old(self).socket(),
            final(self).panes() == old(self).panes(),
            final(self).tabs() == old(self).tabs(),
            final(self).next_number() == old(self).next_number(),
    {
        let was: bool = self.snapshot_degraded;
        self.snapshot_degraded = true;
        !was
    }
}

/// herdr's id of an optional pane, or the pane id that is unknown.
pub open spec fn opt_pane(reg: Seq<PaneKey>, pane: Option<u32>) -> Result<Option<Seq<char>>, u32> {
    match pane {
        None => Ok(None),
        Some(id) => match pane_entry(reg, id) {
            Some(key) => Ok(Some(key.pane_id)),
            None => Err(id),
        },
    }
}

// ----------------------------------------------------------------------- laws

/// Each request moves the number on by one, around the end.
proof fn lemma_numbers_count(states: Seq<HerdrControl>, i: int, j: int)
    requires
        0 <= i <= j < states.len(),
        forall|k: int|
            0 <= k < states.len() - 1 ==> (#[trigger] states[k + 1]).one_request_after(&states[k]),
    ensures
        states[j].next_number() == (states[i].next_number() + (j - i)) % (u64::MAX + 1),
    decreases j - i,
{
    if i < j {
        lemma_numbers_count(states, i, j - 1);
        assert(states[(j - 1) + 1].one_request_after(&states[j - 1]));
    }
}

/// No two requests of a control plane have the same id, up to the point where the
/// numbers start over.
pub proof fn law_no_request_id_is_used_twice(states: Seq<HerdrControl>, i: int, j: int)
    requires
        states.len() <= u64::MAX + 1,
        0 <= i < j < states.len(),
        forall|k: int|
            0 <= k < states.len() - 1 ==> (#[trigger] states[k + 1]).one_request_after(&states[k]),
    ensures
        request_id(states[i].next_number()) != request_id(states[j].next_number()),
{
    let a = states[i].next_number();
    let b = states[j].next_number();
    lemma_numbers_count(states, i, j);
    assert(a != b);
    if request_id(a) == request_id(b) {
        let n = "muxrd-"@.len() as int;
        assert(request_id(a).skip(n) =~= decimal(a as nat));
        assert(request_id(b).skip(n) =~= decimal(b as nat));
        lemma_decimal_is_injective(a as nat, b as nat);
    }
}

} // verus!
