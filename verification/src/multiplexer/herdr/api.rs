//! Shapes of herdr's JSON-API: requests and their parameters, responses and the
//! records in them.
//!
//! A ratio that herdr sends as a floating-point number is kept as its bit pattern;
//! nothing here computes with it.

use std::collections::HashMap;

use vstd::prelude::*;
use vstd::string::*;

use super::json::{pairs_view, params_view, request_json, request_text, ParamModel, ParamValue};

verus! {

// ------------------------------------------------------------------- requests

/// A request to herdr's control socket.
#[derive(Debug, Clone)]
pub struct ApiRequest {
    /// Identifier that the response repeats.
    pub id: String,
    /// Dotted method name.
    pub method: String,
    /// Parameters of the method.
    pub params: Vec<(String, ParamValue)>,
}

impl ApiRequest {
    /// A request for `method` with these parameters.
    pub fn new(id: String, method: String, params: Vec<(String, ParamValue)>) -> (r: Self)
        ensures
            r.id == id,
            r.method == method,
            r.params == params,
    {
        ApiRequest { id, method, params }
    }

    /// The request asks for `method` with `params`.
    pub open spec fn asks(&self, method: Seq<char>, params: Seq<(Seq<char>, ParamModel)>) -> bool {
        self.method@ == method && params_view(self.params@) == params
    }

    /// The line that goes on the socket: the request as JSON and a newline.
    pub open spec fn line_text(&self) -> Seq<char> {
        request_json(self.id@, self.method@, params_view(self.params@)) + "\n"@
    }

    /// The line that goes on the socket.
    pub fn line(&self) -> (t: String)
        ensures
            t@ == self.line_text(),
    {
        request_text(self.id.as_str(), self.method.as_str(), &self.params).concat("\n")
    }
}

// ----------------------------------------------------------------- parameters

/// An optional text, mathematically.
pub open spec fn opt_text(o: Option<String>) -> Option<Seq<char>> {
    match o {
        Some(t) => Some(t@),
        None => None,
    }
}

/// A text parameter.
pub open spec fn text_field(key: Seq<char>, value: Seq<char>) -> Seq<(Seq<char>, ParamModel)> {
    seq![(key, ParamModel::Text(value))]
}

/// A flag parameter.
pub open spec fn flag_field(key: Seq<char>, value: bool) -> Seq<(Seq<char>, ParamModel)> {
    seq![(key, ParamModel::Flag(value))]
}

/// A text parameter that is left out when it is absent.
pub open spec fn opt_field(key: Seq<char>, value: Option<Seq<char>>) -> Seq<
    (Seq<char>, ParamModel),
> {
    match value {
        Some(t) => text_field(key, t),
        None => Seq::empty(),
    }
}

/// A table parameter that is left out when it is empty.
pub open spec fn table_field(key: Seq<char>, value: Seq<(Seq<char>, Seq<char>)>) -> Seq<
    (Seq<char>, ParamModel),
> {
    if value.len() == 0 {
        Seq::empty()
    } else {
        seq![(key, ParamModel::Table(value))]
    }
}

fn put_text(params: &mut Vec<(String, ParamValue)>, key: &str, value: &str)
    ensures
        params_view(final(params)@) == params_view(old(params)@) + text_field(key@, value@),
{
    params.push((key.to_owned(), ParamValue::Text(value.to_owned())));
    proof {
        assert(params_view(params@) =~= params_view(old(params)@) + text_field(key@, value@));
    }
}

fn put_flag(params: &mut Vec<(String, ParamValue)>, key: &str, value: bool)
    ensures
        params_view(final(params)@) == params_view(old(params)@) + flag_field(key@, value),
{
    params.push((key.to_owned(), ParamValue::Flag(value)));
    proof {
        assert(params_view(params@) =~= params_view(old(params)@) + flag_field(key@, value));
    }
}

fn put_opt(params: &mut Vec<(String, ParamValue)>, key: &str, value: &Option<String>)
    ensures
        params_view(final(params)@) == params_view(old(params)@) + opt_field(key@, opt_text(*value)),
{
    match value {
        Some(t) => put_text(params, key, t.as_str()),
        None => {
            proof {
                assert(params_view(params@) =~= params_view(old(params)@) + opt_field(
                    key@,
                    opt_text(*value),
                ));
            }
        },
    }
}

fn put_table(params: &mut Vec<(String, ParamValue)>, key: &str, value: &Vec<(String, String)>)
    ensures
        params_view(final(params)@) == params_view(old(params)@) + table_field(
            key@,
            pairs_view(value@),
        ),
{
    let n: usize = value.len();
    let mut copy: Vec<(String, String)> = Vec::new();
    let mut i: usize = 0;
    while i < n
        invariant
            i <= n,
            n == value@.len(),
            copy@ == value@.take(i as int),
        decreases n - i,
    {
        copy.push((value[i].0.clone(), value[i].1.clone()));
        proof {
            assert(copy@ =~= value@.take(i + 1));
        }
        i = i + 1;
    }
    proof {
        assert(copy@ =~= value@);
    }
    if n > 0 {
        params.push((key.to_owned(), ParamValue::Table(copy)));
    }
    proof {
        assert(params_view(params@) =~= params_view(old(params)@) + table_field(
            key@,
            pairs_view(value@),
        ));
    }
}

/// Parameters of `session.snapshot`: none.
#[derive(Debug)]
pub struct SessionSnapshotParams {}

impl SessionSnapshotParams {
    /// The parameters as they go on the wire.
    pub open spec fn shape(&self) -> Seq<(Seq<char>, ParamModel)> {
        Seq::empty()
    }

    /// The parameters as they go on the wire.
    pub fn fields(&self) -> (params: Vec<(String, ParamValue)>)
        ensures
            params_view(params@) == self.shape(),
    {
        let params: Vec<(String, ParamValue)> = Vec::new();
        proof {
            assert(params_view(params@) =~= Seq::<(Seq<char>, ParamModel)>::empty());
        }
        params
    }
}

/// Parameters of `ping`: none.
#[derive(Debug)]
pub struct PingParams {}

impl PingParams {
    /// The parameters as they go on the wire.
    pub open spec fn shape(&self) -> Seq<(Seq<char>, ParamModel)> {
        Seq::empty()
    }

    /// The parameters as they go on the wire.
    pub fn fields(&self) -> (params: Vec<(String, ParamValue)>)
        ensures
            params_view(params@) == self.shape(),
    {
        let params: Vec<(String, ParamValue)> = Vec::new();
        proof {
            assert(params_view(params@) =~= Seq::<(Seq<char>, ParamModel)>::empty());
        }
        params
    }
}

/// Parameters of `workspace.list`: none.
#[derive(Debug)]
pub struct WorkspaceListParams {}

impl WorkspaceListParams {
    /// The parameters as they go on the wire.
    pub open spec fn shape(&self) -> Seq<(Seq<char>, ParamModel)> {
        Seq::empty()
    }

    /// The parameters as they go on the wire.
    pub fn fields(&self) -> (params: Vec<(String, ParamValue)>)
        ensures
            params_view(params@) == self.shape(),
    {
        let params: Vec<(String, ParamValue)> = Vec::new();
        proof {
            assert(params_view(params@) =~= Seq::<(Seq<char>, ParamModel)>::empty());
        }
        params
    }
}

/// Parameters of `workspace.create`.
#[derive(Debug)]
pub struct WorkspaceCreateParams {
    pub cwd: Option<String>,
    pub focus: bool,
    pub label: Option<String>,
    pub env: Vec<(String, String)>,
}

impl WorkspaceCreateParams {
    /// The parameters as they go on the wire.
    pub open spec fn shape(&self) -> Seq<(Seq<char>, ParamModel)> {
        opt_field("cwd"@, opt_text(self.cwd))
            + flag_field("focus"@, self.focus)
            + opt_field("label"@, opt_text(self.label))
            + table_field("env"@, pairs_view(self.env@))
    }

    /// The parameters as they go on the wire.
    pub fn fields(&self) -> (params: Vec<(String, ParamValue)>)
        ensures
            params_view(params@) == self.shape(),
    {
        let mut params: Vec<(String, ParamValue)> = Vec::new();
        proof {
            assert(params_view(params@) =~= Seq::<(Seq<char>, ParamModel)>::empty());
        }
        put_opt(&mut params, "cwd", &self.cwd);
        put_flag(&mut params, "focus", self.focus);
        put_opt(&mut params, "label", &self.label);
        put_table(&mut params, "env", &self.env);
        proof {
            assert(params_view(params@) =~= self.shape());
        }
        params
    }
}

/// Parameters of `workspace.rename`.
#[derive(Debug)]
pub struct WorkspaceRenameParams {
    pub workspace_id: String,
    pub label: String,
}

impl WorkspaceRenameParams {
    /// The parameters as they go on the wire.
    pub open spec fn shape(&self) -> Seq<(Seq<char>, ParamModel)> {
        text_field("workspace_id"@, self.workspace_id@)
            + text_field("label"@, self.label@)
    }

    /// The parameters as they go on the wire.
    pub fn fields(&self) -> (params: Vec<(String, ParamValue)>)
        ensures
            params_view(params@) == self.shape(),
    {
        let mut params: Vec<(String, ParamValue)> = Vec::new();
        proof {
            assert(params_view(params@) =~= Seq::<(Seq<char>, ParamModel)>::empty());
        }
        put_text(&mut params, "workspace_id", self.workspace_id.as_str());
        put_text(&mut params, "label", self.label.as_str());
        proof {
            assert(params_view(params@) =~= self.shape());
        }
        params
    }
}

/// Parameters of `workspace.close`. The group flag is always sent, as the caller
/// gave it: herdr refuses a plain close of a worktree-group primary.
#[derive(Debug)]
pub struct WorkspaceCloseParams {
    pub workspace_id: String,
    pub close_group: bool,
}

impl WorkspaceCloseParams {
    /// The parameters as they go on the wire.
    pub open spec fn shape(&self) -> Seq<(Seq<char>, ParamModel)> {
        text_field("workspace_id"@, self.workspace_id@)
            + flag_field("close_group"@, self.close_group)
    }

    /// The parameters as they go on the wire.
    pub fn fields(&self) -> (params: Vec<(String, ParamValue)>)
        ensures
            params_view(params@) == self.shape(),
    {
        let mut params: Vec<(String, ParamValue)> = Vec::new();
        proof {
            assert(params_view(params@) =~= Seq::<(Seq<char>, ParamModel)>::empty());
        }
        put_text(&mut params, "workspace_id", self.workspace_id.as_str());
        put_flag(&mut params, "close_group", self.close_group);
        proof {
            assert(params_view(params@) =~= self.shape());
        }
        params
    }
}

/// Parameters of `tab.list` and `pane.list`.
#[derive(Debug)]
pub struct WorkspaceScopedParams {
    pub workspace_id: Option<String>,
}

impl WorkspaceScopedParams {
    /// The parameters as they go on the wire.
    pub open spec fn shape(&self) -> Seq<(Seq<char>, ParamModel)> {
        opt_field("workspace_id"@, opt_text(self.workspace_id))
    }

    /// The parameters as they go on the wire.
    pub fn fields(&self) -> (params: Vec<(String, ParamValue)>)
        ensures
            params_view(params@) == self.shape(),
    {
        let mut params: Vec<(String, ParamValue)> = Vec::new();
        proof {
            assert(params_view(params@) =~= Seq::<(Seq<char>, ParamModel)>::empty());
        }
        put_opt(&mut params, "workspace_id", &self.workspace_id);
        proof {
            assert(params_view(params@) =~= self.shape());
        }
        params
    }
}

/// Parameters of `tab.create`.
#[derive(Debug)]
pub struct TabCreateParams {
    pub workspace_id: Option<String>,
    pub cwd: Option<String>,
    pub focus: bool,
    pub label: Option<String>,
    pub env: Vec<(String, String)>,
}

impl TabCreateParams {
    /// The parameters as they go on the wire.
    pub open spec fn shape(&self) -> Seq<(Seq<char>, ParamModel)> {
        opt_field("workspace_id"@, opt_text(self.workspace_id))
            + opt_field("cwd"@, opt_text(self.cwd))
            + flag_field("focus"@, self.focus)
            + opt_field("label"@, opt_text(self.label))
            + table_field("env"@, pairs_view(self.env@))
    }

    /// The parameters as they go on the wire.
    pub fn fields(&self) -> (params: Vec<(String, ParamValue)>)
        ensures
            params_view(params@) == self.shape(),
    {
        let mut params: Vec<(String, ParamValue)> = Vec::new();
        proof {
            assert(params_view(params@) =~= Seq::<(Seq<char>, ParamModel)>::empty());
        }
        put_opt(&mut params, "workspace_id", &self.workspace_id);
        put_opt(&mut params, "cwd", &self.cwd);
        put_flag(&mut params, "focus", self.focus);
        put_opt(&mut params, "label", &self.label);
        put_table(&mut params, "env", &self.env);
        proof {
            assert(params_view(params@) =~= self.shape());
        }
        params
    }
}

/// Parameters of `tab.focus`.
#[derive(Debug)]
pub struct TabFocusParams {
    pub tab_id: String,
}

impl TabFocusParams {
    /// The parameters as they go on the wire.
    pub open spec fn shape(&self) -> Seq<(Seq<char>, ParamModel)> {
        text_field("tab_id"@, self.tab_id@)
    }

    /// The parameters as they go on the wire.
    pub fn fields(&self) -> (params: Vec<(String, ParamValue)>)
        ensures
            params_view(params@) == self.shape(),
    {
        let mut params: Vec<(String, ParamValue)> = Vec::new();
        proof {
            assert(params_view(params@) =~= Seq::<(Seq<char>, ParamModel)>::empty());
        }
        put_text(&mut params, "tab_id", self.tab_id.as_str());
        proof {
            assert(params_view(params@) =~= self.shape());
        }
        params
    }
}

/// Parameters of `tab.close`.
#[derive(Debug)]
pub struct TabCloseParams {
    pub tab_id: String,
}

impl TabCloseParams {
    /// The parameters as they go on the wire.
    pub open spec fn shape(&self) -> Seq<(Seq<char>, ParamModel)> {
        text_field("tab_id"@, self.tab_id@)
    }

    /// The parameters as they go on the wire.
    pub fn fields(&self) -> (params: Vec<(String, ParamValue)>)
        ensures
            params_view(params@) == self.shape(),
    {
        let mut params: Vec<(String, ParamValue)> = Vec::new();
        proof {
            assert(params_view(params@) =~= Seq::<(Seq<char>, ParamModel)>::empty());
        }
        put_text(&mut params, "tab_id", self.tab_id.as_str());
        proof {
            assert(params_view(params@) =~= self.shape());
        }
        params
    }
}

/// Parameters of `tab.rename`.
#[derive(Debug)]
pub struct TabRenameParams {
    pub tab_id: String,
    pub label: String,
}

impl TabRenameParams {
    /// The parameters as they go on the wire.
    pub open spec fn shape(&self) -> Seq<(Seq<char>, ParamModel)> {
        text_field("tab_id"@, self.tab_id@)
            + text_field("label"@, self.label@)
    }

    /// The parameters as they go on the wire.
    pub fn fields(&self) -> (params: Vec<(String, ParamValue)>)
        ensures
            params_view(params@) == self.shape(),
    {
        let mut params: Vec<(String, ParamValue)> = Vec::new();
        proof {
            assert(params_view(params@) =~= Seq::<(Seq<char>, ParamModel)>::empty());
        }
        put_text(&mut params, "tab_id", self.tab_id.as_str());
        put_text(&mut params, "label", self.label.as_str());
        proof {
            assert(params_view(params@) =~= self.shape());
        }
        params
    }
}

/// Parameters of `pane.split`; herdr picks the ratio.
#[derive(Debug)]
pub struct PaneSplitParams {
    pub workspace_id: Option<String>,
    pub target_pane_id: Option<String>,
    pub direction: SplitDirection,
    pub cwd: Option<String>,
    pub focus: bool,
    pub env: Vec<(String, String)>,
}

impl PaneSplitParams {
    /// The parameters as they go on the wire.
    pub open spec fn shape(&self) -> Seq<(Seq<char>, ParamModel)> {
        opt_field("workspace_id"@, opt_text(self.workspace_id))
            + opt_field("target_pane_id"@, opt_text(self.target_pane_id))
            + text_field("direction"@, self.direction.wire_name())
            + opt_field("cwd"@, opt_text(self.cwd))
            + flag_field("focus"@, self.focus)
            + table_field("env"@, pairs_view(self.env@))
    }

    /// The parameters as they go on the wire.
    pub fn fields(&self) -> (params: Vec<(String, ParamValue)>)
        ensures
            params_view(params@) == self.shape(),
    {
        let mut params: Vec<(String, ParamValue)> = Vec::new();
        proof {
            assert(params_view(params@) =~= Seq::<(Seq<char>, ParamModel)>::empty());
        }
        put_opt(&mut params, "workspace_id", &self.workspace_id);
        put_opt(&mut params, "target_pane_id", &self.target_pane_id);
        put_text(&mut params, "direction", self.direction.name());
        put_opt(&mut params, "cwd", &self.cwd);
        put_flag(&mut params, "focus", self.focus);
        put_table(&mut params, "env", &self.env);
        proof {
            assert(params_view(params@) =~= self.shape());
        }
        params
    }
}

/// Parameters of `pane.close`.
#[derive(Debug)]
pub struct PaneCloseParams {
    pub pane_id: String,
}

impl PaneCloseParams {
    /// The parameters as they go on the wire.
    pub open spec fn shape(&self) -> Seq<(Seq<char>, ParamModel)> {
        text_field("pane_id"@, self.pane_id@)
    }

    /// The parameters as they go on the wire.
    pub fn fields(&self) -> (params: Vec<(String, ParamValue)>)
        ensures
            params_view(params@) == self.shape(),
    {
        let mut params: Vec<(String, ParamValue)> = Vec::new();
        proof {
            assert(params_view(params@) =~= Seq::<(Seq<char>, ParamModel)>::empty());
        }
        put_text(&mut params, "pane_id", self.pane_id.as_str());
        proof {
            assert(params_view(params@) =~= self.shape());
        }
        params
    }
}

/// Parameters of `pane.rename`.
#[derive(Debug)]
pub struct PaneRenameParams {
    pub pane_id: String,
    pub label: Option<String>,
}

impl PaneRenameParams {
    /// The parameters as they go on the wire.
    pub open spec fn shape(&self) -> Seq<(Seq<char>, ParamModel)> {
        text_field("pane_id"@, self.pane_id@)
            + opt_field("label"@, opt_text(self.label))
    }

    /// The parameters as they go on the wire.
    pub fn fields(&self) -> (params: Vec<(String, ParamValue)>)
        ensures
            params_view(params@) == self.shape(),
    {
        let mut params: Vec<(String, ParamValue)> = Vec::new();
        proof {
            assert(params_view(params@) =~= Seq::<(Seq<char>, ParamModel)>::empty());
        }
        put_text(&mut params, "pane_id", self.pane_id.as_str());
        put_opt(&mut params, "label", &self.label);
        proof {
            assert(params_view(params@) =~= self.shape());
        }
        params
    }
}

/// Parameters of `pane.focus_direction`.
#[derive(Debug)]
pub struct PaneFocusDirectionParams {
    pub pane_id: Option<String>,
    pub direction: PaneDirection,
}

impl PaneFocusDirectionParams {
    /// The parameters as they go on the wire.
    pub open spec fn shape(&self) -> Seq<(Seq<char>, ParamModel)> {
        opt_field("pane_id"@, opt_text(self.pane_id))
            + text_field("direction"@, self.direction.wire_name())
    }

    /// The parameters as they go on the wire.
    pub fn fields(&self) -> (params: Vec<(String, ParamValue)>)
        ensures
            params_view(params@) == self.shape(),
    {
        let mut params: Vec<(String, ParamValue)> = Vec::new();
        proof {
            assert(params_view(params@) =~= Seq::<(Seq<char>, ParamModel)>::empty());
        }
        put_opt(&mut params, "pane_id", &self.pane_id);
        put_text(&mut params, "direction", self.direction.name());
        proof {
            assert(params_view(params@) =~= self.shape());
        }
        params
    }
}

/// Parameters of `pane.zoom`.
#[derive(Debug)]
pub struct PaneZoomParams {
    pub pane_id: Option<String>,
    pub mode: PaneZoomMode,
}

impl PaneZoomParams {
    /// The parameters as they go on the wire.
    pub open spec fn shape(&self) -> Seq<(Seq<char>, ParamModel)> {
        opt_field("pane_id"@, opt_text(self.pane_id))
            + text_field("mode"@, self.mode.wire_name())
    }

    /// The parameters as they go on the wire.
    pub fn fields(&self) -> (params: Vec<(String, ParamValue)>)
        ensures
            params_view(params@) == self.shape(),
    {
        let mut params: Vec<(String, ParamValue)> = Vec::new();
        proof {
            assert(params_view(params@) =~= Seq::<(Seq<char>, ParamModel)>::empty());
        }
        put_opt(&mut params, "pane_id", &self.pane_id);
        put_text(&mut params, "mode", self.mode.name());
        proof {
            assert(params_view(params@) =~= self.shape());
        }
        params
    }
}

/// Parameters of `pane.layout`.
#[derive(Debug)]
pub struct PaneLayoutParams {
    pub pane_id: Option<String>,
}

impl PaneLayoutParams {
    /// The parameters as they go on the wire.
    pub open spec fn shape(&self) -> Seq<(Seq<char>, ParamModel)> {
        opt_field("pane_id"@, opt_text(self.pane_id))
    }

    /// The parameters as they go on the wire.
    pub fn fields(&self) -> (params: Vec<(String, ParamValue)>)
        ensures
            params_view(params@) == self.shape(),
    {
        let mut params: Vec<(String, ParamValue)> = Vec::new();
        proof {
            assert(params_view(params@) =~= Seq::<(Seq<char>, ParamModel)>::empty());
        }
        put_opt(&mut params, "pane_id", &self.pane_id);
        proof {
            assert(params_view(params@) =~= self.shape());
        }
        params
    }
}

/// Parameters of `layout.export`.
#[derive(Debug)]
pub struct LayoutExportParams {
    pub tab_id: Option<String>,
    pub pane_id: Option<String>,
}

impl LayoutExportParams {
    /// The parameters as they go on the wire.
    pub open spec fn shape(&self) -> Seq<(Seq<char>, ParamModel)> {
        opt_field("tab_id"@, opt_text(self.tab_id))
            + opt_field("pane_id"@, opt_text(self.pane_id))
    }

    /// The parameters as they go on the wire.
    pub fn fields(&self) -> (params: Vec<(String, ParamValue)>)
        ensures
            params_view(params@) == self.shape(),
    {
        let mut params: Vec<(String, ParamValue)> = Vec::new();
        proof {
            assert(params_view(params@) =~= Seq::<(Seq<char>, ParamModel)>::empty());
        }
        put_opt(&mut params, "tab_id", &self.tab_id);
        put_opt(&mut params, "pane_id", &self.pane_id);
        proof {
            assert(params_view(params@) =~= self.shape());
        }
        params
    }
}

// ---------------------------------------------------------------------- enums

/// Direction of a pane split.
#[derive(Debug, Clone, Copy, PartialEq, Eq, Structural)]
pub enum SplitDirection {
    Right,
    Down,
}

impl SplitDirection {
    /// Its name on the wire.
    pub open spec fn wire_name(self) -> Seq<char> {
        match self {
            SplitDirection::Right => "right"@,
            SplitDirection::Down => "down"@,
        }
    }

    /// Its name on the wire.
    pub fn name(self) -> (n: &'static str)
        ensures
            n@ == self.wire_name(),
            self is Right ==> n@ == "right"@,
            self is Down ==> n@ == "down"@,
    {
        match self {
            SplitDirection::Right => "right",
            SplitDirection::Down => "down",
        }
    }
}

/// Direction of a focus movement.
#[derive(Debug, Clone, Copy, PartialEq, Eq, Structural)]
pub enum PaneDirection {
    Left,
    Right,
    Up,
    Down,
}

impl PaneDirection {
    /// Its name on the wire.
    pub open spec fn wire_name(self) -> Seq<char> {
        match self {
            PaneDirection::Left => "left"@,
            PaneDirection::Right => "right"@,
            PaneDirection::Up => "up"@,
            PaneDirection::Down => "down"@,
        }
    }

    /// Its name on the wire.
    pub fn name(self) -> (n: &'static str)
        ensures
            n@ == self.wire_name(),
            self is Left ==> n@ == "left"@,
            self is Right ==> n@ == "right"@,
            self is Up ==> n@ == "up"@,
            self is Down ==> n@ == "down"@,
    {
        match self {
            PaneDirection::Left => "left",
            PaneDirection::Right => "right",
            PaneDirection::Up => "up",
            PaneDirection::Down => "down",
        }
    }
}

/// Mode of a zoom.
#[derive(Debug, Clone, Copy, PartialEq, Eq, Structural)]
pub enum PaneZoomMode {
    Toggle,
    On,
    Off,
}

impl PaneZoomMode {
    /// Its name on the wire.
    pub open spec fn wire_name(self) -> Seq<char> {
        match self {
            PaneZoomMode::Toggle => "toggle"@,
            PaneZoomMode::On => "on"@,
            PaneZoomMode::Off => "off"@,
        }
    }

    /// Its name on the wire.
    pub fn name(self) -> (n: &'static str)
        ensures
            n@ == self.wire_name(),
            self is Toggle ==> n@ == "toggle"@,
            self is On ==> n@ == "on"@,
            self is Off ==> n@ == "off"@,
    {
        match self {
            PaneZoomMode::Toggle => "toggle",
            PaneZoomMode::On => "on",
            PaneZoomMode::Off => "off",
        }
    }
}

/// Activity of an agent, as herdr reports it.
#[derive(Debug, Clone, Copy, PartialEq, Eq, Structural)]
pub enum AgentStatus {
    Idle,
    Working,
    Blocked,
    Done,
    Unknown,
}

/// Kind of an agent session reference.
#[derive(Debug, Clone, Copy, PartialEq, Eq, Structural)]
pub enum AgentSessionRefKind {
    Id,
    Path,
}

// -------------------------------------------------------------------- records

/// Git worktree that a workspace was made from.
#[derive(Debug, Clone, PartialEq, Eq)]
pub struct WorkspaceWorktreeInfo {
    pub repo_key: String,
    pub repo_name: String,
    pub repo_root: String,
    pub checkout_path: String,
    pub is_linked_worktree: bool,
}

/// A workspace.
#[derive(Debug, Clone, PartialEq, Eq)]
pub struct WorkspaceInfo {
    pub workspace_id: String,
    pub number: usize,
    pub label: String,
    pub focused: bool,
    pub pane_count: usize,
    pub tab_count: usize,
    pub active_tab_id: String,
    pub agent_status: AgentStatus,
    pub worktree: Option<WorkspaceWorktreeInfo>,
}

/// A tab of a workspace.
#[derive(Debug, Clone, PartialEq, Eq)]
pub struct TabInfo {
    pub tab_id: String,
    pub workspace_id: String,
    pub number: usize,
    pub label: String,
    /// Whether this is the one tab that herdr as a whole has in focus.
    pub focused: bool,
    pub pane_count: usize,
    pub agent_status: AgentStatus,
}

/// Resume reference of an agent session.
#[derive(Debug, Clone, PartialEq, Eq)]
pub struct AgentSessionInfo {
    pub source: String,
    pub agent: String,
    pub kind: AgentSessionRefKind,
    pub value: String,
}

/// A pane of a tab.
#[derive(Debug, Clone, PartialEq, Eq)]
pub struct PaneInfo {
    pub pane_id: String,
    /// Attach key of the wire relay.
    pub terminal_id: String,
    pub workspace_id: String,
    pub tab_id: String,
    pub focused: bool,
    pub cwd: Option<String>,
    pub foreground_cwd: Option<String>,
    pub label: Option<String>,
    pub agent: Option<String>,
    pub title: Option<String>,
    pub display_agent: Option<String>,
    pub agent_status: AgentStatus,
    pub custom_status: Option<String>,
    pub state_labels: HashMap<String, String>,
    pub agent_session: Option<AgentSessionInfo>,
    pub revision: u64,
}

/// Rectangle in cells.
#[derive(Debug, Clone, Copy, PartialEq, Eq, Structural)]
pub struct PaneLayoutRect {
    pub x: u16,
    pub y: u16,
    pub width: u16,
    pub height: u16,
}

/// Place of a pane in its tab.
#[derive(Debug, Clone, PartialEq, Eq)]
pub struct PaneLayoutPane {
    pub pane_id: String,
    pub focused: bool,
    pub rect: PaneLayoutRect,
}

/// A split boundary.
#[derive(Debug, Clone, PartialEq, Eq)]
pub struct PaneLayoutSplit {
    pub id: String,
    pub direction: SplitDirection,
    /// Bit pattern of the ratio.
    pub ratio_bits: u32,
    pub rect: PaneLayoutRect,
}

/// All pane places of one tab.
#[derive(Debug, Clone, PartialEq, Eq)]
pub struct PaneLayoutSnapshot {
    pub workspace_id: String,
    pub tab_id: String,
    pub zoomed: bool,
    pub area: PaneLayoutRect,
    pub focused_pane_id: String,
    pub panes: Vec<PaneLayoutPane>,
    pub splits: Vec<PaneLayoutSplit>,
}

/// The whole daemon in one response.
#[derive(Debug, Clone, PartialEq, Eq)]
pub struct SessionSnapshot {
    pub version: String,
    pub protocol: u32,
    pub workspaces: Vec<WorkspaceInfo>,
    pub tabs: Vec<TabInfo>,
    pub panes: Vec<PaneInfo>,
    pub layouts: Vec<PaneLayoutSnapshot>,
}

/// Why a focus movement had no effect.
#[derive(Debug, Clone, Copy, PartialEq, Eq, Structural)]
pub enum PaneFocusDirectionReason {
    NoNeighbor,
}

/// Result of `pane.focus_direction`.
#[derive(Debug, Clone, PartialEq, Eq)]
pub struct PaneFocusDirectionResult {
    pub changed: bool,
    pub reason: Option<PaneFocusDirectionReason>,
    pub source_pane_id: String,
    pub focused_pane_id: Option<String>,
    pub layout: PaneLayoutSnapshot,
}

/// Why a zoom had no effect.
#[derive(Debug, Clone, Copy, PartialEq, Eq, Structural)]
pub enum PaneZoomReason {
    SinglePane,
    AlreadyZoomed,
    AlreadyUnzoomed,
}

/// Result of `pane.zoom`.
#[derive(Debug, Clone, PartialEq, Eq)]
pub struct PaneZoomResult {
    pub changed: bool,
    pub zoom_changed: bool,
    pub focus_changed: bool,
    pub reason: Option<PaneZoomReason>,
    pub pane_id: String,
    pub focused_pane_id: String,
    pub zoomed: bool,
    pub layout: PaneLayoutSnapshot,
}

/// A pane of an exported layout tree.
#[derive(Debug, Clone, PartialEq, Eq)]
pub struct LayoutPane {
    pub pane_id: Option<String>,
    pub label: Option<String>,
    pub cwd: Option<String>,
    pub command: Option<Vec<String>>,
    pub env: HashMap<String, String>,
}

/// A node of an exported layout tree.
#[derive(Debug, PartialEq, Eq)]
pub enum LayoutNode {
    Pane { pane: LayoutPane },
    Split {
        direction: SplitDirection,
        /// Bit pattern of the ratio.
        ratio_bits: u32,
        first: Box<LayoutNode>,
        second: Box<LayoutNode>,
    },
}

/// An exported layout.
#[derive(Debug, PartialEq, Eq)]
pub struct LayoutDescription {
    pub workspace_id: String,
    pub tab_id: String,
    pub zoomed: bool,
    pub focused_pane_id: String,
    pub root: LayoutNode,
}

// ------------------------------------------------------------------ responses

/// Why herdr refused a request.
#[derive(Debug, Clone, PartialEq, Eq)]
pub struct ApiErrorBody {
    pub code: String,
    pub message: String,
}

/// What `ping` tells about the server.
#[derive(Debug, Clone, PartialEq, Eq)]
pub struct HerdrServerInfo {
    /// Release version, for diagnostics.
    pub version: String,
    /// Wire protocol version to send in the handshake.
    pub protocol: u32,
}

/// The result of a request, by its type.
#[derive(Debug, PartialEq, Eq)]
#[allow(inconsistent_fields)]
pub enum ApiResult {
    Pong { version: String, protocol: u32, capabilities: HashMap<String, String> },
    SessionSnapshot { snapshot: Box<SessionSnapshot> },
    WorkspaceList { workspaces: Vec<WorkspaceInfo> },
    WorkspaceCreated { workspace: Box<WorkspaceInfo>, tab: Box<TabInfo>, root_pane: Box<PaneInfo> },
    WorkspaceInfo { workspace: Box<WorkspaceInfo> },
    TabCreated { tab: Box<TabInfo>, root_pane: Box<PaneInfo> },
    TabInfo { tab: Box<TabInfo> },
    TabList { tabs: Vec<TabInfo> },
    PaneInfo { pane: Box<PaneInfo> },
    PaneList { panes: Vec<PaneInfo> },
    PaneLayout { layout: PaneLayoutSnapshot },
    PaneFocusDirection { focus: Box<PaneFocusDirectionResult> },
    PaneZoom { zoom: Box<PaneZoomResult> },
    LayoutExport { layout: Box<LayoutDescription> },
    /// Success without a payload.
    Done {},
}

/// Body of a response: a result, or herdr's refusal.
#[derive(Debug, PartialEq, Eq)]
pub enum ApiResponseBody {
    /// The request succeeded. A result of no known type is an error only to a
    /// caller that reads it; then the text says why it could not be decoded.
    Success {
        result: Result<ApiResult, String>,
        /// The result in print, for an error that shows it.
        printed: String,
    },
    /// herdr refused.
    Failure { error: ApiErrorBody },
}

/// A response.
#[derive(Debug, PartialEq, Eq)]
pub struct ApiRawResponse {
    /// Identifier of the request.
    pub id: String,
    pub body: ApiResponseBody,
}

} // verus!
