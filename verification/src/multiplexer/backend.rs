//! What a multiplexer backend offers, and the set of backends that a server drives.

use vstd::prelude::*;
use vstd::string::*;

use super::types::{
    ActionAck, LayoutSnapshot, MuxMouseKind, MuxServerMsg, PaneRef, ResumeTarget,
};
use super::DualHandle;
use crate::seqs::{first_index, lemma_first_index, lemma_first_index_meaning};

verus! {

/// Kinds of backends.
#[derive(Debug, Clone, Copy, PartialEq, Eq, Structural)]
pub enum BackendKind {
    Zellij,
    Herdr,
}

/// Whether an entry is of this kind.
pub open spec fn of_kind<B>(kind: BackendKind) -> spec_fn((BackendKind, B)) -> bool {
    |e: (BackendKind, B)| e.0 == kind
}

/// The backends that a server drives, in the order in which they were detected. The
/// first one is the primary one; there always is one.
#[derive(Debug)]
pub struct BackendSet<B> {
    backends: Vec<(BackendKind, B)>,
}

impl<B> View for BackendSet<B> {
    type V = Seq<(BackendKind, B)>;

    closed spec fn view(&self) -> Seq<(BackendKind, B)> {
        self.backends@
    }
}

impl<B> BackendSet<B> {
    /// There is a backend.
    pub open spec fn wf(&self) -> bool {
        self@.len() > 0
    }

    /// A set of these backends, in this order.
    pub fn new(backends: Vec<(BackendKind, B)>) -> (s: Self)
        requires
            backends@.len() > 0,
        ensures
            s.wf(),
            s@ == backends@,
    {
        BackendSet { backends }
    }

    /// A set of one backend.
    pub fn single(kind: BackendKind, backend: B) -> (s: Self)
        ensures
            s.wf(),
            s@ == seq![(kind, backend)],
    {
        let mut backends: Vec<(BackendKind, B)> = Vec::new();
        backends.push((kind, backend));
        proof {
            assert(backends@ =~= seq![(kind, backend)]);
        }
        BackendSet::new(backends)
    }

    /// The first backend of a kind.
    pub fn get(&self, kind: BackendKind) -> (r: Option<&B>)
        ensures
            match r {
                Some(b) => first_index(self@, of_kind::<B>(kind)) < self@.len() && *b
                    == self@[first_index(self@, of_kind::<B>(kind))].1,
                None => first_index(self@, of_kind::<B>(kind)) == self@.len(),
            },
    {
        let n: usize = self.backends.len();
        let mut i: usize = 0;
        while i < n
            invariant
                i <= n,
                n == self@.len(),
                self@ == self.backends@,
                forall|j: int| 0 <= j < i ==> !of_kind::<B>(kind)(#[trigger] self@[j]),
            decreases n - i,
        {
            if self.backends[i].0 == kind {
                proof {
                    lemma_first_index(self@, of_kind::<B>(kind), i as int);
                }
                return Some(&self.backends[i].1);
            }
            i = i + 1;
        }
        proof {
            lemma_first_index(self@, of_kind::<B>(kind), n as int);
        }
        None
    }

    /// Every backend with its kind, in order.
    pub fn iter<'a>(&'a self) -> (r: Vec<(BackendKind, &'a B)>)
        ensures
            r@.len() == self@.len(),
            forall|i: int|
                0 <= i < r@.len() ==> (#[trigger] r@[i]).0 == self@[i].0 && *r@[i].1 == self@[i].1,
    {
        let mut r: Vec<(BackendKind, &'a B)> = Vec::new();
        let n: usize = self.backends.len();
        let mut i: usize = 0;
        while i < n
            invariant
                i <= n,
                n == self@.len(),
                self@ == self.backends@,
                r@.len() == i,
                forall|j: int|
                    0 <= j < i ==> (#[trigger] r@[j]).0 == self@[j].0 && *r@[j].1 == self@[j].1,
            decreases n - i,
        {
            r.push((self.backends[i].0, &self.backends[i].1));
            i = i + 1;
        }
        r
    }

    /// The kinds, in order.
    pub fn kinds(&self) -> (r: Vec<BackendKind>)
        ensures
            r@ == self@.map_values(|e: (BackendKind, B)| e.0),
    {
        let mut r: Vec<BackendKind> = Vec::new();
        let n: usize = self.backends.len();
        let mut i: usize = 0;
        while i < n
            invariant
                i <= n,
                n == self@.len(),
                self@ == self.backends@,
                r@.len() == i,
                forall|j: int| 0 <= j < i ==> #[trigger] r@[j] == self@[j].0,
            decreases n - i,
        {
            r.push(self.backends[i].0);
            i = i + 1;
        }
        proof {
            assert(r@ =~= self@.map_values(|e: (BackendKind, B)| e.0));
        }
        r
    }

    /// How many backends there are.
    pub fn len(&self) -> (n: usize)
        ensures
            n == self@.len(),
    {
        self.backends.len()
    }

    /// Whether there is no backend.
    pub fn is_empty(&self) -> (yes: bool)
        ensures
            yes == (self@.len() == 0),
    {
        self.backends.len() == 0
    }

    /// The first backend.
    pub fn primary(&self) -> (b: &B)
        requires
            self.wf(),
        ensures
            *b == self@[0].1,
    {
        &self.backends[0].1
    }
}

/// What an operation on spaces is answered by a backend that has none.
pub open spec fn unsupported_text(op: Seq<char>) -> Seq<char> {
    op + ": spaces are not supported on this backend"@
}

/// The answer to an operation on spaces by a backend that has none: a failure, so
/// that it is reported and not silently dropped.
pub fn space_unsupported_ack(op: &str) -> (a: ActionAck)
    ensures
        a.is_failure(unsupported_text(op@)),
{
    let text = op.to_owned().concat(": spaces are not supported on this backend");
    ActionAck { ok: false, error: Some(text), info: None }
}

/// A terminal-multiplexer backend. Every method blocks.
pub trait MuxBackend: Sized {
    /// The sending half of an attach.
    type Sender: MuxSender;

    /// The receiving half of an attach.
    type Receiver: MuxReceiver;

    /// A space.
    type Space;

    /// How a pane is resized.
    type Resize;

    /// How a pane is scrolled.
    type Scroll;

    /// Live sessions with their ages in seconds.
    fn list_sessions(&self) -> Result<Vec<(String, u64)>, String>;

    /// Live and resurrectable sessions: name, age in seconds, resurrectable or not.
    fn list_sessions_with_resurrectables(&self) -> Result<Vec<(String, u64, bool)>, String>;

    /// Whether a session may be called so; if not, why.
    fn validate_session_name(&self, name: &str) -> Result<(), String>;

    /// Creates a session, detached.
    fn create_session(&self, name: &str, layout: Option<String>) -> Result<ActionAck, String>;

    /// Kills a session.
    fn kill_session(&self, session: &str) -> Result<(), String>;

    /// Renames a session.
    fn rename_session(&self, session: &str, new_name: String) -> Result<ActionAck, String>;

    /// Sends bytes to a pane.
    fn write_to_pane(&self, session: &str, pane: PaneRef, bytes: Vec<u8>) -> Result<
        ActionAck,
        String,
    >;

    /// Moves the focus to a pane.
    fn focus_pane(&self, session: &str, pane: PaneRef) -> Result<ActionAck, String>;

    /// Closes a pane.
    fn close_pane(&self, session: &str, pane: PaneRef) -> Result<ActionAck, String>;

    /// Creates a pane in the active tab.
    fn new_pane(&self, session: &str, floating: bool, name: Option<String>) -> Result<
        ActionAck,
        String,
    >;

    /// Names a pane.
    fn rename_pane(&self, session: &str, pane: PaneRef, name: String) -> Result<ActionAck, String>;

    /// Resizes a pane.
    fn resize_pane(&self, session: &str, pane: PaneRef, resize: Self::Resize) -> Result<
        ActionAck,
        String,
    >;

    /// Floats a tiled pane, or tiles a floating one.
    fn toggle_pane_floating(&self, session: &str, pane: PaneRef) -> Result<ActionAck, String>;

    /// Makes a pane fill the screen, or ends that.
    fn toggle_pane_fullscreen(&self, session: &str, pane: PaneRef) -> Result<ActionAck, String>;

    /// Scrolls a pane.
    fn scroll_pane(&self, session: &str, pane: PaneRef, scroll: Self::Scroll) -> Result<
        ActionAck,
        String,
    >;

    /// Creates a tab.
    fn new_tab(&self, session: &str, name: Option<String>) -> Result<ActionAck, String>;

    /// Closes a tab.
    fn close_tab(&self, session: &str, tab_id: u64) -> Result<ActionAck, String>;

    /// Switches to a tab.
    fn go_to_tab(&self, session: &str, tab_id: u64) -> Result<ActionAck, String>;

    /// Names a tab.
    fn rename_tab(&self, session: &str, tab_id: u64, name: String) -> Result<ActionAck, String>;

    /// Whether the backend has spaces at all. Asking costs nothing.
    fn supports_spaces(&self) -> (yes: bool)
        default_ensures
            !yes,
    {
        false
    }

    /// The layout of a space of a session, or of the session. A backend without spaces
    /// gives the session's.
    fn query_layout_for_space(&self, session: &str, space_id: Option<&str>) -> (r: Result<
        LayoutSnapshot,
        String,
    >)
        default_ensures
            call_ensures(Self::query_layout, (self, session), r),
    {
        self.query_layout(session)
    }

    /// The spaces of a session. A backend without spaces has none.
    fn list_spaces(&self, session: &str) -> (r: Result<Vec<Self::Space>, String>)
        default_ensures
            r matches Ok(v) && v@.len() == 0,
    {
        Ok(Vec::new())
    }

    /// Creates a space.
    fn create_space(&self, label: Option<String>) -> (r: Result<ActionAck, String>)
        default_ensures
            r matches Ok(a) && a.is_failure(unsupported_text("create_space"@)),
    {
        Ok(space_unsupported_ack("create_space"))
    }

    /// Renames a space.
    fn rename_space(&self, space_id: &str, label: &str) -> (r: Result<ActionAck, String>)
        default_ensures
            r matches Ok(a) && a.is_failure(unsupported_text("rename_space"@)),
    {
        Ok(space_unsupported_ack("rename_space"))
    }

    /// Closes a space.
    fn close_space(&self, space_id: &str) -> (r: Result<ActionAck, String>)
        default_ensures
            r matches Ok(a) && a.is_failure(unsupported_text("close_space"@)),
    {
        Ok(space_unsupported_ack("close_space"))
    }

    /// The layout of a session.
    fn query_layout(&self, session: &str) -> Result<LayoutSnapshot, String>;

    /// Rows and columns of the active tab of a session.
    fn query_session_size(&self, session: &str) -> Result<(u16, u16), String>;

    /// Whether a pane floats, whether floating panes are shown, and which of them has
    /// the focus.
    fn pane_is_floating_with_visibility(&self, session: &str, pane: PaneRef) -> Result<
        (bool, bool, Option<PaneRef>),
        String,
    >;

    /// Attaches to a session at a size.
    fn open_attach(&self, session: &str, rows: u16, cols: u16, read_only: bool) -> Result<
        DualHandle<Self::Sender, Self::Receiver>,
        String,
    >;

    /// Attaches to a session where a client left off, as far as that can be had. A
    /// backend that cannot resume attaches as usual.
    fn open_attach_with_resume(
        &self,
        session: &str,
        rows: u16,
        cols: u16,
        read_only: bool,
        resume: &ResumeTarget,
    ) -> (r: Result<DualHandle<Self::Sender, Self::Receiver>, String>)
        default_ensures
            call_ensures(Self::open_attach, (self, session, rows, cols, read_only), r),
    {
        self.open_attach(session, rows, cols, read_only)
    }

    /// The backend's version.
    fn backend_version(&self) -> String;
}

/// The sending half of an attach.
pub trait MuxSender: Sized {
    /// What is known of a pane that is to fill the screen.
    type FullscreenHint;

    /// Shows a tab.
    fn go_to_tab(&mut self, tab_id: u64) -> Result<(), String>;

    /// Shows a pane.
    fn focus_pane(&mut self, pane: PaneRef) -> Result<(), String>;

    /// Shows a space, on this attach alone.
    fn switch_space(&mut self, space_id: &str) -> (r: Result<(), String>)
        default_ensures
            r matches Err(t) && t@ == "this backend does not support spaces"@,
    {
        Err("this backend does not support spaces".to_owned())
    }

    /// Makes a pane fill the screen, or ends that.
    fn toggle_fullscreen(&mut self, pane: PaneRef, hint: Self::FullscreenHint) -> Result<
        (),
        String,
    >;

    /// Whether the layout can be asked for outside of the stream. Asking costs nothing.
    fn has_sync_layout(&self) -> (yes: bool)
        default_ensures
            !yes,
    {
        false
    }

    /// The layout, if it can be asked for outside of the stream.
    fn query_layout_result(&mut self) -> (r: Option<Result<LayoutSnapshot, String>>)
        default_ensures
            r is None,
    {
        None
    }

    /// Asks for the layout on the stream.
    fn query_layout(&mut self) -> Result<(), String>;

    /// Types text into the focused pane.
    fn send_input_chars(&mut self, text: &str) -> Result<(), String>;

    /// Sends bytes to the focused pane.
    fn send_input_bytes(&mut self, bytes: Vec<u8>) -> Result<(), String>;

    /// Sends a mouse event.
    fn send_mouse(&mut self, kind: MuxMouseKind, col: u16, row: u16) -> Result<(), String>;

    /// Tells of a new size.
    fn send_resize(&mut self, rows: u16, cols: u16) -> Result<(), String>;

    /// Tells that the client leaves.
    fn send_client_exited(&mut self) -> Result<(), String>;

    /// Another sender on the same connection.
    fn box_clone(&self) -> Self;
}

/// The receiving half of an attach.
pub trait MuxReceiver: Sized {
    /// The next message; none when the stream is over.
    fn recv(&mut self) -> Option<MuxServerMsg>;
}

// ----------------------------------------------------------------------- laws

/// A backend is found by its kind exactly if there is one, and then it is the one that was
/// detected before the others of its kind.
pub proof fn law_the_first_of_a_kind_is_found<B>(
    s: &BackendSet<B>,
    kind: BackendKind,
    r: Option<&B>,
)
    requires
        call_ensures(BackendSet::<B>::get, (s, kind), r),
    ensures
        r is None ==> forall|i: int| 0 <= i < s@.len() ==> (#[trigger] s@[i]).0 != kind,
        r matches Some(b) ==> exists|i: int|
            0 <= i < s@.len() && (#[trigger] s@[i]).0 == kind && s@[i].1 == *b && forall|j: int|
                0 <= j < i ==> (#[trigger] s@[j]).0 != kind,
{
    let p = of_kind::<B>(kind);
    lemma_first_index_meaning(s@, p);
    let k = first_index(s@, p);
    if k < s@.len() {
        assert(p(s@[k]));
        assert forall|j: int| 0 <= j < k implies (#[trigger] s@[j]).0 != kind by {
            assert(!p(s@[j]));
        }
    } else {
        assert forall|i: int| 0 <= i < s@.len() implies (#[trigger] s@[i]).0 != kind by {
            assert(!p(s@[i]));
        }
    }
}

/// A set keeps its backends in the order in which they were given: the first is the primary
/// one, and each is told with its kind, as many as there are.
pub proof fn law_backends_keep_their_order<B>(
    backends: Vec<(BackendKind, B)>,
    s: BackendSet<B>,
    primary: &B,
    kinds: Vec<BackendKind>,
    n: usize,
    empty: bool,
)
    requires
        backends@.len() > 0,
        call_ensures(BackendSet::<B>::new, (backends,), s),
        call_ensures(BackendSet::<B>::primary, (&s,), primary),
        call_ensures(BackendSet::<B>::kinds, (&s,), kinds),
        call_ensures(BackendSet::<B>::len, (&s,), n),
        call_ensures(BackendSet::<B>::is_empty, (&s,), empty),
    ensures
        *primary == backends@[0].1,
        kinds@.len() == backends@.len(),
        forall|i: int| 0 <= i < backends@.len() ==> #[trigger] kinds@[i] == backends@[i].0,
        n == backends@.len(),
        !empty,
{
}

/// A set of one backend has it as the primary one and finds it under its kind alone.
pub proof fn law_a_single_backend_is_the_primary_one<B>(
    kind: BackendKind,
    backend: B,
    s: BackendSet<B>,
    primary: &B,
    asked: BackendKind,
    found: Option<&B>,
)
    requires
        call_ensures(BackendSet::<B>::single, (kind, backend), s),
        call_ensures(BackendSet::<B>::primary, (&s,), primary),
        call_ensures(BackendSet::<B>::get, (&s, asked), found),
    ensures
        *primary == backend,
        found is Some <==> asked == kind,
        found matches Some(b) ==> *b == backend,
{
    law_the_first_of_a_kind_is_found(&s, asked, found);
    assert(s@[0] == (kind, backend));
}

/// An operation on spaces that a backend does not have is answered with a failure that
/// names the operation.
pub proof fn law_an_unsupported_operation_is_named(op: &str, a: ActionAck)
    requires
        call_ensures(space_unsupported_ack, (op,), a),
    ensures
        !a.ok,
        a.error matches Some(t) && t@ == op@ + ": spaces are not supported on this backend"@,
        a.info is None,
{
}

/// Every backend is walked through with its kind, in the order in which it was detected.
pub proof fn law_every_backend_is_walked_through<'a, B>(
    s: &'a BackendSet<B>,
    r: Vec<(BackendKind, &'a B)>,
)
    requires
        call_ensures(BackendSet::<B>::iter, (s,), r),
    ensures
        r@.len() == s@.len(),
        forall|i: int| 0 <= i < s@.len() ==> (#[trigger] r@[i]).0 == s@[i].0 && *r@[i].1 == s@[i].1,
{
}

} // verus!
