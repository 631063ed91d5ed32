//! The language-server state and its event loop decisions.
//!
//! Every transition is a function from state and event to next state and a
//! list of [`Action`]s.  The surrounding process performs the actions —
//! sending messages, sleeping, running discovery and compiles on workers —
//! and feeds what comes back in as further events.

use vstd::prelude::*;
use crate::analysis::DBState;
use crate::assoc::AssocMap;
use crate::diagnostics::Diagnostic;
use crate::requests::{Request, RequestId, RequestQueue, Response};
use crate::types::{
    ChangeKind, CompileUnitOptions, FileId, OpenFileInfo, WorkspaceKey, WorkspaceKeyView,
};
use crate::vfs::Vfs;

verus! {

/// One place a word occurs.
#[derive(Debug)]
pub struct Location {
    pub file: String,
    pub start: crate::diagnostics::Pos,
    pub end: crate::diagnostics::Pos,
}

/// Identifier to the places it occurs, for one folder.
pub type WordIndex = AssocMap<String, Vec<Location>>;

/// A notification, inbound from the editor or outbound to it.
#[derive(Debug)]
pub enum Notification {
    DidOpen { path: String, text: String },
    DidChange { path: String, text: String },
    DidClose { path: String },
    Exit,
    PublishDiagnostics { uri: String, diags: Vec<Diagnostic> },
    LogMessage { message: String },
    Other { method: String },
}

/// A message on the client channel.
#[derive(Debug)]
pub enum Message {
    Request(Request),
    Response(Response),
    Notification(Notification),
}

/// Something a background task sends to the event loop.
#[derive(Debug)]
pub enum Task {
    Response(Response),
    Notify(Notification),
    Retry(Request),
    ChangedFile(FileId, ChangeKind),
}

/// What the event loop multiplexes: client messages and internal tasks.
#[derive(Debug)]
pub enum Event {
    Task(Task),
    Lsp(Message),
}

/// What the surrounding process must do after a transition, in order.
#[derive(Debug)]
pub enum Action {
    /// Send a response to the client.
    SendResponse(Response),
    /// Send a notification to the client.
    SendNotification(Notification),
    /// Log that a request finished, with its elapsed time in microseconds.
    LogCompleted { method: String, elapsed: u64 },
    /// Run the handler for a request, synchronously or on a worker.
    Dispatch(Request),
    /// Sleep the coarse backoff delay before acting on what follows.
    Backoff,
    /// Put a task back on the task bus.
    PostTask(Task),
    /// Run one compile job on a worker: `compile_begin`, the compiler
    /// capability, then `compile_finish`.
    ScheduleCompile {
        workspace: WorkspaceKey,
        opts: CompileUnitOptions,
        file_id: Option<FileId>,
        temp: bool,
    },
    /// Run workspace discovery for a path and feed the result to
    /// `process_discovery`.
    Discover { path: String, file_id: Option<FileId> },
    /// Scan a folder and feed the built word index to `set_word_index`.
    BuildWordIndex { folder: String },
}

/// State of the language server's coordination core.
pub struct LanguageServerState {
    /// True once the client requested shutdown; the loop still runs until
    /// `Exit`.
    pub shutdown_requested: bool,
    /// The virtual filesystem with its pending-change queue.
    pub vfs: Vfs,
    /// Workspace registry: key to database state.
    pub workspaces: AssocMap<WorkspaceKey, DBState>,
    /// Files the editor holds open, with the workspaces that own them.
    pub opened_files: AssocMap<FileId, OpenFileInfo>,
    /// Loose files: `None` while classification is in flight, then the
    /// temporary workspace compiled for the file.
    pub temporary_workspace: AssocMap<FileId, Option<WorkspaceKey>>,
    /// The compile-unit options last used for each workspace, written
    /// before the compile job is enqueued.
    pub workspace_config_cache: AssocMap<WorkspaceKey, CompileUnitOptions>,
    /// In-flight client requests.
    pub request_queue: RequestQueue,
    /// Retries seen per request id, kept for observability.
    pub request_retry: AssocMap<RequestId, u64>,
    /// Word index per workspace folder.
    pub word_index_map: AssocMap<String, WordIndex>,
    /// The folders the client handed over at initialization.
    pub workspace_folders: Vec<String>,
}

/// Whether every workspace in `ws` has an entry in the config cache `cfg`.
pub open spec fn list_configured(
    cfg: Map<WorkspaceKeyView, CompileUnitOptions>,
    ws: Seq<WorkspaceKey>,
) -> bool {
    forall|j: int| 0 <= j < ws.len() ==> cfg.contains_key((#[trigger] ws[j])@)
}

/// For every key but `w`, `m2` holds exactly the mappings of `m1`.
pub open spec fn keeps_except<K, V>(m1: Map<K, V>, m2: Map<K, V>, w: K) -> bool {
    forall|k: K|
        #![trigger m1.contains_key(k)]
        #![trigger m2.contains_key(k)]
        k != w ==> (m1.contains_key(k) <==> m2.contains_key(k)) && (m1.contains_key(k)
            ==> m2[k] == m1[k])
}

impl LanguageServerState {
    /// Every compiling or ready workspace has its options cached
    /// (invariant relied on by the modify path).
    pub open spec fn registry_configured(self) -> bool {
        forall|w: WorkspaceKeyView|
            self.workspaces@.contains_key(w) ==> ((#[trigger] self.workspaces@[w]) is Init
                || self.workspace_config_cache@.contains_key(w))
    }

    /// Every workspace recorded as owning an open file has its options
    /// cached.
    pub open spec fn opened_configured(self) -> bool {
        forall|f: FileId|
            self.opened_files@.contains_key(f) ==> list_configured(
                self.workspace_config_cache@,
                (#[trigger] self.opened_files@[f]).workspaces@,
            )
    }

    /// Every resolved temporary workspace has its options cached.
    pub open spec fn temp_configured(self) -> bool {
        forall|f: FileId|
            self.temporary_workspace@.contains_key(f) ==> match (
            #[trigger] self.temporary_workspace@[f]) {
                Some(w) => self.workspace_config_cache@.contains_key(w@),
                None => true,
            }
    }

    /// Pending `Create` and `Modify` changes belong to files the editor
    /// holds open; the drain relies on it.
    pub open spec fn pending_open(self) -> bool {
        forall|i: int|
            0 <= i < self.vfs.pending@.len() ==> ((#[trigger] self.vfs.pending@[i]).kind is Delete
                || self.opened_files@.contains_key(self.vfs.pending@[i].file_id))
    }

    pub open spec fn wf(self) -> bool {
        &&& self.vfs.wf()
        &&& self.workspaces.wf()
        &&& forall|w: WorkspaceKeyView|
            self.workspaces@.contains_key(w) ==> (#[trigger] self.workspaces@[w]).wf()
        &&& self.opened_files.wf()
        &&& forall|f: FileId|
            self.opened_files@.contains_key(f) ==> (#[trigger] self.opened_files@[f]).wf()
        &&& self.temporary_workspace.wf()
        &&& self.workspace_config_cache.wf()
        &&& self.request_queue.wf()
        &&& self.request_retry.wf()
        &&& self.word_index_map.wf()
        &&& self.registry_configured()
        &&& self.opened_configured()
        &&& self.temp_configured()
        &&& self.pending_open()
    }

    /// A fresh state for the given workspace folders, together with the
    /// actions that start it up: workspace discovery and word-index builds
    /// for each folder.
    pub fn new(workspace_folders: Vec<String>) -> (r: (Self, Vec<Action>))
        ensures
            r.0.wf(),
            !r.0.shutdown_requested,
            r.0.vfs.paths@ =~= Map::<FileId, String>::empty(),
            r.0.vfs.contents@ =~= Map::<FileId, String>::empty(),
            r.0.vfs.pending@ =~= Seq::<crate::types::ChangedFile>::empty(),
            r.0.vfs.next_id == 0,
            r.0.workspaces@ =~= Map::<WorkspaceKeyView, DBState>::empty(),
            r.0.opened_files@ =~= Map::<FileId, OpenFileInfo>::empty(),
            r.0.temporary_workspace@ =~= Map::<FileId, Option<WorkspaceKey>>::empty(),
            r.0.workspace_config_cache@ =~= Map::<WorkspaceKeyView, CompileUnitOptions>::empty(),
            r.0.request_queue.incoming@ =~= Map::<RequestId, crate::requests::ReqEntry>::empty(),
            r.0.request_queue.outgoing@ =~= Map::<RequestId, crate::requests::ReqEntry>::empty(),
            r.0.request_retry@ =~= Map::<RequestId, u64>::empty(),
            r.0.word_index_map@ =~= Map::<Seq<char>, WordIndex>::empty(),
            r.0.workspace_folders@ == workspace_folders@,
            r.1@.len() == 2 * workspace_folders@.len(),
            forall|i: int|
                0 <= i < workspace_folders@.len() ==> match #[trigger] r.1@[2 * i] {
                    Action::Discover { path, file_id } => path@ == workspace_folders@[i]@
                        && file_id is None,
                    _ => false,
                } && match r.1@[2 * i + 1] {
                    Action::BuildWordIndex { folder } => folder@ == workspace_folders@[i]@,
                    _ => false,
                },
    {
        let state = LanguageServerState {
            shutdown_requested: false,
            vfs: Vfs::new(),
            workspaces: AssocMap::new(),
            opened_files: AssocMap::new(),
            temporary_workspace: AssocMap::new(),
            workspace_config_cache: AssocMap::new(),
            request_queue: RequestQueue::new(),
            request_retry: AssocMap::new(),
            word_index_map: AssocMap::new(),
            workspace_folders,
        };
        let mut acts: Vec<Action> = Vec::new();
        let n = state.workspace_folders.len();
        let mut i: usize = 0;
        while i < n
            invariant
                n == state.workspace_folders@.len(),
                i <= n,
                acts@.len() == 2 * i,
                forall|j: int|
                    0 <= j < i ==> match #[trigger] acts@[2 * j] {
                        Action::Discover { path, file_id } => path@ == state.workspace_folders@[j]@
                            && file_id is None,
                        _ => false,
                    } && match acts@[2 * j + 1] {
                        Action::BuildWordIndex { folder } => folder@
                            == state.workspace_folders@[j]@,
                        _ => false,
                    },
            decreases n - i,
        {
            acts.push(
                Action::Discover { path: state.workspace_folders[i].clone(), file_id: None },
            );
            acts.push(
                Action::BuildWordIndex { folder: state.workspace_folders[i].clone() },
            );
            i = i + 1;
        }
        (state, acts)
    }

    /// The action that logs a message through the client channel.
    pub fn log_message(&self, message: String) -> (a: Action)
        ensures
            (a matches Action::SendNotification(Notification::LogMessage { message: m }) && m
                == message),
    {
        Action::SendNotification(Notification::LogMessage { message })
    }

    /// Record an incoming request: its method and arrival instant.  A
    /// second registration of the same id replaces the entry, as a retry
    /// re-entering request handling does.
    pub fn register_request(&mut self, request: &Request, request_received: u64)
        requires
            old(self).wf(),
        ensures
            final(self).wf(),
            final(self).request_queue.incoming@ =~= old(self).request_queue.incoming@.insert(
                request.id,
                crate::requests::ReqEntry {
                    method: final(self).request_queue.incoming@[request.id].method,
                    received: request_received,
                },
            ),
            final(self).request_queue.incoming@[request.id].method@ == request.method@,
            final(self).request_queue.outgoing@ == old(self).request_queue.outgoing@,
            *final(self) == (LanguageServerState {
                request_queue: final(self).request_queue,
                ..*old(self)
            }),
    {
        self.request_queue.register(request.id, request.method.clone(), request_received);
    }

    /// Whether a request was answered or cancelled already.
    pub fn is_completed(&self, request: &Request) -> (r: bool)
        requires
            self.wf(),
        ensures
            r == !self.request_queue.incoming@.contains_key(request.id),
    {
        self.request_queue.is_completed(request.id)
    }

    /// Answer a request: if it is still in flight, complete it, send the
    /// response and log the elapsed time; a late or cancelled response is
    /// discarded.
    pub fn respond(&mut self, response: Response, now: u64) -> (acts: Vec<Action>)
        requires
            old(self).wf(),
        ensures
            final(self).wf(),
            final(self).request_queue.incoming@ =~= old(self).request_queue.incoming@.remove(
                response.id,
            ),
            final(self).request_queue.outgoing@ == old(self).request_queue.outgoing@,
            *final(self) == (LanguageServerState {
                request_queue: final(self).request_queue,
                ..*old(self)
            }),
            old(self).request_queue.incoming@.contains_key(response.id) ==> acts@.len() == 2
                && (acts@[0] matches Action::SendResponse(rp) && rp@ == response@) && (acts@[1]
                matches Action::LogCompleted { method, elapsed } && method@ == old(
                self,
            ).request_queue.incoming@[response.id].method@ && elapsed == (
            if now >= old(self).request_queue.incoming@[response.id].received {
                now - old(self).request_queue.incoming@[response.id].received
            } else {
                0
            })),
            !old(self).request_queue.incoming@.contains_key(response.id) ==> acts@.len() == 0,
    {
        let id = response.id;
        match self.request_queue.complete(id) {
            Some(entry) => {
                let elapsed = if now >= entry.received {
                    now - entry.received
                } else {
                    0
                };
                let mut acts: Vec<Action> = Vec::new();
                acts.push(Action::SendResponse(response));
                acts.push(Action::LogCompleted { method: entry.method, elapsed });
                acts
            },
            None => Vec::new(),
        }
    }

    /// Install the word index built for a folder, replacing any previous
    /// one.
    pub fn set_word_index(&mut self, folder: String, index: WordIndex)
        requires
            old(self).wf(),
        ensures
            final(self).wf(),
            final(self).word_index_map@ =~= old(self).word_index_map@.insert(folder@, index),
            *final(self) == (LanguageServerState {
                word_index_map: final(self).word_index_map,
                ..*old(self)
            }),
    {
        self.word_index_map.insert(folder, index);
    }
}

} // verus!
