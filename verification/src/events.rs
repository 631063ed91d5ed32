//! The event loop's dispatch: editor notifications feed the virtual
//! filesystem, tasks from workers feed responses and retries, and after
//! every event the pending changes are drained.

use vstd::prelude::*;
use crate::analysis::DBState;
use crate::changed::change_step;
use crate::assoc::AssocMap;
use crate::requests::{Request, RequestId, Response};
use crate::state::{
    keeps_except, Action, Event, LanguageServerState, Message, Notification, Task, WordIndex,
};
use crate::types::{ChangeKind, ChangedFile, CompileUnitOptions, FileId, OpenFileInfo, WorkspaceKey};
use crate::vfs::Vfs;

verus! {

/// A cheap, consistent read view for worker threads: the shared parts of
/// the state, borrowed, not copied.
pub struct LanguageServerSnapshot<'a> {
    pub vfs: &'a Vfs,
    pub workspaces: &'a AssocMap<WorkspaceKey, DBState>,
    pub opened_files: &'a AssocMap<FileId, OpenFileInfo>,
    pub request_retry: &'a AssocMap<RequestId, u64>,
    pub word_index_map: &'a AssocMap<String, WordIndex>,
    pub temporary_workspace: &'a AssocMap<FileId, Option<WorkspaceKey>>,
}

/// Whether an event ends the loop: the client's exit notification.
pub fn is_exit(event: &Event) -> (r: bool)
    ensures
        r == (event matches Event::Lsp(Message::Notification(Notification::Exit))),
{
    match event {
        Event::Lsp(Message::Notification(Notification::Exit)) => true,
        _ => false,
    }
}

/// The drained changes step the state one after the other, each consuming
/// its own slice of the action list, oldest change first.
pub open spec fn drain_steps(
    pre: LanguageServerState,
    post: LanguageServerState,
    changes: Seq<ChangedFile>,
    acts: Seq<Action>,
) -> bool
    decreases changes.len(),
{
    if changes.len() == 0 {
        post == pre && acts.len() == 0
    } else {
        exists|mid: LanguageServerState, k: int|
            0 <= k <= acts.len() && #[trigger] change_step(pre, mid, changes.first(), acts.take(k))
                && drain_steps(mid, post, changes.drop_first(), acts.skip(k))
    }
}

/// A chain of steps grows at the back: one more step after a chain is a
/// chain over one more change.
pub proof fn lemma_drain_snoc(
    pre: LanguageServerState,
    mid: LanguageServerState,
    post: LanguageServerState,
    cs: Seq<ChangedFile>,
    x: ChangedFile,
    acts1: Seq<Action>,
    acts2: Seq<Action>,
)
    requires
        drain_steps(pre, mid, cs, acts1),
        change_step(mid, post, x, acts2),
    ensures
        drain_steps(pre, post, cs.push(x), acts1 + acts2),
    decreases cs.len(),
{
    let all = acts1 + acts2;
    if cs.len() == 0 {
        assert(mid == pre);
        assert(all =~= acts2);
        assert(all == acts2);
        assert(cs.push(x).first() == x);
        assert(cs.push(x).drop_first() =~= Seq::<ChangedFile>::empty());
        let k = acts2.len() as int;
        assert(all.take(k) =~= acts2);
        assert(all.take(k) == acts2);
        assert(all.skip(k) =~= Seq::<Action>::empty());
        assert(change_step(pre, post, cs.push(x).first(), all.take(k)));
        assert(drain_steps(post, post, cs.push(x).drop_first(), all.skip(k)));
    } else {
        let (m0, k0): (LanguageServerState, int) = choose|m0: LanguageServerState, k0: int|
            0 <= k0 <= acts1.len() && #[trigger] change_step(pre, m0, cs.first(), acts1.take(k0))
                && drain_steps(m0, mid, cs.drop_first(), acts1.skip(k0));
        lemma_drain_snoc(m0, mid, post, cs.drop_first(), x, acts1.skip(k0), acts2);
        assert(cs.push(x).first() == cs.first());
        assert(cs.push(x).drop_first() =~= cs.drop_first().push(x));
        assert(all.take(k0) =~= acts1.take(k0));
        assert(all.take(k0) == acts1.take(k0));
        assert(all.skip(k0) =~= acts1.skip(k0) + acts2);
        assert(all.skip(k0) == acts1.skip(k0) + acts2);
        assert(change_step(pre, m0, cs.push(x).first(), all.take(k0)));
        assert(drain_steps(m0, post, cs.push(x).drop_first(), all.skip(k0)));
    }
}

/// The state and actions a full drain produces: starting from `pre` with
/// the queue already taken, the pending changes step the state to `post`
/// with exactly `acts` as the scheduled follow-up.
pub open spec fn drained_from(
    pre: LanguageServerState,
    post: LanguageServerState,
    acts: Seq<Action>,
) -> bool {
    exists|s0: LanguageServerState|
        {
            &&& s0.vfs.pending@ =~= Seq::<ChangedFile>::empty()
            &&& s0.vfs.paths@ == pre.vfs.paths@
            &&& s0.vfs.contents@ == pre.vfs.contents@
            &&& s0.vfs.next_id == pre.vfs.next_id
            &&& s0 == (LanguageServerState { vfs: s0.vfs, ..pre })
            &&& #[trigger] drain_steps(s0, post, pre.vfs.pending@, acts)
        }
}

/// How one editor notification steps the state: open interns the path,
/// stores the buffer, opens the file and queues `Create`; change stores
/// the buffer and queues `Modify` for the already-interned id; close
/// drops buffer and open entry and queues `Delete`; everything else
/// changes nothing.
pub open spec fn note_step(
    pre: LanguageServerState,
    post: LanguageServerState,
    not: Notification,
) -> bool {
    match not {
        Notification::DidOpen { path, text } => exists|id: FileId|
            {
                &&& #[trigger] post.vfs.paths@.contains_key(id)
                &&& post.vfs.paths@[id]@ == path@
                &&& post.opened_files@.contains_key(id)
                &&& keeps_except(pre.opened_files@, post.opened_files@, id)
                &&& post.opened_files@[id]@ =~= Seq::empty()
                &&& post.vfs.pending@ =~= seq![
                    ChangedFile { file_id: id, kind: ChangeKind::Create },
                ]
                &&& post.vfs.contents@ =~= pre.vfs.contents@.insert(id, text)
            },
        Notification::DidChange { path, text } => exists|id: FileId|
            {
                &&& pre.vfs.paths@.contains_key(id)
                &&& (#[trigger] pre.vfs.paths@[id])@ == path@
                &&& post.opened_files@ == pre.opened_files@
                &&& post.vfs.pending@ =~= seq![
                    ChangedFile { file_id: id, kind: ChangeKind::Modify },
                ]
                &&& post.vfs.contents@ =~= pre.vfs.contents@.insert(id, text)
            },
        Notification::DidClose { path } => exists|id: FileId|
            {
                &&& #[trigger] post.vfs.paths@.contains_key(id)
                &&& post.vfs.paths@[id]@ == path@
                &&& post.opened_files@ =~= pre.opened_files@.remove(id)
                &&& post.vfs.pending@ =~= seq![
                    ChangedFile { file_id: id, kind: ChangeKind::Delete },
                ]
                &&& post.vfs.contents@ =~= pre.vfs.contents@.remove(id)
            },
        _ => post == pre,
    }
}

/// How one task steps the state and what it asks of the process: a
/// notification forwarded unchanged, a response completed and answered
/// with its timing log, a retry backed off and re-dispatched (or dropped
/// once completed), a changed-file task backed off and then classified
/// exactly as the change pipeline does.
pub open spec fn task_step(
    pre: LanguageServerState,
    post: LanguageServerState,
    task: Task,
    now: u64,
    acts: Seq<Action>,
) -> bool {
    match task {
        Task::Notify(n) => acts =~= seq![Action::SendNotification(n)] && post == pre,
        Task::Response(resp) => {
            &&& post == (LanguageServerState { request_queue: post.request_queue, ..pre })
            &&& post.request_queue.incoming@ =~= pre.request_queue.incoming@.remove(resp.id)
            &&& post.request_queue.outgoing@ == pre.request_queue.outgoing@
            &&& (pre.request_queue.incoming@.contains_key(resp.id) ==> acts.len() == 2 && (acts[0]
                matches Action::SendResponse(rp) && rp@ == resp@) && (acts[1]
                matches Action::LogCompleted { method, elapsed } && method@
                == pre.request_queue.incoming@[resp.id].method@ && elapsed == (
            if now >= pre.request_queue.incoming@[resp.id].received {
                now - pre.request_queue.incoming@[resp.id].received
            } else {
                0
            })))
            &&& (!pre.request_queue.incoming@.contains_key(resp.id) ==> acts.len() == 0)
        },
        Task::Retry(req) => {
            if pre.request_queue.incoming@.contains_key(req.id) {
                &&& acts.len() == 2
                &&& acts[0] == Action::Backoff
                &&& (acts[1] matches Action::Dispatch(r) && r@ == req@)
                &&& post == (LanguageServerState { request_queue: post.request_queue, ..pre })
                &&& post.request_queue.incoming@.contains_key(req.id)
                &&& post.request_queue.incoming@[req.id].method@ == req.method@
                &&& post.request_queue.incoming@[req.id].received == now
                &&& keeps_except(
                    pre.request_queue.incoming@,
                    post.request_queue.incoming@,
                    req.id,
                )
                &&& post.request_queue.outgoing@ == pre.request_queue.outgoing@
            } else {
                acts.len() == 0 && post == pre
            }
        },
        Task::ChangedFile(fid, kind) => acts.len() >= 1 && acts[0] == Action::Backoff
            && change_step(pre, post, (ChangedFile { file_id: fid, kind }), acts.skip(1)),
    }
}

impl LanguageServerState {
    /// Whether the path is known to the filesystem and every file id it
    /// maps to is held open: what the editor guarantees for a buffer it
    /// reports changes for.
    pub open spec fn path_open(self, path: Seq<char>) -> bool {
        &&& exists|k: FileId|
            self.vfs.paths@.contains_key(k) && (#[trigger] self.vfs.paths@[k])@ == path
        &&& forall|k: FileId|
            self.vfs.paths@.contains_key(k) && (#[trigger] self.vfs.paths@[k])@ == path
                ==> self.opened_files@.contains_key(k)
    }

    /// What the event loop may be handed: a classification retry only
    /// for a file still open, a buffer change only for an open document.
    pub open spec fn event_ok(self, event: Event) -> bool {
        match event {
            Event::Task(Task::ChangedFile(fid, kind)) => !(kind is Delete)
                ==> self.opened_files@.contains_key(fid),
            Event::Lsp(Message::Notification(Notification::DidChange { path, text: _ })) => self
                .path_open(path@) && self.vfs.next_id < 0xffff_ffff_ffff_ffff,
            Event::Lsp(Message::Notification(Notification::DidOpen { .. })) => self.vfs.next_id
                < 0xffff_ffff_ffff_ffff,
            Event::Lsp(Message::Notification(_)) => self.vfs.next_id < 0xffff_ffff_ffff_ffff,
            _ => true,
        }
    }

    /// A snapshot shares handles to the maps workers read; reading
    /// through it after a state change observes that change.
    pub fn snapshot(&self) -> (s: LanguageServerSnapshot)
        ensures
            *s.vfs == self.vfs,
            *s.workspaces == self.workspaces,
            *s.opened_files == self.opened_files,
            *s.request_retry == self.request_retry,
            *s.word_index_map == self.word_index_map,
            *s.temporary_workspace == self.temporary_workspace,
    {
        LanguageServerSnapshot {
            vfs: &self.vfs,
            workspaces: &self.workspaces,
            opened_files: &self.opened_files,
            request_retry: &self.request_retry,
            word_index_map: &self.word_index_map,
            temporary_workspace: &self.temporary_workspace,
        }
    }

    /// Apply one editor notification to the filesystem: open inserts the
    /// document and queues `Create`, change updates the buffer and queues
    /// `Modify`, close drops both and queues `Delete`.  Everything else
    /// changes nothing.
    pub fn on_notification(&mut self, not: Notification) -> (acts: Vec<Action>)
        requires
            old(self).wf(),
            old(self).vfs.pending@.len() == 0,
            old(self).vfs.next_id < 0xffff_ffff_ffff_ffff,
            (match not {
                Notification::DidChange { path: ref path, text: _ } => old(self).path_open(
                    path@,
                ),
                _ => true,
            }),
        ensures
            final(self).wf(),
            acts@.len() == 0,
            note_step(*old(self), *final(self), not),
    {
        match not {
            Notification::DidOpen { path, text } => {
                let id = self.vfs.enqueue(&path, ChangeKind::Create);
                self.vfs.write_contents(id, text);
                self.opened_files.insert(id, OpenFileInfo::new());
                proof {
                    assert(self.vfs.paths@.contains_key(id));
                    assert(self.vfs.paths@[id]@ == path@);
                    assert(self.opened_files@.contains_key(id));
                    assert(self.opened_files@[id]@ =~= Seq::<
                        crate::types::WorkspaceKeyView,
                    >::empty());
                    assert(self.vfs.pending@ =~= seq![
                        ChangedFile { file_id: id, kind: ChangeKind::Create },
                    ]);
                    assert(crate::state::keeps_except(
                        old(self).opened_files@,
                        self.opened_files@,
                        id,
                    ));
                    assert(self.vfs.contents@ =~= old(self).vfs.contents@.insert(id, text));
                }
                Vec::new()
            },
            Notification::DidChange { path, text } => {
                let id = self.vfs.enqueue(&path, ChangeKind::Modify);
                self.vfs.write_contents(id, text);
                proof {
                    let k0 = choose|k: FileId|
                        old(self).vfs.paths@.contains_key(k) && (#[trigger] old(self).vfs.paths@[k])@ == path@;
                    assert(k0 == id);
                    assert(self.opened_files@.contains_key(id));
                }
                Vec::new()
            },
            Notification::DidClose { path } => {
                let id = self.vfs.enqueue(&path, ChangeKind::Delete);
                self.vfs.drop_contents(id);
                self.opened_files.remove_key(&id);
                proof {
                    assert(self.vfs.paths@.contains_key(id));
                    assert(self.vfs.paths@[id]@ == path@);
                    assert(self.vfs.pending@ =~= seq![
                        ChangedFile { file_id: id, kind: ChangeKind::Delete },
                    ]);
                }
                Vec::new()
            },
            _ => Vec::new(),
        }
    }

    /// Drain every pending filesystem change, oldest first, classifying
    /// each.  Returns whether anything had changed, with the scheduled
    /// follow-up actions.
    pub fn process_vfs_changes(&mut self) -> (r: (bool, Vec<Action>))
        requires
            old(self).wf(),
        ensures
            final(self).wf(),
            final(self).vfs.pending@.len() == 0,
            r.0 == (old(self).vfs.pending@.len() > 0),
            old(self).vfs.pending@.len() == 0 ==> r.1@.len() == 0 && *final(self) == *old(self),
            old(self).vfs.pending@.len() > 0 ==> drained_from(*old(self), *final(self), r.1@),
            final(self).opened_files@.dom() =~= old(self).opened_files@.dom(),
            final(self).vfs.paths@ == old(self).vfs.paths@,
            final(self).vfs.contents@ == old(self).vfs.contents@,
            final(self).request_queue == old(self).request_queue,
    {
        if self.vfs.pending.len() == 0 {
            return (false, Vec::new());
        }
        let changes = self.vfs.take_changes();
        let ghost s0 = *self;
        let mut acts: Vec<Action> = Vec::new();
        let n = changes.len();
        let mut i: usize = 0;
        while i < n
            invariant
                n == changes@.len(),
                i <= n,
                self.wf(),
                forall|j: int|
                    0 <= j < n ==> ((#[trigger] changes@[j]).kind is Delete
                        || self.opened_files@.contains_key(changes@[j].file_id)),
                self.opened_files@.dom() =~= old(self).opened_files@.dom(),
                self.vfs.paths@ == old(self).vfs.paths@,
                self.vfs.contents@ == old(self).vfs.contents@,
                self.vfs.pending@.len() == 0,
                self.request_queue == old(self).request_queue,
                drain_steps(s0, *self, changes@.take(i as int), acts@),
            decreases n - i,
        {
            let ghost dom_before = self.opened_files@.dom();
            let ghost state_before = *self;
            let ghost acts_before = acts@;
            let mut more = self.process_changed_file(changes[i]);
            let ghost more_v = more@;
            acts.append(&mut more);
            proof {
                assert forall|j: int|
                    0 <= j < n implies ((#[trigger] changes@[j]).kind is Delete
                        || self.opened_files@.contains_key(changes@[j].file_id)) by {
                    if !(changes@[j].kind is Delete) {
                        assert(dom_before.contains(changes@[j].file_id));
                    }
                }
                lemma_drain_snoc(
                    s0,
                    state_before,
                    *self,
                    changes@.take(i as int),
                    changes@[i as int],
                    acts_before,
                    more_v,
                );
                assert(changes@.take(i as int).push(changes@[i as int]) =~= changes@.take(
                    i as int + 1,
                ));
                assert(acts@ =~= acts_before + more_v);
                assert(acts@ == acts_before + more_v);
            }
            i = i + 1;
        }
        proof {
            assert(changes@.take(n as int) =~= changes@);
            assert(changes@ == old(self).vfs.pending@);
            assert(s0.vfs.pending@ =~= Seq::<ChangedFile>::empty());
            assert(s0 == (LanguageServerState { vfs: s0.vfs, ..*old(self) }));
            assert(drain_steps(s0, *self, old(self).vfs.pending@, acts@));
            assert(drained_from(*old(self), *self, acts@));
        }
        (true, acts)
    }

    /// Handle a task a worker or the loop itself posted.
    pub fn handle_task(&mut self, task: Task, request_received: u64) -> (acts: Vec<Action>)
        requires
            old(self).wf(),
            (match task {
                Task::ChangedFile(fid, kind) => !(kind is Delete) ==> old(self).opened_files@.contains_key(fid),
                _ => true,
            }),
        ensures
            final(self).wf(),
            task_step(*old(self), *final(self), task, request_received, acts@),
    {
        match task {
            Task::Notify(notification) => {
                let mut acts: Vec<Action> = Vec::new();
                acts.push(Action::SendNotification(notification));
                acts
            },
            Task::Response(response) => self.respond(response, request_received),
            Task::Retry(req) => {
                if !self.is_completed(&req) {
                    let mut acts: Vec<Action> = Vec::new();
                    acts.push(Action::Backoff);
                    let mut more = self.on_request(req, request_received);
                    acts.append(&mut more);
                    acts
                } else {
                    Vec::new()
                }
            },
            Task::ChangedFile(file_id, kind) => {
                let mut acts: Vec<Action> = Vec::new();
                acts.push(Action::Backoff);
                let mut more = self.process_changed_file(ChangedFile { file_id, kind });
                let ghost more_v = more@;
                acts.append(&mut more);
                proof {
                    assert(acts@[0] == Action::Backoff);
                    assert(acts@.skip(1) =~= more_v);
                    assert(acts@.skip(1) == more_v);
                }
                acts
            },
        }
    }

    /// Register an incoming request and hand it to its handler.
    pub fn on_request(&mut self, request: Request, request_received: u64) -> (acts: Vec<Action>)
        requires
            old(self).wf(),
        ensures
            final(self).wf(),
            final(self).request_queue.incoming@.contains_key(request.id),
            final(self).request_queue.incoming@[request.id].method@ == request.method@,
            final(self).request_queue.incoming@[request.id].received == request_received,
            crate::state::keeps_except(
                old(self).request_queue.incoming@,
                final(self).request_queue.incoming@,
                request.id,
            ),
            final(self).request_queue.outgoing@ == old(self).request_queue.outgoing@,
            *final(self) == (LanguageServerState {
                request_queue: final(self).request_queue,
                ..*old(self)
            }),
            acts@.len() == 1,
            (acts@[0] matches Action::Dispatch(r) && r@ == request@),
    {
        self.register_request(&request, request_received);
        let mut acts: Vec<Action> = Vec::new();
        acts.push(Action::Dispatch(request));
        acts
    }

    /// Handle one event — task or client message — then drain whatever
    /// filesystem changes it caused.
    pub fn handle_event(&mut self, event: Event, request_received: u64) -> (acts: Vec<Action>)
        requires
            old(self).wf(),
            old(self).vfs.pending@.len() == 0,
            old(self).event_ok(event),
        ensures
            final(self).wf(),
            final(self).vfs.pending@.len() == 0,
            (match event {
                Event::Task(task) => task_step(
                    *old(self),
                    *final(self),
                    task,
                    request_received,
                    acts@,
                ),
                Event::Lsp(Message::Request(req)) => {
                    &&& acts@.len() == 1
                    &&& (acts@[0] matches Action::Dispatch(r) && r@ == req@)
                    &&& final(self).request_queue.incoming@.contains_key(req.id)
                    &&& final(self).request_queue.incoming@[req.id].method@ == req.method@
                    &&& final(self).request_queue.incoming@[req.id].received == request_received
                    &&& keeps_except(
                        old(self).request_queue.incoming@,
                        final(self).request_queue.incoming@,
                        req.id,
                    )
                    &&& *final(self) == (LanguageServerState {
                        request_queue: final(self).request_queue,
                        ..*old(self)
                    })
                },
                Event::Lsp(Message::Response(_)) => acts@.len() == 0 && *final(self) == *old(
                    self,
                ),
                Event::Lsp(Message::Notification(not)) => exists|mid: LanguageServerState|
                    {
                        &&& #[trigger] note_step(*old(self), mid, not)
                        &&& (if mid.vfs.pending@.len() == 0 {
                            *final(self) == mid && acts@.len() == 0
                        } else {
                            drained_from(mid, *final(self), acts@)
                        })
                    },
            }),
    {
        let ghost ev = event;
        let mut acts: Vec<Action> = match event {
            Event::Task(task) => self.handle_task(task, request_received),
            Event::Lsp(msg) => match msg {
                Message::Request(req) => self.on_request(req, request_received),
                Message::Notification(not) => self.on_notification(not),
                Message::Response(_) => Vec::new(),
            },
        };
        let ghost mid = *self;
        let ghost acts_in = acts@;
        proof {
            // Tasks and requests queue no filesystem change, so the drain
            // below is a no-op for them.
            match ev {
                Event::Task(_) => {
                    assert(self.vfs.pending@.len() == 0);
                },
                Event::Lsp(Message::Request(_)) => {
                    assert(self.vfs.pending@.len() == 0);
                },
                Event::Lsp(Message::Response(_)) => {
                    assert(self.vfs.pending@.len() == 0);
                },
                Event::Lsp(Message::Notification(_)) => {},
            }
        }
        let (_, mut more) = self.process_vfs_changes();
        let ghost more_v = more@;
        acts.append(&mut more);
        proof {
            assert(acts@ =~= acts_in + more_v);
            assert(acts@ == acts_in + more_v);
            match ev {
                Event::Task(_) => {
                    assert(*self == mid);
                    assert(acts@ =~= acts_in);
                },
                Event::Lsp(Message::Request(_)) => {
                    assert(*self == mid);
                    assert(acts@ =~= acts_in);
                },
                Event::Lsp(Message::Response(_)) => {
                    assert(*self == mid);
                    assert(mid == *old(self));
                },
                Event::Lsp(Message::Notification(n)) => {
                    assert(note_step(*old(self), mid, n));
                    if mid.vfs.pending@.len() == 0 {
                        assert(*self == mid);
                        assert(acts@.len() == 0);
                    } else {
                        assert(drained_from(mid, *self, more_v));
                        assert(acts_in.len() == 0);
                        assert(acts@ =~= more_v);
                        assert(acts@ == more_v);
                    }
                },
            }
        }
        acts
    }

    /// Reset the per-session caches: compile-unit options and temporary
    /// workspaces.  Runs before workspaces are (re)discovered, so nothing
    /// may rely on a cached entry yet.
    pub fn init_state(&mut self) -> (acts: Vec<Action>)
        requires
            old(self).wf(),
            old(self).workspaces.entries@.len() == 0,
            old(self).opened_files.entries@.len() == 0,
        ensures
            final(self).wf(),
            final(self).workspace_config_cache@ =~= Map::<
                crate::types::WorkspaceKeyView,
                CompileUnitOptions,
            >::empty(),
            final(self).temporary_workspace@ =~= Map::<FileId, Option<WorkspaceKey>>::empty(),
            final(self).workspaces@ == old(self).workspaces@,
            final(self).opened_files@ == old(self).opened_files@,
            *final(self) == (LanguageServerState {
                workspace_config_cache: final(self).workspace_config_cache,
                temporary_workspace: final(self).temporary_workspace,
                ..*old(self)
            }),
            acts@.len() == 1,
            (acts@[0] matches Action::SendNotification(Notification::LogMessage { .. })),
    {
        let mut acts: Vec<Action> = Vec::new();
        acts.push(self.log_message(String::from_str("Init state")));
        self.workspace_config_cache = AssocMap::new();
        self.temporary_workspace = AssocMap::new();
        proof {
            assert(self.temporary_workspace.entries@.len() == 0);
            assert(self.workspaces.entries@.len() == 0);
            assert forall|w: crate::types::WorkspaceKeyView|
                self.workspaces@.contains_key(w) implies ((#[trigger] self.workspaces@[w]) is Init
                || self.workspace_config_cache@.contains_key(w)) by {
                crate::assoc::lemma_map_of_contains(self.workspaces.entries@, w);
            }
            assert forall|f: FileId| self.opened_files@.contains_key(f) implies crate::state::list_configured(
                self.workspace_config_cache@,
                (#[trigger] self.opened_files@[f]).workspaces@,
            ) by {
                crate::assoc::lemma_map_of_contains(self.opened_files.entries@, f);
            }
            assert forall|f: FileId|
                self.temporary_workspace@.contains_key(f) implies match (
            #[trigger] self.temporary_workspace@[f]) {
                Some(w) => self.workspace_config_cache@.contains_key(w@),
                None => true,
            } by {
                crate::assoc::lemma_map_of_contains(self.temporary_workspace.entries@, f);
            }
        }
        acts
    }

    /// (Re)discover the configured workspace folders: reset the caches,
    /// then ask for discovery of each folder; the results come back
    /// through `process_discovery`.
    pub fn init_workspaces(&mut self) -> (acts: Vec<Action>)
        requires
            old(self).wf(),
            old(self).workspaces.entries@.len() == 0,
            old(self).opened_files.entries@.len() == 0,
        ensures
            final(self).wf(),
            final(self).workspace_folders@ == old(self).workspace_folders@,
            final(self).workspace_config_cache@ =~= Map::<
                crate::types::WorkspaceKeyView,
                CompileUnitOptions,
            >::empty(),
            final(self).temporary_workspace@ =~= Map::<FileId, Option<WorkspaceKey>>::empty(),
            final(self).workspaces@ == old(self).workspaces@,
            final(self).opened_files@ == old(self).opened_files@,
            *final(self) == (LanguageServerState {
                workspace_config_cache: final(self).workspace_config_cache,
                temporary_workspace: final(self).temporary_workspace,
                ..*old(self)
            }),
            acts@.len() == 2 + old(self).workspace_folders@.len(),
            forall|i: int|
                0 <= i < old(self).workspace_folders@.len() ==> ((#[trigger] acts@[2 + i])
                    matches Action::Discover { path, file_id } && path@ == old(self).workspace_folders@[i]@ && file_id is None),
    {
        let mut acts: Vec<Action> = Vec::new();
        acts.push(self.log_message(String::from_str("Init workspaces")));
        let mut reset = self.init_state();
        acts.append(&mut reset);
        let n = self.workspace_folders.len();
        let mut i: usize = 0;
        while i < n
            invariant
                n == self.workspace_folders@.len(),
                i <= n,
                self.wf(),
                self.workspace_folders@ == old(self).workspace_folders@,
                acts@.len() == 2 + i,
                forall|j: int|
                    0 <= j < i ==> ((#[trigger] acts@[2 + j]) matches Action::Discover {
                        path,
                        file_id,
                    } && path@ == self.workspace_folders@[j]@ && file_id is None),
            decreases n - i,
        {
            let ghost acts_before = acts@;
            let p = self.workspace_folders[i].clone();
            acts.push(Action::Discover { path: p, file_id: None });
            proof {
                assert(forall|k: int| 0 <= k < acts_before.len() ==> acts@[k] == acts_before[k]);
                assert((acts@[2 + i] matches Action::Discover { path, file_id } && path@
                    == self.workspace_folders@[i as int]@ && file_id is None));
            }
            i = i + 1;
        }
        acts
    }
}

} // verus!
