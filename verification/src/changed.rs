//! The change pipeline: classifying a changed file into workspaces and
//! scheduling the compiles that follow from it.

use vstd::prelude::*;
use crate::analysis::DBState;
use crate::assoc::AssocKey;
use crate::diagnostics::names_file;
use crate::state::{keeps_except, list_configured, Action, LanguageServerState, Notification, Task};
use crate::types::{
    ChangeKind, ChangedFile, CompileUnitOptions, FileId, OpenFileInfo, WorkspaceKey,
    WorkspaceKeyView,
};

verus! {

/// Whether workspace `w` owns `path` in registry `m`: it is ready and its
/// program contains the module.
pub open spec fn owns_path(
    m: Map<WorkspaceKeyView, DBState>,
    w: WorkspaceKeyView,
    path: Seq<char>,
) -> bool {
    m.contains_key(w) && match m[w] {
        DBState::Ready(db) => names_file(db.prog.modules@, path),
        _ => false,
    }
}

/// Whether some ready workspace of `m` owns `path`.
pub open spec fn some_owner(m: Map<WorkspaceKeyView, DBState>, path: Seq<char>) -> bool {
    exists|w: WorkspaceKeyView| owns_path(m, w, path)
}

/// Whether some workspace of `m` is still compiling or not yet compiled.
pub open spec fn some_unready(m: Map<WorkspaceKeyView, DBState>) -> bool {
    exists|w: WorkspaceKeyView| m.contains_key(w) && !((#[trigger] m[w]) is Ready)
}

/// Whether `acts` holds a `Discover` action for `path` on behalf of `fid`.
pub open spec fn asks_discovery(acts: Seq<Action>, path: Seq<char>, fid: FileId) -> bool {
    exists|i: int|
        0 <= i < acts.len() && ((#[trigger] acts[i]) matches Action::Discover {
            path: p,
            file_id: f,
        } && p@ == path && f == Some(fid))
}

/// Whether `acts` posts the task to re-run classification of `fid`.
pub open spec fn asks_retry(acts: Seq<Action>, fid: FileId, kind: ChangeKind) -> bool {
    exists|i: int|
        0 <= i < acts.len() && ((#[trigger] acts[i]) matches Action::PostTask(Task::ChangedFile(
            f,
            k,
        )) && f == fid && k == kind)
}

/// How many workspaces of the registry's entry list are still compiling
/// or not yet compiled.
pub open spec fn n_unready(s: Seq<(WorkspaceKey, DBState)>) -> int
    decreases s.len(),
{
    if s.len() == 0 {
        0
    } else {
        n_unready(s.drop_last()) + (if s.last().1 is Ready {
            0int
        } else {
            1int
        })
    }
}

pub proof fn lemma_n_unready_pos(s: Seq<(WorkspaceKey, DBState)>)
    ensures
        n_unready(s) >= 0,
        (n_unready(s) > 0) <==> (exists|j: int| 0 <= j < s.len() && !((#[trigger] s[j]).1 is Ready)),
    decreases s.len(),
{
    if s.len() > 0 {
        lemma_n_unready_pos(s.drop_last());
        if !(s.last().1 is Ready) {
            assert(!(s[s.len() - 1].1 is Ready));
        } else if n_unready(s.drop_last()) > 0 {
            let j = choose|j: int|
                0 <= j < s.drop_last().len() && !((#[trigger] s.drop_last()[j]).1 is Ready);
            assert(!(s[j].1 is Ready));
        } else if exists|j: int| 0 <= j < s.len() && !((#[trigger] s[j]).1 is Ready) {
            let j = choose|j: int| 0 <= j < s.len() && !((#[trigger] s[j]).1 is Ready);
            assert(j < s.len() - 1);
            assert(!(s.drop_last()[j].1 is Ready));
        }
    }
}

/// How one `Create` change for an open file with a known path steps the
/// state: ownership recorded from every ready workspace whose program has
/// the file; the action list holds exactly one classification retry per
/// workspace still compiling or uncompiled and — when no workspace owns
/// the file — one discovery request at the end, and nothing else; the
/// temporary placeholder is resolved away when an owner exists, else left
/// pending.  Nothing but the opened files and the temporary tracker
/// changes.
pub open spec fn create_step(
    pre: LanguageServerState,
    post: LanguageServerState,
    fid: FileId,
    acts: Seq<Action>,
) -> bool {
    let path = pre.vfs.paths@[fid]@;
    let retries = n_unready(pre.workspaces.entries@);
    &&& post == (LanguageServerState {
        opened_files: post.opened_files,
        temporary_workspace: post.temporary_workspace,
        ..pre
    })
    &&& post.workspaces@ == pre.workspaces@
    &&& keeps_except(pre.opened_files@, post.opened_files@, fid)
    &&& (forall|w: WorkspaceKeyView|
        #![trigger post.opened_files@[fid].spec_has(w)]
        #![trigger owns_path(pre.workspaces@, w, path)]
        post.opened_files@[fid].spec_has(w) <==> (pre.opened_files@[fid].spec_has(w) || owns_path(
            pre.workspaces@,
            w,
            path,
        )))
    &&& acts.len() == retries + (if some_owner(pre.workspaces@, path) {
        0int
    } else {
        1int
    })
    &&& (forall|i: int|
        0 <= i < retries ==> ((#[trigger] acts[i]) matches Action::PostTask(Task::ChangedFile(
            f,
            k,
        )) && f == fid && k == ChangeKind::Create))
    &&& (asks_retry(acts, fid, ChangeKind::Create) <==> some_unready(pre.workspaces@))
    &&& (some_owner(pre.workspaces@, path) ==> post.temporary_workspace@
        =~= pre.temporary_workspace@.remove(fid) && !asks_discovery(acts, path, fid))
    &&& (!some_owner(pre.workspaces@, path) ==> post.temporary_workspace@.contains_key(fid) && (
    post.temporary_workspace@[fid] is None) && keeps_except(
        pre.temporary_workspace@,
        post.temporary_workspace@,
        fid,
    ) && asks_discovery(acts, path, fid) && (acts[acts.len() - 1] matches Action::Discover {
        path: p,
        file_id: f,
    } && p@ == path && f == Some(fid)))
}

/// How one `Modify` change steps the state: one compile per owning
/// workspace with the cached options, or one temporary compile, or a
/// retry while the loose file's classification is in flight, or nothing;
/// only the config cache is touched, and only by re-caching the same
/// option views.
pub open spec fn modify_step(
    pre: LanguageServerState,
    post: LanguageServerState,
    fid: FileId,
    acts: Seq<Action>,
) -> bool {
    &&& post == (LanguageServerState {
        workspace_config_cache: post.workspace_config_cache,
        ..pre
    })
    &&& post.workspace_config_cache@.dom() =~= pre.workspace_config_cache@.dom()
    &&& (forall|k: WorkspaceKeyView|
        pre.workspace_config_cache@.contains_key(k) ==> (
        #[trigger] post.workspace_config_cache@[k])@ == pre.workspace_config_cache@[k]@)
    &&& {
        let owners = pre.opened_files@[fid].workspaces@;
        if owners.len() > 0 {
            &&& acts.len() == owners.len()
            &&& (forall|j: int|
                0 <= j < owners.len() ==> ((#[trigger] acts[j]) matches Action::ScheduleCompile {
                    workspace: w,
                    opts: o,
                    file_id: f,
                    temp: t,
                } && w@ == owners[j]@ && o@ == pre.workspace_config_cache@[owners[j]@]@ && f
                    == Some(fid) && t == false))
        } else {
            match pre.temporary_workspace@.contains_key(fid) {
                true => match pre.temporary_workspace@[fid] {
                    Some(w) => acts.len() == 1 && (acts[0] matches Action::ScheduleCompile {
                        workspace: ws,
                        opts: o,
                        file_id: f,
                        temp: t,
                    } && ws@ == w@ && o@ == pre.workspace_config_cache@[w@]@ && f == Some(fid) && t
                        == true),
                    None => acts.len() == 1 && (acts[0] matches Action::PostTask(
                        Task::ChangedFile(f, k),
                    ) && f == fid && k == ChangeKind::Modify),
                },
                false => acts.len() == 0,
            }
        }
    }
}

/// How one `Delete` change steps the state: the temporary-workspace entry
/// goes, and a resolved temporary workspace leaves the registry with it;
/// persistent workspaces stay.
pub open spec fn delete_step(
    pre: LanguageServerState,
    post: LanguageServerState,
    fid: FileId,
) -> bool {
    &&& post == (LanguageServerState {
        workspaces: post.workspaces,
        temporary_workspace: post.temporary_workspace,
        ..pre
    })
    &&& post.temporary_workspace@ =~= pre.temporary_workspace@.remove(fid)
    &&& (match pre.temporary_workspace@.contains_key(fid) {
        true => match pre.temporary_workspace@[fid] {
            Some(w) => post.workspaces@ =~= pre.workspaces@.remove(w@),
            None => post.workspaces@ == pre.workspaces@,
        },
        false => post.workspaces@ == pre.workspaces@,
    })
    &&& post.opened_files@ == pre.opened_files@
    &&& post.workspace_config_cache@ == pre.workspace_config_cache@
}

/// How one drained change steps the state, by kind.  An unresolvable
/// file id changes nothing and yields one log message.
pub open spec fn change_step(
    pre: LanguageServerState,
    post: LanguageServerState,
    c: ChangedFile,
    acts: Seq<Action>,
) -> bool {
    match c.kind {
        ChangeKind::Create => {
            if pre.vfs.paths@.contains_key(c.file_id) {
                create_step(pre, post, c.file_id, acts)
            } else {
                &&& post == pre
                &&& acts.len() == 1
                &&& (acts[0] matches Action::SendNotification(Notification::LogMessage { .. }))
            }
        },
        ChangeKind::Modify => modify_step(pre, post, c.file_id, acts),
        ChangeKind::Delete => delete_step(pre, post, c.file_id) && acts.len() == 0,
    }
}

impl LanguageServerState {
    /// Classify one drained change and schedule what follows.
    ///
    /// `Create` (file opened): record the file into every ready workspace
    /// whose program contains it; post a retry for every workspace still
    /// compiling or uncompiled; when no workspace owns it, leave the
    /// temporary placeholder and ask for discovery.  `Modify` (buffer
    /// edited): recompile every owning workspace, or the temporary one, or
    /// post a retry while classification is in flight.  `Delete` (file
    /// closed): retire the temporary workspace, if one was assigned.
    pub fn process_changed_file(&mut self, file: ChangedFile) -> (acts: Vec<Action>)
        requires
            old(self).wf(),
            !(file.kind is Delete) ==> old(self).opened_files@.contains_key(file.file_id),
        ensures
            final(self).wf(),
            final(self).opened_files@.dom() =~= old(self).opened_files@.dom(),
            final(self).vfs == old(self).vfs,
            final(self).request_queue == old(self).request_queue,
            change_step(*old(self), *final(self), file, acts@),
    {
        let mut acts: Vec<Action> = Vec::new();
        match file.kind {
            ChangeKind::Create => {
                let path = match self.vfs.file_path(file.file_id) {
                    Some(p) => p.clone(),
                    None => {
                        acts.push(
                            Action::SendNotification(
                                Notification::LogMessage {
                                    message: String::from_str("changed file id has no path"),
                                },
                            ),
                        );
                        return acts;
                    },
                };
                self.temporary_workspace.insert(file.file_id, None);

                // Scan the registry: collect the ready owners, post a
                // retry for every workspace still unsettled.
                let mut owners: Vec<WorkspaceKey> = Vec::new();
                let n = self.workspaces.len();
                let mut i: usize = 0;
                while i < n
                    invariant
                        n == self.workspaces.entries@.len(),
                        i <= n,
                        self.workspaces.wf(),
                        forall|j: int|
                            0 <= j < owners@.len() ==> #[trigger] owns_path(
                                self.workspaces@,
                                owners@[j]@,
                                path@,
                            ),
                        forall|j: int|
                            0 <= j < i ==> (owns_path(
                                self.workspaces@,
                                (#[trigger] self.workspaces.entries@[j]).0@,
                                path@,
                            ) ==> exists|k: int|
                                0 <= k < owners@.len() && (#[trigger] owners@[k])@
                                    == self.workspaces.entries@[j].0@),
                        acts@.len() == n_unready(self.workspaces.entries@.take(i as int)),
                        forall|a: int|
                            0 <= a < acts@.len() ==> ((#[trigger] acts@[a])
                                matches Action::PostTask(Task::ChangedFile(f, k)) && f
                                == file.file_id && k == file.kind),
                        path@ == old(self).vfs.paths@[file.file_id]@,
                    decreases n - i,
                {
                    let ghost acts_before = acts@;
                    let ghost owners_before = owners@;
                    let entry = self.workspaces.entry_at(i);
                    proof {
                        crate::assoc::lemma_map_of_index(self.workspaces.entries@, i as int);
                        assert(self.workspaces.entries@.take(i as int + 1).drop_last()
                            =~= self.workspaces.entries@.take(i as int));
                        assert(self.workspaces.entries@.take(i as int + 1).last()
                            == self.workspaces.entries@[i as int]);
                    }
                    match &entry.1 {
                        DBState::Ready(db) => {
                            if db.prog.contains_module(&path) {
                                let w = entry.0.dup();
                                owners.push(w);
                                proof {
                                    assert(owners@[owners@.len() - 1]@
                                        == self.workspaces.entries@[i as int].0@);
                                    assert(owns_path(
                                        self.workspaces@,
                                        owners@[owners@.len() - 1]@,
                                        path@,
                                    ));
                                    assert(forall|k: int|
                                        0 <= k < owners_before.len() ==> owners@[k]
                                            == owners_before[k]);
                                    assert forall|j: int| 0 <= j < i + 1 implies (owns_path(
                                        self.workspaces@,
                                        (#[trigger] self.workspaces.entries@[j]).0@,
                                        path@,
                                    ) ==> exists|k: int|
                                        0 <= k < owners@.len() && (#[trigger] owners@[k])@
                                            == self.workspaces.entries@[j].0@) by {
                                        if j < i && owns_path(
                                            self.workspaces@,
                                            self.workspaces.entries@[j].0@,
                                            path@,
                                        ) {
                                            let k = choose|k: int|
                                                0 <= k < owners_before.len() && (
                                                #[trigger] owners_before[k])@
                                                    == self.workspaces.entries@[j].0@;
                                            assert(owners@[k]@
                                                == self.workspaces.entries@[j].0@);
                                        }
                                    }
                                }
                            } else {
                                proof {
                                    assert(!owns_path(
                                        self.workspaces@,
                                        self.workspaces.entries@[i as int].0@,
                                        path@,
                                    ));
                                }
                            }
                        },
                        DBState::Compiling(_) | DBState::Init => {
                            acts.push(
                                Action::PostTask(Task::ChangedFile(file.file_id, file.kind)),
                            );
                            proof {
                                assert((acts@[acts@.len() - 1] matches Action::PostTask(
                                    Task::ChangedFile(f, k),
                                ) && f == file.file_id && k == file.kind));
                                assert(!(self.workspaces.entries@[i as int].1 is Ready));
                                assert(forall|a: int|
                                    0 <= a < acts_before.len() ==> acts@[a] == acts_before[a]);
                                assert(acts@.len() == n_unready(
                                    self.workspaces.entries@.take(i as int + 1),
                                ));
                                assert(!owns_path(
                                    self.workspaces@,
                                    self.workspaces.entries@[i as int].0@,
                                    path@,
                                ));
                            }
                        },
                    }
                    i = i + 1;
                }
                proof {
                    assert(file.kind == ChangeKind::Create);
                    let m = self.workspaces@;
                    let es = self.workspaces.entries@;
                    assert(es.take(n as int) =~= es);
                    lemma_n_unready_pos(es);
                    assert(acts@.len() == n_unready(es));
                    assert forall|w: WorkspaceKeyView| #[trigger] owns_path(m, w, path@) implies (
                    exists|k: int| 0 <= k < owners@.len() && (#[trigger] owners@[k])@ == w) by {
                        crate::assoc::lemma_map_of_contains(es, w);
                        let j = choose|j: int| 0 <= j < es.len() && es[j].0@ == w;
                        crate::assoc::lemma_map_of_index(es, j);
                        assert(owns_path(m, es[j].0@, path@));
                    }
                    if some_unready(m) {
                        let w = choose|w: WorkspaceKeyView|
                            m.contains_key(w) && !((#[trigger] m[w]) is Ready);
                        crate::assoc::lemma_map_of_contains(es, w);
                        let j = choose|j: int| 0 <= j < es.len() && es[j].0@ == w;
                        crate::assoc::lemma_map_of_index(es, j);
                        assert(!(es[j].1 is Ready));
                    }
                    if exists|j: int| 0 <= j < es.len() && !((#[trigger] es[j]).1 is Ready) {
                        let j = choose|j: int| 0 <= j < es.len() && !((#[trigger] es[j]).1 is Ready);
                        crate::assoc::lemma_map_of_index(es, j);
                        assert(m.contains_key(es[j].0@) && !(m[es[j].0@] is Ready));
                        assert(some_unready(m));
                    }
                    assert(some_unready(m) <==> n_unready(es) > 0);
                }

                // Fold the owners into the open file's record.
                let mut info = match self.opened_files.remove_key(&file.file_id) {
                    Some(info) => info,
                    None => {
                        proof {
                            assert(false);
                        }
                        OpenFileInfo::new()
                    },
                };
                let ghost info0 = info;
                let had_owner = owners.len() > 0;
                let m = owners.len();
                let mut j: usize = 0;
                while j < m
                    invariant
                        m == owners@.len(),
                        j <= m,
                        info.wf(),
                        forall|w2: WorkspaceKeyView|
                            #[trigger] info.spec_has(w2) <==> (info0.spec_has(w2) || exists|k: int|
                                0 <= k < j && (#[trigger] owners@[k])@ == w2),
                    decreases m - j,
                {
                    let ghost info_b4 = info;
                    let w = owners[j].dup();
                    info.record(w);
                    proof {
                        assert(w@ == owners@[j as int]@);
                        assert forall|w2: WorkspaceKeyView| #[trigger] info.spec_has(w2) implies (
                        info0.spec_has(w2) || exists|k: int|
                            0 <= k < j + 1 && (#[trigger] owners@[k])@ == w2) by {
                            if info_b4.spec_has(w2) {
                                if !info0.spec_has(w2) {
                                    let k = choose|k: int|
                                        0 <= k < j && (#[trigger] owners@[k])@ == w2;
                                    assert(owners@[k]@ == w2);
                                }
                            } else {
                                assert(!info_b4.spec_has(w@) ==> info@ == info_b4@.push(w@));
                                if info_b4.spec_has(w@) {
                                    assert(info == info_b4);
                                    assert(false);
                                } else {
                                    let idx = choose|idx: int|
                                        0 <= idx < info@.len() && info@[idx] == w2;
                                    if idx < info_b4@.len() {
                                        assert(info_b4@[idx] == w2);
                                        assert(info_b4.spec_has(w2));
                                        assert(false);
                                    }
                                    assert(w2 == w@);
                                    assert(owners@[j as int]@ == w2);
                                }
                            }
                        }
                        assert forall|w2: WorkspaceKeyView|
                            (info0.spec_has(w2) || exists|k: int|
                                0 <= k < j + 1 && (#[trigger] owners@[k])@ == w2) implies #[trigger] info.spec_has(
                            w2,
                        ) by {
                            if info0.spec_has(w2) || exists|k: int|
                                0 <= k < j && (#[trigger] owners@[k])@ == w2 {
                                assert(info_b4.spec_has(w2));
                                if info_b4.spec_has(w@) {
                                    assert(info == info_b4);
                                } else {
                                    let idx = choose|idx: int|
                                        0 <= idx < info_b4@.len() && info_b4@[idx] == w2;
                                    assert(info@[idx] == w2);
                                }
                            } else {
                                let k = choose|k: int|
                                    0 <= k < j + 1 && (#[trigger] owners@[k])@ == w2;
                                assert(k == j);
                                assert(w2 == w@);
                                assert(info.spec_has(w@));
                            }
                        }
                    }
                    j = j + 1;
                }
                proof {
                    let cfg = self.workspace_config_cache@;
                    assert(info0 == old(self).opened_files@[file.file_id]);
                    assert(list_configured(cfg, info0.workspaces@));
                    assert forall|k: int| 0 <= k < info.workspaces@.len() implies cfg.contains_key(
                        (#[trigger] info.workspaces@[k])@,
                    ) by {
                        let w2 = info.workspaces@[k]@;
                        assert(info@[k] == w2);
                        assert(info.spec_has(w2));
                        if info0.spec_has(w2) {
                            let idx = choose|idx: int|
                                0 <= idx < info0@.len() && info0@[idx] == w2;
                            assert(info0.workspaces@[idx]@ == w2);
                            assert(cfg.contains_key((info0.workspaces@[idx])@));
                        } else {
                            let k2 = choose|k2: int|
                                0 <= k2 < owners@.len() && (#[trigger] owners@[k2])@ == w2;
                            assert(owns_path(old(self).workspaces@, w2, path@));
                            assert(old(self).workspaces@.contains_key(w2));
                            assert(cfg.contains_key(w2));
                        }
                    }
                    assert(list_configured(cfg, info.workspaces@));
                }
                self.opened_files.insert(file.file_id, info);
                if had_owner {
                    self.temporary_workspace.remove_key(&file.file_id);
                    proof {
                        assert(owns_path(old(self).workspaces@, owners@[0]@, path@));
                        assert(some_owner(old(self).workspaces@, path@));
                        if n_unready(self.workspaces.entries@) > 0 {
                            assert((acts@[0] matches Action::PostTask(Task::ChangedFile(f, k))
                                && f == file.file_id && k == file.kind));
                            assert(asks_retry(acts@, file.file_id, ChangeKind::Create));
                        }
                        assert(asks_retry(acts@, file.file_id, ChangeKind::Create)
                            <==> some_unready(old(self).workspaces@));
                    }
                } else {
                    let ghost acts_before = acts@;
                    acts.push(Action::Discover { path, file_id: Some(file.file_id) });
                    proof {
                        let nu = n_unready(self.workspaces.entries@);
                        assert((acts@[acts@.len() - 1] matches Action::Discover {
                            path: p,
                            file_id: f,
                        } && p@ == old(self).vfs.paths@[file.file_id]@ && f == Some(
                            file.file_id,
                        )));
                        assert(asks_discovery(
                            acts@,
                            old(self).vfs.paths@[file.file_id]@,
                            file.file_id,
                        ));
                        assert(forall|a: int|
                            0 <= a < acts_before.len() ==> acts@[a] == acts_before[a]);
                        assert(acts@.len() == nu + 1);
                        assert(forall|a: int|
                            0 <= a < nu ==> ((#[trigger] acts@[a]) matches Action::PostTask(
                                Task::ChangedFile(f, k),
                            ) && f == file.file_id && k == file.kind));
                        if nu > 0 {
                            assert((acts@[0] matches Action::PostTask(Task::ChangedFile(f, k))
                                && f == file.file_id && k == file.kind));
                            assert(asks_retry(acts@, file.file_id, ChangeKind::Create));
                        }
                        if asks_retry(acts@, file.file_id, file.kind) && nu == 0 {
                            let a = choose|a: int|
                                0 <= a < acts@.len() && ((#[trigger] acts@[a])
                                    matches Action::PostTask(Task::ChangedFile(f, k)) && f
                                    == file.file_id && k == file.kind);
                            assert(a == 0);
                            assert(false);
                        }
                        assert(asks_retry(acts@, file.file_id, ChangeKind::Create)
                            <==> some_unready(old(self).workspaces@));
                        if some_owner(old(self).workspaces@, path@) {
                            let w = choose|w: WorkspaceKeyView|
                                owns_path(old(self).workspaces@, w, path@);
                            assert(exists|k: int|
                                0 <= k < owners@.len() && (#[trigger] owners@[k])@ == w);
                            assert(false);
                        }
                    }
                }
                acts
            },
            ChangeKind::Modify => {
                let owners: Vec<WorkspaceKey> = {
                    let info = match self.opened_files.get(&file.file_id) {
                        Some(info) => info,
                        None => {
                            proof {
                                assert(false);
                            }
                            return acts;
                        },
                    };
                    let m = info.workspaces.len();
                    let mut list: Vec<WorkspaceKey> = Vec::new();
                    let mut j: usize = 0;
                    while j < m
                        invariant
                            m == info.workspaces@.len(),
                            j <= m,
                            list@.len() == j,
                            forall|k: int| 0 <= k < j ==> list@[k]@ == info.workspaces@[k]@,
                        decreases m - j,
                    {
                        list.push(info.workspaces[j].dup());
                        j = j + 1;
                    }
                    list
                };
                let ghost owner_views = old(self).opened_files@[file.file_id].workspaces@;
                if owners.len() > 0 {
                    let m = owners.len();
                    let mut j: usize = 0;
                    while j < m
                        invariant
                            m == owners@.len(),
                            self.wf(),
                            j <= m,
                            m == owner_views.len(),
                            forall|k: int| 0 <= k < m ==> owners@[k]@ == owner_views[k]@,
                            old(self).wf(),
                            old(self).opened_files@.contains_key(file.file_id),
                            owner_views == old(self).opened_files@[file.file_id].workspaces@,
                            self.workspace_config_cache@.dom() =~= old(
                                self,
                            ).workspace_config_cache@.dom(),
                            forall|k: WorkspaceKeyView|
                                old(self).workspace_config_cache@.contains_key(k) ==> (
                                #[trigger] self.workspace_config_cache@[k])@ == old(
                                    self,
                                ).workspace_config_cache@[k]@,
                            *self == (LanguageServerState {
                                workspace_config_cache: self.workspace_config_cache,
                                ..*old(self)
                            }),
                            acts@.len() == j,
                            forall|k: int|
                                0 <= k < j ==> ((#[trigger] acts@[k])
                                    matches Action::ScheduleCompile {
                                    workspace: w,
                                    opts: o,
                                    file_id: f,
                                    temp: t,
                                } && w@ == owner_views[k]@ && o@ == old(
                                    self,
                                ).workspace_config_cache@[owner_views[k]@]@ && f == Some(
                                    file.file_id,
                                ) && t == false),
                        decreases m - j,
                    {
                        let ghost acts_before = acts@;
                        let ghost cfg_before = self.workspace_config_cache@;
                        let w = owners[j].dup();
                        proof {
                            assert(list_configured(
                                old(self).workspace_config_cache@,
                                old(self).opened_files@[file.file_id].workspaces@,
                            ));
                            assert(old(self).workspace_config_cache@.contains_key(
                                (owner_views[j as int])@,
                            ));
                            assert(self.workspace_config_cache@.contains_key(w@));
                        }
                        let opts = match self.workspace_config_cache.get(&w) {
                            Some(o) => o.dup(),
                            None => {
                                proof {
                                    assert(false);
                                }
                                return acts;
                            },
                        };
                        let a = self.async_compile(w, opts, Some(file.file_id), false);
                        acts.push(a);
                        proof {
                            assert(forall|k: int|
                                0 <= k < acts_before.len() ==> acts@[k] == acts_before[k]);
                            assert((acts@[j as int] matches Action::ScheduleCompile {
                                workspace: w2,
                                opts: o,
                                file_id: f,
                                temp: t,
                            } && w2@ == owner_views[j as int]@ && o@ == old(
                                self,
                            ).workspace_config_cache@[owner_views[j as int]@]@ && f == Some(
                                file.file_id,
                            ) && t == false));
                            assert(self.workspace_config_cache@.dom() =~= cfg_before.dom());
                            assert forall|k: WorkspaceKeyView|
                                old(self).workspace_config_cache@.contains_key(k) implies (
                            #[trigger] self.workspace_config_cache@[k])@ == old(
                                self,
                            ).workspace_config_cache@[k]@ by {
                                if k != w@ {
                                    assert(cfg_before.contains_key(k));
                                    assert(self.workspace_config_cache@[k] == cfg_before[k]);
                                }
                            }
                        }
                        j = j + 1;
                    }
                    acts
                } else {
                    proof {
                        assert(old(self).opened_files@[file.file_id].workspaces@.len() == 0);
                    }
                    let tw: Option<Option<WorkspaceKey>> = match self.temporary_workspace.get(
                        &file.file_id,
                    ) {
                        Some(v) => match v {
                            Some(w) => Some(Some(w.dup())),
                            None => Some(None),
                        },
                        None => None,
                    };
                    match tw {
                        Some(Some(w)) => {
                            proof {
                                assert(old(self).workspace_config_cache@.contains_key(w@));
                            }
                            let opts = match self.workspace_config_cache.get(&w) {
                                Some(o) => o.dup(),
                                None => {
                                    proof {
                                        assert(false);
                                    }
                                    return acts;
                                },
                            };
                            let ghost wv = w@;
                            let a = self.async_compile(w, opts, Some(file.file_id), true);
                            acts.push(a);
                            proof {
                                assert(self.workspace_config_cache@.dom() =~= old(
                                    self,
                                ).workspace_config_cache@.dom());
                            }
                        },
                        Some(None) => {
                            acts.push(
                                Action::PostTask(Task::ChangedFile(file.file_id, file.kind)),
                            );
                            proof {
                                assert((acts@[0] matches Action::PostTask(Task::ChangedFile(
                                    f,
                                    k,
                                )) && f == file.file_id && k == file.kind));
                                assert(asks_retry(acts@, file.file_id, ChangeKind::Modify));
                            }
                        },
                        None => {},
                    }
                    acts
                }
            },
            ChangeKind::Delete => {
                match self.temporary_workspace.remove_key(&file.file_id) {
                    Some(Some(w)) => {
                        self.workspaces.remove_key(&w);
                    },
                    _ => {},
                }
                acts
            },
        }
    }

    /// Continue after workspace discovery ran for a path: log what failed,
    /// cache options and schedule a compile for every discovered
    /// workspace, and — when this was for a loose file whose placeholder
    /// is still unresolved — remove the placeholder (the file is orphaned
    /// until a compile resolves it).
    pub fn process_discovery(
        &mut self,
        file_id: Option<FileId>,
        discovered: Vec<(WorkspaceKey, CompileUnitOptions)>,
        failures: Vec<String>,
    ) -> (acts: Vec<Action>)
        requires
            old(self).wf(),
            forall|i: int, j: int|
                0 <= i < j < discovered@.len() ==> discovered@[i].0@ != discovered@[j].0@,
        ensures
            final(self).wf(),
            forall|j: int|
                0 <= j < discovered@.len() ==> final(self).workspace_config_cache@.contains_key(
                    (#[trigger] discovered@[j]).0@,
                ) && final(self).workspace_config_cache@[discovered@[j].0@]@
                    == discovered@[j].1@,
            acts@.len() == failures@.len() + discovered@.len(),
            forall|j: int|
                0 <= j < failures@.len() ==> ((#[trigger] acts@[j])
                    matches Action::SendNotification(Notification::LogMessage { message }) && message@
                    == failures@[j]@),
            forall|j: int|
                0 <= j < discovered@.len() ==> ((#[trigger] acts@[failures@.len() + j])
                    matches Action::ScheduleCompile { workspace: w, opts: o, file_id: f, temp: t }
                    && w@ == discovered@[j].0@ && o@ == discovered@[j].1@ && f == file_id && t == (
                file_id is Some)),
            (match file_id {
                Some(fid) => {
                    &&& (old(self).temporary_workspace@.contains_key(fid) && (old(
                        self,
                    ).temporary_workspace@[fid] is Some) ==> final(self).temporary_workspace@
                        == old(self).temporary_workspace@)
                    &&& (!(old(self).temporary_workspace@.contains_key(fid) && (old(
                        self,
                    ).temporary_workspace@[fid] is Some)) ==> final(self).temporary_workspace@
                        =~= old(self).temporary_workspace@.remove(fid))
                },
                None => final(self).temporary_workspace@ == old(self).temporary_workspace@,
            }),
            *final(self) == (LanguageServerState {
                workspace_config_cache: final(self).workspace_config_cache,
                temporary_workspace: final(self).temporary_workspace,
                ..*old(self)
            }),
    {
        let mut acts: Vec<Action> = Vec::new();
        let nf = failures.len();
        let mut i: usize = 0;
        while i < nf
            invariant
                nf == failures@.len(),
                i <= nf,
                acts@.len() == i,
                forall|j: int|
                    0 <= j < i ==> ((#[trigger] acts@[j]) matches Action::SendNotification(
                        Notification::LogMessage { message },
                    ) && message@ == failures@[j]@),
            decreases nf - i,
        {
            acts.push(
                Action::SendNotification(
                    Notification::LogMessage { message: failures[i].clone() },
                ),
            );
            i = i + 1;
        }

        let temp = match file_id {
            Some(_) => true,
            None => false,
        };
        let nd = discovered.len();
        let mut j: usize = 0;
        while j < nd
            invariant
                nd == discovered@.len(),
                nf == failures@.len(),
                j <= nd,
                self.wf(),
                old(self).wf(),
                temp == (file_id is Some),
                forall|a: int, b: int|
                    0 <= a < b < discovered@.len() ==> discovered@[a].0@ != discovered@[b].0@,
                acts@.len() == nf + j,
                forall|a: int|
                    0 <= a < nf ==> ((#[trigger] acts@[a]) matches Action::SendNotification(
                        Notification::LogMessage { message },
                    ) && message@ == failures@[a]@),
                forall|a: int|
                    0 <= a < j ==> ((#[trigger] acts@[nf + a]) matches Action::ScheduleCompile {
                        workspace: w,
                        opts: o,
                        file_id: f,
                        temp: t,
                    } && w@ == discovered@[a].0@ && o@ == discovered@[a].1@ && f == file_id && t
                        == temp),
                forall|a: int|
                    0 <= a < j ==> self.workspace_config_cache@.contains_key(
                        (#[trigger] discovered@[a]).0@,
                    ) && self.workspace_config_cache@[discovered@[a].0@]@ == discovered@[a].1@,
                *self == (LanguageServerState {
                    workspace_config_cache: self.workspace_config_cache,
                    ..*old(self)
                }),
            decreases nd - j,
        {
            let ghost acts_before = acts@;
            let ghost cfg_before = self.workspace_config_cache@;
            let e = &discovered[j];
            let w = e.0.dup();
            let o = e.1.dup();
            let a = self.async_compile(w, o, file_id, temp);
            acts.push(a);
            proof {
                assert(forall|k: int| 0 <= k < acts_before.len() ==> acts@[k] == acts_before[k]);
                assert((acts@[nf + j] matches Action::ScheduleCompile {
                    workspace: w2,
                    opts: o2,
                    file_id: f2,
                    temp: t2,
                } && w2@ == discovered@[j as int].0@ && o2@ == discovered@[j as int].1@ && f2
                    == file_id && t2 == temp));
                assert forall|a2: int|
                    0 <= a2 < j implies self.workspace_config_cache@.contains_key(
                    (#[trigger] discovered@[a2]).0@,
                ) && self.workspace_config_cache@[discovered@[a2].0@]@
                    == discovered@[a2].1@ by {
                    assert(discovered@[a2].0@ != discovered@[j as int].0@);
                    assert(cfg_before.contains_key(discovered@[a2].0@));
                }
            }
            j = j + 1;
        }

        match file_id {
            Some(fid) => {
                let unresolved = match self.temporary_workspace.get(&fid) {
                    Some(v) => match v {
                        Some(_) => false,
                        None => true,
                    },
                    None => true,
                };
                if unresolved {
                    self.temporary_workspace.remove_key(&fid);
                }
            },
            None => {},
        }
        acts
    }
}

} // verus!
