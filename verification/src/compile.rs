//! The compile scheduler's transitions.
//!
//! A compile job runs on a worker in three verified steps around the
//! compiler capability: `async_compile` caches the options and asks for the
//! job; on the worker, `compile_begin` records the old diagnostics and moves
//! the workspace to `Compiling`; the compiler runs; `compile_finish` diffs
//! and installs the result.

use vstd::prelude::*;
use crate::assoc::AssocKey;
use crate::analysis::{AnalysisDatabase, CompileError, DBState, DBStateView, GlobalState, Program};
use crate::diagnostics::{
    dedup_views, diag_views, diags_for, has_file, DiagView, Diagnostic, PublishItem, diff_publish,
};
use crate::state::{keeps_except, Action, LanguageServerState};
use crate::types::{CompileUnitOptions, FileId, WorkspaceKey, WorkspaceKeyView};

verus! {

/// The diagnostics a reader sees for workspace `w` in registry `m`: none
/// when the workspace is absent or still in `Init`.
pub open spec fn registry_diags(m: Map<WorkspaceKeyView, DBState>, w: WorkspaceKeyView) -> Seq<
    DiagView,
> {
    if m.contains_key(w) {
        m[w].spec_diags()
    } else {
        Seq::empty()
    }
}

/// Whether some publication in `out` concerns file `f`.
pub open spec fn out_publishes(out: Seq<PublishItem>, f: Seq<char>) -> bool {
    exists|k: int| 0 <= k < out.len() && out[k].file@ == f
}

impl LanguageServerState {
    /// Ask for an asynchronous compile of one workspace: cache its options
    /// — strictly before the job is enqueued, so workers can rely on them —
    /// and hand back the job to run on the pool.
    pub fn async_compile(
        &mut self,
        workspace: WorkspaceKey,
        opts: CompileUnitOptions,
        changed_file_id: Option<FileId>,
        temp: bool,
    ) -> (a: Action)
        requires
            old(self).wf(),
        ensures
            final(self).wf(),
            final(self).workspace_config_cache@.contains_key(workspace@),
            final(self).workspace_config_cache@[workspace@]@ == opts@,
            keeps_except(
                old(self).workspace_config_cache@,
                final(self).workspace_config_cache@,
                workspace@,
            ),
            *final(self) == (LanguageServerState {
                workspace_config_cache: final(self).workspace_config_cache,
                ..*old(self)
            }),
            (a matches Action::ScheduleCompile { workspace: w, opts: o, file_id: f, temp: t }
                && w@ == workspace@ && o@ == opts@ && f == changed_file_id && t == temp),
    {
        self.workspace_config_cache.insert(workspace.dup(), opts.dup());
        Action::ScheduleCompile { workspace, opts, file_id: changed_file_id, temp }
    }

    /// First step of a compile job: record the diagnostics the workspace
    /// shows now, and keep the last ready database visible by moving
    /// `Ready` to `Compiling`; a workspace not yet compiled enters `Init`.
    pub fn compile_begin(&mut self, workspace: &WorkspaceKey) -> (old_diags: Vec<Diagnostic>)
        requires
            old(self).wf(),
        ensures
            final(self).wf(),
            diag_views(old_diags@) =~= registry_diags(old(self).workspaces@, workspace@),
            final(self).workspaces@.contains_key(workspace@),
            keeps_except(old(self).workspaces@, final(self).workspaces@, workspace@),
            old(self).workspaces@.contains_key(workspace@) ==> (match old(self).workspaces@[workspace@] {
                DBState::Ready(db) => final(self).workspaces@[workspace@]@ == DBStateView::Compiling(
                    db@,
                ),
                DBState::Compiling(db) => final(self).workspaces@[workspace@]@
                    == DBStateView::Compiling(db@),
                DBState::Init => final(self).workspaces@[workspace@]@ == DBStateView::Init,
            }),
            !old(self).workspaces@.contains_key(workspace@) ==> final(self).workspaces@[workspace@]@ == DBStateView::Init,
            *final(self) == (LanguageServerState { workspaces: final(self).workspaces, ..*old(self) }),
    {
        let prior = self.workspaces.remove_key(workspace);
        match prior {
            Some(DBState::Ready(db)) => {
                let old_diags = db.diags.to_vec();
                self.workspaces.insert(workspace.dup(), DBState::Compiling(db));
                old_diags
            },
            Some(DBState::Compiling(db)) => {
                let old_diags = db.diags.to_vec();
                self.workspaces.insert(workspace.dup(), DBState::Compiling(db));
                old_diags
            },
            Some(DBState::Init) => {
                self.workspaces.insert(workspace.dup(), DBState::Init);
                Vec::new()
            },
            None => {
                self.workspaces.insert(workspace.dup(), DBState::Init);
                Vec::new()
            },
        }
    }

    /// Last step of a compile job: diff the diagnostics against what the
    /// workspace showed at job start and return the publications — an
    /// empty set for each file whose markers are stale, the new set for
    /// each file that has some — then install the database on success, or
    /// retire the workspace on failure.  A temporary workspace also
    /// resolves or clears its file's placeholder.
    pub fn compile_finish(
        &mut self,
        workspace: WorkspaceKey,
        result: Result<(Program, GlobalState), CompileError>,
        diags: Vec<Diagnostic>,
        old_diags: &Vec<Diagnostic>,
        changed_file_id: Option<FileId>,
        temp: bool,
    ) -> (publishes: Vec<PublishItem>)
        requires
            old(self).wf(),
            old(self).workspace_config_cache@.contains_key(workspace@),
        ensures
            final(self).wf(),
            forall|i: int, j: int|
                0 <= i < j < publishes@.len() ==> publishes@[i].file@ != publishes@[j].file@,
            forall|i: int|
                0 <= i < publishes@.len() ==> {
                    ||| (has_file(diag_views(diags@), publishes@[i].file@) && diag_views(
                        publishes@[i].diags@,
                    ) =~= diags_for(diag_views(diags@), publishes@[i].file@))
                    ||| (!has_file(diag_views(diags@), publishes@[i].file@) && has_file(
                        diag_views(old_diags@),
                        publishes@[i].file@,
                    ) && publishes@[i].diags@.len() == 0)
                },
            forall|f: Seq<char>|
                #[trigger] has_file(diag_views(diags@), f) ==> out_publishes(publishes@, f),
            forall|f: Seq<char>|
                #[trigger] has_file(diag_views(old_diags@), f) && !has_file(diag_views(diags@), f)
                    ==> out_publishes(publishes@, f),
            (match result {
                Ok((prog, gs)) => final(self).workspaces@.contains_key(workspace@) && (match final(self).workspaces@[workspace@]@ {
                    DBStateView::Ready(dbv) => dbv.prog == prog@ && dbv.gs == gs && dbv.diags
                        == dedup_views(diag_views(diags@)),
                    _ => false,
                }),
                Err(_) => !final(self).workspaces@.contains_key(workspace@),
            }),
            keeps_except(old(self).workspaces@, final(self).workspaces@, workspace@),
            (match changed_file_id {
                Some(fid) => {
                    if temp {
                        keeps_except(
                            old(self).temporary_workspace@,
                            final(self).temporary_workspace@,
                            fid,
                        ) && (match result {
                            Ok(_) => final(self).temporary_workspace@.contains_key(fid) && (
                            match final(self).temporary_workspace@[fid] {
                                Some(w) => w@ == workspace@,
                                None => false,
                            }),
                            Err(_) => !final(self).temporary_workspace@.contains_key(fid),
                        })
                    } else {
                        final(self).temporary_workspace@ == old(self).temporary_workspace@
                    }
                },
                None => final(self).temporary_workspace@ == old(self).temporary_workspace@,
            }),
            *final(self) == (LanguageServerState {
                workspaces: final(self).workspaces,
                temporary_workspace: final(self).temporary_workspace,
                ..*old(self)
            }),
    {
        let publishes = diff_publish(old_diags, &diags);
        match result {
            Ok((prog, gs)) => {
                let bag = crate::diagnostics::DiagBag::from_vec(diags);
                let db = AnalysisDatabase { prog, gs, diags: bag };
                if temp {
                    match changed_file_id {
                        Some(fid) => {
                            self.temporary_workspace.insert(fid, Some(workspace.dup()));
                        },
                        None => {},
                    }
                }
                self.workspaces.insert(workspace, DBState::Ready(db));
            },
            Err(_) => {
                self.workspaces.remove_key(&workspace);
                if temp {
                    match changed_file_id {
                        Some(fid) => {
                            self.temporary_workspace.remove_key(&fid);
                        },
                        None => {},
                    }
                }
            },
        }
        publishes
    }
}

} // verus!
