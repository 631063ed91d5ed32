//! Laws of the coordination core, each proved from the transition
//! contracts alone.

use vstd::prelude::*;
use crate::analysis::{AnalysisDatabase, DBState};
use crate::changed::{asks_discovery, create_step, delete_step, owns_path, some_owner};
use crate::diagnostics::{dedup_views, diags_for, DiagView};
use crate::state::{Action, LanguageServerState};
use crate::types::{FileId, WorkspaceKeyView};

verus! {

/// After a `Create` change is classified, the opened file is either
/// recorded into some owning workspace, or discovery has been asked for
/// it: a freshly opened file is never silently dropped.
pub proof fn lemma_open_file_owned_or_discovering(
    pre: LanguageServerState,
    post: LanguageServerState,
    fid: FileId,
    acts: Seq<Action>,
)
    requires
        create_step(pre, post, fid, acts),
    ensures
        some_owner(pre.workspaces@, pre.vfs.paths@[fid]@) ==> exists|w: WorkspaceKeyView|
            post.opened_files@[fid].spec_has(w),
        !some_owner(pre.workspaces@, pre.vfs.paths@[fid]@) ==> asks_discovery(
            acts,
            pre.vfs.paths@[fid]@,
            fid,
        ),
{
    let path = pre.vfs.paths@[fid]@;
    if some_owner(pre.workspaces@, path) {
        let w = choose|w: WorkspaceKeyView| owns_path(pre.workspaces@, w, path);
        assert(post.opened_files@[fid].spec_has(w));
    }
}

/// A workspace never quiesces stuck in `Compiling`: what a finished
/// compile leaves behind is either a ready database or no entry at all.
pub proof fn lemma_compile_settles<E>(
    m: Map<WorkspaceKeyView, DBState>,
    w: WorkspaceKeyView,
    result: Result<AnalysisDatabase, E>,
)
    requires
        (match result {
            Ok(_) => m.contains_key(w) && (m[w] is Ready),
            Err(_) => !m.contains_key(w),
        }),
    ensures
        m.contains_key(w) ==> !(m[w] is Compiling),
{
}

/// Replaying the same `Create` classification leaves the registry, the
/// file's owner set and the temporary workspaces exactly as after the
/// first run: the retry task is idempotent.
pub proof fn lemma_retry_idempotent_create(
    s0: LanguageServerState,
    s1: LanguageServerState,
    s2: LanguageServerState,
    fid: FileId,
    a1: Seq<Action>,
    a2: Seq<Action>,
)
    requires
        create_step(s0, s1, fid, a1),
        create_step(s1, s2, fid, a2),
        s1.vfs == s0.vfs,
    ensures
        s2.workspaces@ == s1.workspaces@,
        forall|w: WorkspaceKeyView|
            s2.opened_files@[fid].spec_has(w) <==> s1.opened_files@[fid].spec_has(w),
        s2.temporary_workspace@ =~= s1.temporary_workspace@,
{
    let path = s0.vfs.paths@[fid]@;
    assert(s1.vfs.paths@[fid]@ == path);
    assert(s1.workspaces@ == s0.workspaces@);
    assert forall|w: WorkspaceKeyView| s2.opened_files@[fid].spec_has(w) implies s1.opened_files@[fid].spec_has(w) by {
        if owns_path(s1.workspaces@, w, path) {
            assert(owns_path(s0.workspaces@, w, path));
            assert(s1.opened_files@[fid].spec_has(w));
        }
    }
    assert forall|w: WorkspaceKeyView|
        s1.opened_files@[fid].spec_has(w) implies s2.opened_files@[fid].spec_has(w) by {
        assert(s2.opened_files@[fid].spec_has(w) <==> (s1.opened_files@[fid].spec_has(w)
            || owns_path(s1.workspaces@, w, s1.vfs.paths@[fid]@)));
    }
    if some_owner(s0.workspaces@, path) {
        let w0 = choose|w0: WorkspaceKeyView| owns_path(s0.workspaces@, w0, path);
        assert(owns_path(s1.workspaces@, w0, path));
        assert(some_owner(s1.workspaces@, path));
        assert(!s1.temporary_workspace@.contains_key(fid));
        assert(s2.temporary_workspace@ =~= s1.temporary_workspace@.remove(fid));
        assert(s1.temporary_workspace@.remove(fid) =~= s1.temporary_workspace@);
    } else {
        if some_owner(s1.workspaces@, path) {
            let w1 = choose|w1: WorkspaceKeyView| owns_path(s1.workspaces@, w1, path);
            assert(owns_path(s0.workspaces@, w1, path));
            assert(false);
        }
        assert forall|k: FileId|
            s2.temporary_workspace@.contains_key(k) <==> s1.temporary_workspace@.contains_key(
                k,
            ) by {
            if k != fid {
                assert(s1.temporary_workspace@.contains_key(k)
                    <==> s2.temporary_workspace@.contains_key(k));
            }
        }
        assert forall|k: FileId|
            #[trigger] s2.temporary_workspace@.contains_key(k) implies s2.temporary_workspace@[k]
            == s1.temporary_workspace@[k] by {
            if k == fid {
                assert(s2.temporary_workspace@[k] is None);
                assert(s1.temporary_workspace@[k] is None);
            }
        }
        assert(s2.temporary_workspace@ =~= s1.temporary_workspace@);
    }
}

/// Replaying the same close leaves the tracker and the registry exactly
/// as after the first close.
pub proof fn lemma_retry_idempotent_delete(
    s0: LanguageServerState,
    s1: LanguageServerState,
    s2: LanguageServerState,
    fid: FileId,
)
    requires
        delete_step(s0, s1, fid),
        delete_step(s1, s2, fid),
    ensures
        s2.temporary_workspace@ =~= s1.temporary_workspace@,
        s2.workspaces@ == s1.workspaces@,
        s2.opened_files@ == s1.opened_files@,
{
    assert(!s1.temporary_workspace@.contains_key(fid));
    assert(s1.temporary_workspace@.remove(fid) =~= s1.temporary_workspace@);
}

/// The set a database keeps is the compile's diagnostic list itself
/// whenever that list repeats nothing — as the compiler's ordered set
/// output does — so the last publication for a file equals the installed
/// database's diagnostics for that file.
pub proof fn lemma_dedup_distinct(s: Seq<DiagView>)
    requires
        forall|i: int, j: int| 0 <= i < j < s.len() ==> s[i] != s[j],
    ensures
        dedup_views(s) =~= s,
    decreases s.len(),
{
    if s.len() > 0 {
        lemma_dedup_distinct(s.drop_last());
        if s.drop_last().contains(s.last()) {
            let i = choose|i: int|
                0 <= i < s.drop_last().len() && s.drop_last()[i] == s.last();
            assert(s[i] == s[s.len() - 1]);
            assert(false);
        }
        assert(dedup_views(s) =~= s.drop_last().push(s.last()));
        assert(s.drop_last().push(s.last()) =~= s);
    }
}

/// Diagnostic convergence: published content for a file is exactly what
/// the installed database holds for it, when the compile's list repeats
/// nothing.
pub proof fn lemma_diagnostics_converge(s: Seq<DiagView>, f: Seq<char>)
    requires
        forall|i: int, j: int| 0 <= i < j < s.len() ==> s[i] != s[j],
    ensures
        diags_for(dedup_views(s), f) =~= diags_for(s, f),
{
    lemma_dedup_distinct(s);
}

} // verus!
