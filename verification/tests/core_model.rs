//! End-to-end scenarios of the coordination core, driven event by event.

use kcl_language_server_core::analysis::{CompileError, DBState, GlobalState, Program};
use kcl_language_server_core::diagnostics::{diff_publish, DiagBag, Diagnostic, Pos, Severity};
use kcl_language_server_core::events::is_exit;
use kcl_language_server_core::requests::{Request, Response};
use kcl_language_server_core::state::{
    Action, Event, LanguageServerState, Message, Notification, Task,
};
use kcl_language_server_core::types::{
    BuildOptions, ChangeKind, ChangedFile, CompileUnitOptions, WorkspaceKey,
};

fn folder_ws() -> WorkspaceKey {
    WorkspaceKey::Folder("/ws".to_string())
}

fn loose_ws() -> WorkspaceKey {
    WorkspaceKey::File("/tmp/x.k".to_string())
}

fn opts_for(files: &[&str]) -> CompileUnitOptions {
    CompileUnitOptions {
        files: files.iter().map(|f| f.to_string()).collect(),
        options: Some(BuildOptions { work_dir: "/ws".to_string(), recursive: false }),
    }
}

fn prog_of(files: &[&str]) -> Program {
    Program { modules: files.iter().map(|f| f.to_string()).collect() }
}

fn diag(file: &str, message: &str) -> Diagnostic {
    Diagnostic {
        file: file.to_string(),
        start: Pos { line: 1, column: 0 },
        end: Pos { line: 1, column: 4 },
        severity: Severity::Error,
        message: message.to_string(),
    }
}

/// Folder workspace compiled at init; opening a file of it records the
/// ownership and leaves no temporary workspace behind.
#[test]
fn open_file_of_ready_workspace_is_classified() {
    let (mut st, boot) = LanguageServerState::new(vec!["/ws".to_string()]);
    assert_eq!(boot.len(), 2);
    assert!(matches!(boot[0], Action::Discover { .. }));
    assert!(matches!(boot[1], Action::BuildWordIndex { .. }));

    let sched = st.process_discovery(None, vec![(folder_ws(), opts_for(&["/ws/a.k"]))], vec![]);
    assert_eq!(sched.len(), 1);
    assert!(matches!(sched[0], Action::ScheduleCompile { temp: false, .. }));

    let old = st.compile_begin(&folder_ws());
    assert!(old.is_empty());
    let pubs = st.compile_finish(
        folder_ws(),
        Ok((prog_of(&["/ws/a.k"]), GlobalState { revision: 1 })),
        vec![],
        &old,
        None,
        false,
    );
    assert!(pubs.is_empty());
    assert!(matches!(st.workspaces.get(&folder_ws()), Some(DBState::Ready(_))));

    let acts = st.on_notification(Notification::DidOpen {
        path: "/ws/a.k".to_string(),
        text: "a = 1".to_string(),
    });
    assert!(acts.is_empty());
    let (changed, acts) = st.process_vfs_changes();
    assert!(changed);
    assert!(acts.is_empty());

    let fid = st.vfs.find_path(&"/ws/a.k".to_string()).unwrap();
    let info = st.opened_files.get(&fid).unwrap();
    assert!(info.has(&folder_ws()));
    assert_eq!(st.temporary_workspace.len(), 0);
}

/// A loose file gets a temporary workspace; closing it retires both the
/// tracker entry and the workspace.
#[test]
fn loose_file_gets_temporary_workspace_and_close_retires_it() {
    let (mut st, _) = LanguageServerState::new(vec![]);
    st.on_notification(Notification::DidOpen {
        path: "/tmp/x.k".to_string(),
        text: "x = 1".to_string(),
    });
    let (_, acts) = st.process_vfs_changes();
    let fid = st.vfs.find_path(&"/tmp/x.k".to_string()).unwrap();
    assert!(acts.iter().any(|a| matches!(
        a,
        Action::Discover { file_id: Some(f), .. } if *f == fid
    )));

    let sched = st.process_discovery(
        Some(fid),
        vec![(loose_ws(), opts_for(&["/tmp/x.k"]))],
        vec![],
    );
    assert!(matches!(sched[0], Action::ScheduleCompile { temp: true, .. }));

    let old = st.compile_begin(&loose_ws());
    st.compile_finish(
        loose_ws(),
        Ok((prog_of(&["/tmp/x.k"]), GlobalState { revision: 1 })),
        vec![],
        &old,
        Some(fid),
        true,
    );
    match st.temporary_workspace.get(&fid) {
        Some(Some(w)) => assert!(*w == loose_ws()),
        other => panic!("temporary workspace not resolved: {:?}", other),
    }

    st.on_notification(Notification::DidClose { path: "/tmp/x.k".to_string() });
    st.process_vfs_changes();
    assert_eq!(st.temporary_workspace.len(), 0);
    assert!(st.workspaces.get(&loose_ws()).is_none());
}

/// Rapid edits enqueue one compile each; the final ready state reflects
/// the last compile.
#[test]
fn rapid_edits_schedule_one_compile_each() {
    let (mut st, _) = LanguageServerState::new(vec!["/ws".to_string()]);
    st.process_discovery(None, vec![(folder_ws(), opts_for(&["/ws/a.k"]))], vec![]);
    let old = st.compile_begin(&folder_ws());
    st.compile_finish(
        folder_ws(),
        Ok((prog_of(&["/ws/a.k"]), GlobalState { revision: 0 })),
        vec![],
        &old,
        None,
        false,
    );
    st.on_notification(Notification::DidOpen {
        path: "/ws/a.k".to_string(),
        text: "a = 0".to_string(),
    });
    st.process_vfs_changes();

    for round in 1..=5u64 {
        st.on_notification(Notification::DidChange {
            path: "/ws/a.k".to_string(),
            text: format!("a = {}", round),
        });
        let (_, acts) = st.process_vfs_changes();
        let compiles = acts
            .iter()
            .filter(|a| matches!(a, Action::ScheduleCompile { .. }))
            .count();
        assert_eq!(compiles, 1);
        let old = st.compile_begin(&folder_ws());
        st.compile_finish(
            folder_ws(),
            Ok((prog_of(&["/ws/a.k"]), GlobalState { revision: round })),
            vec![],
            &old,
            None,
            false,
        );
    }
    match st.workspaces.get(&folder_ws()) {
        Some(DBState::Ready(db)) => assert_eq!(db.gs.revision, 5),
        other => panic!("workspace not ready: {:?}", other),
    }
}

/// Opening a file while its workspace is still compiling posts a retry;
/// once the compile is ready the retry classifies the file.
#[test]
fn open_during_compile_retries_classification() {
    let (mut st, _) = LanguageServerState::new(vec!["/ws".to_string()]);
    st.process_discovery(None, vec![(folder_ws(), opts_for(&["/ws/b.k"]))], vec![]);
    let old = st.compile_begin(&folder_ws());

    st.on_notification(Notification::DidOpen {
        path: "/ws/b.k".to_string(),
        text: "b = 1".to_string(),
    });
    let (_, acts) = st.process_vfs_changes();
    let fid = st.vfs.find_path(&"/ws/b.k".to_string()).unwrap();
    assert!(acts.iter().any(|a| matches!(
        a,
        Action::PostTask(Task::ChangedFile(f, ChangeKind::Create)) if *f == fid
    )));

    st.compile_finish(
        folder_ws(),
        Ok((prog_of(&["/ws/b.k"]), GlobalState { revision: 1 })),
        vec![],
        &old,
        None,
        false,
    );
    let acts = st.handle_task(Task::ChangedFile(fid, ChangeKind::Create), 0);
    assert!(matches!(acts[0], Action::Backoff));
    let info = st.opened_files.get(&fid).unwrap();
    assert!(info.has(&folder_ws()));
}

/// A failed compile retires the workspace but still delivers the
/// diagnostics of the attempt; a later open asks for fresh discovery.
#[test]
fn failed_compile_retires_workspace_and_publishes_attempt() {
    let (mut st, _) = LanguageServerState::new(vec!["/ws".to_string()]);
    st.process_discovery(None, vec![(folder_ws(), opts_for(&["/ws/a.k"]))], vec![]);
    let old = st.compile_begin(&folder_ws());
    let pubs = st.compile_finish(
        folder_ws(),
        Err(CompileError { message: "resolve failed".to_string() }),
        vec![diag("/ws/a.k", "undefined name")],
        &old,
        None,
        false,
    );
    assert!(st.workspaces.get(&folder_ws()).is_none());
    assert_eq!(pubs.len(), 1);
    assert_eq!(pubs[0].file, "/ws/a.k".to_string());
    assert_eq!(pubs[0].diags.len(), 1);

    st.on_notification(Notification::DidOpen {
        path: "/ws/a.k".to_string(),
        text: "a = 1".to_string(),
    });
    let (_, acts) = st.process_vfs_changes();
    assert!(acts.iter().any(|a| matches!(a, Action::Discover { .. })));
}

/// The exit notification ends the loop; nothing else does.
#[test]
fn exit_notification_ends_the_loop() {
    let exit = Event::Lsp(Message::Notification(Notification::Exit));
    assert!(is_exit(&exit));
    let other = Event::Lsp(Message::Notification(Notification::Other {
        method: "initialized".to_string(),
    }));
    assert!(!is_exit(&other));

    let (mut st, _) = LanguageServerState::new(vec![]);
    let acts = st.handle_event(other, 0);
    assert!(acts.is_empty());
}

/// Replaying the same classification leaves registry, owners and
/// temporary workspaces as they were.
#[test]
fn replayed_classification_is_idempotent() {
    let (mut st, _) = LanguageServerState::new(vec!["/ws".to_string()]);
    st.process_discovery(None, vec![(folder_ws(), opts_for(&["/ws/a.k"]))], vec![]);
    let old = st.compile_begin(&folder_ws());
    st.compile_finish(
        folder_ws(),
        Ok((prog_of(&["/ws/a.k"]), GlobalState { revision: 1 })),
        vec![],
        &old,
        None,
        false,
    );
    st.on_notification(Notification::DidOpen {
        path: "/ws/a.k".to_string(),
        text: "a = 1".to_string(),
    });
    st.process_vfs_changes();
    let fid = st.vfs.find_path(&"/ws/a.k".to_string()).unwrap();

    let owners_before = st.opened_files.get(&fid).unwrap().workspaces.len();
    let registry_before = st.workspaces.len();
    let temp_before = st.temporary_workspace.len();

    st.process_changed_file(ChangedFile { file_id: fid, kind: ChangeKind::Create });

    assert_eq!(st.opened_files.get(&fid).unwrap().workspaces.len(), owners_before);
    assert_eq!(st.workspaces.len(), registry_before);
    assert_eq!(st.temporary_workspace.len(), temp_before);
}

/// The diagnostics diff cancels stale markers and publishes new ones,
/// each file once.
#[test]
fn diagnostics_diff_cancels_and_publishes() {
    let old = vec![diag("/ws/a.k", "old marker")];
    let new = vec![diag("/ws/b.k", "new marker"), diag("/ws/b.k", "second marker")];
    let pubs = diff_publish(&old, &new);
    assert_eq!(pubs.len(), 2);
    assert_eq!(pubs[0].file, "/ws/a.k".to_string());
    assert!(pubs[0].diags.is_empty());
    assert_eq!(pubs[1].file, "/ws/b.k".to_string());
    assert_eq!(pubs[1].diags.len(), 2);
    assert_eq!(pubs[1].diags[0].message, "new marker".to_string());
}

/// The diagnostic set collapses duplicates by identity, keeping order.
#[test]
fn diagnostic_set_collapses_duplicates() {
    let bag = DiagBag::from_vec(vec![
        diag("/ws/a.k", "one"),
        diag("/ws/a.k", "one"),
        diag("/ws/a.k", "two"),
    ]);
    assert_eq!(bag.items.len(), 2);
    assert_eq!(bag.items[0].message, "one".to_string());
    assert_eq!(bag.items[1].message, "two".to_string());
}

/// Responding to an in-flight request emits the reply and a timing log;
/// a late reply to the same id is discarded.
#[test]
fn respond_completes_and_discards_late_replies() {
    let (mut st, _) = LanguageServerState::new(vec![]);
    let req = Request { id: 7, method: "textDocument/hover".to_string(), params: "{}".to_string() };
    st.register_request(&req, 100);
    assert!(!st.is_completed(&req));

    let acts = st.respond(Response { id: 7, result: "null".to_string() }, 350);
    assert_eq!(acts.len(), 2);
    assert!(matches!(acts[0], Action::SendResponse(_)));
    assert!(matches!(
        &acts[1],
        Action::LogCompleted { method, elapsed: 250 } if method == "textDocument/hover"
    ));
    assert!(st.is_completed(&req));

    let late = st.respond(Response { id: 7, result: "null".to_string() }, 400);
    assert!(late.is_empty());
}

/// A buffer change while classification of the loose file is in flight
/// posts a retry instead of compiling.
#[test]
fn edit_during_classification_posts_retry() {
    let (mut st, _) = LanguageServerState::new(vec![]);
    st.on_notification(Notification::DidOpen {
        path: "/tmp/x.k".to_string(),
        text: "x = 1".to_string(),
    });
    st.process_vfs_changes();
    let fid = st.vfs.find_path(&"/tmp/x.k".to_string()).unwrap();
    // Classification still in flight: put the placeholder back as the
    // create pass left it before discovery answered.
    let acts = st.process_changed_file(ChangedFile { file_id: fid, kind: ChangeKind::Create });
    assert!(acts.iter().any(|a| matches!(a, Action::Discover { .. })));
    let acts = st.process_changed_file(ChangedFile { file_id: fid, kind: ChangeKind::Modify });
    assert!(acts.iter().any(|a| matches!(
        a,
        Action::PostTask(Task::ChangedFile(f, ChangeKind::Modify)) if *f == fid
    )));
}

/// Re-initializing the workspaces resets the caches and asks for
/// discovery of every configured folder.
#[test]
fn init_workspaces_resets_and_discovers() {
    let (mut st, _) = LanguageServerState::new(vec!["/ws".to_string(), "/other".to_string()]);
    let acts = st.init_workspaces();
    assert_eq!(acts.len(), 4);
    assert!(matches!(acts[0], Action::SendNotification(Notification::LogMessage { .. })));
    assert!(matches!(acts[1], Action::SendNotification(Notification::LogMessage { .. })));
    assert!(matches!(
        &acts[2],
        Action::Discover { path, file_id: None } if path == "/ws"
    ));
    assert!(matches!(
        &acts[3],
        Action::Discover { path, file_id: None } if path == "/other"
    ));
    assert_eq!(st.workspace_config_cache.len(), 0);
    assert_eq!(st.temporary_workspace.len(), 0);
}

/// Outgoing server-to-client requests are tracked symmetrically, so their
/// responses can be routed when they come back.
#[test]
fn outgoing_requests_are_tracked() {
    let (mut st, _) = LanguageServerState::new(vec![]);
    st.request_queue.register_outgoing(3, "workspace/configuration".to_string(), 10);
    let entry = st.request_queue.complete_outgoing(3).unwrap();
    assert_eq!(entry.method, "workspace/configuration".to_string());
    assert!(st.request_queue.complete_outgoing(3).is_none());
}
