//! Plain data the coordination core works on: file identifiers, change
//! kinds, workspace keys, compile-unit options and per-open-file records.

use vstd::prelude::*;
use crate::assoc::AssocKey;

verus! {

/// Stable identifier the virtual filesystem assigns to a path when it first
/// appears; never reused within a session.
pub type FileId = u64;

/// What happened to a file in the editor.
#[derive(Clone, Copy, PartialEq, Eq, Structural, Debug)]
pub enum ChangeKind {
    /// The editor opened the file.
    Create,
    /// The editor changed the buffer.
    Modify,
    /// The editor closed the file.
    Delete,
}

/// One entry of the virtual filesystem's pending-change queue.
#[derive(Clone, Copy, PartialEq, Eq, Structural, Debug)]
pub struct ChangedFile {
    pub file_id: FileId,
    pub kind: ChangeKind,
}

/// Identifies one workspace: a workspace file, a discovered folder, or a
/// single loose file.  Equality is by canonical form: variant and path.
#[derive(Debug)]
pub enum WorkspaceKey {
    WorkFile(String),
    Folder(String),
    File(String),
}

/// The view of a [`WorkspaceKey`]: the same shape over character sequences.
pub enum WorkspaceKeyView {
    WorkFile(Seq<char>),
    Folder(Seq<char>),
    File(Seq<char>),
}

impl View for WorkspaceKey {
    type V = WorkspaceKeyView;

    open spec fn view(&self) -> WorkspaceKeyView {
        match self {
            WorkspaceKey::WorkFile(p) => WorkspaceKeyView::WorkFile(p@),
            WorkspaceKey::Folder(p) => WorkspaceKeyView::Folder(p@),
            WorkspaceKey::File(p) => WorkspaceKeyView::File(p@),
        }
    }
}

impl AssocKey for WorkspaceKey {
    fn key_eq(&self, other: &Self) -> (r: bool)
        ensures
            r == (self@ == other@),
    {
        match (self, other) {
            (WorkspaceKey::WorkFile(a), WorkspaceKey::WorkFile(b)) => *a == *b,
            (WorkspaceKey::Folder(a), WorkspaceKey::Folder(b)) => *a == *b,
            (WorkspaceKey::File(a), WorkspaceKey::File(b)) => *a == *b,
            _ => false,
        }
    }

    fn dup(&self) -> (r: Self)
        ensures
            r@ == self@,
    {
        match self {
            WorkspaceKey::WorkFile(p) => WorkspaceKey::WorkFile(p.clone()),
            WorkspaceKey::Folder(p) => WorkspaceKey::Folder(p.clone()),
            WorkspaceKey::File(p) => WorkspaceKey::File(p.clone()),
        }
    }
}

impl PartialEq for WorkspaceKey {
    fn eq(&self, other: &Self) -> (r: bool) {
        self.key_eq(other)
    }
}

impl vstd::std_specs::cmp::PartialEqSpecImpl for WorkspaceKey {
    open spec fn obeys_eq_spec() -> bool {
        true
    }

    open spec fn eq_spec(&self, other: &Self) -> bool {
        self@ == other@
    }
}

impl AssocKey for u64 {
    fn key_eq(&self, other: &Self) -> (r: bool)
        ensures
            r == (self@ == other@),
    {
        *self == *other
    }

    fn dup(&self) -> (r: Self)
        ensures
            r@ == self@,
    {
        *self
    }
}

impl AssocKey for String {
    fn key_eq(&self, other: &Self) -> (r: bool)
        ensures
            r == (self@ == other@),
    {
        *self == *other
    }

    fn dup(&self) -> (r: Self)
        ensures
            r@ == self@,
    {
        self.clone()
    }
}

/// The recognized build-option record of a compile unit.
#[derive(Debug)]
pub struct BuildOptions {
    /// Directory compiles of this unit run from.
    pub work_dir: String,
    /// Whether inputs are gathered recursively under the entry paths.
    pub recursive: bool,
}

pub struct BuildOptionsView {
    pub work_dir: Seq<char>,
    pub recursive: bool,
}

impl View for BuildOptions {
    type V = BuildOptionsView;

    open spec fn view(&self) -> BuildOptionsView {
        BuildOptionsView { work_dir: self.work_dir@, recursive: self.recursive }
    }
}

impl BuildOptions {
    pub fn dup(&self) -> (r: Self)
        ensures
            r@ == self@,
    {
        BuildOptions { work_dir: self.work_dir.clone(), recursive: self.recursive }
    }
}

/// What one compile invocation consumes: the ordered input files and the
/// recognized build options.
#[derive(Debug)]
pub struct CompileUnitOptions {
    pub files: Vec<String>,
    pub options: Option<BuildOptions>,
}

pub struct CompileUnitOptionsView {
    pub files: Seq<Seq<char>>,
    pub options: Option<BuildOptionsView>,
}

impl View for CompileUnitOptions {
    type V = CompileUnitOptionsView;

    open spec fn view(&self) -> CompileUnitOptionsView {
        CompileUnitOptionsView {
            files: self.files@.map_values(|f: String| f@),
            options: match self.options {
                Some(o) => Some(o@),
                None => None,
            },
        }
    }
}

impl CompileUnitOptions {
    pub fn dup(&self) -> (r: Self)
        ensures
            r@ == self@,
    {
        let mut files: Vec<String> = Vec::new();
        let n = self.files.len();
        let mut i: usize = 0;
        while i < n
            invariant
                n == self.files@.len(),
                i <= n,
                files@.len() == i,
                forall|j: int| 0 <= j < i ==> files@[j]@ == self.files@[j]@,
            decreases n - i,
        {
            files.push(self.files[i].clone());
            i = i + 1;
        }
        let options = match &self.options {
            Some(o) => Some(o.dup()),
            None => None,
        };
        let r = CompileUnitOptions { files, options };
        proof {
            assert(r@.files =~= self@.files);
        }
        r
    }
}

/// Per open file: the workspaces currently compiling or compiled from it,
/// each recorded once.
#[derive(Debug)]
pub struct OpenFileInfo {
    pub workspaces: Vec<WorkspaceKey>,
}

impl View for OpenFileInfo {
    type V = Seq<WorkspaceKeyView>;

    open spec fn view(&self) -> Seq<WorkspaceKeyView> {
        self.workspaces@.map_values(|w: WorkspaceKey| w@)
    }
}

impl OpenFileInfo {
    /// Whether the file is recorded as owned by workspace `w`.
    pub open spec fn spec_has(self, w: WorkspaceKeyView) -> bool {
        self@.contains(w)
    }

    /// No workspace is recorded twice.
    pub open spec fn wf(self) -> bool {
        forall|i: int, j: int|
            0 <= i < j < self@.len() ==> self@[i] != self@[j]
    }

    pub fn new() -> (r: Self)
        ensures
            r.wf(),
            r@ =~= Seq::<WorkspaceKeyView>::empty(),
    {
        OpenFileInfo { workspaces: Vec::new() }
    }

    pub fn has(&self, w: &WorkspaceKey) -> (r: bool)
        ensures
            r == self.spec_has(w@),
    {
        let n = self.workspaces.len();
        let mut i: usize = 0;
        while i < n
            invariant
                n == self.workspaces@.len(),
                i <= n,
                forall|j: int| 0 <= j < i ==> self@[j] != w@,
            decreases n - i,
        {
            if self.workspaces[i].key_eq(w) {
                proof {
                    assert(self@[i as int] == w@);
                }
                return true;
            }
            i = i + 1;
        }
        false
    }

    pub fn is_empty(&self) -> (r: bool)
        ensures
            r == (self@.len() == 0),
    {
        self.workspaces.len() == 0
    }

    /// Record `w` as an owner; a second recording of the same workspace
    /// changes nothing.
    pub fn record(&mut self, w: WorkspaceKey)
        requires
            old(self).wf(),
        ensures
            final(self).wf(),
            old(self).spec_has(w@) ==> *final(self) == *old(self),
            !old(self).spec_has(w@) ==> final(self)@ =~= old(self)@.push(w@),
            final(self).spec_has(w@),
    {
        if !self.has(&w) {
            self.workspaces.push(w);
            proof {
                assert(self@ =~= old(self)@.push(w@));
                assert(self@[self@.len() - 1] == w@);
            }
        }
    }
}

} // verus!
