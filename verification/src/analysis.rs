//! The analysis side of the server: the database one successful compile
//! produces for one workspace, and the state machine each workspace's
//! database moves through.

use vstd::prelude::*;
use crate::diagnostics::{names_file, DiagBag, DiagView};

verus! {

/// The resolved program tree of one compile, reduced to what the
/// coordination core reads from it: which module files it contains.
#[derive(Debug)]
pub struct Program {
    pub modules: Vec<String>,
}

impl View for Program {
    type V = Seq<Seq<char>>;

    open spec fn view(&self) -> Seq<Seq<char>> {
        self.modules@.map_values(|m: String| m@)
    }
}

impl Program {
    /// Whether the program holds the module compiled from `path`.
    pub fn contains_module(&self, path: &String) -> (r: bool)
        ensures
            r == names_file(self.modules@, path@),
    {
        let n = self.modules.len();
        let mut i: usize = 0;
        while i < n
            invariant
                n == self.modules@.len(),
                i <= n,
                forall|j: int| 0 <= j < i ==> self.modules@[j]@ != path@,
            decreases n - i,
        {
            if self.modules[i] == *path {
                return true;
            }
            i = i + 1;
        }
        false
    }

}

/// The global semantic state a compile produces; the core carries it
/// through without reading it, so only its identity is modeled.
#[derive(Clone, Copy, PartialEq, Eq, Structural, Debug)]
pub struct GlobalState {
    pub revision: u64,
}

/// The product of one successful compile for one workspace.
#[derive(Debug)]
pub struct AnalysisDatabase {
    pub prog: Program,
    pub gs: GlobalState,
    pub diags: DiagBag,
}

/// The view of an [`AnalysisDatabase`].
pub struct AnalysisDatabaseView {
    pub prog: Seq<Seq<char>>,
    pub gs: GlobalState,
    pub diags: Seq<DiagView>,
}

impl View for AnalysisDatabase {
    type V = AnalysisDatabaseView;

    open spec fn view(&self) -> AnalysisDatabaseView {
        AnalysisDatabaseView { prog: self.prog@, gs: self.gs, diags: self.diags@ }
    }
}

impl AnalysisDatabase {
    pub open spec fn wf(self) -> bool {
        self.diags.wf()
    }
}

/// Why a compile failed; the core removes the workspace and reports
/// nothing else of it.
#[derive(Debug)]
pub struct CompileError {
    pub message: String,
}

/// The state machine of one workspace's database: `Init` before the first
/// compile finishes, `Compiling` keeps the previous ready database so
/// readers still see a value, `Ready` after a successful compile.
#[derive(Debug)]
pub enum DBState {
    Init,
    Compiling(AnalysisDatabase),
    Ready(AnalysisDatabase),
}

/// The view of a [`DBState`].
pub enum DBStateView {
    Init,
    Compiling(AnalysisDatabaseView),
    Ready(AnalysisDatabaseView),
}

impl View for DBState {
    type V = DBStateView;

    open spec fn view(&self) -> DBStateView {
        match self {
            DBState::Init => DBStateView::Init,
            DBState::Compiling(db) => DBStateView::Compiling(db@),
            DBState::Ready(db) => DBStateView::Ready(db@),
        }
    }
}

impl DBState {
    pub open spec fn wf(self) -> bool {
        match self {
            DBState::Init => true,
            DBState::Compiling(db) => db.wf(),
            DBState::Ready(db) => db.wf(),
        }
    }

    /// The diagnostics a reader of this state sees: those of the ready or
    /// previously ready database, none in `Init`.
    pub open spec fn spec_diags(self) -> Seq<DiagView> {
        match self {
            DBState::Init => Seq::empty(),
            DBState::Compiling(db) => db.diags@,
            DBState::Ready(db) => db.diags@,
        }
    }
}

} // verus!
