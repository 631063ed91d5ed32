//! Diagnostics: the values a compile produces, the ordered set a database
//! keeps, and the per-file diff that decides what is published to the
//! client.

use vstd::prelude::*;

verus! {

/// A position in a source file.
#[derive(Clone, Copy, PartialEq, Eq, Structural, Debug)]
pub struct Pos {
    pub line: u64,
    pub column: u64,
}

/// How severe a diagnostic is.
#[derive(Clone, Copy, PartialEq, Eq, Structural, Debug)]
pub enum Severity {
    Error,
    Warning,
}

/// A diagnostic attached to a file: range, severity and message.
#[derive(Debug)]
pub struct Diagnostic {
    pub file: String,
    pub start: Pos,
    pub end: Pos,
    pub severity: Severity,
    pub message: String,
}

/// The view of a [`Diagnostic`], with its strings as character sequences.
pub struct DiagView {
    pub file: Seq<char>,
    pub start: Pos,
    pub end: Pos,
    pub severity: Severity,
    pub message: Seq<char>,
}

impl View for Diagnostic {
    type V = DiagView;

    open spec fn view(&self) -> DiagView {
        DiagView {
            file: self.file@,
            start: self.start,
            end: self.end,
            severity: self.severity,
            message: self.message@,
        }
    }
}

impl Diagnostic {
    pub fn dup(&self) -> (r: Self)
        ensures
            r@ == self@,
    {
        Diagnostic {
            file: self.file.clone(),
            start: self.start,
            end: self.end,
            severity: self.severity,
            message: self.message.clone(),
        }
    }
}

impl PartialEq for Diagnostic {
    fn eq(&self, other: &Self) -> (r: bool) {
        self.file == other.file && self.start == other.start && self.end == other.end
            && self.severity == other.severity && self.message == other.message
    }
}

impl vstd::std_specs::cmp::PartialEqSpecImpl for Diagnostic {
    open spec fn obeys_eq_spec() -> bool {
        true
    }

    open spec fn eq_spec(&self, other: &Self) -> bool {
        self@ == other@
    }
}

/// The views of the diagnostics in a vector, in order.
pub open spec fn diag_views(s: Seq<Diagnostic>) -> Seq<DiagView> {
    s.map_values(|d: Diagnostic| d@)
}

/// `s` with every repeated view dropped, keeping first occurrences in order.
pub open spec fn dedup_views(s: Seq<DiagView>) -> Seq<DiagView>
    decreases s.len(),
{
    if s.len() == 0 {
        Seq::empty()
    } else {
        let p = dedup_views(s.drop_last());
        if p.contains(s.last()) {
            p
        } else {
            p.push(s.last())
        }
    }
}

/// An ordered set of diagnostics: insertion order preserved, duplicates by
/// identity collapsed.
#[derive(Debug)]
pub struct DiagBag {
    pub items: Vec<Diagnostic>,
}

impl View for DiagBag {
    type V = Seq<DiagView>;

    open spec fn view(&self) -> Seq<DiagView> {
        diag_views(self.items@)
    }
}

impl DiagBag {
    /// No diagnostic occurs twice.
    pub open spec fn wf(self) -> bool {
        forall|i: int, j: int| 0 <= i < j < self@.len() ==> self@[i] != self@[j]
    }

    pub fn new() -> (r: Self)
        ensures
            r.wf(),
            r@ =~= Seq::<DiagView>::empty(),
    {
        DiagBag { items: Vec::new() }
    }

    fn contains(&self, d: &Diagnostic) -> (r: bool)
        ensures
            r == self@.contains(d@),
    {
        let n = self.items.len();
        let mut i: usize = 0;
        while i < n
            invariant
                n == self.items@.len(),
                i <= n,
                forall|j: int| 0 <= j < i ==> self@[j] != d@,
            decreases n - i,
        {
            if &self.items[i] == d {
                proof {
                    assert(self@[i as int] == d@);
                }
                return true;
            }
            i = i + 1;
        }
        false
    }

    /// Collapse a compile's diagnostic list into an ordered set.
    pub fn from_vec(diags: Vec<Diagnostic>) -> (r: Self)
        ensures
            r.wf(),
            r@ =~= dedup_views(diag_views(diags@)),
    {
        let mut bag = DiagBag::new();
        let n = diags.len();
        let mut i: usize = 0;
        while i < n
            invariant
                n == diags@.len(),
                i <= n,
                bag.wf(),
                bag@ =~= dedup_views(diag_views(diags@.take(i as int))),
            decreases n - i,
        {
            proof {
                assert(diag_views(diags@.take(i + 1)).drop_last() =~= diag_views(
                    diags@.take(i as int),
                ));
                assert(diag_views(diags@.take(i + 1)).last() == diags@[i as int]@);
            }
            if !bag.contains(&diags[i]) {
                let d = diags[i].dup();
                bag.items.push(d);
                proof {
                    assert(bag@ =~= old_bag_push(diag_views(diags@.take(i as int)), diags@[i as int]@));
                }
            }
            i = i + 1;
        }
        proof {
            assert(diags@.take(n as int) =~= diags@);
        }
        bag
    }

    /// The diagnostics as a plain list, in order.
    pub fn to_vec(&self) -> (r: Vec<Diagnostic>)
        ensures
            diag_views(r@) =~= self@,
    {
        let mut items: Vec<Diagnostic> = Vec::new();
        let n = self.items.len();
        let mut i: usize = 0;
        while i < n
            invariant
                n == self.items@.len(),
                i <= n,
                items@.len() == i,
                forall|j: int| 0 <= j < i ==> items@[j]@ == self.items@[j]@,
            decreases n - i,
        {
            items.push(self.items[i].dup());
            i = i + 1;
        }
        proof {
            assert(diag_views(items@) =~= diag_views(self.items@));
        }
        items
    }

}

/// Helper shape of one dedup step, for the loop above.
pub open spec fn old_bag_push(p: Seq<DiagView>, d: DiagView) -> Seq<DiagView> {
    dedup_views(p).push(d)
}

/// Whether some diagnostic in `s` belongs to file `f`.
pub open spec fn has_file(s: Seq<DiagView>, f: Seq<char>) -> bool {
    exists|i: int| 0 <= i < s.len() && s[i].file == f
}

/// The diagnostics of `s` that belong to file `f`, in order.
pub open spec fn diags_for(s: Seq<DiagView>, f: Seq<char>) -> Seq<DiagView>
    decreases s.len(),
{
    if s.len() == 0 {
        Seq::empty()
    } else {
        let p = diags_for(s.drop_last(), f);
        if s.last().file == f {
            p.push(s.last())
        } else {
            p
        }
    }
}

/// Whether `r` holds a string whose view is `f`.
pub open spec fn names_file(r: Seq<String>, f: Seq<char>) -> bool {
    exists|k: int| 0 <= k < r.len() && r[k]@ == f
}

/// Whether `out` holds a publication for file `f`.
pub open spec fn publishes_file(out: Seq<PublishItem>, f: Seq<char>) -> bool {
    exists|k: int| 0 <= k < out.len() && out[k].file@ == f
}

/// The distinct files the diagnostics of `v` mention, first occurrence
/// first.
fn distinct_files(v: &Vec<Diagnostic>) -> (r: Vec<String>)
    ensures
        forall|i: int, j: int| 0 <= i < j < r@.len() ==> r@[i]@ != r@[j]@,
        forall|i: int| 0 <= i < r@.len() ==> has_file(diag_views(v@), r@[i]@),
        forall|i: int| 0 <= i < v@.len() ==> #[trigger] names_file(r@, v@[i]@.file),
{
    let mut r: Vec<String> = Vec::new();
    let n = v.len();
    let mut i: usize = 0;
    while i < n
        invariant
            n == v@.len(),
            i <= n,
            forall|a: int, b: int| 0 <= a < b < r@.len() ==> r@[a]@ != r@[b]@,
            forall|a: int| 0 <= a < r@.len() ==> has_file(diag_views(v@), r@[a]@),
            forall|a: int| 0 <= a < i ==> #[trigger] names_file(r@, v@[a]@.file),
        decreases n - i,
    {
        let ghost r_before = r@;
        if !contains_str(&r, &v[i].file) {
            r.push(v[i].file.clone());
            proof {
                assert(diag_views(v@)[i as int].file == v@[i as int]@.file);
                assert(r@[r@.len() - 1]@ == v@[i as int]@.file);
                assert(names_file(r@, v@[i as int]@.file));
                assert forall|a: int| 0 <= a < i implies #[trigger] names_file(
                    r@,
                    v@[a]@.file,
                ) by {
                    assert(names_file(r_before, v@[a]@.file));
                    let k = choose|k: int| 0 <= k < r_before.len() && r_before[k]@ == v@[a]@.file;
                    assert(r@[k]@ == v@[a]@.file);
                }
            }
        } else {
            proof {
                assert(names_file(r@, v@[i as int]@.file));
            }
        }
        i = i + 1;
    }
    r
}

/// Whether `v` holds a string with the view of `f`.
fn contains_str(v: &Vec<String>, f: &String) -> (r: bool)
    ensures
        r == names_file(v@, f@),
{
    let n = v.len();
    let mut i: usize = 0;
    while i < n
        invariant
            n == v@.len(),
            i <= n,
            forall|j: int| 0 <= j < i ==> v@[j]@ != f@,
        decreases n - i,
    {
        if v[i] == *f {
            return true;
        }
        i = i + 1;
    }
    false
}

/// The diagnostics of `v` that belong to file `f`, as owned copies.
fn collect_for(v: &Vec<Diagnostic>, f: &String) -> (r: Vec<Diagnostic>)
    ensures
        diag_views(r@) =~= diags_for(diag_views(v@), f@),
{
    let mut r: Vec<Diagnostic> = Vec::new();
    let n = v.len();
    let mut i: usize = 0;
    while i < n
        invariant
            n == v@.len(),
            i <= n,
            diag_views(r@) =~= diags_for(diag_views(v@.take(i as int)), f@),
        decreases n - i,
    {
        proof {
            assert(diag_views(v@.take(i + 1)).drop_last() =~= diag_views(v@.take(i as int)));
            assert(diag_views(v@.take(i + 1)).last() == v@[i as int]@);
        }
        if v[i].file == *f {
            r.push(v[i].dup());
        }
        i = i + 1;
    }
    proof {
        assert(v@.take(n as int) =~= v@);
    }
    r
}

/// One entry of a publication list: the file and the full set of
/// diagnostics now shown for it (empty cancels earlier markers).
pub struct PublishItem {
    pub file: String,
    pub diags: Vec<Diagnostic>,
}

/// What a finished compile publishes, given the diagnostics the workspace
/// had before and the ones it has now: an empty set for every file that had
/// diagnostics and has none any more, and the new set for every file that
/// has some.  Each file is published at most once.
pub fn diff_publish(old_diags: &Vec<Diagnostic>, new_diags: &Vec<Diagnostic>) -> (out: Vec<
    PublishItem,
>)
    ensures
        forall|i: int, j: int| 0 <= i < j < out@.len() ==> out@[i].file@ != out@[j].file@,
        forall|i: int|
            0 <= i < out@.len() ==> {
                ||| (has_file(diag_views(new_diags@), out@[i].file@) && diag_views(out@[i].diags@)
                    =~= diags_for(diag_views(new_diags@), out@[i].file@))
                ||| (!has_file(diag_views(new_diags@), out@[i].file@) && has_file(
                    diag_views(old_diags@),
                    out@[i].file@,
                ) && out@[i].diags@.len() == 0)
            },
        forall|f: Seq<char>|
            #[trigger] has_file(diag_views(new_diags@), f) ==> publishes_file(out@, f),
        forall|f: Seq<char>|
            #[trigger] has_file(diag_views(old_diags@), f) && !has_file(diag_views(new_diags@), f)
                ==> publishes_file(out@, f),
{
    let old_files = distinct_files(old_diags);
    let new_files = distinct_files(new_diags);
    let mut out: Vec<PublishItem> = Vec::new();

    let n_old = old_files.len();
    let mut i: usize = 0;
    while i < n_old
        invariant
            n_old == old_files@.len(),
            i <= n_old,
            forall|a: int, b: int|
                0 <= a < b < old_files@.len() ==> old_files@[a]@ != old_files@[b]@,
            forall|a: int|
                0 <= a < old_files@.len() ==> has_file(diag_views(old_diags@), old_files@[a]@),
            forall|a: int, b: int| 0 <= a < b < out@.len() ==> out@[a].file@ != out@[b].file@,
            forall|a: int|
                0 <= a < out@.len() ==> !has_file(diag_views(new_diags@), out@[a].file@)
                    && has_file(diag_views(old_diags@), out@[a].file@) && out@[a].diags@.len()
                    == 0,
            forall|a: int|
                0 <= a < i ==> (has_file(diag_views(new_diags@), (#[trigger] old_files@[a])@)
                    || publishes_file(out@, old_files@[a]@)),
            forall|a: int|
                0 <= a < out@.len() ==> #[trigger] names_file(
                    old_files@.take(i as int),
                    out@[a].file@,
                ),
        decreases n_old - i,
    {
        let ghost out_before = out@;
        let absent = !file_known(new_diags, &old_files[i]);
        if absent {
            out.push(PublishItem { file: old_files[i].clone(), diags: Vec::new() });
            proof {
                let last = out@.len() - 1;
                assert(out@[last].file@ == old_files@[i as int]@);
                assert(forall|k: int| 0 <= k < out_before.len() ==> out@[k] == out_before[k]);
                assert(publishes_file(out@, old_files@[i as int]@));
                assert forall|a: int| 0 <= a < i implies (has_file(
                    diag_views(new_diags@),
                    (#[trigger] old_files@[a])@,
                ) || publishes_file(out@, old_files@[a]@)) by {
                    if !has_file(diag_views(new_diags@), old_files@[a]@) {
                        let k = choose|k: int|
                            0 <= k < out_before.len() && out_before[k].file@ == old_files@[a]@;
                        assert(out@[k].file@ == old_files@[a]@);
                    }
                }
                assert forall|a: int| 0 <= a < out@.len() implies #[trigger] names_file(
                    old_files@.take(i as int + 1),
                    out@[a].file@,
                ) by {
                    let t = old_files@.take(i as int);
                    let u = old_files@.take(i as int + 1);
                    if a < last {
                        assert(names_file(t, out@[a].file@));
                        let k = choose|k: int| 0 <= k < t.len() && t[k]@ == out@[a].file@;
                        assert(u[k] == old_files@[k]);
                        assert(u[k]@ == out@[a].file@);
                    } else {
                        assert(u[i as int]@ == out@[a].file@);
                    }
                }
                assert forall|a: int| 0 <= a < last implies out@[a].file@ != out@[last].file@ by {
                    let t = old_files@.take(i as int);
                    assert(names_file(t, out_before[a].file@));
                    let k = choose|k: int| 0 <= k < t.len() && t[k]@ == out_before[a].file@;
                    assert(old_files@[k]@ == out@[a].file@);
                    assert(old_files@[k]@ != old_files@[i as int]@);
                }
            }
        } else {
            proof {
                assert forall|a: int| 0 <= a < out@.len() implies #[trigger] names_file(
                    old_files@.take(i as int + 1),
                    out@[a].file@,
                ) by {
                    let t = old_files@.take(i as int);
                    let u = old_files@.take(i as int + 1);
                    assert(names_file(t, out@[a].file@));
                    let k = choose|k: int| 0 <= k < t.len() && t[k]@ == out@[a].file@;
                    assert(u[k] == old_files@[k]);
                    assert(u[k]@ == out@[a].file@);
                }
            }
        }
        i = i + 1;
    }

    let cancels = out.len();
    let ghost out_cancel = out@;
    let n_new = new_files.len();
    let mut j: usize = 0;
    while j < n_new
        invariant
            n_new == new_files@.len(),
            j <= n_new,
            cancels <= out@.len(),
            out@.take(cancels as int) =~= out_cancel,
            forall|a: int, b: int|
                0 <= a < b < new_files@.len() ==> new_files@[a]@ != new_files@[b]@,
            forall|a: int|
                0 <= a < new_files@.len() ==> has_file(diag_views(new_diags@), new_files@[a]@),
            forall|a: int|
                0 <= a < cancels ==> !has_file(diag_views(new_diags@), out@[a].file@) && has_file(
                    diag_views(old_diags@),
                    out@[a].file@,
                ) && out@[a].diags@.len() == 0,
            out@.len() == cancels + j,
            forall|a: int|
                cancels <= a < out@.len() ==> out@[a].file@ == new_files@[a - cancels]@
                    && diag_views(out@[a].diags@) =~= diags_for(
                    diag_views(new_diags@),
                    out@[a].file@,
                ),
            forall|a: int, b: int| 0 <= a < b < out@.len() ==> out@[a].file@ != out@[b].file@,
        decreases n_new - j,
    {
        let ds = collect_for(new_diags, &new_files[j]);
        out.push(PublishItem { file: new_files[j].clone(), diags: ds });
        j = j + 1;
    }

    proof {
        assert forall|f: Seq<char>|
            #[trigger] has_file(diag_views(new_diags@), f) implies publishes_file(out@, f) by {
            let w = choose|w: int|
                0 <= w < diag_views(new_diags@).len() && diag_views(new_diags@)[w].file == f;
            assert(diag_views(new_diags@)[w] == new_diags@[w]@);
            assert(names_file(new_files@, new_diags@[w]@.file));
            let k = choose|k: int| 0 <= k < new_files@.len() && new_files@[k]@ == f;
            assert(out@[cancels + k].file@ == f);
        }
        assert forall|f: Seq<char>|
            #[trigger] has_file(diag_views(old_diags@), f) && !has_file(
                diag_views(new_diags@),
                f,
            ) implies publishes_file(out@, f) by {
            let w = choose|w: int|
                0 <= w < diag_views(old_diags@).len() && diag_views(old_diags@)[w].file == f;
            assert(diag_views(old_diags@)[w] == old_diags@[w]@);
            assert(names_file(old_files@, old_diags@[w]@.file));
            let k = choose|k: int| 0 <= k < old_files@.len() && old_files@[k]@ == f;
            assert(has_file(diag_views(new_diags@), old_files@[k]@) || publishes_file(
                out_cancel,
                old_files@[k]@,
            ));
            let m = choose|m: int| 0 <= m < out_cancel.len() && out_cancel[m].file@ == f;
            assert(out@.take(cancels as int)[m] == out@[m]);
            assert(out@[m].file@ == f);
            assert(publishes_file(out@, f));
        }
    }
    out
}

/// Whether some diagnostic of `v` belongs to file `f`.
fn file_known(v: &Vec<Diagnostic>, f: &String) -> (r: bool)
    ensures
        r == has_file(diag_views(v@), f@),
{
    let n = v.len();
    let mut i: usize = 0;
    while i < n
        invariant
            n == v@.len(),
            i <= n,
            forall|j: int| 0 <= j < i ==> diag_views(v@)[j].file != f@,
        decreases n - i,
    {
        if v[i].file == *f {
            proof {
                assert(diag_views(v@)[i as int].file == v@[i as int]@.file);
            }
            return true;
        }
        i = i + 1;
    }
    false
}

} // verus!
