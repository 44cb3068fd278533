//! The candidate store: an append-only, index-addressed collection of
//! discovered directories, each with a status that only ever moves forward
//! through its lifecycle. The store is the one piece of shared state of the
//! system; callers that share it across threads wrap it in a mutex and call
//! the methods here while holding the lock. Every mutating method reports
//! whether it changed the store, so the caller knows when to raise the
//! refresh signal that the consumer polls.

use vstd::prelude::*;
use vstd::string::StringExecFns;

verus! {

/// Lifecycle status of a candidate entry. Filesystem candidates advance
/// `Searched -> Live -> Deleting -> Deleted`; `Calculating` sits between
/// `Searched` and `Live` for entries whose size walk is underway. `System`
/// marks synthetic control entries that never transition.
#[derive(Clone, Copy, Debug, PartialEq, Eq, Structural)]
pub enum SelectStatus {
    Live,
    Deleting,
    Deleted,
    System,
    Searched,
    Calculating,
}

/// The control action that the presentation layer reports back for the
/// entry it has selected: a system action (such as terminating), a request
/// to remove the entry's directory, a switch to another screen, or nothing.
#[derive(Clone, Copy, Debug, PartialEq, Eq, Structural)]
pub enum RendererOperation {
    SYSTEM,
    REMOVE,
    ANOTHER,
    NONE,
}

/// Position of a filesystem status in the forward lifecycle order.
pub open spec fn status_rank(s: SelectStatus) -> int {
    match s {
        SelectStatus::Searched => 0,
        SelectStatus::Calculating => 1,
        SelectStatus::Live => 2,
        SelectStatus::Deleting => 3,
        SelectStatus::Deleted => 4,
        SelectStatus::System => 5,
    }
}

/// A status may move from `a` to `b` only forward along the lifecycle;
/// `System` entries stay `System` and nothing else ever becomes `System`.
pub open spec fn can_advance(a: SelectStatus, b: SelectStatus) -> bool {
    if a is System || b is System {
        a == b
    } else {
        status_rank(a) <= status_rank(b)
    }
}

/// Status advancement is transitive: a candidate that only ever takes
/// forward steps can never be observed earlier in its lifecycle than it
/// once was, no matter how many updates run.
pub proof fn lemma_can_advance_trans(a: SelectStatus, b: SelectStatus, c: SelectStatus)
    requires
        can_advance(a, b),
        can_advance(b, c),
    ensures
        can_advance(a, c),
{
}

/// One entry of the candidate store: the absolute path of the matched
/// directory, the display prefix copied from the matching rule, a trailing
/// annotation (size, progress or error text), and the lifecycle status.
#[derive(Debug)]
pub struct SelectOptions {
    pub path: String,
    pub prefix: String,
    pub end: String,
    pub status: SelectStatus,
}

impl Clone for SelectOptions {
    fn clone(&self) -> (r: Self)
        ensures
            r == *self,
    {
        SelectOptions {
            path: self.path.clone(),
            prefix: self.prefix.clone(),
            end: self.end.clone(),
            status: self.status,
        }
    }
}

impl SelectOptions {
    pub fn new(path: String, prefix: String, end: String, status: SelectStatus) -> (r: Self)
        ensures
            r.path == path,
            r.prefix == prefix,
            r.end == end,
            r.status == status,
    {
        SelectOptions { path, prefix, end, status }
    }
}

/// Entry `b` is a legal successor of entry `a`: it stands for the same
/// directory (path and prefix unchanged) and its status has only moved
/// forward. The annotation is free to change.
pub open spec fn entry_advances(a: SelectOptions, b: SelectOptions) -> bool {
    &&& b.path@ == a.path@
    &&& b.prefix@ == a.prefix@
    &&& can_advance(a.status, b.status)
}

/// Store state `b` is a legal successor of store state `a`: entries are
/// only appended, never removed or reordered, and every entry of `a` has
/// advanced legally.
pub open spec fn store_advances(a: Seq<SelectOptions>, b: Seq<SelectOptions>) -> bool {
    &&& a.len() <= b.len()
    &&& forall|i: int| 0 <= i < a.len() ==> entry_advances(a[i], #[trigger] b[i])
}

/// Store advancement is transitive, so across any sequence of store
/// operations no entry is ever lost, re-identified, or observed at an
/// earlier lifecycle stage than before.
pub proof fn lemma_store_advances_trans(
    a: Seq<SelectOptions>,
    b: Seq<SelectOptions>,
    c: Seq<SelectOptions>,
)
    requires
        store_advances(a, b),
        store_advances(b, c),
    ensures
        store_advances(a, c),
{
    assert forall|i: int| 0 <= i < a.len() implies entry_advances(a[i], #[trigger] c[i]) by {
        assert(entry_advances(a[i], b[i]));
        assert(entry_advances(b[i], c[i]));
        lemma_can_advance_trans(a[i].status, b[i].status, c[i].status);
    }
}

/// The shared candidate store: an ordered sequence of entries that grows
/// monotonically. An entry's index is its identity and stays valid for the
/// whole run.
pub struct CandidateStore {
    options: Vec<SelectOptions>,
}

impl View for CandidateStore {
    type V = Seq<SelectOptions>;

    closed spec fn view(&self) -> Seq<SelectOptions> {
        self.options@
    }
}

impl CandidateStore {
    pub fn new() -> (s: Self)
        ensures
            s@ == Seq::<SelectOptions>::empty(),
    {
        let s = CandidateStore { options: Vec::new() };
        proof {
            assert(s@ =~= Seq::<SelectOptions>::empty());
        }
        s
    }

    pub fn len(&self) -> (n: usize)
        ensures
            n == self@.len(),
    {
        self.options.len()
    }

    /// A snapshot of the entry at `index`.
    pub fn get(&self, index: usize) -> (r: SelectOptions)
        requires
            index < self@.len(),
        ensures
            r == self@[index as int],
    {
        self.options[index].clone()
    }

    /// Appends a new entry and returns its index, which identifies the
    /// entry for the rest of the run.
    pub fn append(&mut self, entry: SelectOptions) -> (index: usize)
        ensures
            final(self)@ == old(self)@.push(entry),
            index == old(self)@.len(),
            store_advances(old(self)@, final(self)@),
    {
        let index = self.options.len();
        self.options.push(entry);
        index
    }

    /// Sets the status of the entry at `index`, but only along the forward
    /// lifecycle order; an out-of-range index or a backward (or
    /// `System`-crossing) transition is ignored.
    pub fn set_status(&mut self, index: usize, status: SelectStatus) -> (applied: bool)
        ensures
            applied <==> (index < old(self)@.len() && can_advance(
                old(self)@[index as int].status,
                status,
            )),
            !applied ==> final(self)@ == old(self)@,
            final(self)@.len() == old(self)@.len(),
            forall|j: int|
                0 <= j < old(self)@.len() && j != index ==> final(self)@[j] == old(self)@[j],
            applied ==> final(self)@[index as int].status == status
                && final(self)@[index as int].path == old(self)@[index as int].path
                && final(self)@[index as int].prefix == old(self)@[index as int].prefix
                && final(self)@[index as int].end == old(self)@[index as int].end,
            store_advances(old(self)@, final(self)@),
    {
        if index < self.options.len() && can_advance_check(self.options[index].status, status) {
            self.options[index].status = status;
            true
        } else {
            false
        }
    }

    /// Sets the annotation of the entry at `index`; an out-of-range index
    /// is ignored.
    pub fn set_annotation(&mut self, index: usize, text: String) -> (changed: bool)
        ensures
            changed <==> index < old(self)@.len(),
            !changed ==> final(self)@ == old(self)@,
            final(self)@.len() == old(self)@.len(),
            forall|j: int|
                0 <= j < old(self)@.len() && j != index ==> final(self)@[j] == old(self)@[j],
            changed ==> final(self)@[index as int].end == text
                && final(self)@[index as int].path == old(self)@[index as int].path
                && final(self)@[index as int].prefix == old(self)@[index as int].prefix
                && final(self)@[index as int].status == old(self)@[index as int].status,
            store_advances(old(self)@, final(self)@),
    {
        if index < self.options.len() {
            self.options[index].end = text;
            true
        } else {
            false
        }
    }

    /// The size estimator's update: when its size walk for the entry at
    /// `index` succeeds, the entry is promoted `Searched -> Live` and the
    /// size text becomes its annotation. On any other status (or an
    /// out-of-range index) nothing happens, so a late or repeated update
    /// can never rewind an entry.
    pub fn mark_live(&mut self, index: usize, annotation: String) -> (changed: bool)
        ensures
            changed <==> (index < old(self)@.len() && old(self)@[index as int].status is Searched),
            !changed ==> final(self)@ == old(self)@,
            final(self)@.len() == old(self)@.len(),
            forall|j: int|
                0 <= j < old(self)@.len() && j != index ==> final(self)@[j] == old(self)@[j],
            changed ==> final(self)@[index as int].status is Live
                && final(self)@[index as int].end == annotation
                && final(self)@[index as int].path == old(self)@[index as int].path
                && final(self)@[index as int].prefix == old(self)@[index as int].prefix,
            store_advances(old(self)@, final(self)@),
    {
        if index < self.options.len() && matches!(self.options[index].status, SelectStatus::Searched) {
            self.options[index].status = SelectStatus::Live;
            self.options[index].end = annotation;
            true
        } else {
            false
        }
    }

    /// The deletion request: accepted only for an entry that is currently
    /// `Live`, which then moves to `Deleting` with a `[Removing]`
    /// annotation. Requesting deletion of any other entry, including one
    /// already being or done deleted, leaves the store unchanged.
    pub fn request_delete(&mut self, index: usize) -> (accepted: bool)
        ensures
            accepted <==> (index < old(self)@.len() && old(self)@[index as int].status is Live),
            !accepted ==> final(self)@ == old(self)@,
            final(self)@.len() == old(self)@.len(),
            forall|j: int|
                0 <= j < old(self)@.len() && j != index ==> final(self)@[j] == old(self)@[j],
            accepted ==> final(self)@[index as int].status is Deleting
                && final(self)@[index as int].end@ == "[Removing]"@
                && final(self)@[index as int].path == old(self)@[index as int].path
                && final(self)@[index as int].prefix == old(self)@[index as int].prefix,
            store_advances(old(self)@, final(self)@),
    {
        if index < self.options.len() && matches!(self.options[index].status, SelectStatus::Live) {
            self.options[index].status = SelectStatus::Deleting;
            self.options[index].end = "[Removing]".to_owned();
            true
        } else {
            false
        }
    }

    /// The deletion worker's final report for the entry at `index`: on a
    /// `Deleting` entry the status becomes `Deleted` whatever the outcome
    /// was, annotated `[Removed]` on success and `[Err<message>]` on
    /// failure. On any other status (or an out-of-range index) nothing
    /// happens.
    pub fn finish_delete(&mut self, index: usize, removed: bool, message: &str) -> (changed: bool)
        ensures
            changed <==> (index < old(self)@.len() && old(self)@[index as int].status is Deleting),
            !changed ==> final(self)@ == old(self)@,
            final(self)@.len() == old(self)@.len(),
            forall|j: int|
                0 <= j < old(self)@.len() && j != index ==> final(self)@[j] == old(self)@[j],
            changed ==> final(self)@[index as int].status is Deleted
                && final(self)@[index as int].path == old(self)@[index as int].path
                && final(self)@[index as int].prefix == old(self)@[index as int].prefix,
            changed && removed ==> final(self)@[index as int].end@ == "[Removed]"@,
            changed && !removed ==> final(self)@[index as int].end@ == "[Err"@ + message@ + "]"@,
            store_advances(old(self)@, final(self)@),
    {
        if index < self.options.len() && matches!(self.options[index].status, SelectStatus::Deleting) {
            self.options[index].status = SelectStatus::Deleted;
            if removed {
                self.options[index].end = "[Removed]".to_owned();
            } else {
                let mut text = "[Err".to_owned();
                text.append(message);
                text.append("]");
                self.options[index].end = text;
            }
            true
        } else {
            false
        }
    }
}

/// Executable mirror of `can_advance`.
fn can_advance_check(a: SelectStatus, b: SelectStatus) -> (r: bool)
    ensures
        r == can_advance(a, b),
{
    if matches!(a, SelectStatus::System) || matches!(b, SelectStatus::System) {
        a == b
    } else {
        status_rank_check(a) <= status_rank_check(b)
    }
}

/// Executable mirror of `status_rank`.
fn status_rank_check(s: SelectStatus) -> (r: u8)
    ensures
        r as int == status_rank(s),
{
    match s {
        SelectStatus::Searched => 0,
        SelectStatus::Calculating => 1,
        SelectStatus::Live => 2,
        SelectStatus::Deleting => 3,
        SelectStatus::Deleted => 4,
        SelectStatus::System => 5,
    }
}

} // verus!
