//! The environment registry: which storage path is open under which handle.
//!
//! One registry serves a whole process. It keeps at most one handle for each
//! storage path, so that every environment value opened on a path shares the
//! same storage instance, and the partition behind it is initialised once.
//! Registration is a single checked insert: whoever holds the registry
//! exclusively either finds the path registered or registers it.

use crate::error::{DatabaseError, DatabaseResult};
use crate::text::str_eq;
use vstd::prelude::*;
use vstd::string::*;

verus! {

/// The identity of one open storage instance. Two environment values are
/// backed by the same instance exactly when their handles are equal.
#[derive(Clone, Copy, Debug, PartialEq, Eq, Structural, Hash)]
pub struct StorageHandle {
    pub id: u64,
}

struct RegistryEntry {
    path: String,
    handle: StorageHandle,
}

/// The process-wide map from storage path to open handle.
pub struct Registry {
    entries: Vec<RegistryEntry>,
    next_id: u64,
}

/// A registry as a plain value: the handle of each registered path, and the
/// number that the next handle will get.
pub struct RegistryView {
    pub handles: Map<Seq<char>, StorageHandle>,
    pub next_id: nat,
}

/// What opening a path yields: the handle that the path is open under, and
/// whether this call registered it.
#[derive(Clone, Copy, Debug, PartialEq, Eq, Structural)]
pub struct Registration {
    pub handle: StorageHandle,
    pub fresh: bool,
}

impl RegistryView {
    /// No handle is shared by two paths, and none has a number that is yet to
    /// be given out.
    pub open spec fn wf(self) -> bool {
        &&& self.next_id <= u64::MAX
        &&& forall|p: Seq<char>| #[trigger]
            self.handles.dom().contains(p) ==> self.handles[p].id < self.next_id
        &&& forall|p: Seq<char>, q: Seq<char>|
            #![trigger self.handles[p], self.handles[q]]
            self.handles.dom().contains(p) && self.handles.dom().contains(q) && p != q
                ==> self.handles[p] != self.handles[q]
    }

    /// Whether a path can be opened: it is registered, or a handle is left
    /// for it.
    pub open spec fn can_open(self, path: Seq<char>) -> bool {
        self.handles.dom().contains(path) || self.next_id < u64::MAX
    }

    /// The registry after `path` was opened. A registered path leaves it as
    /// it is; a new one is registered under the next handle.
    pub open spec fn open(self, path: Seq<char>) -> RegistryView {
        if self.handles.dom().contains(path) {
            self
        } else {
            RegistryView {
                handles: self.handles.insert(path, StorageHandle { id: self.next_id as u64 }),
                next_id: self.next_id + 1,
            }
        }
    }

    /// What opening `path` yields.
    pub open spec fn registration(self, path: Seq<char>) -> Registration {
        if self.handles.dom().contains(path) {
            Registration { handle: self.handles[path], fresh: false }
        } else {
            Registration { handle: StorageHandle { id: self.next_id as u64 }, fresh: true }
        }
    }

    /// The registry after `path` was removed.
    pub open spec fn remove(self, path: Seq<char>) -> RegistryView {
        RegistryView { handles: self.handles.remove(path), next_id: self.next_id }
    }
}

/// The handles of a list of entries: each path under the handle entered for
/// it.
spec fn handles_of(entries: Seq<RegistryEntry>) -> Map<Seq<char>, StorageHandle>
    decreases entries.len(),
{
    if entries.len() == 0 {
        Map::empty()
    } else {
        handles_of(entries.drop_last()).insert(entries.last().path@, entries.last().handle)
    }
}

spec fn distinct_paths(entries: Seq<RegistryEntry>) -> bool {
    forall|i: int, j: int|
        0 <= i < j < entries.len() ==> (#[trigger] entries[i]).path@ != (#[trigger] entries[j]).path@
}

spec fn distinct_handles(entries: Seq<RegistryEntry>) -> bool {
    forall|i: int, j: int|
        0 <= i < j < entries.len() ==> (#[trigger] entries[i]).handle != (
        #[trigger] entries[j]).handle
}

spec fn handles_below(entries: Seq<RegistryEntry>, next_id: u64) -> bool {
    forall|i: int| 0 <= i < entries.len() ==> (#[trigger] entries[i]).handle.id < next_id
}

/// The map of handles holds exactly the paths of the entries, each under the
/// handle of its entry.
proof fn lemma_handles_of(entries: Seq<RegistryEntry>)
    requires
        distinct_paths(entries),
    ensures
        forall|i: int|
            0 <= i < entries.len() ==> handles_of(entries).dom().contains(
                (#[trigger] entries[i]).path@,
            ) && handles_of(entries)[entries[i].path@] == entries[i].handle,
        forall|p: Seq<char>| #[trigger]
            handles_of(entries).dom().contains(p) ==> exists|i: int|
                0 <= i < entries.len() && (#[trigger] entries[i]).path@ == p,
    decreases entries.len(),
{
    if entries.len() > 0 {
        let prior = entries.drop_last();
        assert forall|i: int, j: int| 0 <= i < j < prior.len() implies (#[trigger] prior[i]).path@
            != (#[trigger] prior[j]).path@ by {
            assert(prior[i] == entries[i]);
            assert(prior[j] == entries[j]);
        }
        lemma_handles_of(prior);
        assert forall|i: int| 0 <= i < entries.len() implies handles_of(entries).dom().contains(
            (#[trigger] entries[i]).path@,
        ) && handles_of(entries)[entries[i].path@] == entries[i].handle by {
            if i < prior.len() {
                assert(prior[i] == entries[i]);
                assert(entries[i].path@ != entries[entries.len() - 1].path@);
            }
        }
        assert forall|p: Seq<char>| #[trigger]
            handles_of(entries).dom().contains(p) implies exists|i: int|
            0 <= i < entries.len() && (#[trigger] entries[i]).path@ == p by {
            if p == entries.last().path@ {
                assert(entries[entries.len() - 1].path@ == p);
            } else {
                assert(handles_of(prior).dom().contains(p));
                let i = choose|i: int| 0 <= i < prior.len() && (#[trigger] prior[i]).path@ == p;
                assert(prior[i] == entries[i]);
                assert(entries[i].path@ == p);
            }
        }
    }
}

/// Taking one entry out of the list takes its path out of the map.
proof fn lemma_handles_of_remove(entries: Seq<RegistryEntry>, k: int)
    requires
        distinct_paths(entries),
        0 <= k < entries.len(),
    ensures
        distinct_paths(entries.remove(k)),
        handles_of(entries.remove(k)) == handles_of(entries).remove(entries[k].path@),
{
    let rest = entries.remove(k);
    assert forall|i: int, j: int| 0 <= i < j < rest.len() implies (#[trigger] rest[i]).path@ != (
    #[trigger] rest[j]).path@ by {
        let a = if i < k { i } else { i + 1 };
        let b = if j < k { j } else { j + 1 };
        assert(rest[i] == entries[a]);
        assert(rest[j] == entries[b]);
    }
    lemma_handles_of(entries);
    lemma_handles_of(rest);
    let left = handles_of(rest);
    let right = handles_of(entries).remove(entries[k].path@);
    assert forall|p: Seq<char>| left.dom().contains(p) <==> right.dom().contains(p) by {
        if left.dom().contains(p) {
            let i = choose|i: int| 0 <= i < rest.len() && (#[trigger] rest[i]).path@ == p;
            let a = if i < k { i } else { i + 1 };
            assert(rest[i] == entries[a]);
            assert(entries[a].path@ != entries[k].path@);
        }
        if right.dom().contains(p) {
            let a = choose|a: int| 0 <= a < entries.len() && (#[trigger] entries[a]).path@ == p;
            let i = if a < k { a } else { a - 1 };
            assert(rest[i] == entries[a]);
        }
    }
    assert forall|p: Seq<char>| left.dom().contains(p) implies left[p] == right[p] by {
        let i = choose|i: int| 0 <= i < rest.len() && (#[trigger] rest[i]).path@ == p;
        let a = if i < k { i } else { i + 1 };
        assert(rest[i] == entries[a]);
    }
    assert(left =~= right);
}

/// Entries with distinct paths and distinct handles, all below the next
/// number, make a well-formed registry.
proof fn lemma_wf(entries: Seq<RegistryEntry>, next_id: u64)
    requires
        distinct_paths(entries),
        distinct_handles(entries),
        handles_below(entries, next_id),
    ensures
        (RegistryView { handles: handles_of(entries), next_id: next_id as nat }).wf(),
{
    lemma_handles_of(entries);
    let v = RegistryView { handles: handles_of(entries), next_id: next_id as nat };
    assert forall|p: Seq<char>| #[trigger] v.handles.dom().contains(p) implies v.handles[p].id
        < v.next_id by {
        let i = choose|i: int| 0 <= i < entries.len() && (#[trigger] entries[i]).path@ == p;
    }
    assert forall|p: Seq<char>, q: Seq<char>|
        #![trigger v.handles[p], v.handles[q]]
        v.handles.dom().contains(p) && v.handles.dom().contains(q) && p != q implies v.handles[p]
        != v.handles[q] by {
        let i = choose|i: int| 0 <= i < entries.len() && (#[trigger] entries[i]).path@ == p;
        let j = choose|j: int| 0 <= j < entries.len() && (#[trigger] entries[j]).path@ == q;
        if i < j {
            assert(entries[i].handle != entries[j].handle);
        } else {
            assert(entries[j].handle != entries[i].handle);
        }
    }
}

impl View for Registry {
    type V = RegistryView;

    closed spec fn view(&self) -> RegistryView {
        RegistryView { handles: handles_of(self.entries@), next_id: self.next_id as nat }
    }
}

impl Registry {
    #[verifier::type_invariant]
    spec fn inv(self) -> bool {
        &&& distinct_paths(self.entries@)
        &&& distinct_handles(self.entries@)
        &&& handles_below(self.entries@, self.next_id)
    }

    /// A registry in which no path is open.
    pub fn new() -> (r: Registry)
        ensures
            r@.handles == Map::<Seq<char>, StorageHandle>::empty(),
            r@.next_id == 0,
            r@.wf(),
    {
        Registry { entries: Vec::new(), next_id: 0 }
    }

    /// A registry in which no path is open, and which numbers its handles
    /// from `first` on: for a process that has given out handles before.
    pub fn starting_at(first: u64) -> (r: Registry)
        ensures
            r@.handles == Map::<Seq<char>, StorageHandle>::empty(),
            r@.next_id == first,
            r@.wf(),
    {
        Registry { entries: Vec::new(), next_id: first }
    }

    /// Where `path` stands in the list of entries.
    fn position(&self, path: &str) -> (r: Option<usize>)
        ensures
            match r {
                Some(i) => i < self.entries@.len() && self.entries@[i as int].path@ == path@,
                None => forall|i: int|
                    0 <= i < self.entries@.len() ==> (#[trigger] self.entries@[i]).path@ != path@,
            },
    {
        let mut i: usize = 0;
        while i < self.entries.len()
            invariant
                i <= self.entries@.len(),
                forall|j: int| 0 <= j < i ==> (#[trigger] self.entries@[j]).path@ != path@,
            decreases self.entries@.len() - i,
        {
            if str_eq(self.entries[i].path.as_str(), path) {
                return Some(i);
            }
            i = i + 1;
        }
        None
    }

    /// The handle that `path` is open under, if it is open.
    pub fn lookup(&self, path: &str) -> (r: Option<StorageHandle>)
        ensures
            r == if self@.handles.dom().contains(path@) {
                Some(self@.handles[path@])
            } else {
                None
            },
            self@.wf(),
    {
        proof {
            use_type_invariant(self);
            lemma_handles_of(self.entries@);
            lemma_wf(self.entries@, self.next_id);
        }
        match self.position(path) {
            Some(i) => Some(self.entries[i].handle),
            None => None,
        }
    }

    /// How many paths are open.
    pub fn len(&self) -> (r: usize)
        ensures
            r == self@.handles.dom().len(),
            self@.handles.dom().finite(),
    {
        proof {
            use_type_invariant(self);
            lemma_handles_len(self.entries@);
        }
        self.entries.len()
    }

    /// Opens `path`: finds the handle it is registered under, or registers it
    /// under a handle that no path has had before. Fails, and changes
    /// nothing, only where the path is new and no handle is left.
    pub fn register(&mut self, path: &str) -> (r: DatabaseResult<Registration>)
        ensures
            old(self)@.can_open(path@) ==> r == Ok::<Registration, DatabaseError>(
                old(self)@.registration(path@),
            ) && final(self)@ == old(self)@.open(path@),
            !old(self)@.can_open(path@) ==> r == Err::<Registration, DatabaseError>(
                DatabaseError::HandlesExhausted,
            ) && final(self)@ == old(self)@,
            old(self)@.wf(),
            final(self)@.wf(),
    {
        proof {
            use_type_invariant(&*self);
            lemma_handles_of(self.entries@);
            lemma_wf(self.entries@, self.next_id);
        }
        match self.position(path) {
            Some(i) => Ok(Registration { handle: self.entries[i].handle, fresh: false }),
            None => {
                if self.next_id == u64::MAX {
                    return Err(DatabaseError::HandlesExhausted);
                }
                let handle = StorageHandle { id: self.next_id };
                let ghost before = self.entries@;
                let entry = RegistryEntry { path: String::from_str(path), handle };
                let mut entries: Vec<RegistryEntry> = Vec::new();
                std::mem::swap(&mut self.entries, &mut entries);
                self.next_id = self.next_id + 1;
                assert(before.push(entry).drop_last() =~= before);
                entries.push(entry);
                self.entries = entries;
                proof {
                    lemma_wf(self.entries@, self.next_id);
                }
                Ok(Registration { handle, fresh: true })
            },
        }
    }

    /// Takes `path` out of the registry. Says whether it was open.
    pub fn unregister(&mut self, path: &str) -> (r: bool)
        ensures
            r == old(self)@.handles.dom().contains(path@),
            final(self)@ == old(self)@.remove(path@),
            old(self)@.wf(),
            final(self)@.wf(),
    {
        proof {
            use_type_invariant(&*self);
            lemma_handles_of(self.entries@);
            lemma_wf(self.entries@, self.next_id);
        }
        match self.position(path) {
            Some(i) => {
                proof {
                    lemma_handles_of_remove(self.entries@, i as int);
                    let rest = self.entries@.remove(i as int);
                    assert forall|a: int, b: int| 0 <= a < b < rest.len() implies (
                    #[trigger] rest[a]).handle != (#[trigger] rest[b]).handle by {
                        let x = if a < i { a } else { a + 1 };
                        let y = if b < i { b } else { b + 1 };
                        assert(rest[a] == self.entries@[x]);
                        assert(rest[b] == self.entries@[y]);
                    }
                    assert forall|a: int| 0 <= a < rest.len() implies (#[trigger] rest[a]).handle.id
                        < self.next_id by {
                        let x = if a < i { a } else { a + 1 };
                        assert(rest[a] == self.entries@[x]);
                    }
                }
                let mut entries: Vec<RegistryEntry> = Vec::new();
                std::mem::swap(&mut self.entries, &mut entries);
                entries.remove(i);
                self.entries = entries;
                proof {
                    lemma_wf(self.entries@, self.next_id);
                }
                true
            },
            None => {
                assert(self@.handles.remove(path@) =~= self@.handles);
                false
            },
        }
    }
}

/// As many paths are open as there are entries.
proof fn lemma_handles_len(entries: Seq<RegistryEntry>)
    requires
        distinct_paths(entries),
    ensures
        handles_of(entries).dom().finite(),
        handles_of(entries).dom().len() == entries.len(),
    decreases entries.len(),
{
    if entries.len() > 0 {
        let prior = entries.drop_last();
        lemma_handles_len(prior);
        lemma_handles_of(prior);
        if handles_of(prior).dom().contains(entries.last().path@) {
            let i = choose|i: int|
                0 <= i < prior.len() && (#[trigger] prior[i]).path@ == entries.last().path@;
            assert(entries[i].path@ != entries[entries.len() - 1].path@);
        }
    }
}

/// Opening and removing keep a registry well formed.
pub proof fn lemma_steps_keep_wf(r: RegistryView, path: Seq<char>)
    requires
        r.wf(),
        r.can_open(path),
    ensures
        r.open(path).wf(),
        r.remove(path).wf(),
{
}

/// Two openings of one path, whichever comes first, are backed by one and the
/// same handle: the second finds the path registered, registers nothing, and
/// leaves every entry as it is.
pub proof fn lemma_open_twice_same_handle(r: RegistryView, path: Seq<char>)
    requires
        r.wf(),
        r.can_open(path),
    ensures
        r.open(path).can_open(path),
        r.open(path).registration(path).handle == r.registration(path).handle,
        !r.open(path).registration(path).fresh,
        r.open(path).open(path) == r.open(path),
{
}

/// Opening a path loses no entry: every path that was open stays open under
/// the handle it had, so a later opening of it finds that handle again,
/// whatever was opened in between.
pub proof fn lemma_open_keeps_handles(r: RegistryView, path: Seq<char>, other: Seq<char>)
    requires
        r.wf(),
        r.handles.dom().contains(other),
    ensures
        r.open(path).handles.dom().contains(other),
        r.open(path).handles[other] == r.handles[other],
        r.open(path).registration(other) == r.registration(other),
{
}

/// A path that is registered for the first time gets a handle that no open
/// path has.
pub proof fn lemma_fresh_handle_is_new(r: RegistryView, path: Seq<char>, other: Seq<char>)
    requires
        r.wf(),
        r.can_open(path),
        !r.handles.dom().contains(path),
        r.handles.dom().contains(other),
    ensures
        r.registration(path).fresh,
        r.registration(path).handle != r.handles[other],
{
}

/// A path that was removed and is opened again is registered anew, under a
/// handle that it did not have before.
pub proof fn lemma_reopen_after_remove(r: RegistryView, path: Seq<char>)
    requires
        r.wf(),
        r.handles.dom().contains(path),
        r.next_id < u64::MAX,
    ensures
        r.remove(path).registration(path).fresh,
        r.remove(path).registration(path).handle != r.handles[path],
{
}

/// The registry after a series of openings, one after the other. Openings
/// that are asked for at the same time are served in some order, one at a
/// time, so that every run of a process is such a series.
pub open spec fn after_opens(r: RegistryView, paths: Seq<Seq<char>>) -> RegistryView
    decreases paths.len(),
{
    if paths.len() == 0 {
        r
    } else {
        after_opens(r, paths.drop_last()).open(paths.last())
    }
}

/// What the opening at place `i` of a series yields.
pub open spec fn nth_registration(r: RegistryView, paths: Seq<Seq<char>>, i: int) -> Registration {
    after_opens(r, paths.take(i)).registration(paths[i])
}

/// A series of openings keeps the registry well formed, gives out at most
/// one handle for each opening, and loses no entry.
pub proof fn lemma_after_opens(r: RegistryView, paths: Seq<Seq<char>>)
    requires
        r.wf(),
        r.next_id + paths.len() <= u64::MAX,
    ensures
        after_opens(r, paths).wf(),
        r.next_id <= after_opens(r, paths).next_id <= r.next_id + paths.len(),
        forall|p: Seq<char>| #[trigger]
            r.handles.dom().contains(p) ==> after_opens(r, paths).handles.dom().contains(p)
                && after_opens(r, paths).handles[p] == r.handles[p],
        forall|k: int|
            0 <= k < paths.len() ==> after_opens(r, paths).handles.dom().contains(
                #[trigger] paths[k],
            ),
    decreases paths.len(),
{
    if paths.len() > 0 {
        let prior = paths.drop_last();
        lemma_after_opens(r, prior);
        let before = after_opens(r, prior);
        assert forall|k: int| 0 <= k < paths.len() implies after_opens(
            r,
            paths,
        ).handles.dom().contains(#[trigger] paths[k]) by {
            if k < prior.len() {
                assert(prior[k] == paths[k]);
            }
        }
    }
}

/// Any two openings of one path in a series are backed by one and the same
/// handle, whatever else is opened before, between and after them, and the
/// later one registers nothing: a storage instance is never initialised
/// twice.
pub proof fn lemma_serialized_opens_share_handle(
    r: RegistryView,
    paths: Seq<Seq<char>>,
    i: int,
    j: int,
)
    requires
        r.wf(),
        r.next_id + paths.len() <= u64::MAX,
        0 <= i < j < paths.len(),
        paths[i] == paths[j],
    ensures
        nth_registration(r, paths, i).handle == nth_registration(r, paths, j).handle,
        !nth_registration(r, paths, j).fresh,
{
    let path = paths[i];
    let at_i = after_opens(r, paths.take(i));
    lemma_after_opens(r, paths.take(i));
    // The registry just after the opening at place `i`.
    let opened = after_opens(r, paths.take(i + 1));
    assert(paths.take(i + 1).drop_last() =~= paths.take(i));
    assert(opened == at_i.open(path));
    assert(opened.handles[path] == at_i.registration(path).handle);
    lemma_after_opens(r, paths.take(i + 1));
    // The openings between the two places keep the entry.
    let between = paths.subrange(i + 1, j);
    lemma_opens_compose(r, paths.take(i + 1), between);
    assert(paths.take(i + 1) + between =~= paths.take(j));
    lemma_after_opens(opened, between);
}

/// A series of openings in two parts.
pub proof fn lemma_opens_compose(r: RegistryView, first: Seq<Seq<char>>, second: Seq<Seq<char>>)
    ensures
        after_opens(r, first + second) == after_opens(after_opens(r, first), second),
    decreases second.len(),
{
    if second.len() == 0 {
        assert(first + second =~= first);
    } else {
        lemma_opens_compose(r, first, second.drop_last());
        assert((first + second).drop_last() =~= first + second.drop_last());
    }
}

/// Of all openings of a path that was not open before, the first one
/// registers it, and it alone.
pub proof fn lemma_first_open_registers(r: RegistryView, paths: Seq<Seq<char>>, i: int)
    requires
        r.wf(),
        r.next_id + paths.len() <= u64::MAX,
        0 <= i < paths.len(),
        !r.handles.dom().contains(paths[i]),
        forall|k: int| 0 <= k < i ==> paths[k] != paths[i],
    ensures
        nth_registration(r, paths, i).fresh,
{
    lemma_not_opened(r, paths.take(i), paths[i]);
}

/// A path that is not open and is not among those opened is not open
/// afterwards.
proof fn lemma_not_opened(r: RegistryView, paths: Seq<Seq<char>>, path: Seq<char>)
    requires
        !r.handles.dom().contains(path),
        forall|k: int| 0 <= k < paths.len() ==> paths[k] != path,
    ensures
        !after_opens(r, paths).handles.dom().contains(path),
    decreases paths.len(),
{
    if paths.len() > 0 {
        let prior = paths.drop_last();
        assert forall|k: int| 0 <= k < prior.len() implies prior[k] != path by {
            assert(prior[k] == paths[k]);
        }
        lemma_not_opened(r, prior, path);
        assert(paths.last() == paths[paths.len() - 1]);
    }
}

} // verus!
