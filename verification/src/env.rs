//! Environments: one storage partition each, with its transactions.
//!
//! A connection owns the committed chain of its partition. Readers are
//! snapshots: each sees the chain as it was when the reader was made, however
//! long the reader lives. Writes are staged in a writer and reach the chain in
//! one step, at commit, or not at all. A connection is written through an
//! exclusive borrow, so at most one write transaction is in flight on it at
//! any instant.

use crate::cell_id::CellId;
use crate::chain::{
    chain_head, entry_views, find_entry, lemma_entry_views_concat, lemma_entry_views_push,
    snapshot, ChainEntry, EntryView,
};
use crate::error::{DatabaseError, DatabaseResult};
use crate::hash::HeaderHash;
use crate::kind::{storage_path, storage_path_of, EnvironmentKind, KindView};
use crate::registry::{Registry, StorageHandle};
use vstd::prelude::*;
use vstd::string::*;

verus! {

/// The handle of a keystore. The engine hands it on and never looks inside.
#[derive(Clone, Copy, Debug, PartialEq, Eq, Structural)]
pub struct KeystoreSender {
    pub id: u64,
}

/// A read snapshot: the chain of one storage instance up to a length.
#[derive(Clone, Copy, Debug, PartialEq, Eq, Structural)]
pub struct Reader {
    pub handle: StorageHandle,
    pub visible: usize,
}

/// A write transaction: entries staged behind the head that the chain had when
/// the transaction began.
#[derive(Debug)]
pub struct Writer {
    base_head: Option<HeaderHash>,
    staged: Vec<ChainEntry>,
}

/// A write transaction as a plain value.
pub struct WriterView {
    pub base_head: Option<Seq<u8>>,
    pub staged: Seq<EntryView>,
}

/// The write transaction that begins on a chain: nothing staged yet.
pub open spec fn fresh_writer(chain: Seq<EntryView>) -> WriterView {
    WriterView { base_head: chain_head(chain), staged: Seq::empty() }
}

impl WriterView {
    /// The head as the transaction sees it: the address staged last, or the
    /// head of the chain while nothing is staged.
    pub open spec fn head(self) -> Option<Seq<u8>> {
        if self.staged.len() == 0 {
            self.base_head
        } else {
            chain_head(self.staged)
        }
    }
}

impl View for Writer {
    type V = WriterView;

    closed spec fn view(&self) -> WriterView {
        WriterView {
            base_head: match self.base_head {
                Some(h) => Some(h@),
                None => None,
            },
            staged: entry_views(self.staged@),
        }
    }
}

impl Writer {
    /// Stages one more entry.
    pub fn put(&mut self, entry: ChainEntry)
        ensures
            final(self)@.base_head == old(self)@.base_head,
            final(self)@.staged == old(self)@.staged.push(entry@),
    {
        proof {
            lemma_entry_views_push(self.staged@, entry);
        }
        self.staged.push(entry);
    }

    /// Stages all of `entries`, in their order.
    pub fn put_all(&mut self, entries: Vec<ChainEntry>)
        ensures
            final(self)@.base_head == old(self)@.base_head,
            final(self)@.staged == old(self)@.staged + entry_views(entries@),
    {
        proof {
            lemma_entry_views_concat(self.staged@, entries@);
        }
        let mut entries = entries;
        self.staged.append(&mut entries);
    }

    /// The head of the chain as this transaction sees it.
    pub fn head(&self) -> (r: Option<&HeaderHash>)
        ensures
            match r {
                Some(h) => self@.head() == Some(h@),
                None => self@.head() is None,
            },
    {
        if self.staged.len() == 0 {
            self.base_head.as_ref()
        } else {
            Some(self.staged[self.staged.len() - 1].address())
        }
    }

    /// How many entries are staged.
    pub fn len(&self) -> (r: usize)
        ensures
            r == self@.staged.len(),
    {
        self.staged.len()
    }
}

/// An environment value: it names one storage instance and can be shared
/// freely. It gives read access only.
#[derive(Debug)]
pub struct EnvironmentRead {
    path: String,
    kind: EnvironmentKind,
    keystore: KeystoreSender,
    handle: StorageHandle,
}

/// An environment value as a plain value.
pub struct EnvironmentView {
    pub path: Seq<char>,
    pub kind: KindView,
    pub keystore: KeystoreSender,
    pub handle: StorageHandle,
}

impl View for EnvironmentRead {
    type V = EnvironmentView;

    closed spec fn view(&self) -> EnvironmentView {
        EnvironmentView {
            path: self.path@,
            kind: self.kind@,
            keystore: self.keystore,
            handle: self.handle,
        }
    }
}

impl EnvironmentRead {
    /// Read access to `conn`, if that is the storage instance that this
    /// value names: a snapshot of its chain as it is now.
    pub fn guard(&self, conn: &DbConnection) -> (r: Option<Reader>)
        ensures
            r == if conn.env().handle == self@.handle {
                Some(Reader { handle: self@.handle, visible: conn@.len() as usize })
            } else {
                None
            },
    {
        if conn.handle.id == self.handle.id {
            Some(conn.reader())
        } else {
            None
        }
    }

    /// The kind of this environment.
    pub fn kind(&self) -> (r: &EnvironmentKind)
        ensures
            r@ == self@.kind,
    {
        &self.kind
    }

    /// The keystore of the conductor that this environment belongs to.
    pub fn keystore(&self) -> (r: &KeystoreSender)
        ensures
            *r == self@.keystore,
    {
        &self.keystore
    }

    /// The path at which the environment is stored.
    pub fn path(&self) -> (r: &String)
        ensures
            r@ == self@.path,
    {
        &self.path
    }

    /// The storage instance that backs this environment.
    pub fn handle(&self) -> (r: StorageHandle)
        ensures
            r == self@.handle,
    {
        self.handle
    }
}

impl Clone for EnvironmentRead {
    fn clone(&self) -> (r: Self)
        ensures
            r@ == self@,
    {
        EnvironmentRead {
            path: self.path.clone(),
            kind: self.kind.clone(),
            keystore: self.keystore,
            handle: self.handle,
        }
    }
}

/// The one storage instance behind a path. It holds the committed chain and
/// manages the transactions on it.
#[derive(Debug)]
pub struct DbConnection {
    path: String,
    kind: EnvironmentKind,
    keystore: KeystoreSender,
    handle: StorageHandle,
    chain: Vec<ChainEntry>,
}

/// What opening an environment yields: an environment value that shares the
/// storage instance registered for the path, and the instance itself where
/// this call created it.
#[derive(Debug)]
pub struct Opened {
    pub env: EnvironmentRead,
    pub created: Option<DbConnection>,
}

impl View for DbConnection {
    type V = Seq<EntryView>;

    /// The committed chain.
    closed spec fn view(&self) -> Seq<EntryView> {
        entry_views(self.chain@)
    }
}

impl DbConnection {
    /// What this connection is: its path, kind, keystore and handle.
    pub closed spec fn env(&self) -> EnvironmentView {
        EnvironmentView {
            path: self.path@,
            kind: self.kind@,
            keystore: self.keystore,
            handle: self.handle,
        }
    }

    /// What a reader sees on this connection: its snapshot of the chain, and
    /// nothing at all if it was made on another storage instance.
    pub open spec fn visible_to(&self, reader: Reader) -> Seq<EntryView> {
        if reader.handle == self.env().handle {
            snapshot(self@, reader.visible as nat)
        } else {
            Seq::empty()
        }
    }

    /// Opens the environment of `kind` below `path_prefix`.
    ///
    /// `dir_ready` says whether the directory of the environment is there,
    /// found or made by the caller. If it is not, the call fails with
    /// `EnvironmentMissing` and registers nothing. Otherwise the path is
    /// looked up in the registry: a path that is new is registered, and its
    /// storage instance is created, empty; for a path that is open already
    /// nothing is created, and the environment value shares the instance
    /// that is registered.
    pub fn new(
        registry: &mut Registry,
        path_prefix: &str,
        kind: EnvironmentKind,
        keystore: KeystoreSender,
        dir_ready: bool,
    ) -> (r: DatabaseResult<Opened>)
        ensures
            open_result(
                old(registry)@,
                storage_path_of(path_prefix@, kind@),
                kind@,
                keystore,
                dir_ready,
                final(registry)@,
                r,
            ),
            dir_ready ==> old(registry)@.wf() && final(registry)@.wf(),
    {
        let path = storage_path(path_prefix, &kind);
        if !dir_ready {
            return Err(DatabaseError::EnvironmentMissing(path));
        }
        match registry.register(path.as_str()) {
            Ok(registration) => {
                let created = if registration.fresh {
                    let conn = DbConnection {
                        path: path.clone(),
                        kind: kind.clone(),
                        keystore,
                        handle: registration.handle,
                        chain: Vec::new(),
                    };
                    assert(conn@ =~= Seq::<EntryView>::empty());
                    Some(conn)
                } else {
                    None
                };
                let env = EnvironmentRead { path, kind, keystore, handle: registration.handle };
                Ok(Opened { env, created })
            },
            Err(e) => Err(e),
        }
    }

    /// Opens the environment of a cell (slight shorthand).
    pub fn new_cell(
        registry: &mut Registry,
        path_prefix: &str,
        cell_id: CellId,
        keystore: KeystoreSender,
        dir_ready: bool,
    ) -> (r: DatabaseResult<Opened>)
        ensures
            open_result(
                old(registry)@,
                storage_path_of(path_prefix@, KindView::Cell(cell_id@)),
                KindView::Cell(cell_id@),
                keystore,
                dir_ready,
                final(registry)@,
                r,
            ),
            dir_ready ==> old(registry)@.wf() && final(registry)@.wf(),
    {
        Self::new(registry, path_prefix, EnvironmentKind::Cell(cell_id), keystore, dir_ready)
    }

    /// Exclusive access to this connection, for a write transaction.
    pub fn guard(&mut self) -> (r: &mut Self)
        ensures
            *r == *old(self),
            *final(self) == *final(r),
    {
        self
    }

    /// An environment value that names this storage instance.
    pub fn read_only(&self) -> (r: EnvironmentRead)
        ensures
            r@ == self.env(),
    {
        EnvironmentRead {
            path: self.path.clone(),
            kind: self.kind.clone(),
            keystore: self.keystore,
            handle: self.handle,
        }
    }

    /// The storage instance that this connection is.
    pub fn handle(&self) -> (r: StorageHandle)
        ensures
            r == self.env().handle,
    {
        self.handle
    }

    /// The path at which the environment is stored.
    pub fn path(&self) -> (r: &String)
        ensures
            r@ == self.env().path,
    {
        &self.path
    }

    /// The kind of this environment.
    pub fn kind(&self) -> (r: &EnvironmentKind)
        ensures
            r@ == self.env().kind,
    {
        &self.kind
    }

    /// The keystore of the conductor that this environment belongs to.
    pub fn keystore(&self) -> (r: &KeystoreSender)
        ensures
            *r == self.env().keystore,
    {
        &self.keystore
    }

    /// How many entries are committed.
    pub fn len(&self) -> (r: usize)
        ensures
            r == self@.len(),
    {
        self.chain.len()
    }

    /// The head of the committed chain.
    pub fn head(&self) -> (r: Option<&HeaderHash>)
        ensures
            match r {
                Some(h) => chain_head(self@) == Some(h@),
                None => chain_head(self@) is None,
            },
    {
        if self.chain.len() == 0 {
            None
        } else {
            Some(self.chain[self.chain.len() - 1].address())
        }
    }

    /// A new write transaction on the chain as it is now.
    pub fn txn(&self) -> (r: Writer)
        ensures
            r@ == fresh_writer(self@),
    {
        let base_head = match self.head() {
            Some(h) => Some(h.clone()),
            None => None,
        };
        let r = Writer { base_head, staged: Vec::new() };
        assert(r@.staged =~= Seq::<EntryView>::empty());
        r
    }

    /// How many entries `reader` sees here.
    pub fn visible_len(&self, reader: &Reader) -> (r: usize)
        ensures
            r == self.visible_to(*reader).len(),
    {
        if reader.handle.id != self.handle.id {
            0
        } else if reader.visible <= self.chain.len() {
            reader.visible
        } else {
            self.chain.len()
        }
    }

    /// The entry at place `index` of what `reader` sees.
    pub fn get(&self, reader: &Reader, index: usize) -> (r: Option<&ChainEntry>)
        ensures
            match r {
                Some(entry) => index < self.visible_to(*reader).len() && entry@
                    == self.visible_to(*reader)[index as int],
                None => index >= self.visible_to(*reader).len(),
            },
    {
        if index < self.visible_len(reader) {
            Some(&self.chain[index])
        } else {
            None
        }
    }

    /// The head of the chain as `reader` sees it.
    pub fn head_at(&self, reader: &Reader) -> (r: Option<&HeaderHash>)
        ensures
            match r {
                Some(h) => chain_head(self.visible_to(*reader)) == Some(h@),
                None => chain_head(self.visible_to(*reader)) is None,
            },
    {
        let n: usize = self.visible_len(reader);
        if n == 0 {
            None
        } else {
            Some(self.chain[n - 1].address())
        }
    }

    /// The committed entry that `reader` sees under `address`.
    pub fn get_entry(&self, reader: &Reader, address: &HeaderHash) -> (r: Option<&ChainEntry>)
        ensures
            match r {
                Some(entry) => find_entry(self.visible_to(*reader), address@) == Some(entry@),
                None => find_entry(self.visible_to(*reader), address@) is None,
            },
    {
        let n: usize = self.visible_len(reader);
        let ghost seen = self.visible_to(*reader);
        let mut i: usize = 0;
        assert(seen.take(0) =~= Seq::<EntryView>::empty());
        while i < n
            invariant
                i <= n,
                n == seen.len(),
                n <= self.chain@.len(),
                seen == self.visible_to(*reader),
                forall|j: int| 0 <= j < n ==> #[trigger] seen[j] == self.chain@[j]@,
                find_entry(seen.take(i as int), address@) is None,
            decreases n - i,
        {
            proof {
                assert(seen.take(i + 1).drop_last() =~= seen.take(i as int));
                assert(seen.take(i + 1).last() == self.chain@[i as int]@);
            }
            if *self.chain[i].address() == *address {
                proof {
                    assert(seen[i as int] == self.chain@[i as int]@);
                    assert(seen[i as int].address == address@);
                    lemma_find_prefix(seen, i + 1, address@);
                }
                return Some(&self.chain[i]);
            }
            i = i + 1;
        }
        assert(seen.take(n as int) =~= seen);
        None
    }

    /// Removes the environment: takes its path out of the registry and gives
    /// up the storage instance with all that it holds. Returns the path of
    /// the directory that is to be deleted. A connection that the registry
    /// no longer knows under its path changes nothing and returns nothing.
    pub fn remove(self, registry: &mut Registry) -> (r: Option<String>)
        ensures
            remove_result(old(registry)@, self.env(), final(registry)@, r),
            final(registry)@.wf(),
    {
        match registry.lookup(self.path.as_str()) {
            Some(handle) => {
                if handle.id == self.handle.id {
                    registry.unregister(self.path.as_str());
                    Some(self.path)
                } else {
                    None
                }
            },
            None => None,
        }
    }
}

/// Implementors can make read snapshots of a chain.
pub trait ReadManager {
    /// The chain that readers are made of.
    spec fn readable(&self) -> Seq<EntryView>;

    /// The storage instance that readers are bound to.
    spec fn instance(&self) -> StorageHandle;

    /// A snapshot of the chain as it is now.
    fn reader(&self) -> (r: Reader)
        ensures
            r.handle == self.instance(),
            r.visible == self.readable().len(),
    ;

    /// Runs `f` on a new snapshot and hands on what it returns.
    fn with_reader<E, R, F>(&self, f: F) -> (res: Result<R, E>) where
        F: FnOnce(Reader) -> Result<R, E>,

        requires
            forall|reader: Reader|
                reader.handle == self.instance() && reader.visible == self.readable().len()
                    ==> call_requires(f, (reader,)),
        ensures
            exists|reader: Reader|
                reader.handle == self.instance() && reader.visible == self.readable().len()
                    && #[trigger] call_ensures(f, (reader,), res),
    ;
}

/// Implementors can run a write transaction on a chain.
pub trait WriteManager {
    /// The committed chain.
    spec fn committed(&self) -> Seq<EntryView>;

    /// Runs `f` on a new write transaction. If `f` succeeds, what the
    /// transaction holds is appended to the chain in one step, and the result
    /// of `f` is returned. If `f` fails, the transaction is dropped, the chain
    /// stays as it was, and the error of `f` is returned untouched.
    fn with_commit<E, R, F>(&mut self, f: F) -> (res: Result<R, E>) where
        F: FnOnce(Writer) -> (Writer, Result<R, E>),

        requires
            forall|begun: Writer|
                begun@ == fresh_writer(old(self).committed()) ==> call_requires(f, (begun,)),
        ensures
            exists|begun: Writer, ended: Writer|
                begun@ == fresh_writer(old(self).committed()) && #[trigger] call_ensures(
                    f,
                    (begun,),
                    (ended, res),
                ) && final(self).committed() == commit_outcome(
                    old(self).committed(),
                    ended@.staged,
                    res is Ok,
                ),
    ;
}

/// The chain after a write transaction: with the staged entries behind it if
/// the transaction succeeded, and unchanged if it did not.
pub open spec fn commit_outcome(
    chain: Seq<EntryView>,
    staged: Seq<EntryView>,
    success: bool,
) -> Seq<EntryView> {
    if success {
        chain + staged
    } else {
        chain
    }
}

impl ReadManager for DbConnection {
    open spec fn readable(&self) -> Seq<EntryView> {
        self@
    }

    open spec fn instance(&self) -> StorageHandle {
        self.env().handle
    }

    fn reader(&self) -> (r: Reader) {
        Reader { handle: self.handle, visible: self.chain.len() }
    }

    fn with_reader<E, R, F>(&self, f: F) -> (res: Result<R, E>) where
        F: FnOnce(Reader) -> Result<R, E>,
     {
        let reader = self.reader();
        let res = f(reader);
        assert(call_ensures(f, (reader,), res));
        res
    }
}

impl WriteManager for DbConnection {
    open spec fn committed(&self) -> Seq<EntryView> {
        self@
    }

    fn with_commit<E, R, F>(&mut self, f: F) -> (res: Result<R, E>) where
        F: FnOnce(Writer) -> (Writer, Result<R, E>),

        ensures
            final(self).env() == old(self).env(),
    {
        let begun = self.txn();
        let ghost g_begun = begun;
        let (ended, outcome) = f(begun);
        let ghost g_ended = ended;
        match outcome {
            Ok(value) => {
                let mut staged = ended.staged;
                proof {
                    lemma_entry_views_concat(self.chain@, staged@);
                }
                self.chain.append(&mut staged);
                let res = Ok(value);
                assert(call_ensures(f, (g_begun,), (g_ended, res)));
                res
            },
            Err(error) => {
                let res = Err(error);
                assert(call_ensures(f, (g_begun,), (g_ended, res)));
                res
            },
        }
    }
}

/// What opening the environment at `path` yields, for each state of the
/// registry and of the directory.
pub open spec fn open_result(
    before: crate::registry::RegistryView,
    path: Seq<char>,
    kind: KindView,
    keystore: KeystoreSender,
    dir_ready: bool,
    after: crate::registry::RegistryView,
    r: DatabaseResult<Opened>,
) -> bool {
    if !dir_ready {
        &&& r matches Err(DatabaseError::EnvironmentMissing(p))
        &&& p@ == path
        &&& after == before
    } else if !before.can_open(path) {
        &&& r == Err::<Opened, DatabaseError>(DatabaseError::HandlesExhausted)
        &&& after == before
    } else {
        &&& after == before.open(path)
        &&& r matches Ok(opened)
        &&& opened.env@ == (EnvironmentView {
            path,
            kind,
            keystore,
            handle: before.registration(path).handle,
        })
        &&& match opened.created {
            Some(conn) => before.registration(path).fresh && conn.env() == opened.env@ && conn@
                == Seq::<EntryView>::empty(),
            None => !before.registration(path).fresh,
        }
    }
}

/// What removing an environment yields: where the registry knows the path
/// under the handle of the connection, the path is taken out and returned;
/// otherwise nothing changes and nothing is returned.
pub open spec fn remove_result(
    before: crate::registry::RegistryView,
    env: EnvironmentView,
    after: crate::registry::RegistryView,
    r: Option<String>,
) -> bool {
    if before.handles.dom().contains(env.path) && before.handles[env.path] == env.handle {
        &&& after == before.remove(env.path)
        &&& r matches Some(p)
        &&& p@ == env.path
    } else {
        &&& after == before
        &&& r is None
    }
}

/// An entry found among the first entries of a chain is what is found in the
/// whole chain.
proof fn lemma_find_prefix(chain: Seq<EntryView>, k: int, address: Seq<u8>)
    requires
        0 < k <= chain.len(),
        find_entry(chain.take(k - 1), address) is None,
        chain[k - 1].address == address,
    ensures
        find_entry(chain, address) == Some(chain[k - 1]),
{
    assert(chain.take(k).drop_last() =~= chain.take(k - 1));
    assert(find_entry(chain.take(k), address) == Some(chain[k - 1]));
    crate::chain::lemma_find_entry_stable(chain.take(k), chain.skip(k), address);
    assert(chain.take(k) + chain.skip(k) =~= chain);
}

} // verus!
