//! Environments for tests: opened below a root that the test owns, such as a
//! temporary directory.

use crate::cell_id::CellId;
use crate::env::{open_result, DbConnection, EnvironmentRead, EnvironmentView, KeystoreSender, Opened};
use crate::error::{DatabaseError, DatabaseResult};
use crate::kind::{lemma_storage_path_injective, storage_path_of, EnvironmentKind, KindView};
use crate::registry::{Registry, RegistryView};
use vstd::prelude::*;
use vstd::string::*;

verus! {

/// A test environment together with the directory that it lies in.
#[derive(Debug)]
pub struct TestEnvironment {
    /// The environment, and its storage instance where it was created here.
    opened: Opened,
    /// The root directory of this environment.
    tmpdir: String,
}

impl TestEnvironment {
    pub closed spec fn spec_env(&self) -> EnvironmentView {
        self.opened.env@
    }

    pub closed spec fn spec_tmpdir(&self) -> Seq<char> {
        self.tmpdir@
    }

    /// The storage instance, where the environment was created by this
    /// test environment.
    pub closed spec fn spec_created(&self) -> Option<DbConnection> {
        self.opened.created
    }

    /// The environment.
    pub fn env(&self) -> (r: EnvironmentRead)
        ensures
            r@ == self.spec_env(),
    {
        self.opened.env.clone()
    }

    /// The root directory.
    pub fn tmpdir(&self) -> (r: &String)
        ensures
            r@ == self.spec_tmpdir(),
    {
        &self.tmpdir
    }

    /// The environment taken apart.
    pub fn into_opened(self) -> (r: Opened)
        ensures
            r.env@ == self.spec_env(),
            r.created == self.spec_created(),
    {
        self.opened
    }
}

/// What opening a test environment yields: what opening the environment of
/// that kind below the root yields, kept together with the root.
pub open spec fn test_env_result(
    before: RegistryView,
    root: Seq<char>,
    kind: KindView,
    keystore: KeystoreSender,
    dir_ready: bool,
    after: RegistryView,
    r: DatabaseResult<TestEnvironment>,
) -> bool {
    let path = storage_path_of(root, kind);
    if !dir_ready {
        &&& r matches Err(DatabaseError::EnvironmentMissing(p))
        &&& p@ == path
        &&& after == before
    } else if !before.can_open(path) {
        &&& r == Err::<TestEnvironment, DatabaseError>(DatabaseError::HandlesExhausted)
        &&& after == before
    } else {
        &&& after == before.open(path)
        &&& r matches Ok(test_env)
        &&& test_env.spec_tmpdir() == root
        &&& test_env.spec_env() == (EnvironmentView {
            path,
            kind,
            keystore,
            handle: before.registration(path).handle,
        })
        &&& match test_env.spec_created() {
            Some(conn) => before.registration(path).fresh && conn.env() == test_env.spec_env()
                && conn@.len() == 0,
            None => !before.registration(path).fresh,
        }
    }
}

/// Opens a test environment of `kind` below `tmpdir`.
pub fn test_env(
    registry: &mut Registry,
    tmpdir: &str,
    kind: EnvironmentKind,
    keystore: KeystoreSender,
    dir_ready: bool,
) -> (r: DatabaseResult<TestEnvironment>)
    ensures
        test_env_result(old(registry)@, tmpdir@, kind@, keystore, dir_ready, final(registry)@, r),
        dir_ready ==> old(registry)@.wf() && final(registry)@.wf(),
{
    match DbConnection::new(registry, tmpdir, kind, keystore, dir_ready) {
        Ok(opened) => Ok(TestEnvironment { opened, tmpdir: String::from_str(tmpdir) }),
        Err(error) => Err(error),
    }
}

/// Opens a test environment of the kind `Cell`.
pub fn test_cell_env(
    registry: &mut Registry,
    tmpdir: &str,
    cell_id: CellId,
    keystore: KeystoreSender,
    dir_ready: bool,
) -> (r: DatabaseResult<TestEnvironment>)
    ensures
        test_env_result(
            old(registry)@,
            tmpdir@,
            KindView::Cell(cell_id@),
            keystore,
            dir_ready,
            final(registry)@,
            r,
        ),
        dir_ready ==> old(registry)@.wf() && final(registry)@.wf(),
{
    test_env(registry, tmpdir, EnvironmentKind::Cell(cell_id), keystore, dir_ready)
}

/// Opens a test environment of the kind `Conductor`.
pub fn test_conductor_env(
    registry: &mut Registry,
    tmpdir: &str,
    keystore: KeystoreSender,
    dir_ready: bool,
) -> (r: DatabaseResult<TestEnvironment>)
    ensures
        test_env_result(
            old(registry)@,
            tmpdir@,
            KindView::Conductor,
            keystore,
            dir_ready,
            final(registry)@,
            r,
        ),
        dir_ready ==> old(registry)@.wf() && final(registry)@.wf(),
{
    test_env(registry, tmpdir, EnvironmentKind::Conductor, keystore, dir_ready)
}

/// Opens a test environment of the kind `Wasm`.
pub fn test_wasm_env(
    registry: &mut Registry,
    tmpdir: &str,
    keystore: KeystoreSender,
    dir_ready: bool,
) -> (r: DatabaseResult<TestEnvironment>)
    ensures
        test_env_result(
            old(registry)@,
            tmpdir@,
            KindView::Wasm,
            keystore,
            dir_ready,
            final(registry)@,
            r,
        ),
        dir_ready ==> old(registry)@.wf() && final(registry)@.wf(),
{
    test_env(registry, tmpdir, EnvironmentKind::Wasm, keystore, dir_ready)
}

/// Opens a test environment of the kind `P2p`.
pub fn test_p2p_env(
    registry: &mut Registry,
    tmpdir: &str,
    keystore: KeystoreSender,
    dir_ready: bool,
) -> (r: DatabaseResult<TestEnvironment>)
    ensures
        test_env_result(
            old(registry)@,
            tmpdir@,
            KindView::P2p,
            keystore,
            dir_ready,
            final(registry)@,
            r,
        ),
        dir_ready ==> old(registry)@.wf() && final(registry)@.wf(),
{
    test_env(registry, tmpdir, EnvironmentKind::P2p, keystore, dir_ready)
}

/// The three environments that do not belong to a cell, below one root.
#[derive(Debug)]
pub struct TestEnvironments {
    /// The environment of the conductor.
    conductor: TestEnvironment,
    /// The environment for wasm.
    wasm: TestEnvironment,
    /// The environment of the p2p network.
    p2p: TestEnvironment,
    /// The root directory that the three share.
    tempdir: String,
    /// The keystore that the three share.
    keystore: KeystoreSender,
}

/// The registry after the three environments below `root` were opened, one
/// after the other.
pub open spec fn all_opened(before: RegistryView, root: Seq<char>) -> RegistryView {
    before.open(storage_path_of(root, KindView::Conductor)).open(
        storage_path_of(root, KindView::Wasm),
    ).open(storage_path_of(root, KindView::P2p))
}

/// Whether the three environments below `root` can be opened, one after the
/// other.
pub open spec fn can_open_all(before: RegistryView, root: Seq<char>) -> bool {
    let conductor = storage_path_of(root, KindView::Conductor);
    let wasm = storage_path_of(root, KindView::Wasm);
    let p2p = storage_path_of(root, KindView::P2p);
    &&& before.can_open(conductor)
    &&& before.open(conductor).can_open(wasm)
    &&& before.open(conductor).open(wasm).can_open(p2p)
}

impl TestEnvironments {
    pub closed spec fn spec_conductor(&self) -> EnvironmentView {
        self.conductor.spec_env()
    }

    pub closed spec fn spec_wasm(&self) -> EnvironmentView {
        self.wasm.spec_env()
    }

    pub closed spec fn spec_p2p(&self) -> EnvironmentView {
        self.p2p.spec_env()
    }

    pub closed spec fn spec_tempdir(&self) -> Seq<char> {
        self.tempdir@
    }

    pub closed spec fn spec_keystore(&self) -> KeystoreSender {
        self.keystore
    }

    /// Opens all three environments below `tempdir`, with one keystore.
    /// Succeeds exactly where the directories are ready and the registry
    /// can open all three. The three are then stored at three different
    /// paths and backed by three different storage instances.
    pub fn new(registry: &mut Registry, tempdir: &str, keystore: KeystoreSender, dir_ready: bool) -> (r:
        DatabaseResult<TestEnvironments>)
        ensures
            r is Ok <==> dir_ready && can_open_all(old(registry)@, tempdir@),
            !dir_ready ==> final(registry)@ == old(registry)@,
            match r {
                Ok(envs) => {
                    &&& final(registry)@ == all_opened(old(registry)@, tempdir@)
                    &&& envs.spec_tempdir() == tempdir@
                    &&& envs.spec_keystore() == keystore
                    &&& envs.spec_conductor().kind == KindView::Conductor
                    &&& envs.spec_wasm().kind == KindView::Wasm
                    &&& envs.spec_p2p().kind == KindView::P2p
                    &&& envs.spec_conductor().path == storage_path_of(tempdir@, KindView::Conductor)
                    &&& envs.spec_wasm().path == storage_path_of(tempdir@, KindView::Wasm)
                    &&& envs.spec_p2p().path == storage_path_of(tempdir@, KindView::P2p)
                    &&& final(registry)@.handles.dom().contains(envs.spec_conductor().path)
                    &&& final(registry)@.handles.dom().contains(envs.spec_wasm().path)
                    &&& final(registry)@.handles.dom().contains(envs.spec_p2p().path)
                    &&& final(registry)@.handles[envs.spec_conductor().path]
                        == envs.spec_conductor().handle
                    &&& final(registry)@.handles[envs.spec_wasm().path] == envs.spec_wasm().handle
                    &&& final(registry)@.handles[envs.spec_p2p().path] == envs.spec_p2p().handle
                    &&& envs.spec_conductor().handle != envs.spec_wasm().handle
                    &&& envs.spec_conductor().handle != envs.spec_p2p().handle
                    &&& envs.spec_wasm().handle != envs.spec_p2p().handle
                },
                Err(error) => dir_ready ==> error == DatabaseError::HandlesExhausted,
            },
    {
        let conductor = test_conductor_env(registry, tempdir, keystore, dir_ready)?;
        let wasm = test_wasm_env(registry, tempdir, keystore, dir_ready)?;
        let p2p = test_p2p_env(registry, tempdir, keystore, dir_ready)?;
        proof {
            let root = tempdir@;
            let pc = storage_path_of(root, KindView::Conductor);
            let pw = storage_path_of(root, KindView::Wasm);
            let pp = storage_path_of(root, KindView::P2p);
            if pc == pw {
                lemma_storage_path_injective(root, KindView::Conductor, KindView::Wasm);
            }
            if pc == pp {
                lemma_storage_path_injective(root, KindView::Conductor, KindView::P2p);
            }
            if pw == pp {
                lemma_storage_path_injective(root, KindView::Wasm, KindView::P2p);
            }
            let r0 = old(registry)@;
            let r1 = r0.open(pc);
            let r2 = r1.open(pw);
            let r3 = r2.open(pp);
            assert(r3 == registry@);
            assert(r3.handles[pc] == r0.registration(pc).handle);
            assert(r3.handles[pw] == r1.registration(pw).handle);
            assert(r3.handles[pp] == r2.registration(pp).handle);
            assert(r3.wf());
        }
        Ok(TestEnvironments { conductor, wasm, p2p, tempdir: String::from_str(tempdir), keystore })
    }

    pub fn conductor(&self) -> (r: EnvironmentRead)
        ensures
            r@ == self.spec_conductor(),
    {
        self.conductor.env()
    }

    pub fn wasm(&self) -> (r: EnvironmentRead)
        ensures
            r@ == self.spec_wasm(),
    {
        self.wasm.env()
    }

    pub fn p2p(&self) -> (r: EnvironmentRead)
        ensures
            r@ == self.spec_p2p(),
    {
        self.p2p.env()
    }

    /// The root directory of these environments.
    pub fn tempdir(&self) -> (r: &String)
        ensures
            r@ == self.spec_tempdir(),
    {
        &self.tempdir
    }

    pub fn keystore(&self) -> (r: KeystoreSender)
        ensures
            r == self.spec_keystore(),
    {
        self.keystore
    }
}

/// Opens the three test environments below `tempdir`.
pub fn test_environments(
    registry: &mut Registry,
    tempdir: &str,
    keystore: KeystoreSender,
    dir_ready: bool,
) -> (r: DatabaseResult<TestEnvironments>)
    ensures
        r is Ok <==> dir_ready && can_open_all(old(registry)@, tempdir@),
        r matches Ok(envs) ==> final(registry)@ == all_opened(old(registry)@, tempdir@)
            && envs.spec_tempdir() == tempdir@ && envs.spec_keystore() == keystore,
        !dir_ready ==> final(registry)@ == old(registry)@,
{
    TestEnvironments::new(registry, tempdir, keystore, dir_ready)
}

} // verus!
