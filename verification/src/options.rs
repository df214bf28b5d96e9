//! The options with which a storage environment is opened.
//!
//! The defaults favour write throughput over strict durability: writes go
//! through a writeable memory map and are flushed to disk asynchronously, so a
//! crash between the acknowledgement of a commit and its flush can lose the
//! most recent commits. This is a deliberate trade. A caller who wants it
//! otherwise passes flags of their own.

use vstd::prelude::*;

verus! {

/// The size of the memory map where the caller names none: 100 MB.
pub const DEFAULT_INITIAL_MAP_SIZE: usize = 104_857_600;

/// The number of databases that one environment can hold.
pub const MAX_DBS: u32 = 32;

/// The flags that an environment can be opened with.
#[derive(Clone, Copy, Debug, PartialEq, Eq, Structural)]
pub enum Flag {
    /// Use a fixed address for the memory map.
    FixedMap,
    /// The path names a file, not a directory.
    NoSubDir,
    /// Write through a writeable memory map. Faster, and open to stray
    /// writes.
    WriteMap,
    /// Open the environment for reading only.
    ReadOnly,
    /// Flush the meta page only with the next commit.
    NoMetaSync,
    /// Do not flush to disk at commit.
    NoSync,
    /// With `WriteMap`, flush to disk asynchronously.
    MapAsync,
    /// Tie reader slots to transactions, not to threads.
    NoTls,
    /// Do no locking: the caller serialises all access.
    NoLock,
    /// Turn off readahead.
    NoReadahead,
    /// Do not initialise memory before it is written to disk.
    NoMemInit,
}

/// A set of environment flags, as the storage engine takes it.
#[verifier::external_type_specification]
#[verifier::external_body]
pub struct ExEnvironmentFlags(rkv::EnvironmentFlags);

/// The flags that a set of flags holds.
pub uninterp spec fn flags_held(flags: rkv::EnvironmentFlags) -> Set<Flag>;

/// `EnvironmentFlags::WRITE_MAP` of rkv: the set that holds the flag for a
/// writeable memory map and no other.
#[verifier::external_body]
fn write_map() -> (r: rkv::EnvironmentFlags)
    ensures
        flags_held(r) == set![Flag::WriteMap],
{
    rkv::EnvironmentFlags::WRITE_MAP
}

/// `EnvironmentFlags::MAP_ASYNC` of rkv: the set that holds the flag for
/// asynchronous flushes and no other.
#[verifier::external_body]
fn map_async() -> (r: rkv::EnvironmentFlags)
    ensures
        flags_held(r) == set![Flag::MapAsync],
{
    rkv::EnvironmentFlags::MAP_ASYNC
}

/// `EnvironmentFlags::NO_TLS` of rkv: the set that holds the flag that ties
/// reader slots to transactions, and no other.
#[verifier::external_body]
fn no_tls_flag() -> (r: rkv::EnvironmentFlags)
    ensures
        flags_held(r) == set![Flag::NoTls],
{
    rkv::EnvironmentFlags::NO_TLS
}

/// `EnvironmentFlags::default()` of rkv: the set that holds no flag.
#[verifier::external_body]
fn no_flags() -> (r: rkv::EnvironmentFlags)
    ensures
        flags_held(r) == Set::<Flag>::empty(),
{
    rkv::EnvironmentFlags::default()
}

/// The operator `|` on `EnvironmentFlags` of rkv: the union of two sets of
/// flags, which holds a flag exactly if one of the two holds it.
#[verifier::external_body]
fn union(a: rkv::EnvironmentFlags, b: rkv::EnvironmentFlags) -> (r: rkv::EnvironmentFlags)
    ensures
        flags_held(r) == flags_held(a).union(flags_held(b)),
{
    a | b
}

/// What an environment is opened with.
#[derive(Clone, Copy, Debug, PartialEq)]
pub struct EnvironmentOptions {
    /// The largest size of the memory map, in bytes.
    pub map_size: usize,
    /// The largest number of databases.
    pub max_dbs: u32,
    pub flags: rkv::EnvironmentFlags,
}

/// The flags that hold where the caller names none: a writeable memory map,
/// flushed asynchronously.
pub open spec fn spec_default_flags() -> Set<Flag> {
    set![Flag::WriteMap, Flag::MapAsync]
}

/// The flags that are set whatever the caller names: `NoTls` where reader
/// slots are to be tied to transactions, so that one thread can hold several
/// read transactions.
pub open spec fn spec_required_flags(no_tls: bool) -> Set<Flag> {
    if no_tls {
        set![Flag::NoTls]
    } else {
        Set::empty()
    }
}

/// The flags that an environment is opened with: the named flags or the
/// default ones, together with the required ones.
pub open spec fn spec_flags(named: Option<Set<Flag>>, no_tls: bool) -> Set<Flag> {
    (match named {
        Some(flags) => flags,
        None => spec_default_flags(),
    }).union(spec_required_flags(no_tls))
}

/// The size of the memory map: the named size or the default.
pub open spec fn spec_map_size(initial_map_size: Option<usize>) -> usize {
    match initial_map_size {
        Some(size) => size,
        None => DEFAULT_INITIAL_MAP_SIZE,
    }
}

/// What a caller named, as a set of flags.
pub open spec fn named_flags(flags: Option<rkv::EnvironmentFlags>) -> Option<Set<Flag>> {
    match flags {
        Some(named) => Some(flags_held(named)),
        None => None,
    }
}

pub fn default_flags() -> (r: rkv::EnvironmentFlags)
    ensures
        flags_held(r) == spec_default_flags(),
{
    let r = union(write_map(), map_async());
    assert(flags_held(r) =~= spec_default_flags());
    r
}

pub fn required_flags(no_tls: bool) -> (r: rkv::EnvironmentFlags)
    ensures
        flags_held(r) == spec_required_flags(no_tls),
{
    if no_tls {
        no_tls_flag()
    } else {
        no_flags()
    }
}

/// The options with which an environment is built: the named map size or
/// the default, the fixed number of databases, and the named flags or the
/// default ones, together with the required ones.
pub fn rkv_builder(
    initial_map_size: Option<usize>,
    flags: Option<rkv::EnvironmentFlags>,
    no_tls: bool,
) -> (r: EnvironmentOptions)
    ensures
        r.map_size == spec_map_size(initial_map_size),
        r.max_dbs == MAX_DBS,
        flags_held(r.flags) == spec_flags(named_flags(flags), no_tls),
{
    let map_size = match initial_map_size {
        Some(size) => size,
        None => DEFAULT_INITIAL_MAP_SIZE,
    };
    let named = match flags {
        Some(named) => named,
        None => default_flags(),
    };
    EnvironmentOptions { map_size, max_dbs: MAX_DBS, flags: union(named, required_flags(no_tls)) }
}

/// The options of the standard environment: all defaults, with no flag
/// required on top.
pub fn create_lmdb_env() -> (r: EnvironmentOptions)
    ensures
        r.map_size == DEFAULT_INITIAL_MAP_SIZE,
        r.max_dbs == MAX_DBS,
        flags_held(r.flags) == spec_default_flags(),
{
    let r = rkv_builder(None, None, false);
    assert(flags_held(r.flags) =~= spec_default_flags());
    r
}

/// Whatever the caller names, the required flags are set, and no flag that
/// the caller named is lost.
pub proof fn lemma_required_flags_hold(named: Option<Set<Flag>>, no_tls: bool)
    ensures
        spec_required_flags(no_tls).subset_of(spec_flags(named, no_tls)),
        named matches Some(flags) ==> flags.subset_of(spec_flags(named, no_tls)),
        no_tls ==> spec_flags(named, no_tls).contains(Flag::NoTls),
{
}

/// Where the caller names no flags, the environment writes through the memory
/// map and flushes asynchronously, and neither gives up flushing altogether
/// nor is opened for reading only.
pub proof fn lemma_default_trade_off(no_tls: bool)
    ensures
        spec_flags(None, no_tls).contains(Flag::WriteMap),
        spec_flags(None, no_tls).contains(Flag::MapAsync),
        !spec_flags(None, no_tls).contains(Flag::NoSync),
        !spec_flags(None, no_tls).contains(Flag::ReadOnly),
{
}

} // verus!
