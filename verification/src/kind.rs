//! The kinds of storage environment, and where each one lies on disk.
//!
//! A partition is stored at `<storage root>/<subpath of its kind>`. The mapping
//! is part of the on-disk layout: it is total, it never changes, and no two
//! kinds share a subpath.

use crate::cell_id::{cell_id_text, lemma_cell_id_text_injective, CellId};
use vstd::prelude::*;
use vstd::string::*;

verus! {

/// The various kinds of environment. The kind decides which partition an
/// environment is and under which subpath it is stored.
#[derive(Debug)]
pub enum EnvironmentKind {
    /// The environment of one cell: its source chain.
    Cell(CellId),
    /// The environment that a conductor keeps for itself.
    Conductor,
    /// The environment in which compiled wasm is saved.
    Wasm,
    /// The state of the p2p network.
    P2p,
}

/// A kind as a plain value.
pub enum KindView {
    Cell((Seq<u8>, Seq<u8>)),
    Conductor,
    Wasm,
    P2p,
}

impl View for EnvironmentKind {
    type V = KindView;

    open spec fn view(&self) -> KindView {
        match self {
            EnvironmentKind::Cell(id) => KindView::Cell(id@),
            EnvironmentKind::Conductor => KindView::Conductor,
            EnvironmentKind::Wasm => KindView::Wasm,
            EnvironmentKind::P2p => KindView::P2p,
        }
    }
}

/// The subpath of a kind: the text of the cell id for a cell, and a fixed
/// name for each of the others.
pub open spec fn kind_subpath(kind: KindView) -> Seq<char> {
    match kind {
        KindView::Cell(id) => cell_id_text(id),
        KindView::Conductor => "conductor"@,
        KindView::Wasm => "wasm"@,
        KindView::P2p => "p2p"@,
    }
}

/// A subpath below a root: the two joined by one `/`, which is left out where
/// the root is empty or ends in one already.
pub open spec fn join_path(root: Seq<char>, subpath: Seq<char>) -> Seq<char> {
    if root.len() == 0 {
        subpath
    } else if root.last() == '/' {
        root + subpath
    } else {
        root + "/"@ + subpath
    }
}

/// Where the partition of a kind is stored below a root.
pub open spec fn storage_path_of(root: Seq<char>, kind: KindView) -> Seq<char> {
    join_path(root, kind_subpath(kind))
}

impl EnvironmentKind {
    /// The partial path of this kind.
    pub fn path(&self) -> (r: String)
        ensures
            r@ == kind_subpath(self@),
    {
        match self {
            EnvironmentKind::Cell(cell_id) => cell_id.to_string(),
            EnvironmentKind::Conductor => String::from_str("conductor"),
            EnvironmentKind::Wasm => String::from_str("wasm"),
            EnvironmentKind::P2p => String::from_str("p2p"),
        }
    }

    /// The cell that this kind belongs to, if it is a cell's.
    pub fn cell_id(&self) -> (r: Option<&CellId>)
        ensures
            match r {
                Some(id) => self@ == KindView::Cell(id@),
                None => !(self@ is Cell),
            },
    {
        match self {
            EnvironmentKind::Cell(cell_id) => Some(cell_id),
            _ => None,
        }
    }
}

impl Clone for EnvironmentKind {
    fn clone(&self) -> (r: Self)
        ensures
            r@ == self@,
    {
        match self {
            EnvironmentKind::Cell(cell_id) => EnvironmentKind::Cell(cell_id.clone()),
            EnvironmentKind::Conductor => EnvironmentKind::Conductor,
            EnvironmentKind::Wasm => EnvironmentKind::Wasm,
            EnvironmentKind::P2p => EnvironmentKind::P2p,
        }
    }
}

/// Joins a subpath to a storage root.
pub fn join(path_prefix: &str, subpath: &str) -> (r: String)
    ensures
        r@ == join_path(path_prefix@, subpath@),
{
    let n: usize = path_prefix.unicode_len();
    if n == 0 {
        return String::from_str(subpath);
    }
    let mut out = String::from_str(path_prefix);
    if path_prefix.get_char(n - 1) != '/' {
        out.append("/");
    }
    out.append(subpath);
    out
}

/// Where the partition of `kind` is stored below `path_prefix`.
pub fn storage_path(path_prefix: &str, kind: &EnvironmentKind) -> (r: String)
    ensures
        r@ == storage_path_of(path_prefix@, kind@),
{
    join(path_prefix, kind.path().as_str())
}

/// The subpath of a cell is a function of its id alone: equal ids give equal
/// subpaths, whenever and wherever the mapping is applied.
pub proof fn lemma_equal_ids_equal_subpaths(a: (Seq<u8>, Seq<u8>), b: (Seq<u8>, Seq<u8>))
    requires
        a == b,
    ensures
        kind_subpath(KindView::Cell(a)) == kind_subpath(KindView::Cell(b)),
{
}

/// No two kinds share a subpath.
pub proof fn lemma_subpath_injective(a: KindView, b: KindView)
    requires
        kind_subpath(a) == kind_subpath(b),
    ensures
        a == b,
{
    reveal_strlit("cell-");
    reveal_strlit("conductor");
    reveal_strlit("wasm");
    reveal_strlit("p2p");
    let sa = kind_subpath(a);
    let sb = kind_subpath(b);
    assert(sa[0] == sb[0]);
    assert(sa[1] == sb[1]);
    if let KindView::Cell(x) = a {
        assert(sa[0] == 'c' && sa[1] == 'e');
    } else if a is Conductor {
        assert(sa[0] == 'c' && sa[1] == 'o');
    } else if a is Wasm {
        assert(sa[0] == 'w');
    } else {
        assert(sa[0] == 'p');
    }
    if let KindView::Cell(y) = b {
        assert(sb[0] == 'c' && sb[1] == 'e');
    } else if b is Conductor {
        assert(sb[0] == 'c' && sb[1] == 'o');
    } else if b is Wasm {
        assert(sb[0] == 'w');
    } else {
        assert(sb[0] == 'p');
    }
    if let KindView::Cell(x) = a {
        if let KindView::Cell(y) = b {
            lemma_cell_id_text_injective(x, y);
        }
    }
}

/// Below one root, no two kinds share a storage path.
pub proof fn lemma_storage_path_injective(root: Seq<char>, a: KindView, b: KindView)
    requires
        storage_path_of(root, a) == storage_path_of(root, b),
    ensures
        a == b,
{
    let sa = kind_subpath(a);
    let sb = kind_subpath(b);
    let pa = storage_path_of(root, a);
    let pb = storage_path_of(root, b);
    let k = pa.len() - sa.len();
    assert(sa =~= pa.subrange(k, pa.len() as int));
    assert(sb =~= pb.subrange(k, pb.len() as int));
    lemma_subpath_injective(a, b);
}

} // verus!
