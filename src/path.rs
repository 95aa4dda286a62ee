use vstd::prelude::*;
use crate::error::{ErrorKind, PathProblem, UploadError};

verus! {

pub const SLASH: u8 = 47;

/// The request path with every leading `/` removed, so that a path that looks
/// absolute is taken relative to the served root.
pub open spec fn without_root(s: Seq<u8>) -> Seq<u8>
    decreases s.len(),
{
    if s.len() > 0 && s[0] == SLASH {
        without_root(s.drop_first())
    } else {
        s
    }
}

/// Removes the leading root marker (`/`, repeated or not) from a request path.
pub fn strip_root(p: &Vec<u8>) -> (r: Vec<u8>)
    ensures
        r@ == without_root(p@),
{
    let mut i: usize = 0;
    assert(p@.subrange(0, p@.len() as int) =~= p@);
    while i < p.len() && p[i] == SLASH
        invariant
            i <= p.len(),
            without_root(p@.subrange(i as int, p@.len() as int)) == without_root(p@),
        decreases p.len() - i,
    {
        assert(p@.subrange(i as int, p@.len() as int).drop_first() =~= p@.subrange(
            i + 1,
            p@.len() as int,
        ));
        i = i + 1;
    }
    let mut r: Vec<u8> = Vec::new();
    let mut j: usize = i;
    while j < p.len()
        invariant
            i <= j <= p.len(),
            r@ =~= p@.subrange(i as int, j as int),
        decreases p.len() - j,
    {
        r.push(p[j]);
        j = j + 1;
    }
    assert(r@ =~= p@.subrange(i as int, p@.len() as int));
    r
}


/// A canonical absolute path, held as its components below the filesystem root
/// (the root itself has none).
#[derive(Debug)]
pub struct CanonicalPath {
    pub components: Vec<Vec<u8>>,
}

impl View for CanonicalPath {
    type V = Seq<Seq<u8>>;

    open spec fn view(&self) -> Seq<Seq<u8>> {
        self.components@.map_values(|c: Vec<u8>| c@)
    }
}

/// `p` is `root` or lies below it, comparing whole components.
pub open spec fn is_within(root: Seq<Seq<u8>>, p: Seq<Seq<u8>>) -> bool {
    root.len() <= p.len() && p.subrange(0, root.len() as int) == root
}

fn bytes_equal(a: &Vec<u8>, b: &Vec<u8>) -> (r: bool)
    ensures
        r == (a@ == b@),
{
    if a.len() != b.len() {
        return false;
    }
    let mut i: usize = 0;
    while i < a.len()
        invariant
            a@.len() == b@.len(),
            i <= a.len(),
            a@.subrange(0, i as int) == b@.subrange(0, i as int),
        decreases a.len() - i,
    {
        if a[i] != b[i] {
            assert(a@[i as int] != b@[i as int]);
            return false;
        }
        assert(a@.subrange(0, i + 1) =~= a@.subrange(0, i as int).push(a@[i as int]));
        assert(b@.subrange(0, i + 1) =~= b@.subrange(0, i as int).push(b@[i as int]));
        i = i + 1;
    }
    assert(a@ =~= a@.subrange(0, i as int));
    assert(b@ =~= b@.subrange(0, i as int));
    true
}

/// A copy of a byte string.
pub fn copy_bytes(b: &Vec<u8>) -> (r: Vec<u8>)
    ensures
        r@ == b@,
{
    let mut r: Vec<u8> = Vec::new();
    let mut i: usize = 0;
    while i < b.len()
        invariant
            i <= b.len(),
            r@ =~= b@.subrange(0, i as int),
        decreases b.len() - i,
    {
        r.push(b[i]);
        i = i + 1;
    }
    assert(r@ =~= b@);
    r
}

impl CanonicalPath {
    /// A copy of this path.
    pub fn duplicate(&self) -> (r: CanonicalPath)
        ensures
            r@ == self@,
    {
        let mut comps: Vec<Vec<u8>> = Vec::new();
        let mut i: usize = 0;
        while i < self.components.len()
            invariant
                i <= self.components@.len(),
                comps@.len() == i,
                forall|k: int| 0 <= k < i ==> comps@[k]@ == self.components@[k]@,
            decreases self.components.len() - i,
        {
            comps.push(copy_bytes(&self.components[i]));
            i = i + 1;
        }
        let r = CanonicalPath { components: comps };
        assert(r@ =~= self@);
        r
    }

    /// This path with one more component, `name`, at its end.
    pub fn child(&self, name: Vec<u8>) -> (r: CanonicalPath)
        ensures
            r@ == self@.push(name@),
    {
        let mut r = self.duplicate();
        r.components.push(name);
        assert(r@ =~= self@.push(name@));
        r
    }

    /// Whether this path is `root` or a descendant of it, by components.
    pub fn starts_with(&self, root: &CanonicalPath) -> (r: bool)
        ensures
            r == is_within(root@, self@),
    {
        if root.components.len() > self.components.len() {
            return false;
        }
        let n = root.components.len();
        let mut i: usize = 0;
        while i < n
            invariant
                n == root@.len(),
                n <= self@.len(),
                root@.len() == root.components@.len(),
                self@.len() == self.components@.len(),
                i <= n,
                self@.subrange(0, i as int) == root@.subrange(0, i as int),
            decreases n - i,
        {
            if !bytes_equal(&self.components[i], &root.components[i]) {
                assert(self@.subrange(0, n as int)[i as int] != root@[i as int]);
                return false;
            }
            assert(self@.subrange(0, i + 1) =~= self@.subrange(0, i as int).push(self@[i as int]));
            assert(root@.subrange(0, i + 1) =~= root@.subrange(0, i as int).push(root@[i as int]));
            i = i + 1;
        }
        assert(root@ =~= root@.subrange(0, n as int));
        true
    }
}

} // verus!

verus! {

/// Metadata of the candidate upload directory, as the filesystem reports it.
#[derive(Clone, Copy, Debug, PartialEq, Eq, Structural)]
pub struct DirStatus {
    pub is_dir: bool,
    pub readonly: bool,
}

/// A directory that has been checked to lie at or below the served root.
/// It can only be made by `resolve_target`.
#[derive(Debug)]
pub struct ResolvedTarget {
    root: CanonicalPath,
    dir: CanonicalPath,
}

impl ResolvedTarget {
    #[verifier::type_invariant]
    spec fn inside_root(&self) -> bool {
        is_within(self.root@, self.dir@)
    }

    pub closed spec fn root_view(&self) -> Seq<Seq<u8>> {
        self.root@
    }

    pub closed spec fn dir_view(&self) -> Seq<Seq<u8>> {
        self.dir@
    }

    /// The served root the target was checked against.
    pub fn root(&self) -> (r: &CanonicalPath)
        ensures
            r@ == self.root_view(),
    {
        &self.root
    }

    /// The directory uploads are written into; it always lies at or below the root.
    pub fn dir(&self) -> (r: &CanonicalPath)
        ensures
            r@ == self.dir_view(),
            is_within(self.root_view(), r@),
    {
        proof {
            use_type_invariant(self);
        }
        &self.dir
    }
}

/// What resolving yields, given what the filesystem reported: the canonical
/// root (`None` when it could not be canonicalized), the canonical form of the
/// root joined with the request path (`None` when that failed), and the
/// metadata of that directory (`None` when it could not be read).
pub open spec fn resolution(
    root: Option<Seq<Seq<u8>>>,
    candidate: Option<Seq<Seq<u8>>>,
    status: Option<DirStatus>,
) -> Result<Seq<Seq<u8>>, ErrorKind> {
    match root {
        None => Err(ErrorKind::ServerMisconfigured),
        Some(r) => match candidate {
            Some(c) if is_within(r, c) => match status {
                None => Err(ErrorKind::InsufficientPermissions),
                Some(st) => if !st.is_dir {
                    Err(ErrorKind::NotADirectory)
                } else if st.readonly {
                    Err(ErrorKind::InsufficientPermissions)
                } else {
                    Ok(c)
                },
            },
            _ => Err(ErrorKind::InvalidPath),
        },
    }
}

pub open spec fn opt_view(p: Option<CanonicalPath>) -> Option<Seq<Seq<u8>>> {
    match p {
        Some(x) => Some(x@),
        None => None,
    }
}

/// Decides the upload directory from the canonical root, the canonical
/// candidate and the candidate's metadata. A candidate that is not the root or
/// below it is refused whatever its metadata says.
pub fn resolve_target(
    root: Option<CanonicalPath>,
    candidate: Option<CanonicalPath>,
    status: Option<DirStatus>,
) -> (r: Result<ResolvedTarget, UploadError>)
    ensures
        match r {
            Ok(t) => resolution(opt_view(root), opt_view(candidate), status) == Ok::<
                Seq<Seq<u8>>,
                ErrorKind,
            >(t.dir_view()) && Some(t.root_view()) == opt_view(root),
            Err(e) => resolution(opt_view(root), opt_view(candidate), status) == Err::<
                Seq<Seq<u8>>,
                ErrorKind,
            >(e.kind()) && (e.kind() == ErrorKind::InvalidPath ==> e == UploadError::InvalidPath(
                PathProblem::OutsideRoot,
            )),
        },
{
    let root = match root {
        None => return Err(UploadError::ServerMisconfigured),
        Some(r) => r,
    };
    let dir = match candidate {
        Some(c) => {
            if c.starts_with(&root) {
                c
            } else {
                return Err(UploadError::InvalidPath(PathProblem::OutsideRoot));
            }
        },
        None => return Err(UploadError::InvalidPath(PathProblem::OutsideRoot)),
    };
    match status {
        None => Err(UploadError::InsufficientPermissions),
        Some(st) => {
            if !st.is_dir {
                Err(UploadError::NotADirectory)
            } else if st.readonly {
                Err(UploadError::InsufficientPermissions)
            } else {
                Ok(ResolvedTarget { root, dir })
            }
        },
    }
}

/// Reads the `path` query parameter: a missing one is an invalid path, a
/// present one loses its leading root marker.
pub fn upload_path(query_path: Option<Vec<u8>>) -> (r: Result<Vec<u8>, UploadError>)
    ensures
        match query_path {
            None => r == Err::<Vec<u8>, UploadError>(UploadError::InvalidPath(PathProblem::Missing)),
            Some(p) => r is Ok && r->Ok_0@ == without_root(p@),
        },
{
    match query_path {
        None => Err(UploadError::InvalidPath(PathProblem::Missing)),
        Some(p) => Ok(strip_root(&p)),
    }
}

} // verus!
