use vstd::prelude::*;
use crate::errors::SupervisorError;

verus! {

/// An absolute filesystem path designating the per-user application
/// data directory. Resolved once at startup from what the platform
/// reports; the directory itself is created (idempotently) by the
/// application shell before the backend starts.
pub struct StorageLocation {
    path: String,
}

impl View for StorageLocation {
    type V = Seq<char>;

    closed spec fn view(&self) -> Seq<char> {
        self.path@
    }
}

impl StorageLocation {
    /// Wrap the absolute path the platform supplied.
    pub fn from_path(path: String) -> (loc: StorageLocation)
        ensures
            loc@ == path@,
    {
        StorageLocation { path }
    }

    /// The path as text, e.g. to hand to directory creation.
    pub fn as_str(&self) -> (r: &str)
        ensures
            r@ == self@,
    {
        self.path.as_str()
    }
}

/// A derived string the backend uses to reach its data store: a fixed
/// scheme prefix, the storage location, and a fixed file name. A pure
/// function of the storage location, recomputed at each startup.
pub struct ConnectionString {
    text: String,
}

impl View for ConnectionString {
    type V = Seq<char>;

    closed spec fn view(&self) -> Seq<char> {
        self.text@
    }
}

impl ConnectionString {
    /// The connection string as text, e.g. to place in the backend's
    /// environment.
    pub fn as_str(&self) -> (r: &str)
        ensures
            r@ == self@,
    {
        self.text.as_str()
    }
}

/// The fixed scheme prefix of every connection string.
pub open spec fn scheme_prefix() -> Seq<char> {
    "file:"@
}

/// The fixed tail of every connection string: the path separator and
/// the name of the one data file kept inside the storage location.
pub open spec fn storage_suffix() -> Seq<char> {
    "/itcert.db"@
}

/// What `derive_connection_string` returns for a given location.
pub open spec fn connection_string_of(loc: Seq<char>) -> Seq<char> {
    scheme_prefix() + loc + storage_suffix()
}

/// Derive the backend's connection string from the storage location:
/// `file:<location>/itcert.db`. Total and pure; no failure path.
pub fn derive_connection_string(loc: &StorageLocation) -> (r: ConnectionString)
    ensures
        r@ == connection_string_of(loc@),
{
    let mut text = String::from_str("file:");
    text.append(loc.as_str());
    text.append("/itcert.db");
    ConnectionString { text }
}

/// The derivation is deterministic and injective: two locations yield
/// the same connection string exactly when they are the same location.
pub proof fn lemma_connection_string_injective(a: Seq<char>, b: Seq<char>)
    ensures
        (connection_string_of(a) == connection_string_of(b)) <==> (a == b),
{
    let p = scheme_prefix();
    let s = storage_suffix();
    if connection_string_of(a) == connection_string_of(b) {
        assert(connection_string_of(a).len() == p.len() + a.len() + s.len());
        assert(connection_string_of(b).len() == p.len() + b.len() + s.len());
        assert(a.len() == b.len());
        assert(a =~= connection_string_of(a).subrange(
            p.len() as int,
            p.len() as int + a.len() as int,
        ));
        assert(b =~= connection_string_of(b).subrange(
            p.len() as int,
            p.len() as int + b.len() as int,
        ));
    }
}

/// Decide the outcome of storage resolution from what the platform
/// reported: `platform_dir` is the per-user application data directory
/// if the platform could supply one, and `create_succeeded` says
/// whether creating that directory was allowed. The two failure stages
/// stay distinct so an operator can tell them apart.
pub fn resolve_storage_location(
    platform_dir: Option<String>,
    create_succeeded: bool,
) -> (r: Result<StorageLocation, SupervisorError>)
    ensures
        match platform_dir {
            Option::None => r == Err::<StorageLocation, SupervisorError>(
                SupervisorError::PathResolution,
            ),
            Option::Some(p) => if create_succeeded {
                r matches Ok(loc) && loc@ == p@
            } else {
                r == Err::<StorageLocation, SupervisorError>(SupervisorError::DirectoryCreate)
            },
        },
{
    match platform_dir {
        Option::None => Err(SupervisorError::PathResolution),
        Option::Some(p) => {
            if create_succeeded {
                Ok(StorageLocation { path: p })
            } else {
                Err(SupervisorError::DirectoryCreate)
            }
        },
    }
}

/// The filesystem as the resolver sees it: which directories exist,
/// and whether the per-user root admits creating new ones.
pub struct FsModel {
    pub dirs: Set<Seq<char>>,
    pub root_writable: bool,
}

/// The directories that a recursive creation of `path` brings into
/// existence: `path` itself and every ancestor directory of it.
pub open spec fn ancestors(path: Seq<char>) -> Set<Seq<char>> {
    Set::new(|p: Seq<char>| 0 < p.len() <= path.len() && p == path.subrange(0, p.len() as int))
}

/// Recursive directory creation succeeds when the directory already
/// exists (not an error) or the root admits creating it.
pub open spec fn create_succeeds(fs: FsModel, path: Seq<char>) -> bool {
    fs.dirs.contains(path) || fs.root_writable
}

/// The filesystem after a recursive creation of `path`: on success the
/// directory and its ancestors exist; a denied creation changes nothing.
pub open spec fn dirs_after_create(fs: FsModel, path: Seq<char>) -> FsModel {
    if create_succeeds(fs, path) {
        FsModel { dirs: fs.dirs + ancestors(path), root_writable: fs.root_writable }
    } else {
        fs
    }
}

/// Under a writable root, directory creation is idempotent: the first
/// creation succeeds, a second creation of the same (now existing)
/// directory succeeds as well, and it leaves the set of directories —
/// hence the directory's contents — unchanged.
pub proof fn lemma_storage_creation_idempotent(fs: FsModel, path: Seq<char>)
    requires
        fs.root_writable,
        path.len() > 0,
    ensures
        create_succeeds(fs, path),
        create_succeeds(dirs_after_create(fs, path), path),
        dirs_after_create(fs, path).dirs.contains(path),
        dirs_after_create(dirs_after_create(fs, path), path) == dirs_after_create(fs, path),
{
    let fs1 = dirs_after_create(fs, path);
    assert(path.subrange(0, path.len() as int) =~= path);
    assert(ancestors(path).contains(path));
    assert(fs1.dirs + ancestors(path) =~= fs1.dirs);
}

} // verus!
