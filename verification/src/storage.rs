//! Layout of the application's storage directory, and the steps that prepare
//! it.
//!
//! Preparing the directory alternates filesystem work with decisions: the
//! decisions stand here as a step function from state and outcome to the
//! next action; the caller performs each action and reports how it went.
use vstd::prelude::*;
use crate::paths::{
    is_extended_by, is_plain_component, is_separator, is_verbatim, lemma_extended_is_joined,
    lemma_joined_extends_base, lemma_main_separator, main_separator, needs_separator, path_join,
};

verus! {

/// Name of the directory, under the storage root, that holds message bodies.
pub const CONTENT_DIR_NAME: &'static str = "content";

/// Name of the SQLite database file under the storage root.
pub const DB_FILENAME: &'static str = "db.sqlite";

/// Number of filesystem steps that preparing the storage root takes.
pub const STORAGE_STEPS: usize = 4;

/// Filesystem layout of the storage layer.
///
/// `db` is where the SQLite file lives; preparing the storage does not create
/// it. Only the root and the content directory are created.
#[derive(Debug, Clone)]
pub struct StoragePaths {
    pub root: String,
    pub db: String,
    pub content_dir: String,
}

/// The layout under `root`. (The layout under a Windows verbatim root is not
/// described: see `path_join`.)
pub open spec fn is_layout_of(root: Seq<char>, paths: StoragePaths) -> bool {
    &&& paths.root@ == root
    &&& is_extended_by(root, CONTENT_DIR_NAME@, paths.content_dir@)
    &&& is_extended_by(root, DB_FILENAME@, paths.db@)
}

/// Makes `std::io::Error` usable in signatures; Verus sees nothing inside it.
#[verifier::external_type_specification]
#[verifier::external_body]
pub struct ExIoError(std::io::Error);

/// Why the storage could not be prepared.
#[derive(Debug)]
pub enum StorageError {
    MissingDataDir,
    Io { path: String, source: std::io::Error },
}

impl StorageError {
    /// The message shown to the user. For a filesystem failure it names the
    /// path, then gives the error's own text (`to_string`).
    pub fn message(&self) -> (r: String)
        ensures
            match self {
                StorageError::MissingDataDir => r@ == "アプリのデータディレクトリを取得できませんでした"@,
                StorageError::Io { path, source } => exists|d: String|
                    #[trigger] vstd::string::to_string_from_display_ensures::<std::io::Error>(
                        source,
                        d,
                    ) && r@ == "ストレージ初期化に失敗しました ("@ + path@ + "): "@ + d@,
            },
    {
        match self {
            StorageError::MissingDataDir => "アプリのデータディレクトリを取得できませんでした".to_owned(),
            StorageError::Io { path, source } => {
                let mut m = String::new();
                m.append("ストレージ初期化に失敗しました (");
                m.append(path.as_str());
                m.append("): ");
                let detail = source.to_string();
                m.append(detail.as_str());
                m
            },
        }
    }
}

/// A filesystem operation of the preparation.
#[derive(Debug, Clone, Copy, PartialEq, Eq, Structural)]
pub enum StorageOpKind {
    /// Create the directory and any missing parents.
    CreateDir,
    /// Restrict the directory to its owner (mode 0o700 where the platform
    /// has Unix permissions; nothing elsewhere).
    SetOwnerOnly,
}

/// An operation on one path.
#[derive(Debug, Clone)]
pub struct StorageOp {
    pub kind: StorageOpKind,
    pub path: String,
}

/// The kind of step `i`: both directories are created, then both restricted.
pub open spec fn planned_kind(i: int) -> StorageOpKind {
    if i < 2 {
        StorageOpKind::CreateDir
    } else {
        StorageOpKind::SetOwnerOnly
    }
}

/// The path of step `i`: the root, then the content directory, twice over.
pub open spec fn planned_path(paths: StoragePaths, i: int) -> Seq<char> {
    if i % 2 == 0 {
        paths.root@
    } else {
        paths.content_dir@
    }
}

pub open spec fn is_planned_op(paths: StoragePaths, i: int, op: StorageOp) -> bool {
    op.kind == planned_kind(i) && op.path@ == planned_path(paths, i)
}

/// Progress of the preparation: the layout and how many steps succeeded.
#[derive(Debug)]
pub struct StorageInit {
    pub paths: StoragePaths,
    pub completed: usize,
}

/// What the caller does next.
#[derive(Debug)]
pub enum StorageAction {
    /// Perform the operation and report its outcome to `StorageInit::step`.
    Perform(StorageOp),
    /// The preparation is over, with this result.
    Finish(Result<StoragePaths, StorageError>),
}

fn planned_op(paths: &StoragePaths, i: usize) -> (op: StorageOp)
    requires
        i < STORAGE_STEPS,
    ensures
        is_planned_op(*paths, i as int, op),
{
    let kind = if i < 2 {
        StorageOpKind::CreateDir
    } else {
        StorageOpKind::SetOwnerOnly
    };
    let path = if i % 2 == 0 {
        paths.root.clone()
    } else {
        paths.content_dir.clone()
    };
    StorageOp { kind, path }
}

pub proof fn lemma_storage_names_are_plain()
    ensures
        is_plain_component(CONTENT_DIR_NAME@),
        is_plain_component(DB_FILENAME@),
        CONTENT_DIR_NAME@.last() == 't',
        DB_FILENAME@.last() == 'e',
{
    reveal_strlit("content");
    reveal_strlit("db.sqlite");
    assert(CONTENT_DIR_NAME@ =~= seq!['c', 'o', 'n', 't', 'e', 'n', 't']);
    assert(DB_FILENAME@ =~= seq!['d', 'b', '.', 's', 'q', 'l', 'i', 't', 'e']);
}

/// Starts preparing the storage under `root`: computes the layout (the
/// database path is computed, never created) and asks for the first step,
/// creating the root.
pub fn init_storage_at(root: &str) -> (r: (StorageInit, StorageAction))
    ensures
        r.0.paths.root@ == root@,
        !is_verbatim(root@) ==> is_layout_of(root@, r.0.paths),
        r.0.completed == 0,
        r.1 matches StorageAction::Perform(op) && is_planned_op(r.0.paths, 0, op),
{
    proof {
        lemma_storage_names_are_plain();
    }
    let content_dir = path_join(root, CONTENT_DIR_NAME);
    let db = path_join(root, DB_FILENAME);
    let paths = StoragePaths { root: root.to_owned(), db, content_dir };
    let op = planned_op(&paths, 0);
    (StorageInit { paths, completed: 0 }, StorageAction::Perform(op))
}

impl StorageInit {
    /// Takes the outcome of the pending step. A failure ends the preparation
    /// with an error naming the path of that step; a success moves to the
    /// next step, or, after the last one, ends it with the layout.
    pub fn step(self, outcome: Result<(), std::io::Error>) -> (r: (StorageInit, StorageAction))
        requires
            self.completed < STORAGE_STEPS,
        ensures
            r.0.paths == self.paths,
            match outcome {
                Err(e) => {
                    &&& r.0.completed == STORAGE_STEPS
                    &&& r.1 matches StorageAction::Finish(Err(StorageError::Io { path, source }))
                    &&& path@ == planned_path(self.paths, self.completed as int)
                    &&& source == e
                },
                Ok(()) => {
                    &&& r.0.completed == self.completed + 1
                    &&& if r.0.completed == STORAGE_STEPS {
                        r.1 matches StorageAction::Finish(Ok(p)) && p == self.paths
                    } else {
                        r.1 matches StorageAction::Perform(op) && is_planned_op(
                            self.paths,
                            r.0.completed as int,
                            op,
                        )
                    }
                },
            },
    {
        let StorageInit { paths, completed } = self;
        match outcome {
            Err(e) => {
                let path = if completed % 2 == 0 {
                    paths.root.clone()
                } else {
                    paths.content_dir.clone()
                };
                (
                    StorageInit { paths, completed: STORAGE_STEPS },
                    StorageAction::Finish(Err(StorageError::Io { path, source: e })),
                )
            },
            Ok(()) => {
                let next = completed + 1;
                if next == STORAGE_STEPS {
                    let done = StoragePaths {
                        root: paths.root.clone(),
                        db: paths.db.clone(),
                        content_dir: paths.content_dir.clone(),
                    };
                    (StorageInit { paths, completed: next }, StorageAction::Finish(Ok(done)))
                } else {
                    let op = planned_op(&paths, next);
                    (StorageInit { paths, completed: next }, StorageAction::Perform(op))
                }
            },
        }
    }
}

/// Preparing the storage never touches the database file: every step works
/// on the root or the content directory, and neither is the database path.
pub proof fn lemma_db_file_is_never_touched(root: Seq<char>, paths: StoragePaths, i: int)
    requires
        is_layout_of(root, paths),
        0 <= i < STORAGE_STEPS,
    ensures
        planned_path(paths, i) != paths.db@,
        paths.content_dir@ != paths.db@,
        paths.root@ != paths.db@,
{
    lemma_storage_names_are_plain();
    lemma_extended_is_joined(root, CONTENT_DIR_NAME@, paths.content_dir@);
    lemma_extended_is_joined(root, DB_FILENAME@, paths.db@);
    lemma_joined_extends_base(root, CONTENT_DIR_NAME@, paths.content_dir@);
    lemma_joined_extends_base(root, DB_FILENAME@, paths.db@);
    let c = paths.content_dir@;
    let d = paths.db@;
    assert(c.last() == c.subrange(c.len() - CONTENT_DIR_NAME@.len(), c.len() as int).last());
    assert(d.last() == d.subrange(d.len() - DB_FILENAME@.len(), d.len() as int).last());
}

/// The content directory lies under the root: its path is the root's,
/// followed by a separator when the root does not already end with one (or
/// with a drive colon), followed by `content`.
pub proof fn lemma_content_dir_is_under_root(root: Seq<char>, paths: StoragePaths)
    requires
        is_layout_of(root, paths),
    ensures
        paths.content_dir@.len() > root.len(),
        paths.content_dir@.subrange(0, root.len() as int) == root,
        root.len() > 0 && root.last() != '/' && root.last() != '\\' && root.last() != ':' ==> {
            let sep = paths.content_dir@[root.len() as int];
            &&& sep == '/' || sep == '\\'
            &&& paths.content_dir@.subrange(root.len() + 1int, paths.content_dir@.len() as int)
                == CONTENT_DIR_NAME@
        },
{
    lemma_storage_names_are_plain();
    lemma_extended_is_joined(root, CONTENT_DIR_NAME@, paths.content_dir@);
    lemma_joined_extends_base(root, CONTENT_DIR_NAME@, paths.content_dir@);
    let c = paths.content_dir@;
    if root.len() > 0 && root.last() != '/' && root.last() != '\\' && root.last() != ':' {
        assert(c.subrange(root.len() + 1int, c.len() as int) =~= CONTENT_DIR_NAME@);
    }
}

/// Preparing the same root twice gives the same layout (for any root but a
/// Windows one ending with a colon, which may be a drive).
pub proof fn lemma_same_root_same_layout(root: Seq<char>, p1: StoragePaths, p2: StoragePaths)
    requires
        is_layout_of(root, p1),
        is_layout_of(root, p2),
        !(root.len() > 0 && root.last() == ':' && main_separator() == '\\'),
    ensures
        p1.root@ == p2.root@,
        p1.content_dir@ == p2.content_dir@,
        p1.db@ == p2.db@,
{
}

/// The character between a root and `content` or `db.sqlite` is the
/// platform's main separator, whatever the root: it is the same for every
/// root and for both entries, it separates path components on this platform,
/// and where `/` is the main separator (Unix) it is `/`.
pub proof fn lemma_layout_separator_is_the_platforms(
    r1: Seq<char>,
    p1: StoragePaths,
    r2: Seq<char>,
    p2: StoragePaths,
)
    requires
        is_layout_of(r1, p1),
        is_layout_of(r2, p2),
        needs_separator(r1),
        needs_separator(r2),
    ensures
        p1.content_dir@[r1.len() as int] == p2.content_dir@[r2.len() as int],
        p1.db@[r1.len() as int] == p1.content_dir@[r1.len() as int],
        is_separator(p1.content_dir@[r1.len() as int]),
        main_separator() == '/' ==> p1.content_dir@ == r1 + "/"@ + CONTENT_DIR_NAME@
            && p1.db@ == r1 + "/"@ + DB_FILENAME@,
{
    lemma_main_separator();
    reveal_strlit("/");
    assert("/"@ =~= seq!['/']);
    assert(p1.content_dir@[r1.len() as int] == main_separator());
    assert(p2.content_dir@[r2.len() as int] == main_separator());
    assert(p1.db@[r1.len() as int] == main_separator());
}

} // verus!
