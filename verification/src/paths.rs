//! Filesystem paths, held as UTF-8 strings.
//!
//! Joining a base directory with one file or directory name is left to
//! `std::path`, whose separator depends on the platform; only what holds on
//! every platform is stated of it.
use vstd::prelude::*;

verus! {

/// A single relative path component: non-empty, with no separator, no drive
/// colon, and neither `.` nor `..`.
pub open spec fn is_plain_component(name: Seq<char>) -> bool {
    &&& name.len() > 0
    &&& forall|i: int| 0 <= i < name.len() ==> {
        let c = #[trigger] name[i];
        c != '/' && c != '\\' && c != ':'
    }
    &&& name != seq!['.']
    &&& name != seq!['.', '.']
}

/// `joined` is `base` followed by `name`, with at most one path separator
/// (`/` or `\`) between them.
pub open spec fn is_joined(base: Seq<char>, name: Seq<char>, joined: Seq<char>) -> bool {
    ||| joined == base + name
    ||| joined == base + seq!['/'] + name
    ||| joined == base + seq!['\\'] + name
}

/// The platform's main path separator (`std::path::MAIN_SEPARATOR`): `/` on
/// Unix, `\` on Windows. Which of the two is not known here; it is the same
/// for every path.
pub open spec fn main_separator() -> char {
    choose|c: char| #[trigger] is_separator_candidate(c)
}

/// The characters that std uses as its main separator on some platform.
pub open spec fn is_separator_candidate(c: char) -> bool {
    c == '/' || c == '\\'
}

pub proof fn lemma_main_separator()
    ensures
        main_separator() == '/' || main_separator() == '\\',
{
    assert(is_separator_candidate('/'));
}

/// Whether `c` separates path components on this platform: `/` everywhere,
/// and `\` too where it is the main separator (Windows).
pub open spec fn is_separator(c: char) -> bool {
    c == '/' || (c == '\\' && main_separator() == '\\')
}

/// Whether joining a name onto `base` puts a separator between them: when the
/// base is non-empty and does not already end with a separator, or (on
/// Windows) with a drive colon.
pub open spec fn needs_separator(base: Seq<char>) -> bool {
    &&& base.len() > 0
    &&& !is_separator(base.last())
    &&& !(base.last() == ':' && main_separator() == '\\')
}

/// `joined` is `base` extended by the path component `name`, as std writes
/// it: the base, the main separator where one is needed, then the name. A
/// Windows base ending with a colon is a drive (`C:`, joined directly) or a
/// name ending with one (joined with a separator); both are allowed there.
pub open spec fn is_extended_by(base: Seq<char>, name: Seq<char>, joined: Seq<char>) -> bool {
    if needs_separator(base) {
        joined == base + seq![main_separator()] + name
    } else if base.len() > 0 && base.last() == ':' && main_separator() == '\\' {
        joined == base + name || joined == base + seq!['\\'] + name
    } else {
        joined == base + name
    }
}

pub proof fn lemma_extended_is_joined(base: Seq<char>, name: Seq<char>, joined: Seq<char>)
    requires
        is_extended_by(base, name, joined),
    ensures
        is_joined(base, name, joined),
{
    lemma_main_separator();
}

/// A Windows verbatim path (`\\?\...`): joining onto one rebuilds the
/// path from its components.
pub open spec fn is_verbatim(path: Seq<char>) -> bool {
    &&& path.len() >= 4
    &&& path[0] == '\\'
    &&& path[1] == '\\'
    &&& path[2] == '?'
    &&& path[3] == '\\'
}

/// Calls `std::path::Path::join` on `base` and `name`.
///
/// Trusted: joining a relative path extends the base by its components
/// (`Path::join`, `PathBuf::push`), so the plain `name` becomes the last
/// component after the base's own. std writes this as the base, then the
/// platform's main separator (`std::path::MAIN_SEPARATOR`) unless the base is
/// empty or already ends with a separator (`std::path::is_separator`) or is a
/// Windows drive, then the name; that is `is_extended_by`. Nothing is claimed
/// for a Windows verbatim base, onto which std rebuilds the path from its
/// components.
#[verifier::external_body]
pub fn path_join(base: &str, name: &str) -> (joined: String)
    requires
        is_plain_component(name@),
    ensures
        !is_verbatim(base@) ==> is_extended_by(base@, name@, joined@),
{
    std::path::Path::new(base).join(name).to_string_lossy().into_owned()
}

/// A path joined from a base and a name is longer than the base and ends
/// with the name.
pub proof fn lemma_joined_extends_base(base: Seq<char>, name: Seq<char>, joined: Seq<char>)
    requires
        is_joined(base, name, joined),
        name.len() > 0,
    ensures
        joined.len() > base.len(),
        joined.len() >= name.len(),
        joined.subrange(joined.len() - name.len(), joined.len() as int) == name,
        joined.subrange(0, base.len() as int) == base,
{
    if joined == base + name {
        assert(joined.subrange(joined.len() - name.len(), joined.len() as int) =~= name);
        assert(joined.subrange(0, base.len() as int) =~= base);
    } else if joined == base + seq!['/'] + name {
        assert(joined.subrange(joined.len() - name.len(), joined.len() as int) =~= name);
        assert(joined.subrange(0, base.len() as int) =~= base);
    } else {
        assert(joined.subrange(joined.len() - name.len(), joined.len() as int) =~= name);
        assert(joined.subrange(0, base.len() as int) =~= base);
    }
}

} // verus!
