//! File paths of archive entries, as `std::path` reads them on this platform.
use vstd::prelude::*;

verus! {

/// The text of an optional string.
pub open spec fn opt_text(o: Option<String>) -> Option<Seq<char>> {
    match o {
        Some(s) => Some(s@),
        None => None,
    }
}

/// The extension of a path (`Path::extension`), without the dot.
pub uninterp spec fn extension_of(path: Seq<char>) -> Option<Seq<char>>;

/// The last component of a path (`Path::file_name`).
pub uninterp spec fn file_name_of(path: Seq<char>) -> Option<Seq<char>>;

/// The path without its last component (`Path::parent`).
pub uninterp spec fn parent_of(path: Seq<char>) -> Option<Seq<char>>;

/// The texts of the components of a path (`Path::components`): `/` for the root,
/// `.` for a leading current directory, `..` for a parent directory, else the name.
pub uninterp spec fn components_of(path: Seq<char>) -> Seq<Seq<char>>;

/// The path made by pushing each component in turn (`PathBuf: FromIterator`).
pub uninterp spec fn joined_path(components: Seq<Seq<char>>) -> Seq<char>;

/// The components other than the current directory `.`, in order.
pub open spec fn without_current_dir(components: Seq<Seq<char>>) -> Seq<Seq<char>>
    decreases components.len(),
{
    if components.len() == 0 {
        components
    } else {
        let rest = without_current_dir(components.drop_last());
        if components.last() == "."@ {
            rest
        } else {
            rest.push(components.last())
        }
    }
}

/// Calls `Path::extension` and reads the extension as text. The contract names the
/// result `extension_of(path)`; nothing more is claimed of it.
#[verifier::external_body]
pub(crate) fn path_extension(path: &str) -> (r: Option<String>)
    ensures
        opt_text(r) == extension_of(path@),
{
    std::path::Path::new(path).extension().and_then(|e| e.to_str()).map(|e| e.to_string())
}

/// Calls `Path::file_name` and reads the name as text. The contract names the result
/// `file_name_of(path)`, and states what the documentation gives of it: a file name
/// is the final component of the path, a normal one (never `.`); as a path of its
/// own it has itself as its only component, and pushing it alone into an empty
/// `PathBuf` gives it back.
#[verifier::external_body]
pub(crate) fn path_file_name(path: &str) -> (r: Option<String>)
    ensures
        opt_text(r) == file_name_of(path@),
        r matches Some(f) ==> {
            &&& components_of(path@).len() > 0
            &&& components_of(path@).last() == f@
            &&& f@ != "."@
            &&& components_of(f@) == seq![f@]
            &&& joined_path(seq![f@]) == f@
        },
{
    std::path::Path::new(path).file_name().and_then(|e| e.to_str()).map(|e| e.to_string())
}

/// Calls `Path::parent` and reads the parent as text. The contract names the result
/// `parent_of(path)`, and states what the documentation gives of it: the parent is
/// the path without its final component, none when the path ends in a root or
/// prefix or is empty (such a path has no file name); it is the empty path for a
/// relative path of one component, and `.` only when the path has a leading `.`
/// before its final component.
#[verifier::external_body]
pub(crate) fn path_parent(path: &str) -> (r: Option<String>)
    ensures
        opt_text(r) == parent_of(path@),
        r is None ==> file_name_of(path@) is None,
        r matches Some(q) && q@.len() == 0 ==> components_of(path@).len() == 1,
        r matches Some(q) && q@ == "."@ ==> components_of(path@).len() >= 2 && components_of(
            path@,
        )[0] == "."@,
{
    std::path::Path::new(path).parent().and_then(|e| e.to_str()).map(|e| e.to_string())
}

/// Calls `Path::components` and reads each component as text (a path made from a
/// `str` is valid UTF-8, so the lossy reading loses nothing). The contract names the
/// result `components_of(path)`, and states one fact that the documentation of
/// `components` (split at separators, `.` kept only at the start) and of
/// `PathBuf::push` (extend with a separator between parts) give together: the
/// components other than `.`, pushed into a `PathBuf`, make a path whose components
/// are exactly those.
#[verifier::external_body]
pub(crate) fn path_components(path: &str) -> (r: Vec<String>)
    ensures
        r@.map_values(|c: String| c@) == components_of(path@),
        components_of(joined_path(without_current_dir(r@.map_values(|c: String| c@))))
            == without_current_dir(r@.map_values(|c: String| c@)),
{
    std::path::Path::new(path).components().map(|c| c.as_os_str().to_string_lossy().into_owned()).collect()
}

/// Collects components into a `PathBuf` and reads it as text (made from `str`s, it
/// is valid UTF-8). The contract names the result `joined_path(components)`.
#[verifier::external_body]
pub(crate) fn path_join(components: &Vec<String>) -> (r: String)
    ensures
        r@ == joined_path(components@.map_values(|c: String| c@)),
{
    components.iter().collect::<std::path::PathBuf>().to_string_lossy().into_owned()
}

/// Removing the current directory keeps every other component, in order: it is
/// the sequence of components filtered by "is not `.`".
pub proof fn law_without_current_dir_is_filter(components: Seq<Seq<char>>)
    ensures
        without_current_dir(components) == components.filter(|c: Seq<char>| c != "."@),
    decreases components.len(),
{
    reveal(Seq::filter);
    if components.len() > 0 {
        law_without_current_dir_is_filter(components.drop_last());
    }
}

} // verus!
