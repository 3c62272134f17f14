//! Pages of `cbt` (tar) archives; `cb7` archives read their entries the same way.
use vstd::prelude::*;
use crate::{is_supported_image_type, supported_image_type};
use crate::path::{
    without_current_dir, components_of, extension_of, file_name_of, joined_path, opt_text, parent_of, path_components,
    path_extension, path_file_name, path_join, path_parent,
};
use crate::text::text_equals;

verus! {

/// `path` rebuilt from its components without the current directory `.`.
/// (`Path::components` yields `.` only for a leading current directory; it drops
/// every other `.`.)
pub open spec fn normalized_path(path: Seq<char>) -> Seq<char> {
    joined_path(without_current_dir(components_of(path)))
}

/// No component left is the current directory `.`.
proof fn lemma_without_current_dir_has_none(s: Seq<Seq<char>>)
    ensures
        forall|i: int|
            0 <= i < without_current_dir(s).len() ==> #[trigger] without_current_dir(s)[i] != "."@,
    decreases s.len(),
{
    if s.len() > 0 {
        let rest = without_current_dir(s.drop_last());
        lemma_without_current_dir_has_none(s.drop_last());
        assert forall|i: int| 0 <= i < without_current_dir(s).len() implies #[trigger] without_current_dir(
            s,
        )[i] != "."@ by {
            if s.last() != "."@ && i < rest.len() {
                assert(without_current_dir(s)[i] == rest[i]);
            }
        }
    }
}

/// Components none of which is `.` are kept as they are.
proof fn lemma_without_current_dir_keeps(s: Seq<Seq<char>>)
    requires
        forall|i: int| 0 <= i < s.len() ==> #[trigger] s[i] != "."@,
    ensures
        without_current_dir(s) == s,
    decreases s.len(),
{
    if s.len() > 0 {
        lemma_without_current_dir_keeps(s.drop_last());
        assert(s.drop_last().push(s.last()) =~= s);
    }
}

/// Removes the current-directory component from `path`: `./a.png` becomes `a.png`.
/// The result's components are those of `path` without `.`, in order, and
/// normalizing it again gives it back.
pub fn normalize_current_dir(path: &str) -> (r: String)
    ensures
        r@ == normalized_path(path@),
        components_of(r@) == without_current_dir(components_of(path@)),
        forall|i: int| 0 <= i < components_of(r@).len() ==> #[trigger] components_of(r@)[i] != "."@,
        normalized_path(r@) == r@,
{
    let components = path_components(path);
    let ghost all = components@.map_values(|c: String| c@);
    let mut kept: Vec<String> = Vec::new();
    let n = components.len();
    for i in 0..n
        invariant
            n == components.len(),
            all == components@.map_values(|c: String| c@),
            all == components_of(path@),
            kept@.map_values(|c: String| c@) == without_current_dir(all.take(i as int)),
    {
        assert(all.take(i + 1).drop_last() =~= all.take(i as int));
        let c = &components[i];
        if !text_equals(c.as_str(), ".") {
            kept.push(c.clone());
        }
        assert(kept@.map_values(|c: String| c@) =~= without_current_dir(all.take(i + 1)));
    }
    assert(all.take(n as int) =~= all);
    let r = path_join(&kept);
    proof {
        let w = without_current_dir(all);
        lemma_without_current_dir_has_none(all);
        lemma_without_current_dir_keeps(w);
    }
    r
}

/// Whether a parent path keeps an entry at the top level of the archive:
/// no parent, or an empty one, or `.`.
pub open spec fn is_top_level_parent(parent: Option<Seq<char>>) -> bool {
    match parent {
        None => true,
        Some(p) => p.len() == 0 || p == "."@,
    }
}

/// The page that an entry at `name` stands for: its file name, when it lies at the
/// top level of the archive and its extension is a supported image type.
pub open spec fn top_level_page_name(name: Seq<char>) -> Option<Seq<char>> {
    let path = normalized_path(name);
    if is_top_level_parent(parent_of(path)) && (match extension_of(path) {
        Some(ext) => is_supported_image_type(ext),
        None => false,
    }) {
        file_name_of(path)
    } else {
        None
    }
}

/// The pages of the entries `names`, in entry order.
pub open spec fn top_level_pages(names: Seq<Seq<char>>) -> Seq<Seq<char>>
    decreases names.len(),
{
    if names.len() == 0 {
        Seq::empty()
    } else {
        let rest = top_level_pages(names.drop_last());
        match top_level_page_name(names.last()) {
            Some(page) => rest.push(page),
            None => rest,
        }
    }
}

/// The page of the entry at `name`, if it is one; a page names that very entry.
pub fn top_level_page(name: &str) -> (r: Option<String>)
    ensures
        opt_text(r) == top_level_page_name(name@),
        r matches Some(p) ==> names_same_entry(p@, name@),
{
    let path = normalize_current_dir(name);
    let parent = path_parent(path.as_str());
    let top = match &parent {
        None => true,
        Some(p) => p.as_str().unicode_len() == 0 || text_equals(p.as_str(), "."),
    };
    if !top {
        return None;
    }
    let supported = match path_extension(path.as_str()) {
        Some(ext) => supported_image_type(ext.as_str()),
        None => false,
    };
    if supported {
        let file = path_file_name(path.as_str());
        proof {
            if let Some(p) = &file {
                let cs = components_of(path@);
                if parent is None {
                    assert(false);
                }
                let q = parent.unwrap();
                if q@ == "."@ {
                    assert(cs[0] == "."@);
                    assert(false);
                }
                assert(cs =~= seq![p@]);
                lemma_without_current_dir_keeps(seq![p@]);
                assert(normalized_path(p@) == p@);
            }
        }
        file
    } else {
        None
    }
}

/// The pages of an archive whose entries are at `names`, in entry order: the
/// top-level entries whose extension is a supported image type. Each page names
/// an entry of the archive, so it can be read back by its name.
pub fn top_level_page_names(names: &Vec<String>) -> (pages: Vec<String>)
    ensures
        crate::read::texts(pages@) == top_level_pages(crate::read::texts(names@)),
        forall|k: int| 0 <= k < pages.len() ==> names_an_entry(#[trigger] pages@[k]@, crate::read::texts(names@)),
{
    let ghost all = crate::read::texts(names@);
    let mut pages: Vec<String> = Vec::new();
    let n = names.len();
    for i in 0..n
        invariant
            n == names.len(),
            all == crate::read::texts(names@),
            crate::read::texts(pages@) == top_level_pages(all.take(i as int)),
            forall|k: int| 0 <= k < pages.len() ==> names_an_entry(#[trigger] pages@[k]@, all),
    {
        assert(all.take(i + 1).drop_last() =~= all.take(i as int));
        match top_level_page(names[i].as_str()) {
            Some(p) => {
                let ghost before = pages@;
                pages.push(p);
                assert forall|k: int| 0 <= k < pages.len() implies names_an_entry(#[trigger] pages@[k]@, all) by {
                    if k < before.len() {
                        assert(pages@[k] == before[k]);
                    } else {
                        assert(names_same_entry(pages@[k]@, all[i as int]));
                    }
                }
            },
            None => {},
        }
        assert(crate::read::texts(pages@) =~= top_level_pages(all.take(i + 1)));
    }
    assert(all.take(n as int) =~= all);
    pages
}

/// Whether a requested file and an archive entry name the same path once their
/// current-directory components are removed (paths are equal when their
/// components are).
pub open spec fn names_same_entry(requested: Seq<char>, entry: Seq<char>) -> bool {
    components_of(normalized_path(requested)) == components_of(normalized_path(entry))
}

/// Whether `file` names one of the entries `names`.
pub open spec fn names_an_entry(file: Seq<char>, names: Seq<Seq<char>>) -> bool {
    exists|j: int| 0 <= j < names.len() && #[trigger] names_same_entry(file, names[j])
}

/// Whether a requested file and an archive entry name the same path once their
/// current-directory components are removed: `./001.jpg` and `001.jpg` do.
pub fn same_entry_path(requested: &str, entry: &str) -> (r: bool)
    ensures
        r == names_same_entry(requested@, entry@),
        r == (without_current_dir(components_of(requested@)) == without_current_dir(
            components_of(entry@),
        )),
{
    let a = path_components(normalize_current_dir(requested).as_str());
    let b = path_components(normalize_current_dir(entry).as_str());
    let ghost va = a@.map_values(|c: String| c@);
    let ghost vb = b@.map_values(|c: String| c@);
    if a.len() != b.len() {
        assert(va.len() != vb.len());
        return false;
    }
    let n = a.len();
    for i in 0..n
        invariant
            n == a.len(),
            n == b.len(),
            va == a@.map_values(|c: String| c@),
            vb == b@.map_values(|c: String| c@),
            va == components_of(normalized_path(requested@)),
            vb == components_of(normalized_path(entry@)),
            forall|k: int| 0 <= k < i ==> va[k] == vb[k],
    {
        if !(a[i] == b[i]) {
            assert(va[i as int] != vb[i as int]);
            return false;
        }
    }
    assert(va =~= vb);
    true
}

/// The position of the first entry, in archive order, that names the same path
/// as the requested `file`; none when no entry does.
pub fn first_matching_entry(names: &Vec<String>, file: &str) -> (r: Option<usize>)
    ensures
        match r {
            Some(i) => i < names.len() && names_same_entry(file@, names@[i as int]@) && forall|k: int|
                0 <= k < i ==> !names_same_entry(file@, #[trigger] names@[k]@),
            None => forall|k: int| 0 <= k < names.len() ==> !names_same_entry(file@, #[trigger] names@[k]@),
        },
        r is Some <==> names_an_entry(file@, crate::read::texts(names@)),
        match r {
            Some(i) => without_current_dir(components_of(file@)) == without_current_dir(
                components_of(names@[i as int]@),
            ) && forall|k: int|
                0 <= k < i ==> without_current_dir(components_of(file@)) != without_current_dir(
                    components_of(#[trigger] names@[k]@),
                ),
            None => forall|k: int|
                0 <= k < names.len() ==> without_current_dir(components_of(file@))
                    != without_current_dir(components_of(#[trigger] names@[k]@)),
        },
{
    let n = names.len();
    for i in 0..n
        invariant
            n == names.len(),
            forall|k: int| 0 <= k < i ==> !names_same_entry(file@, #[trigger] names@[k]@),
            forall|k: int|
                0 <= k < i ==> without_current_dir(components_of(file@)) != without_current_dir(
                    components_of(#[trigger] names@[k]@),
                ),
    {
        if same_entry_path(file, names[i].as_str()) {
            assert(names_same_entry(file@, crate::read::texts(names@)[i as int]));
            return Some(i);
        }
    }
    proof {
        let all = crate::read::texts(names@);
        assert forall|j: int| 0 <= j < all.len() implies !#[trigger] names_same_entry(file@, all[j]) by {
            assert(all[j] == names@[j]@);
        }
    }
    None
}

/// Two paths name the same entry exactly when, once their `.` components are
/// removed, they have the same components in the same order: paths that differ in
/// any component, a directory as much as the file name, never match.
pub proof fn law_same_entry_compares_every_component(requested: &str, entry: &str, r: bool)
    requires
        call_ensures(same_entry_path, (requested, entry), r),
    ensures
        r <==> ({
            let a = without_current_dir(components_of(requested@));
            let b = without_current_dir(components_of(entry@));
            a.len() == b.len() && forall|i: int| 0 <= i < a.len() ==> #[trigger] a[i] == b[i]
        }),
{
    let a = without_current_dir(components_of(requested@));
    let b = without_current_dir(components_of(entry@));
    if a.len() == b.len() && forall|i: int| 0 <= i < a.len() ==> #[trigger] a[i] == b[i] {
        assert(a =~= b);
    }
}

/// The entry found for a requested file is the first, in archive order, whose
/// components (`.` removed) are all those of the file, in order; none is found
/// when no entry has them.
pub proof fn law_first_matching_entry_is_first_exact_match(
    names: &Vec<String>,
    file: &str,
    r: Option<usize>,
)
    requires
        call_ensures(first_matching_entry, (names, file), r),
    ensures
        ({
            let f = without_current_dir(components_of(file@));
            match r {
                Some(i) => i < names.len() && {
                    let e = without_current_dir(components_of(names@[i as int]@));
                    f.len() == e.len() && forall|j: int| 0 <= j < f.len() ==> #[trigger] f[j] == e[j]
                } && forall|k: int|
                    0 <= k < i ==> f != without_current_dir(components_of(#[trigger] names@[k]@)),
                None => forall|k: int|
                    0 <= k < names.len() ==> f != without_current_dir(
                        components_of(#[trigger] names@[k]@),
                    ),
            }
        }),
{
}

/// An entry is a page exactly when, its `.` components removed, it lies at the
/// top of the archive (its parent is none, empty or `.`), its extension is one of
/// `png`, `jpg`, `jpeg`, `webp`, `avif` and `gif` (as written), and it has a file
/// name; the page is that file name.
pub proof fn law_top_level_page_by_place_and_extension(name: &str, r: Option<String>)
    requires
        call_ensures(top_level_page, (name,), r),
    ensures
        ({
            let path = normalized_path(name@);
            &&& r is Some <==> ((parent_of(path) matches Some(q) ==> (q.len() == 0 || q == "."@))
                && (extension_of(path) matches Some(e) && (e == "png"@ || e == "jpg"@ || e
                == "jpeg"@ || e == "webp"@ || e == "avif"@ || e == "gif"@)) && file_name_of(
                path,
            ) is Some)
            &&& r matches Some(p) ==> file_name_of(path) == Some(p@)
        }),
{
}

} // verus!
