//! Pages of `cbz` (zip) archives.
use vstd::prelude::*;
use crate::{is_supported_image_type, supported_image_type};
use crate::path::{extension_of, path_extension};

verus! {

/// The page that a zip entry named `name` stands for: the entry's path itself,
/// when its extension is a supported image type; else none.
pub open spec fn zip_page_name(name: Seq<char>) -> Option<Seq<char>> {
    match extension_of(name) {
        Some(ext) => if is_supported_image_type(ext) {
            Some(name)
        } else {
            None
        },
        None => None,
    }
}

/// The pages of the entries `names`, in entry order.
pub open spec fn zip_pages(names: Seq<Seq<char>>) -> Seq<Seq<char>>
    decreases names.len(),
{
    if names.len() == 0 {
        Seq::empty()
    } else {
        let rest = zip_pages(names.drop_last());
        match zip_page_name(names.last()) {
            Some(page) => rest.push(page),
            None => rest,
        }
    }
}

/// `s` with every run of equal adjacent items reduced to its first (`Vec::dedup`).
pub open spec fn dedup_adjacent(s: Seq<Seq<char>>) -> Seq<Seq<char>>
    decreases s.len(),
{
    if s.len() == 0 {
        s
    } else if s.len() >= 2 && s[s.len() - 2] == s.last() {
        dedup_adjacent(s.drop_last())
    } else {
        dedup_adjacent(s.drop_last()).push(s.last())
    }
}

proof fn lemma_dedup_last(s: Seq<Seq<char>>)
    requires
        s.len() > 0,
    ensures
        dedup_adjacent(s).len() > 0,
        dedup_adjacent(s).last() == s.last(),
    decreases s.len(),
{
    if s.len() >= 2 && s[s.len() - 2] == s.last() {
        lemma_dedup_last(s.drop_last());
    }
}

/// After removing adjacent repeats, no two adjacent items are equal.
pub proof fn lemma_dedup_has_no_adjacent_repeats(s: Seq<Seq<char>>)
    ensures
        forall|i: int|
            0 <= i < dedup_adjacent(s).len() - 1 ==> #[trigger] dedup_adjacent(s)[i] != dedup_adjacent(
                s,
            )[i + 1],
    decreases s.len(),
{
    if s.len() > 0 {
        let rest = s.drop_last();
        lemma_dedup_has_no_adjacent_repeats(rest);
        if !(s.len() >= 2 && s[s.len() - 2] == s.last()) && rest.len() > 0 {
            lemma_dedup_last(rest);
            let d = dedup_adjacent(s);
            assert(d == dedup_adjacent(rest).push(s.last()));
            assert forall|i: int| 0 <= i < d.len() - 1 implies #[trigger] d[i] != d[i + 1] by {
                if i < d.len() - 2 {
                    assert(d[i] == dedup_adjacent(rest)[i]);
                    assert(d[i + 1] == dedup_adjacent(rest)[i + 1]);
                } else {
                    assert(d[i] == dedup_adjacent(rest).last());
                    assert(rest.last() == s[s.len() - 2]);
                }
            }
        }
    }
}

/// The page of the zip entry `name`, if it is one.
pub fn zip_page(name: &str) -> (r: Option<String>)
    ensures
        crate::path::opt_text(r) == zip_page_name(name@),
{
    match path_extension(name) {
        Some(ext) => if supported_image_type(ext.as_str()) {
            Some(name.to_owned())
        } else {
            None
        },
        None => None,
    }
}

/// The pages of a zip archive whose entries are `names`, in entry order, with
/// adjacent repeats removed.
pub fn zip_page_names(names: &Vec<String>) -> (pages: Vec<String>)
    ensures
        crate::read::texts(pages@) == dedup_adjacent(zip_pages(crate::read::texts(names@))),
{
    let ghost all = crate::read::texts(names@);
    let mut pages: Vec<String> = Vec::new();
    let n = names.len();
    for i in 0..n
        invariant
            n == names.len(),
            all == crate::read::texts(names@),
            crate::read::texts(pages@) == zip_pages(all.take(i as int)),
    {
        assert(all.take(i + 1).drop_last() =~= all.take(i as int));
        let page = zip_page(names[i].as_str());
        match page {
            Some(p) => {
                pages.push(p);
            },
            None => {},
        }
        assert(crate::read::texts(pages@) =~= zip_pages(all.take(i + 1)));
    }
    assert(all.take(n as int) =~= all);
    let ghost selected = crate::read::texts(pages@);
    let mut kept: Vec<String> = Vec::new();
    let m = pages.len();
    for i in 0..m
        invariant
            m == pages.len(),
            selected == crate::read::texts(pages@),
            crate::read::texts(kept@) == dedup_adjacent(selected.take(i as int)),
    {
        let ghost prefix = selected.take(i + 1);
        assert(prefix.drop_last() =~= selected.take(i as int));
        if i == 0 {
            kept.push(pages[i].clone());
            assert(crate::read::texts(kept@) =~= dedup_adjacent(prefix));
        } else {
            proof {
                lemma_dedup_last(selected.take(i as int));
            }
            let same = pages[i - 1] == pages[i];
            if !same {
                kept.push(pages[i].clone());
            }
            assert(crate::read::texts(kept@) =~= dedup_adjacent(prefix));
        }
    }
    assert(selected.take(m as int) =~= selected);
    kept
}

/// The texts in `s` and in `s.push(y)`: those of `s`, and `y`.
proof fn lemma_push_contains(s: Seq<Seq<char>>, y: Seq<char>)
    ensures
        forall|x: Seq<char>| #[trigger] s.push(y).contains(x) <==> (s.contains(x) || x == y),
{
    assert forall|x: Seq<char>| #[trigger] s.push(y).contains(x) <==> (s.contains(x) || x == y) by {
        if s.push(y).contains(x) {
            let k = choose|k: int| 0 <= k < s.push(y).len() && s.push(y)[k] == x;
            if k < s.len() {
                assert(s[k] == x);
            }
        }
        if s.contains(x) {
            let k = choose|k: int| 0 <= k < s.len() && s[k] == x;
            assert(s.push(y)[k] == x);
        }
        if x == y {
            assert(s.push(y)[s.len() as int] == x);
        }
    }
}

/// A page named by an entry is the entry's path itself.
proof fn lemma_zip_page_name_is_name(name: Seq<char>)
    ensures
        zip_page_name(name) matches Some(p) ==> p == name,
{
}

/// The pages of entries are the entries that are pages.
proof fn lemma_zip_pages_members(ns: Seq<Seq<char>>)
    ensures
        forall|x: Seq<char>|
            #[trigger] zip_pages(ns).contains(x) <==> (ns.contains(x) && zip_page_name(x) is Some),
    decreases ns.len(),
{
    if ns.len() > 0 {
        let rest = ns.drop_last();
        lemma_zip_pages_members(rest);
        lemma_push_contains(rest, ns.last());
        assert(rest.push(ns.last()) =~= ns);
        lemma_push_contains(zip_pages(rest), ns.last());
    }
}

/// Removing adjacent repeats keeps every text that occurs.
proof fn lemma_dedup_members(s: Seq<Seq<char>>)
    ensures
        forall|x: Seq<char>| #[trigger] dedup_adjacent(s).contains(x) <==> s.contains(x),
    decreases s.len(),
{
    if s.len() > 0 {
        let rest = s.drop_last();
        lemma_dedup_members(rest);
        lemma_push_contains(rest, s.last());
        assert(rest.push(s.last()) =~= s);
        lemma_push_contains(dedup_adjacent(rest), s.last());
        if s.len() >= 2 && s[s.len() - 2] == s.last() {
            assert(rest[rest.len() - 1] == s.last());
            assert(rest.contains(s.last()));
        }
    }
}

/// A zip entry is a page exactly when its extension is one of `png`, `jpg`,
/// `jpeg`, `webp`, `avif` and `gif` (as written, case included), and the page is
/// then the entry's path itself.
pub proof fn law_zip_page_by_extension(name: &str, r: Option<String>)
    requires
        call_ensures(zip_page, (name,), r),
    ensures
        r is Some <==> (extension_of(name@) matches Some(e) && (e == "png"@ || e == "jpg"@ || e
            == "jpeg"@ || e == "webp"@ || e == "avif"@ || e == "gif"@)),
        r matches Some(p) ==> p@ == name@,
{
}

/// The pages of a zip archive are exactly its entries whose extension is one of
/// `png`, `jpg`, `jpeg`, `webp`, `avif` and `gif`, by path: each page is such an
/// entry, each such entry is listed, and no page follows itself.
pub proof fn law_zip_pages_are_the_image_entries(names: &Vec<String>, pages: Vec<String>)
    requires
        call_ensures(zip_page_names, (names,), pages),
    ensures
        forall|x: Seq<char>|
            #[trigger] crate::read::texts(pages@).contains(x) <==> (crate::read::texts(
                names@,
            ).contains(x) && (extension_of(x) matches Some(e) && (e == "png"@ || e == "jpg"@ || e
                == "jpeg"@ || e == "webp"@ || e == "avif"@ || e == "gif"@))),
        forall|k: int| 0 <= k < pages.len() - 1 ==> #[trigger] pages@[k]@ != pages@[k + 1]@,
{
    let all = crate::read::texts(names@);
    lemma_zip_pages_members(all);
    lemma_dedup_members(zip_pages(all));
    lemma_dedup_has_no_adjacent_repeats(zip_pages(all));
    let t = crate::read::texts(pages@);
    assert forall|k: int| 0 <= k < pages.len() - 1 implies #[trigger] pages@[k]@ != pages@[k + 1]@ by {
        assert(t[k] == pages@[k]@);
        assert(t[k + 1] == pages@[k + 1]@);
    }
}

/// The entries that are pages, in entry order: those whose extension is one of
/// the supported image types.
proof fn lemma_zip_pages_filter(ns: Seq<Seq<char>>)
    ensures
        zip_pages(ns) == ns.filter(
            |x: Seq<char>|
                extension_of(x) matches Some(e) && (e == "png"@ || e == "jpg"@ || e == "jpeg"@ || e
                    == "webp"@ || e == "avif"@ || e == "gif"@),
        ),
    decreases ns.len(),
{
    reveal(Seq::filter);
    if ns.len() > 0 {
        lemma_zip_pages_filter(ns.drop_last());
    }
}

/// The pages of a zip archive are its entries whose extension is one of `png`,
/// `jpg`, `jpeg`, `webp`, `avif` and `gif`, by path and in entry order, with each
/// run of equal adjacent paths kept once.
pub proof fn law_zip_pages_in_entry_order(names: &Vec<String>, pages: Vec<String>)
    requires
        call_ensures(zip_page_names, (names,), pages),
    ensures
        crate::read::texts(pages@) == dedup_adjacent(
            crate::read::texts(names@).filter(
                |x: Seq<char>|
                    extension_of(x) matches Some(e) && (e == "png"@ || e == "jpg"@ || e == "jpeg"@
                        || e == "webp"@ || e == "avif"@ || e == "gif"@),
            ),
        ),
{
    lemma_zip_pages_filter(crate::read::texts(names@));
}

/// Filtering with two predicates that agree on every item gives one result.
proof fn lemma_filter_agreeing(q: Seq<int>, p1: spec_fn(int) -> bool, p2: spec_fn(int) -> bool)
    requires
        forall|k: int| 0 <= k < q.len() ==> p1(#[trigger] q[k]) == p2(q[k]),
    ensures
        q.filter(p1) == q.filter(p2),
    decreases q.len(),
{
    reveal(Seq::filter);
    if q.len() > 0 {
        let d = q.drop_last();
        assert forall|k: int| 0 <= k < d.len() implies p1(#[trigger] d[k]) == p2(d[k]) by {
            assert(d[k] == q[k]);
        }
        lemma_filter_agreeing(d, p1, p2);
        assert(p1(q[q.len() - 1]) == p2(q[q.len() - 1]));
    }
}

/// Removing adjacent repeats keeps, in order, exactly the items that differ from
/// the item just before them (and the first item): every run of equal adjacent
/// items is kept once, and equal items that are not adjacent are all kept.
pub proof fn law_dedup_keeps_first_of_each_run(s: Seq<Seq<char>>)
    ensures
        dedup_adjacent(s) == Seq::new(s.len(), |i: int| i).filter(|i: int| i == 0 || s[i] != s[i - 1]).map_values(
            |i: int| s[i],
        ),
    decreases s.len(),
{
    reveal(Seq::filter);
    if s.len() > 0 {
        let n = s.len();
        let t = s.drop_last();
        law_dedup_keeps_first_of_each_run(t);
        let ids = Seq::new(n, |i: int| i);
        let ids_t = Seq::new((n - 1) as nat, |i: int| i);
        let ps = |i: int| i == 0 || s[i] != s[i - 1];
        let pt = |i: int| i == 0 || t[i] != t[i - 1];
        assert(ids.drop_last() =~= ids_t);
        assert forall|k: int| 0 <= k < ids_t.len() implies ps(#[trigger] ids_t[k]) == pt(ids_t[k]) by {
            if k > 0 {
                assert(s[k] == t[k]);
                assert(s[k - 1] == t[k - 1]);
            }
        }
        lemma_filter_agreeing(ids_t, ps, pt);
        let ft = ids_t.filter(pt);
        lemma_filter_within(ids_t, pt, n - 1);
        let mt = ft.map_values(|i: int| t[i]);
        let ms = ft.map_values(|i: int| s[i]);
        assert(mt =~= ms);
        assert(ids.last() == n - 1);
        if ps(n - 1) {
            assert(ids.filter(ps) == ft.push(n - 1));
            assert(ft.push(n - 1).map_values(|i: int| s[i]) =~= ms.push(s.last()));
        } else {
            assert(ids.filter(ps) == ft);
        }
    }
}

/// The items of a filtered sequence of positions lie where those of the sequence do.
proof fn lemma_filter_within(q: Seq<int>, p: spec_fn(int) -> bool, hi: int)
    requires
        forall|k: int| 0 <= k < q.len() ==> 0 <= #[trigger] q[k] < hi,
    ensures
        forall|k: int| 0 <= k < q.filter(p).len() ==> 0 <= #[trigger] q.filter(p)[k] < hi,
    decreases q.len(),
{
    reveal(Seq::filter);
    if q.len() > 0 {
        let d = q.drop_last();
        assert forall|k: int| 0 <= k < d.len() implies 0 <= #[trigger] d[k] < hi by {
            assert(d[k] == q[k]);
        }
        lemma_filter_within(d, p, hi);
        let fd = d.filter(p);
        assert forall|k: int| 0 <= k < q.filter(p).len() implies 0 <= #[trigger] q.filter(p)[k] < hi by {
            if k < fd.len() {
                assert(q.filter(p)[k] == fd[k]);
            } else {
                assert(q.filter(p)[k] == q.last());
            }
        }
    }
}

} // verus!
