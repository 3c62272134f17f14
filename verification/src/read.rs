//! Readers of comic book archives: which entries are pages, and in which order.
use vstd::prelude::*;
use crate::text::{
    all_ascii, ascii_lowercase, chars_less, chars_lt, chars_of, lemma_chars_lt_transitive,
    lemma_chars_lt_trichotomy, to_lowercase, unicode_lowercase,
};

pub mod cb7;
pub mod cbt;
pub mod cbz;

verus! {

/// The text views of a sequence of strings.
pub open spec fn texts(v: Seq<String>) -> Seq<Seq<char>> {
    v.map_values(|s: String| s@)
}

/// The key by which pages are ordered: the name in lowercase.
pub open spec fn page_keys(names: Seq<Seq<char>>) -> Seq<Seq<char>> {
    names.map_values(|s: Seq<char>| unicode_lowercase(s))
}

/// Position `i` comes before position `j` when its key is smaller,
/// or when the keys are equal and `i` stood first.
pub open spec fn comes_before(keys: Seq<Seq<char>>, i: int, j: int) -> bool {
    chars_lt(keys[i], keys[j]) || (keys[i] == keys[j] && i < j)
}

/// `p` lists each position `0..n` exactly once.
pub open spec fn is_permutation_of_positions(p: Seq<int>, n: nat) -> bool {
    &&& p.len() == n
    &&& forall|k: int| 0 <= k < n ==> 0 <= #[trigger] p[k] < n
    &&& forall|k: int, l: int| 0 <= k < l < n ==> p[k] != p[l]
}

/// `output` is `input` rearranged by `p`, in the order `comes_before` on `keys`.
pub open spec fn arranged_by(
    input: Seq<Seq<char>>,
    keys: Seq<Seq<char>>,
    output: Seq<Seq<char>>,
    p: Seq<int>,
) -> bool {
    &&& is_permutation_of_positions(p, input.len())
    &&& output.len() == input.len()
    &&& forall|k: int| 0 <= k < output.len() ==> output[k] == input[#[trigger] p[k]]
    &&& forall|k: int, l: int|
        0 <= k < l < output.len() ==> comes_before(keys, #[trigger] p[k], #[trigger] p[l])
}

/// `output` is `input` sorted by lowercase name; names whose lowercase forms are
/// equal keep the order they had in `input` (a stable sort).
pub open spec fn sorted_by_lowercase(input: Seq<Seq<char>>, output: Seq<Seq<char>>) -> bool {
    exists|p: Seq<int>| arranged_by(input, page_keys(input), output, p)
}

/// The keys of names made of ASCII characters: their ASCII lowercase forms
/// (which their Unicode lowercase forms are).
pub open spec fn ascii_page_keys(names: Seq<Seq<char>>) -> Seq<Seq<char>> {
    names.map_values(|s: Seq<char>| ascii_lowercase(s))
}

/// `output` is `input` sorted stably by the ASCII lowercase forms of the names.
pub open spec fn sorted_by_ascii_lowercase(input: Seq<Seq<char>>, output: Seq<Seq<char>>) -> bool {
    exists|p: Seq<int>| arranged_by(input, ascii_page_keys(input), output, p)
}

/// Every name is made of ASCII characters.
pub open spec fn all_ascii_names(names: Seq<Seq<char>>) -> bool {
    forall|i: int| 0 <= i < names.len() ==> all_ascii(#[trigger] names[i])
}

/// Sorts page names alphabetically, ignoring case: by their Unicode lowercase
/// forms, stably.
pub fn sort_pages(pages: Vec<String>) -> (sorted: Vec<String>)
    ensures
        sorted_by_lowercase(texts(pages@), texts(sorted@)),
        all_ascii_names(texts(pages@)) ==> sorted_by_ascii_lowercase(texts(pages@), texts(sorted@)),
{
    let n = pages.len();
    let ghost input = texts(pages@);
    let ghost keys = page_keys(input);
    let mut key_chars: Vec<Vec<char>> = Vec::new();
    for i in 0..n
        invariant
            n == pages.len(),
            input == texts(pages@),
            keys == page_keys(input),
            key_chars.len() == i,
            forall|j: int| 0 <= j < i ==> (#[trigger] key_chars[j])@ == keys[j],
            forall|j: int|
                0 <= j < i && all_ascii(input[j]) ==> (#[trigger] key_chars[j])@ == ascii_lowercase(
                    input[j],
                ),
    {
        let lower = to_lowercase(pages[i].as_str());
        let chars = chars_of(lower.as_str());
        key_chars.push(chars);
    }
    let ghost ascii_keys = ascii_page_keys(input);
    proof {
        if all_ascii_names(input) {
            assert forall|j: int| 0 <= j < n implies keys[j] == ascii_keys[j] by {
                assert(all_ascii(input[j]));
                assert(key_chars[j]@ == keys[j]);
            }
            assert(keys =~= ascii_keys);
        }
    }
    // positions sorted so far, by `comes_before`
    let mut order: Vec<usize> = Vec::new();
    for i in 0..n
        invariant
            n == pages.len(),
            keys.len() == n,
            key_chars.len() == n,
            forall|j: int| 0 <= j < n ==> (#[trigger] key_chars[j])@ == keys[j],
            order.len() == i,
            forall|k: int| 0 <= k < i ==> #[trigger] order[k] < i,
            forall|k: int, l: int|
                0 <= k < l < i ==> comes_before(
                    keys,
                    #[trigger] order[k] as int,
                    #[trigger] order[l] as int,
                ),
    {
        let mut pos: usize = 0;
        loop
            invariant
                pos <= order.len(),
                order.len() == i,
                i < n,
                keys.len() == n,
                key_chars.len() == n,
                forall|j: int| 0 <= j < n ==> (#[trigger] key_chars[j])@ == keys[j],
                forall|k: int| 0 <= k < i ==> #[trigger] order[k] < i,
                forall|q: int| 0 <= q < pos ==> !chars_lt(keys[i as int], keys[#[trigger] order[q] as int]),
            ensures
                pos <= order.len(),
                forall|q: int| 0 <= q < pos ==> !chars_lt(keys[i as int], keys[#[trigger] order[q] as int]),
                pos < order.len() ==> chars_lt(keys[i as int], keys[order[pos as int] as int]),
            decreases order.len() - pos,
        {
            if pos == order.len() {
                break;
            }
            let other = order[pos];
            if chars_less(&key_chars[i], &key_chars[other]) {
                break;
            }
            pos = pos + 1;
        }
        let ghost before = order@;
        order.insert(pos, i);
        proof {
            assert forall|k: int, l: int| 0 <= k < l < i + 1 implies comes_before(
                keys,
                #[trigger] order[k] as int,
                #[trigger] order[l] as int,
            ) by {
                if l == pos {
                    // an earlier entry: its key is not greater, and its position is smaller
                    let o = before[k] as int;
                    lemma_chars_lt_trichotomy(keys[o], keys[i as int]);
                    assert(!chars_lt(keys[i as int], keys[o]));
                } else if k == pos {
                    // a later entry: its key is greater than the one found at `pos`
                    let o = before[l - 1] as int;
                    let first = before[pos as int] as int;
                    if l - 1 > pos {
                        assert(comes_before(keys, first, o));
                        lemma_chars_lt_trichotomy(keys[first], keys[o]);
                        if chars_lt(keys[first], keys[o]) {
                            lemma_chars_lt_transitive(keys[i as int], keys[first], keys[o]);
                        }
                    }
                } else if k < pos && l > pos {
                    assert(order[k] == before[k]);
                    assert(order[l] == before[l - 1]);
                } else if l < pos {
                    assert(order[k] == before[k]);
                    assert(order[l] == before[l]);
                } else {
                    assert(order[k] == before[k - 1]);
                    assert(order[l] == before[l - 1]);
                }
            }
        }
    }
    let mut sorted: Vec<String> = Vec::new();
    for k in 0..n
        invariant
            n == pages.len(),
            order.len() == n,
            forall|q: int| 0 <= q < n ==> #[trigger] order[q] < n,
            sorted.len() == k,
            forall|q: int| 0 <= q < k ==> (#[trigger] sorted[q])@ == pages[order[q] as int]@,
    {
        let name = pages[order[k]].clone();
        sorted.push(name);
    }
    proof {
        let p = order@.map_values(|x: usize| x as int);
        let output = texts(sorted@);
        assert forall|k: int, l: int| 0 <= k < l < n implies p[k] != p[l] by {
            if p[k] == p[l] {
                assert(comes_before(keys, p[k], p[l]));
                lemma_chars_lt_trichotomy(keys[p[k]], keys[p[l]]);
            }
        }
        assert forall|k: int| 0 <= k < output.len() implies output[k] == input[#[trigger] p[k]] by {
            assert(sorted[k]@ == pages[order[k] as int]@);
        }
        assert(arranged_by(input, keys, output, p));
        if all_ascii_names(input) {
            assert(arranged_by(input, ascii_keys, output, p));
        }
    }
    sorted
}

/// The page at `index` in `pages`, if there is one.
pub fn page_at(pages: &Vec<String>, index: usize) -> (r: Option<&String>)
    ensures
        index < pages.len() ==> r == Some(&pages[index as int]),
        index >= pages.len() ==> r is None,
{
    if index < pages.len() {
        Some(&pages[index])
    } else {
        None
    }
}

/// What a read of a page by its index gives back: the bytes of the page read by
/// its path, in `Some`, or the error of that read.
pub open spec fn page_found<E>(read: Result<Vec<u8>, E>) -> Result<Option<Vec<u8>>, E> {
    match read {
        Ok(b) => Ok(Some(b)),
        Err(e) => Err(e),
    }
}

/// Abstraction trait for reading comic book files
pub trait ComicBookReader: Sized {
    type Error;

    /// Get the list of images path as it is ordered from the archive
    fn pages_unordered(&self) -> Vec<String>;

    /// Get list of images paths
    ///
    /// This should return a [`Vec<String>`] of alphabetically (case insensitive) ordered of images path
    fn pages(&self) -> (r: Vec<String>)
        ensures
            exists|u: Vec<String>|
                call_ensures(Self::pages_unordered, (self,), u) && sorted_by_lowercase(
                    texts(u@),
                    texts(r@),
                ) && (all_ascii_names(texts(u@)) ==> sorted_by_ascii_lowercase(
                    texts(u@),
                    texts(r@),
                )),
    {
        let u = self.pages_unordered();
        let ghost uu = u;
        let r = sort_pages(u);
        assert(call_ensures(Self::pages_unordered, (self,), uu));
        r
    }

    /// Get a file from the archive
    fn get_file(&mut self, file: &str) -> Result<Vec<u8>, Self::Error>;

    /// Get image by its path: one read of the file `image` on this reader.
    fn get_page_by_path(&mut self, image: &str) -> (r: Result<Vec<u8>, Self::Error>)
        ensures
            exists|m: &mut Self|
                *m == *old(self) && *final(m) == *final(self) && #[trigger] call_ensures(
                    Self::get_file,
                    (m, image),
                    r,
                ),
    {
        self.get_file(image)
    }

    /// Get image by its index in [`Self::pages`]; `None` past the last page,
    /// where nothing is read.
    fn get_page_by_index(&mut self, index: usize) -> (r: Result<Option<Vec<u8>>, Self::Error>)
        ensures
            exists|p: Vec<String>|
                #[trigger] call_ensures(Self::pages, (&*old(self),), p) && {
                    &&& index >= p.len() ==> (r matches Ok(None)) && *final(self) == *old(self)
                    &&& index < p.len() ==> exists|m: &mut Self, s: &str, q: Result<Vec<u8>, Self::Error>|
                        *m == *old(self) && *final(m) == *final(self) && s@ == p@[index as int]@
                            && #[trigger] call_ensures(Self::get_page_by_path, (m, s), q)
                            && r == page_found(q)
                },
    {
        let pages = self.pages();
        let ghost pp = pages;
        assert(call_ensures(Self::pages, (&*old(self),), pp));
        match page_at(&pages, index) {
            None => Ok(None),
            Some(path) => {
                let s = path.as_str();
                let page = self.get_page_by_path(s);
                let r = match page {
                    Ok(b) => Ok(Some(b)),
                    Err(e) => Err(e),
                };
                assert(r == page_found(page));
                r
            },
        }
    }

    /// Get image by its index in [`Self::pages_unordered`]; `None` past the last
    /// page, where nothing is read.
    fn get_page_by_index_unordered(&mut self, index: usize) -> (r: Result<Option<Vec<u8>>, Self::Error>)
        ensures
            exists|p: Vec<String>|
                #[trigger] call_ensures(Self::pages_unordered, (&*old(self),), p) && {
                    &&& index >= p.len() ==> (r matches Ok(None)) && *final(self) == *old(self)
                    &&& index < p.len() ==> exists|m: &mut Self, s: &str, q: Result<Vec<u8>, Self::Error>|
                        *m == *old(self) && *final(m) == *final(self) && s@ == p@[index as int]@
                            && #[trigger] call_ensures(Self::get_page_by_path, (m, s), q)
                            && r == page_found(q)
                },
    {
        let pages = self.pages_unordered();
        let ghost pp = pages;
        assert(call_ensures(Self::pages_unordered, (&*old(self),), pp));
        match page_at(&pages, index) {
            None => Ok(None),
            Some(path) => {
                let s = path.as_str();
                let page = self.get_page_by_path(s);
                let r = match page {
                    Ok(b) => Ok(Some(b)),
                    Err(e) => Err(e),
                };
                assert(r == page_found(page));
                r
            },
        }
    }
}

} // verus!
