//! Writers of comic book archives: how pages are named and numbered, and what
//! `ComicInfo.xml` records of each.
use vstd::prelude::*;
use crate::comicinfo::{built_comic_info, pages_view, ComicInfo, ComicInfoBuilder};
use crate::comicinfo::comic_page_info::{
    ComicPageInfo, ComicPageInfoBuilder, ComicPageInfoView, NonZeroSize,
};
use crate::comicinfo::comic_page_type::ComicPageType;
use crate::text::{ascii_lowercase, chars_lt, lemma_chars_lt_trichotomy};
use crate::read::{arranged_by, ascii_page_keys, comes_before, is_permutation_of_positions, sorted_by_ascii_lowercase};

pub mod cb7;
pub mod cbt;
pub mod cbz;

verus! {

/// The character of a decimal digit.
pub open spec fn digit_char(d: nat) -> char {
    (48 + d) as char
}

/// The decimal digits of `n`, most significant first, without leading zeros.
pub open spec fn decimal(n: nat) -> Seq<char>
    decreases n,
{
    if n < 10 {
        seq![digit_char(n)]
    } else {
        decimal(n / 10).push(digit_char(n % 10))
    }
}

/// `s` with zeros in front up to `width` characters (`format!("{:0>width$}")`).
pub open spec fn zero_padded(s: Seq<char>, width: nat) -> Seq<char> {
    if s.len() >= width {
        s
    } else {
        Seq::new((width - s.len()) as nat, |i: int| '0') + s
    }
}

/// The name of the page numbered `number`: the number in decimal padded with
/// zeros to `width`, the suffix, a dot and the extension.
pub open spec fn page_name_text(number: nat, width: nat, suffix: Seq<char>, extension: Seq<char>) -> Seq<char> {
    zero_padded(decimal(number), width) + suffix + "."@ + extension
}

/// The last `width` decimal digits of `n`, zeros in front included.
pub open spec fn fixed_digits(n: nat, width: nat) -> Seq<char>
    decreases width,
{
    if width == 0 {
        Seq::empty()
    } else {
        fixed_digits(n / 10, (width - 1) as nat).push(digit_char(n % 10))
    }
}

proof fn lemma_fixed_digits_len(n: nat, width: nat)
    ensures
        fixed_digits(n, width).len() == width,
    decreases width,
{
    if width > 0 {
        lemma_fixed_digits_len(n / 10, (width - 1) as nat);
    }
}

proof fn lemma_fixed_digits_zero(width: nat)
    ensures
        fixed_digits(0, width) == Seq::new(width, |i: int| '0'),
    decreases width,
{
    if width > 0 {
        lemma_fixed_digits_zero((width - 1) as nat);
        assert(fixed_digits(0, width) =~= Seq::new(width, |i: int| '0'));
    }
}

proof fn lemma_decimal_len(n: nat)
    ensures
        decimal(n).len() >= 1,
        n >= 10 ==> decimal(n).len() == decimal(n / 10).len() + 1,
        n < 10 ==> decimal(n).len() == 1,
    decreases n,
{
    if n >= 10 {
        lemma_decimal_len(n / 10);
    }
}

/// Padding the decimal digits of a number to a width they fit in gives its last
/// `width` digits.
proof fn lemma_padded_is_fixed(n: nat, width: nat)
    requires
        decimal(n).len() <= width,
    ensures
        zero_padded(decimal(n), width) == fixed_digits(n, width),
    decreases n,
{
    lemma_decimal_len(n);
    if n < 10 {
        lemma_fixed_digits_zero((width - 1) as nat);
        assert(zero_padded(decimal(n), width) =~= fixed_digits(n, width));
    } else {
        lemma_padded_is_fixed(n / 10, (width - 1) as nat);
        let d = decimal(n / 10);
        assert(zero_padded(decimal(n), width) =~= zero_padded(d, (width - 1) as nat).push(
            digit_char(n % 10),
        ));
    }
}

/// Appending to two sequences of the same length keeps their order.
proof fn lemma_chars_lt_append(a: Seq<char>, b: Seq<char>, x: Seq<char>, y: Seq<char>)
    requires
        chars_lt(a, b),
        a.len() == b.len(),
    ensures
        chars_lt(a + x, b + y),
    decreases a.len(),
{
    if a.len() > 0 {
        assert((a + x).drop_first() =~= a.drop_first() + x);
        assert((b + y).drop_first() =~= b.drop_first() + y);
        assert((a + x)[0] == a[0]);
        assert((b + y)[0] == b[0]);
        if a[0] == b[0] {
            lemma_chars_lt_append(a.drop_first(), b.drop_first(), x, y);
        }
    }
}

/// Sequences equal but for a last character compare as those characters do.
proof fn lemma_chars_lt_last(p: Seq<char>, x: char, y: char)
    requires
        x < y,
    ensures
        chars_lt(p.push(x), p.push(y)),
    decreases p.len(),
{
    if p.len() == 0 {
        assert(p.push(x)[0] == x);
        assert(p.push(y)[0] == y);
    } else {
        lemma_chars_lt_last(p.drop_first(), x, y);
        assert(p.push(x).drop_first() =~= p.drop_first().push(x));
        assert(p.push(y).drop_first() =~= p.drop_first().push(y));
        assert(p.push(x)[0] == p[0]);
        assert(p.push(y)[0] == p[0]);
    }
}

/// Fixed-width digits of numbers that fit compare as the numbers do.
proof fn lemma_fixed_digits_ordered(a: nat, b: nat, width: nat)
    requires
        a < b,
        decimal(b).len() <= width,
    ensures
        chars_lt(fixed_digits(a, width), fixed_digits(b, width)),
    decreases width,
{
    lemma_decimal_len(b);
    lemma_fixed_digits_len(a / 10, (width - 1) as nat);
    lemma_fixed_digits_len(b / 10, (width - 1) as nat);
    if a / 10 < b / 10 {
        lemma_fixed_digits_ordered(a / 10, b / 10, (width - 1) as nat);
        let pa = fixed_digits(a / 10, (width - 1) as nat);
        let pb = fixed_digits(b / 10, (width - 1) as nat);
        lemma_chars_lt_append(pa, pb, seq![digit_char(a % 10)], seq![digit_char(b % 10)]);
        assert(pa + seq![digit_char(a % 10)] =~= fixed_digits(a, width));
        assert(pb + seq![digit_char(b % 10)] =~= fixed_digits(b, width));
    } else {
        assert(a % 10 < b % 10);
        lemma_chars_lt_last(fixed_digits(a / 10, (width - 1) as nat), digit_char(a % 10), digit_char(b % 10));
    }
}

/// Pages named with the same suffix and extension, numbered within the width,
/// come in the order of their numbers when their names are sorted.
pub proof fn lemma_page_names_follow_numbers(
    a: nat,
    b: nat,
    width: nat,
    suffix: Seq<char>,
    extension: Seq<char>,
)
    requires
        a < b,
        decimal(b).len() <= width,
    ensures
        chars_lt(page_name_text(a, width, suffix, extension), page_name_text(b, width, suffix, extension)),
{
    lemma_decimal_len(a);
    lemma_decimal_len(b);
    lemma_decimal_monotone(a, b);
    lemma_padded_is_fixed(a, width);
    lemma_padded_is_fixed(b, width);
    lemma_fixed_digits_ordered(a, b, width);
    lemma_fixed_digits_len(a, width);
    lemma_fixed_digits_len(b, width);
    let tail = suffix + "."@ + extension;
    let fa = fixed_digits(a, width);
    let fb = fixed_digits(b, width);
    lemma_chars_lt_append(fa, fb, tail, tail);
    assert(fa + tail =~= page_name_text(a, width, suffix, extension));
    assert(fb + tail =~= page_name_text(b, width, suffix, extension));
}

/// ASCII lowercase keeps digits and the dot: a page name in lowercase is the
/// name made of the lowercase suffix and extension.
proof fn lemma_page_name_ascii_lowercase(n: nat, width: nat, suffix: Seq<char>, extension: Seq<char>)
    ensures
        ascii_lowercase(page_name_text(n, width, suffix, extension)) == page_name_text(
            n,
            width,
            ascii_lowercase(suffix),
            ascii_lowercase(extension),
        ),
{
    let digits = zero_padded(decimal(n), width);
    lemma_digits_are_digits(n, width);
    reveal_strlit(".");
    assert(ascii_lowercase(digits) =~= digits);
    assert(ascii_lowercase("."@) =~= "."@);
    assert(ascii_lowercase(page_name_text(n, width, suffix, extension)) =~= ascii_lowercase(digits)
        + ascii_lowercase(suffix) + ascii_lowercase("."@) + ascii_lowercase(extension));
}

/// Every character of a padded number is a decimal digit.
proof fn lemma_digits_are_digits(n: nat, width: nat)
    ensures
        forall|i: int|
            0 <= i < zero_padded(decimal(n), width).len() ==> 48 <= (#[trigger] zero_padded(
                decimal(n),
                width,
            )[i]) as u32 <= 57,
    decreases n,
{
    if n >= 10 {
        lemma_digits_are_digits(n / 10, 0);
    }
    let d = decimal(n);
    assert forall|i: int| 0 <= i < d.len() implies 48 <= (#[trigger] d[i]) as u32 <= 57 by {
        if n >= 10 && i < d.len() - 1 {
            assert(d[i] == zero_padded(decimal(n / 10), 0)[i]);
        }
    }
}

/// The names of `count` pages written with one suffix and extension, from
/// number 1 on.
pub open spec fn written_page_names(count: nat, width: nat, suffix: Seq<char>, extension: Seq<char>) -> Seq<Seq<char>> {
    Seq::new(count, |k: int| page_name_text((k + 1) as nat, width, suffix, extension))
}

/// The pages that a writer named with one suffix and extension, numbered from 1
/// within the width, come back in the order they were written when an archive
/// lists them in any order and they are sorted by lowercase name.
pub proof fn lemma_written_pages_read_back_in_order(
    count: nat,
    width: nat,
    suffix: Seq<char>,
    extension: Seq<char>,
    listed: Seq<Seq<char>>,
    sorted: Seq<Seq<char>>,
)
    requires
        decimal(count).len() <= width,
        exists|q: Seq<int>|
            is_permutation_of_positions(q, count) && listed.len() == count && forall|k: int|
                0 <= k < count ==> listed[k] == written_page_names(count, width, suffix, extension)[#[trigger] q[k]],
        sorted_by_ascii_lowercase(listed, sorted),
    ensures
        sorted == written_page_names(count, width, suffix, extension),
{
    let names = written_page_names(count, width, suffix, extension);
    let q = choose|q: Seq<int>|
        is_permutation_of_positions(q, count) && listed.len() == count && forall|k: int|
            0 <= k < count ==> listed[k] == names[#[trigger] q[k]];
    let p = choose|p: Seq<int>| arranged_by(listed, ascii_page_keys(listed), sorted, p);
    let keys = ascii_page_keys(listed);
    let ls = ascii_lowercase(suffix);
    let le = ascii_lowercase(extension);
    // the number (less one) of the name at each sorted position
    let f = Seq::new(count, |k: int| q[p[k]]);
    assert forall|k: int| 0 <= k < count implies sorted[k] == names[#[trigger] f[k]] && 0 <= f[k] < count by {
        assert(0 <= p[k] < count);
    }
    // names with larger numbers have larger keys
    assert forall|a: int, b: int| 0 <= a < b < count implies chars_lt(
        ascii_lowercase(#[trigger] names[a]),
        ascii_lowercase(#[trigger] names[b]),
    ) by {
        lemma_decimal_monotone((b + 1) as nat, count);
        lemma_page_names_follow_numbers((a + 1) as nat, (b + 1) as nat, width, ls, le);
        lemma_page_name_ascii_lowercase((a + 1) as nat, width, suffix, extension);
        lemma_page_name_ascii_lowercase((b + 1) as nat, width, suffix, extension);
    }
    // so the sorted positions hold increasing numbers
    assert forall|k: int, l: int| 0 <= k < l < count implies #[trigger] f[k] < #[trigger] f[l] by {
        assert(comes_before(keys, p[k], p[l]));
        assert(keys[p[k]] == ascii_lowercase(names[f[k]]));
        assert(keys[p[l]] == ascii_lowercase(names[f[l]]));
        assert(0 <= p[k] < count && 0 <= p[l] < count);
        assert(p[k] != p[l]);
        assert(q[p[k]] != q[p[l]]);
        if f[k] > f[l] {
            lemma_chars_lt_trichotomy(ascii_lowercase(names[f[l]]), ascii_lowercase(names[f[k]]));
        }
    }
    lemma_increasing_positions_are_identity(f, count);
    assert forall|k: int| 0 <= k < count implies sorted[k] == names[k] by {
        assert(f[k] == k);
        assert(sorted[k] == names[f[k]]);
    }
    assert(sorted.len() == count);
    assert(sorted =~= names);
}

/// Positions `0..n` listed in increasing order are listed in order.
proof fn lemma_increasing_positions_are_identity(f: Seq<int>, n: nat)
    requires
        f.len() == n,
        forall|k: int| 0 <= k < n ==> 0 <= #[trigger] f[k] < n,
        forall|k: int, l: int| 0 <= k < l < n ==> #[trigger] f[k] < #[trigger] f[l],
    ensures
        forall|k: int| 0 <= k < n ==> #[trigger] f[k] == k,
{
    assert forall|k: int| 0 <= k < n implies #[trigger] f[k] >= k by {
        lemma_increasing_lower_bound(f, n, k);
    }
    assert forall|k: int| 0 <= k < n implies #[trigger] f[k] <= k by {
        lemma_increasing_upper_bound(f, n, k);
    }
}

proof fn lemma_increasing_lower_bound(f: Seq<int>, n: nat, k: int)
    requires
        f.len() == n,
        0 <= k < n,
        forall|i: int| 0 <= i < n ==> 0 <= #[trigger] f[i] < n,
        forall|i: int, j: int| 0 <= i < j < n ==> #[trigger] f[i] < #[trigger] f[j],
    ensures
        f[k] >= k,
    decreases k,
{
    if k > 0 {
        lemma_increasing_lower_bound(f, n, k - 1);
        assert(f[k - 1] < f[k]);
    }
}

proof fn lemma_increasing_upper_bound(f: Seq<int>, n: nat, k: int)
    requires
        f.len() == n,
        0 <= k < n,
        forall|i: int| 0 <= i < n ==> 0 <= #[trigger] f[i] < n,
        forall|i: int, j: int| 0 <= i < j < n ==> #[trigger] f[i] < #[trigger] f[j],
    ensures
        f[k] <= k,
    decreases n - k,
{
    if k < n - 1 {
        lemma_increasing_upper_bound(f, n, k + 1);
        assert(f[k] < f[k + 1]);
    }
}

/// A smaller number has no more digits.
proof fn lemma_decimal_monotone(a: nat, b: nat)
    requires
        a <= b,
    ensures
        decimal(a).len() <= decimal(b).len(),
    decreases b,
{
    lemma_decimal_len(a);
    lemma_decimal_len(b);
    if a >= 10 {
        lemma_decimal_monotone(a / 10, b / 10);
    }
}

fn digit_text(d: usize) -> (r: &'static str)
    requires
        d < 10,
    ensures
        r@ == seq![digit_char(d as nat)],
{
    proof {
        reveal_strlit("0");
        reveal_strlit("1");
        reveal_strlit("2");
        reveal_strlit("3");
        reveal_strlit("4");
        reveal_strlit("5");
        reveal_strlit("6");
        reveal_strlit("7");
        reveal_strlit("8");
        reveal_strlit("9");
    }
    let r = if d == 0 {
        "0"
    } else if d == 1 {
        "1"
    } else if d == 2 {
        "2"
    } else if d == 3 {
        "3"
    } else if d == 4 {
        "4"
    } else if d == 5 {
        "5"
    } else if d == 6 {
        "6"
    } else if d == 7 {
        "7"
    } else if d == 8 {
        "8"
    } else {
        "9"
    };
    assert(r@ =~= seq![digit_char(d as nat)]);
    r
}

/// Appends the decimal digits of `n`.
fn append_decimal(s: &mut String, n: usize)
    ensures
        final(s)@ == old(s)@ + decimal(n as nat),
    decreases n,
{
    if n >= 10 {
        append_decimal(s, n / 10);
    }
    let d = digit_text(n % 10);
    s.append(d);
    assert(final(s)@ =~= old(s)@ + decimal(n as nat));
}

/// The number of decimal digits of `n`.
fn decimal_len(n: usize) -> (r: usize)
    ensures
        r == decimal(n as nat).len(),
        r <= n as int + 1,
    decreases n,
{
    if n < 10 {
        1
    } else {
        1 + decimal_len(n / 10)
    }
}

/// The name of the page numbered `number`: the number padded with zeros to
/// `width` digits, `suffix`, a dot and `extension`.
pub fn page_name(number: usize, width: usize, suffix: &str, extension: &str) -> (r: String)
    ensures
        r@ == page_name_text(number as nat, width as nat, suffix@, extension@),
{
    let mut s = String::new();
    let len = decimal_len(number);
    let mut i: usize = len;
    while i < width
        invariant
            len <= i <= width || (len > width && i == len),
            len == decimal(number as nat).len(),
            s@ == Seq::new((i - len) as nat, |k: int| '0'),
        decreases width - i,
    {
        proof {
            reveal_strlit("0");
        }
        s.append("0");
        assert(s@ =~= Seq::new((i + 1 - len) as nat, |k: int| '0'));
        i = i + 1;
    }
    append_decimal(&mut s, number);
    s.append(suffix);
    s.append(".");
    s.append(extension);
    proof {
        let d = decimal(number as nat);
        if d.len() >= width {
            assert(Seq::new((i - len) as nat, |k: int| '0') =~= Seq::<char>::empty());
        }
        assert(s@ =~= page_name_text(number as nat, width as nat, suffix@, extension@));
    }
    s
}

/// The text of an optional string, the empty text for none.
pub open spec fn text_or_empty(o: Option<String>) -> Seq<char> {
    match o {
        Some(s) => s@,
        None => Seq::empty(),
    }
}

/// Whether an optional size holds `n`: none for zero.
pub open spec fn size_is(o: Option<NonZeroSize>, n: nat) -> bool {
    match o {
        None => n == 0,
        Some(z) => z.spec_get() == n,
    }
}

/// The entry that `ComicInfo.xml` gets for the page numbered `number`, an image of
/// `width` by `height` pixels with the kinds `types` and the bookmark `bookmark`:
/// kinds default to a story page; the page is a double spread when that is
/// detected and it is wider than high.
pub open spec fn is_recorded_page(
    p: ComicPageInfoView,
    number: usize,
    width: u32,
    height: u32,
    auto_double_page: bool,
    types: Seq<ComicPageType>,
    bookmark: Option<String>,
) -> bool {
    &&& p.image == number
    &&& p.type_ == (if types.len() == 0 {
        seq![ComicPageType::Story]
    } else {
        types
    })
    &&& p.double_page == (auto_double_page && width > height)
    &&& p.image_size == 0
    &&& p.key == Seq::<char>::empty()
    &&& p.bookmark == text_or_empty(bookmark)
    &&& size_is(p.image_width, width as nat)
    &&& size_is(p.image_height, height as nat)
}

/// What a writer keeps from page to page: the number of the next page, how pages
/// are named, and the `ComicInfo.xml` builder that records each page.
pub struct ComicBookWriterState {
    count: usize,
    suffix: Option<String>,
    width: usize,
    comicinfo_builder: Option<ComicInfoBuilder>,
    auto_double_page: bool,
}

impl ComicBookWriterState {
    /// The number of the next page.
    pub closed spec fn spec_count(&self) -> usize {
        self.count
    }

    /// The suffix of page names.
    pub closed spec fn spec_suffix(&self) -> Option<Seq<char>> {
        match self.suffix {
            Some(s) => Some(s@),
            None => None,
        }
    }

    /// The number of digits of page numbers in page names.
    pub closed spec fn spec_width(&self) -> usize {
        self.width
    }

    /// The `ComicInfo.xml` builder, if metadata is written.
    pub closed spec fn spec_comicinfo_builder(&self) -> Option<ComicInfoBuilder> {
        self.comicinfo_builder
    }

    /// Whether a page wider than high is recorded as a double spread.
    pub closed spec fn spec_auto_double_page(&self) -> bool {
        self.auto_double_page
    }

    /// The suffix of page names as text, empty when there is none.
    pub open spec fn spec_suffix_text(&self) -> Seq<char> {
        match self.spec_suffix() {
            Some(s) => s,
            None => Seq::empty(),
        }
    }

    /// A state before the first page: pages numbered from 1 on 4 digits, no suffix,
    /// no metadata, double spreads detected.
    pub fn new() -> (r: Self)
        ensures
            r.spec_count() == 1,
            r.spec_suffix() is None,
            r.spec_width() == 4,
            r.spec_comicinfo_builder() is None,
            r.spec_auto_double_page(),
    {
        ComicBookWriterState {
            count: 1,
            suffix: None,
            width: 4,
            comicinfo_builder: None,
            auto_double_page: true,
        }
    }

    /// Add a suffix to the page name.
    ///
    /// Please call this before adding any images to archive or your image archive "nomenclature" will break.
    pub fn suffix(self, suffix: String) -> (r: Self)
        ensures
            r.spec_suffix() == Some(suffix@),
            r.spec_count() == self.spec_count(),
            r.spec_width() == self.spec_width(),
            r.spec_comicinfo_builder() == self.spec_comicinfo_builder(),
            r.spec_auto_double_page() == self.spec_auto_double_page(),
    {
        ComicBookWriterState { suffix: Some(suffix), ..self }
    }

    /// Remove suffixes.
    pub fn no_suffix(self) -> (r: Self)
        ensures
            r.spec_suffix() is None,
            r.spec_count() == self.spec_count(),
            r.spec_width() == self.spec_width(),
            r.spec_comicinfo_builder() == self.spec_comicinfo_builder(),
            r.spec_auto_double_page() == self.spec_auto_double_page(),
    {
        ComicBookWriterState { suffix: None, ..self }
    }

    /// Set the number width for the page name, *aka the number length*.
    pub fn width(self, width: NonZeroSize) -> (r: Self)
        ensures
            r.spec_width() == width.spec_get(),
            r.spec_suffix() == self.spec_suffix(),
            r.spec_count() == self.spec_count(),
            r.spec_comicinfo_builder() == self.spec_comicinfo_builder(),
            r.spec_auto_double_page() == self.spec_auto_double_page(),
    {
        ComicBookWriterState { width: width.get(), ..self }
    }

    /// Whether pages wider than high are recorded as double spreads.
    pub fn auto_double_page(self, auto_double_page: bool) -> (r: Self)
        ensures
            r.spec_auto_double_page() == auto_double_page,
            r.spec_suffix() == self.spec_suffix(),
            r.spec_count() == self.spec_count(),
            r.spec_width() == self.spec_width(),
            r.spec_comicinfo_builder() == self.spec_comicinfo_builder(),
    {
        ComicBookWriterState { auto_double_page, ..self }
    }

    /// Set the `ComicInfo.xml` builder, which records each page and is written at the end.
    pub fn set_comicinfo_builder(self, builder: ComicInfoBuilder) -> (r: Self)
        ensures
            r.spec_comicinfo_builder() == Some(builder),
            r.spec_suffix() == self.spec_suffix(),
            r.spec_count() == self.spec_count(),
            r.spec_width() == self.spec_width(),
            r.spec_auto_double_page() == self.spec_auto_double_page(),
    {
        ComicBookWriterState { comicinfo_builder: Some(builder), ..self }
    }

    /// Take the `ComicInfo.xml` builder out.
    pub fn take_comicinfo_builder(&mut self) -> (r: Option<ComicInfoBuilder>)
        ensures
            r == old(self).spec_comicinfo_builder(),
            final(self).spec_comicinfo_builder() is None,
            final(self).spec_suffix() == old(self).spec_suffix(),
            final(self).spec_count() == old(self).spec_count(),
            final(self).spec_width() == old(self).spec_width(),
            final(self).spec_auto_double_page() == old(self).spec_auto_double_page(),
    {
        self.comicinfo_builder.take()
    }

    /// Remove the `ComicInfo.xml` builder.
    pub fn unset_comicinfo_builder(self) -> (r: Self)
        ensures
            r.spec_comicinfo_builder() is None,
            r.spec_suffix() == self.spec_suffix(),
            r.spec_count() == self.spec_count(),
            r.spec_width() == self.spec_width(),
            r.spec_auto_double_page() == self.spec_auto_double_page(),
    {
        let mut s = self;
        let _ = s.take_comicinfo_builder();
        s
    }

    /// Get the current `ComicInfo.xml` builder.
    pub fn get_comicinfo_builder(&self) -> (r: Option<&ComicInfoBuilder>)
        ensures
            match self.spec_comicinfo_builder() {
                Some(b) => r == Some(&b),
                None => r is None,
            },
    {
        self.comicinfo_builder.as_ref()
    }

    /// The number of the next page.
    pub fn count(&self) -> (r: usize)
        ensures
            r == self.spec_count(),
    {
        self.count
    }

    /// The name of the next page, with the file extension `extension`.
    pub fn next_page_name(&self, extension: &str) -> (r: String)
        ensures
            r@ == page_name_text(
                self.spec_count() as nat,
                self.spec_width() as nat,
                self.spec_suffix_text(),
                extension@,
            ),
    {
        let suffix: &str = match &self.suffix {
            Some(s) => s.as_str(),
            None => "",
        };
        proof {
            reveal_strlit("");
        }
        page_name(self.count, self.width, suffix, extension)
    }

    /// Whether `after` is this state once the next page was recorded: an image of
    /// `width` by `height` pixels, with the kinds `page_type` and `bookmark`.
    pub open spec fn records_page(
        self,
        after: Self,
        width: u32,
        height: u32,
        page_type: Seq<ComicPageType>,
        bookmark: Option<String>,
    ) -> bool {
        &&& after.spec_count() == self.spec_count() + 1
        &&& after.spec_suffix() == self.spec_suffix()
        &&& after.spec_width() == self.spec_width()
        &&& after.spec_auto_double_page() == self.spec_auto_double_page()
        &&& match self.spec_comicinfo_builder() {
                None => after.spec_comicinfo_builder() is None,
                Some(before) => after.spec_comicinfo_builder() matches Some(built) && {
                    &&& built == (ComicInfoBuilder { pages: built.pages, ..before })
                    &&& built.pages matches Some(pages) && {
                        let old_pages = match before.pages {
                            Some(v) => pages_view(v@),
                            None => Seq::empty(),
                        };
                        &&& pages_view(pages@).len() == old_pages.len() + 1
                        &&& pages_view(pages@).drop_last() == old_pages
                        &&& is_recorded_page(
                            pages_view(pages@).last(),
                            self.spec_count(),
                            width,
                            height,
                            self.spec_auto_double_page(),
                            page_type,
                            bookmark,
                        )
                    }
                },
            }
    }

    /// Records that the next page was written: an image of `width` by `height`
    /// pixels, with the kinds `page_type` (none for the default) and `bookmark`.
    /// The metadata builder, if any, gets the page's entry; the next page gets the
    /// following number.
    pub fn record_page(
        &mut self,
        width: u32,
        height: u32,
        page_type: Vec<ComicPageType>,
        bookmark: Option<String>,
    )
        requires
            old(self).spec_count() < usize::MAX,
        ensures
            old(self).records_page(*final(self), width, height, page_type@, bookmark),
    {
        if self.comicinfo_builder.is_some() {
            let mut page = ComicPageInfoBuilder::create_empty();
            page.image(self.count).image_height(NonZeroSize::new(height as usize)).image_width(
                NonZeroSize::new(width as usize),
            );
            if self.auto_double_page {
                page.double_page(width > height);
            }
            match bookmark {
                Some(b) => {
                    page.bookmark(b);
                },
                None => {},
            }
            if page_type.len() != 0 {
                page.type_(page_type);
            }
            let built = page.build();
            match built {
                Ok(info) => {
                    let mut b = self.comicinfo_builder.take().unwrap();
                    let ghost before = b;
                    b.add_page(info);
                    proof {
                        let old_pages = match before.pages {
                            Some(v) => pages_view(v@),
                            None => Seq::<ComicPageInfoView>::empty(),
                        };
                        let pages = b.pages.unwrap();
                        assert(pages_view(pages@).drop_last() =~= old_pages);
                    }
                    self.comicinfo_builder = Some(b);
                },
                Err(_) => {},
            }
        }
        self.count = self.count + 1;
    }

    /// Ends the addition of the next page once writing it to the archive was tried:
    /// when that succeeded (`written` is `Ok`), the page is recorded as by
    /// [`Self::record_page`]; when it failed, nothing changes, so the next page
    /// written gets the same number, and the error is handed back.
    pub fn complete_page<E>(
        &mut self,
        written: Result<(), E>,
        width: u32,
        height: u32,
        page_type: Vec<ComicPageType>,
        bookmark: Option<String>,
    ) -> (r: Result<(), E>)
        requires
            written is Ok ==> old(self).spec_count() < usize::MAX,
        ensures
            r == written,
            written is Ok ==> old(self).records_page(*final(self), width, height, page_type@, bookmark),
            written is Err ==> *final(self) == *old(self),
    {
        if written.is_ok() {
            self.record_page(width, height, page_type, bookmark);
        }
        written
    }

    /// Takes the `ComicInfo.xml` builder out and builds the metadata to write at
    /// the end; none when there is no builder.
    pub fn finish_comicinfo(&mut self) -> (r: Option<ComicInfo>)
        ensures
            match old(self).spec_comicinfo_builder() {
                None => r is None,
                Some(b) => r matches Some(info) && built_comic_info(b, info),
            },
            final(self).spec_comicinfo_builder() is None,
            final(self).spec_count() == old(self).spec_count(),
            final(self).spec_suffix() == old(self).spec_suffix(),
            final(self).spec_width() == old(self).spec_width(),
            final(self).spec_auto_double_page() == old(self).spec_auto_double_page(),
    {
        match self.comicinfo_builder.take() {
            Some(b) => match b.build() {
                Ok(info) => Some(info),
                Err(_) => None,
            },
            None => None,
        }
    }
}

/// Recording a page appends one entry to the metadata and keeps what the page was
/// given: its number is the number of the page, its kinds are those given (a
/// story page when none are), its bookmark is the one given whatever kinds are
/// given (empty only when none is), it is a double spread exactly when detection
/// is on and the image is wider than high, and its width and height are the
/// image's (none only for a zero). The pages recorded before stay as they were.
pub proof fn law_recorded_page_keeps_what_it_was_given(
    before: ComicBookWriterState,
    after: ComicBookWriterState,
    width: u32,
    height: u32,
    page_type: Seq<ComicPageType>,
    bookmark: Option<String>,
)
    requires
        before.records_page(after, width, height, page_type, bookmark),
    ensures
        after.spec_count() == before.spec_count() + 1,
        before.spec_comicinfo_builder() is None ==> after.spec_comicinfo_builder() is None,
        before.spec_comicinfo_builder() matches Some(b0) ==> (after.spec_comicinfo_builder() matches Some(
            b1,
        ) && b1.pages matches Some(ps) && {
            let old_pages: Seq<ComicPageInfo> = match b0.pages {
                Some(v) => v@,
                None => Seq::empty(),
            };
            &&& ps@.len() == old_pages.len() + 1
            &&& forall|i: int| 0 <= i < old_pages.len() ==> #[trigger] ps@[i]@ == old_pages[i]@
            &&& ps@.last().image == before.spec_count()
            &&& ps@.last().bookmark@ == (match bookmark {
                Some(s) => s@,
                None => Seq::<char>::empty(),
            })
            &&& (page_type.len() == 0 ==> ps@.last().type_@ == seq![ComicPageType::Story])
            &&& (page_type.len() > 0 ==> ps@.last().type_@ == page_type)
            &&& ps@.last().double_page == (before.spec_auto_double_page() && width > height)
            &&& (ps@.last().image_width matches Some(w) ==> w.spec_get() == width)
            &&& (ps@.last().image_width is None ==> width == 0)
            &&& (ps@.last().image_height matches Some(h) ==> h.spec_get() == height)
            &&& (ps@.last().image_height is None ==> height == 0)
        }),
{
    if let Some(b0) = before.spec_comicinfo_builder() {
        let b1 = after.spec_comicinfo_builder().unwrap();
        let ps = b1.pages.unwrap();
        let old_pages: Seq<ComicPageInfo> = match b0.pages {
            Some(v) => v@,
            None => Seq::empty(),
        };
        assert(pages_view(ps@).len() == ps@.len());
        assert(pages_view(ps@).last() == ps@.last()@);
        assert forall|i: int| 0 <= i < old_pages.len() implies #[trigger] ps@[i]@ == old_pages[i]@ by {
            assert(pages_view(ps@).drop_last()[i] == pages_view(ps@)[i]);
            assert(pages_view(old_pages)[i] == old_pages[i]@);
        }
    }
}

/// The number that decimal digits spell, most significant first.
pub open spec fn digits_value(d: Seq<char>) -> nat
    decreases d.len(),
{
    if d.len() == 0 {
        0
    } else {
        digits_value(d.drop_last()) * 10 + ((d.last() as nat) - 48) as nat
    }
}

proof fn lemma_decimal_value(n: nat)
    ensures
        digits_value(decimal(n)) == n,
        forall|i: int| 0 <= i < decimal(n).len() ==> 48 <= (#[trigger] decimal(n)[i]) as nat <= 57,
        decimal(n).len() >= 1,
        n > 0 ==> decimal(n)[0] != '0',
    decreases n,
{
    let c = digit_char(n % 10);
    assert(c as nat == 48 + n % 10);
    if n < 10 {
        assert(decimal(n).drop_last() =~= Seq::<char>::empty());
        assert(digits_value(decimal(n)) == digits_value(Seq::<char>::empty()) * 10 + ((c as nat) - 48) as nat);
    } else {
        lemma_decimal_value(n / 10);
        let d = decimal(n / 10);
        assert(decimal(n).last() == c);
        assert(n / 10 * 10 + n % 10 == n);
        assert(decimal(n).drop_last() =~= d);
        assert(digits_value(decimal(n)) == digits_value(d) * 10 + ((c as nat) - 48) as nat);
        assert forall|i: int| 0 <= i < decimal(n).len() implies 48 <= (#[trigger] decimal(n)[i]) as nat <= 57 by {
            if i < d.len() {
                assert(decimal(n)[i] == d[i]);
            }
        }
        assert(decimal(n)[0] == d[0]);
    }
}

proof fn lemma_zeros_value(z: Seq<char>, s: Seq<char>)
    requires
        forall|i: int| 0 <= i < z.len() ==> #[trigger] z[i] == '0',
    ensures
        digits_value(z + s) == digits_value(s),
    decreases z.len() + s.len(),
{
    if s.len() > 0 {
        lemma_zeros_value(z, s.drop_last());
        assert((z + s).drop_last() =~= z + s.drop_last());
    } else {
        assert(z + s =~= z);
        if z.len() > 0 {
            lemma_zeros_value(z.drop_last(), s);
            assert(z.drop_last() + s =~= z.drop_last());
        }
    }
}

/// A page name is the page number in decimal digits, padded with zeros in front
/// up to the width and never cut, then the suffix, a dot and the extension: the
/// digits come first and spell the number, there are at least `width` of them, and
/// beyond the width there is no leading zero.
pub proof fn law_page_name_is_number_then_suffix(
    number: usize,
    width: usize,
    suffix: &str,
    extension: &str,
    r: String,
)
    requires
        call_ensures(page_name, (number, width, suffix, extension), r),
    ensures
        exists|d: Seq<char>|
            {
                &&& r@ == d + suffix@ + "."@ + extension@
                &&& d.len() >= width
                &&& d.len() >= 1
                &&& forall|i: int| 0 <= i < d.len() ==> 48 <= (#[trigger] d[i]) as nat <= 57
                &&& digits_value(d) == number
                &&& (d.len() > width && d.len() > 1 ==> d[0] != '0')
            },
{
    let dec = decimal(number as nat);
    lemma_decimal_value(number as nat);
    let d = zero_padded(dec, width as nat);
    if dec.len() < width {
        let z = Seq::new((width - dec.len()) as nat, |i: int| '0');
        lemma_zeros_value(z, dec);
        assert forall|i: int| 0 <= i < d.len() implies 48 <= (#[trigger] d[i]) as nat <= 57 by {
            if i >= z.len() {
                assert(d[i] == dec[i - z.len()]);
            }
        }
    } else {
        if number == 0 {
            assert(dec =~= seq!['0']);
        }
    }
    assert(r@ == d + suffix@ + "."@ + extension@);
}

} // verus!
