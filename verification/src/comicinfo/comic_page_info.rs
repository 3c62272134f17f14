//! `ComicPageInfo` of `ComicInfo.xml`: describes each page of the book.
use vstd::prelude::*;
use crate::comicinfo::comic_page_type::ComicPageType;

verus! {

/// A size that is not zero: the library's own counterpart of
/// `std::num::NonZeroUsize`, with that invariant.
#[derive(Debug, Clone, Copy, PartialEq, Eq, Structural, Hash)]
pub struct NonZeroSize {
    value: usize,
}

impl NonZeroSize {
    #[verifier::type_invariant]
    spec fn not_zero(self) -> bool {
        self.value != 0
    }

    /// The size held.
    pub closed spec fn spec_get(self) -> usize {
        self.value
    }

    /// The size `n`, or `None` when `n` is zero.
    pub fn new(n: usize) -> (r: Option<NonZeroSize>)
        ensures
            r is Some <==> n != 0,
            r matches Some(z) ==> z.spec_get() == n,
    {
        if n == 0 {
            None
        } else {
            Some(NonZeroSize { value: n })
        }
    }

    /// The size held, which is not zero.
    pub fn get(&self) -> (r: usize)
        ensures
            r == self.spec_get(),
            r != 0,
    {
        proof {
            use_type_invariant(self);
        }
        self.value
    }
}

/// Describes each page of the book.
#[derive(Debug, PartialEq, Eq, Hash)]
#[non_exhaustive]
pub struct ComicPageInfo {
    /// Page number.
    pub image: usize,
    /// Type of the page
    pub type_: Vec<ComicPageType>,
    /// Whether the page is a double spread.
    pub double_page: bool,
    /// File size of the image, supposedly in bytes.
    pub image_size: usize,
    pub key: String,
    /// ComicRack uses this field when adding a bookmark in a book.
    pub bookmark: String,
    /// Width of the image in pixels.
    pub image_width: Option<NonZeroSize>,
    /// Height of the image in pixels.
    pub image_height: Option<NonZeroSize>,
}

/// The value of a [`ComicPageInfo`], with its texts and lists as sequences.
pub struct ComicPageInfoView {
    pub image: usize,
    pub type_: Seq<ComicPageType>,
    pub double_page: bool,
    pub image_size: usize,
    pub key: Seq<char>,
    pub bookmark: Seq<char>,
    pub image_width: Option<NonZeroSize>,
    pub image_height: Option<NonZeroSize>,
}

impl View for ComicPageInfo {
    type V = ComicPageInfoView;

    open spec fn view(&self) -> ComicPageInfoView {
        ComicPageInfoView {
            image: self.image,
            type_: self.type_@,
            double_page: self.double_page,
            image_size: self.image_size,
            key: self.key@,
            bookmark: self.bookmark@,
            image_width: self.image_width,
            image_height: self.image_height,
        }
    }
}

impl Clone for ComicPageInfo {
    fn clone(&self) -> (r: Self)
        ensures
            r@ == self@,
    {
        let types = self.type_.clone();
        assert(types@ =~= self.type_@);
        ComicPageInfo {
            image: self.image,
            type_: types,
            double_page: self.double_page,
            image_size: self.image_size,
            key: self.key.clone(),
            bookmark: self.bookmark.clone(),
            image_width: self.image_width,
            image_height: self.image_height,
        }
    }
}

/// The kinds that a page has when none is given: a story page.
pub fn default_types() -> (r: Vec<ComicPageType>)
    ensures
        r@ == seq![ComicPageType::Story],
{
    let r = vec![ComicPageType::Story];
    assert(r@ =~= seq![ComicPageType::Story]);
    r
}

/// Error of [`ComicPageInfoBuilder::build`].
#[derive(Debug)]
#[non_exhaustive]
pub enum ComicPageInfoBuilderError {
    /// A field with no default was not set; its name.
    UninitializedField(&'static str),
    /// A value was refused.
    ValidationError(String),
}

/// Builder for [`ComicPageInfo`]: each field is `None` until it is set.
#[derive(Clone)]
pub struct ComicPageInfoBuilder {
    pub image: Option<usize>,
    pub type_: Option<Vec<ComicPageType>>,
    pub double_page: Option<bool>,
    pub image_size: Option<usize>,
    pub key: Option<String>,
    pub bookmark: Option<String>,
    pub image_width: Option<Option<NonZeroSize>>,
    pub image_height: Option<Option<NonZeroSize>>,
}

/// The value of a field: the one set, else `default`.
pub open spec fn set_or<T>(field: Option<T>, default: T) -> T {
    match field {
        Some(v) => v,
        None => default,
    }
}

/// The text of a field: the one set, else the empty text.
pub open spec fn text_or_empty(field: Option<String>) -> Seq<char> {
    match field {
        Some(v) => v@,
        None => Seq::empty(),
    }
}

/// What building gives: every field that was set, the defaults for the others;
/// `image` has no default.
pub open spec fn built_page_info(b: ComicPageInfoBuilder, r: Result<ComicPageInfo, ComicPageInfoBuilderError>) -> bool {
    match b.image {
        None => r matches Err(ComicPageInfoBuilderError::UninitializedField(name)) && name@ == "image"@,
        Some(image) => r matches Ok(p) && p@ == (ComicPageInfoView {
            image: image,
            type_: match b.type_ {
                Some(v) => v@,
                None => seq![ComicPageType::Story],
            },
            double_page: set_or(b.double_page, false),
            image_size: set_or(b.image_size, 0usize),
            key: text_or_empty(b.key),
            bookmark: text_or_empty(b.bookmark),
            image_width: set_or(b.image_width, None),
            image_height: set_or(b.image_height, None),
        }),
    }
}

impl Default for ComicPageInfoBuilder {
    fn default() -> (r: Self)
        ensures
            r == ComicPageInfoBuilder::empty(),
    {
        ComicPageInfoBuilder::create_empty()
    }
}

impl ComicPageInfoBuilder {
    /// A builder with no field set.
    pub open spec fn empty() -> ComicPageInfoBuilder {
        ComicPageInfoBuilder {
            image: None,
            type_: None,
            double_page: None,
            image_size: None,
            key: None,
            bookmark: None,
            image_width: None,
            image_height: None,
        }
    }

    /// A builder with no field set.
    pub fn create_empty() -> (r: Self)
        ensures
            r == ComicPageInfoBuilder::empty(),
    {
        ComicPageInfoBuilder {
            image: None,
            type_: None,
            double_page: None,
            image_size: None,
            key: None,
            bookmark: None,
            image_width: None,
            image_height: None,
        }
    }

    pub fn image(&mut self, value: usize) -> (r: &mut Self)
        ensures
            *r == (ComicPageInfoBuilder { image: Some(value), ..*old(self) }),
            *final(self) == *final(r),
    {
        self.image = Some(value);
        self
    }

    /// Sets the kinds of the page, replacing any set before.
    pub fn type_(&mut self, value: Vec<ComicPageType>) -> (r: &mut Self)
        ensures
            *r == (ComicPageInfoBuilder { type_: Some(value), ..*old(self) }),
            *final(self) == *final(r),
    {
        self.type_ = Some(value);
        self
    }

    /// Adds a kind to the page: to those set so far, or to none (not to the default).
    pub fn add_type(&mut self, item: ComicPageType) -> (r: &mut Self)
        ensures
            r.type_ matches Some(v) && v@ == (match old(self).type_ {
                Some(w) => w@,
                None => Seq::empty(),
            }).push(item),
            *r == (ComicPageInfoBuilder { type_: r.type_, ..*old(self) }),
            *final(self) == *final(r),
    {
        match self.type_.take() {
            Some(mut v) => {
                v.push(item);
                self.type_ = Some(v);
            },
            None => {
                let mut v: Vec<ComicPageType> = Vec::new();
                v.push(item);
                self.type_ = Some(v);
            },
        }
        self
    }

    pub fn double_page(&mut self, value: bool) -> (r: &mut Self)
        ensures
            *r == (ComicPageInfoBuilder { double_page: Some(value), ..*old(self) }),
            *final(self) == *final(r),
    {
        self.double_page = Some(value);
        self
    }

    pub fn image_size(&mut self, value: usize) -> (r: &mut Self)
        ensures
            *r == (ComicPageInfoBuilder { image_size: Some(value), ..*old(self) }),
            *final(self) == *final(r),
    {
        self.image_size = Some(value);
        self
    }

    pub fn key(&mut self, value: String) -> (r: &mut Self)
        ensures
            *r == (ComicPageInfoBuilder { key: Some(value), ..*old(self) }),
            *final(self) == *final(r),
    {
        self.key = Some(value);
        self
    }

    pub fn bookmark(&mut self, value: String) -> (r: &mut Self)
        ensures
            *r == (ComicPageInfoBuilder { bookmark: Some(value), ..*old(self) }),
            *final(self) == *final(r),
    {
        self.bookmark = Some(value);
        self
    }

    pub fn image_width(&mut self, value: Option<NonZeroSize>) -> (r: &mut Self)
        ensures
            *r == (ComicPageInfoBuilder { image_width: Some(value), ..*old(self) }),
            *final(self) == *final(r),
    {
        self.image_width = Some(value);
        self
    }

    pub fn image_height(&mut self, value: Option<NonZeroSize>) -> (r: &mut Self)
        ensures
            *r == (ComicPageInfoBuilder { image_height: Some(value), ..*old(self) }),
            *final(self) == *final(r),
    {
        self.image_height = Some(value);
        self
    }

    /// Builds the page: each field as set, else its default (`[Story]`, `false`,
    /// `0`, empty texts, no sizes); an unset `image` is an error.
    pub fn build(&self) -> (r: Result<ComicPageInfo, ComicPageInfoBuilderError>)
        ensures
            built_page_info(*self, r),
    {
        let image = match self.image {
            Some(v) => v,
            None => {
                return Err(ComicPageInfoBuilderError::UninitializedField("image"));
            },
        };
        let type_ = match &self.type_ {
            Some(v) => {
                let c = v.clone();
                assert(c@ =~= v@);
                c
            },
            None => default_types(),
        };
        let double_page = match self.double_page {
            Some(v) => v,
            None => false,
        };
        let image_size = match self.image_size {
            Some(v) => v,
            None => 0,
        };
        let key = match &self.key {
            Some(v) => v.clone(),
            None => String::new(),
        };
        let bookmark = match &self.bookmark {
            Some(v) => v.clone(),
            None => String::new(),
        };
        let image_width = match self.image_width {
            Some(v) => v,
            None => None,
        };
        let image_height = match self.image_height {
            Some(v) => v,
            None => None,
        };
        Ok(ComicPageInfo {
            image,
            type_,
            double_page,
            image_size,
            key,
            bookmark,
            image_width,
            image_height,
        })
    }
}

impl ComicPageInfo {
    /// A builder with no field set.
    pub fn builder() -> (r: ComicPageInfoBuilder)
        ensures
            r == ComicPageInfoBuilder::empty(),
    {
        ComicPageInfoBuilder::default()
    }
}

} // verus!
