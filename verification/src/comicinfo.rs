//! [`ComicInfo.xml`](https://github.com/anansi-project/comicinfo) metadata.
//!
//! This follows the schema of the `anansi-project`, in its versions 2.0 and 2.1.
use vstd::prelude::*;
use crate::path::opt_text;
use crate::comicinfo::{
    age_rating::AgeRating,
    comic_page_info::{ComicPageInfo, ComicPageInfoView},
    manga::Manga,
    rating::Rating,
    yes_no::YesNo,
};

pub mod age_rating;
pub mod comic_page_info;
pub mod comic_page_type;
pub mod manga;
pub mod rating;
pub mod yes_no;

verus! {

#[verifier::external_type_specification]
#[verifier::external_body]
pub struct ExFromStrError(derive_more::FromStrError);

/// Calls `derive_more::FromStrError::new`, the error that `derive_more`'s derived
/// `FromStr` gives for a text that names no variant. Nothing is claimed of the
/// value: it records the name of the type for its message, which is left unstated.
#[verifier::external_body]
pub(crate) fn from_str_error(name: &'static str) -> derive_more::FromStrError {
    derive_more::FromStrError::new(name)
}

/// The name of the metadata file inside an archive.
pub const COMIC_INFO_XML: &'static str = "ComicInfo.xml";

/// The namespace `xmlns:xsi` that built metadata carries.
pub open spec fn xsi_namespace() -> Seq<char> {
    "http://www.w3.org/2001/XMLSchema-instance"@
}

/// The namespace `xmlns:xsd` that built metadata carries.
pub open spec fn xsd_namespace() -> Seq<char> {
    "http://www.w3.org/2001/XMLSchema"@
}

/// The `xmlns:xsi` namespace that the builder gives.
pub fn default_xsi() -> (r: Option<String>)
    ensures
        r matches Some(s) && s@ == xsi_namespace(),
{
    Some("http://www.w3.org/2001/XMLSchema-instance".to_owned())
}

/// The `xmlns:xsd` namespace that the builder gives.
pub fn default_xsd() -> (r: Option<String>)
    ensures
        r matches Some(s) && s@ == xsd_namespace(),
{
    Some("http://www.w3.org/2001/XMLSchema".to_owned())
}

/// The views of a list of pages.
pub open spec fn pages_view(pages: Seq<ComicPageInfo>) -> Seq<ComicPageInfoView> {
    pages.map_values(|p: ComicPageInfo| p@)
}

/// The XML namespaces of a document: set when it is built or read, not by hand.
#[derive(Debug, Clone, PartialEq)]
pub struct XmlNamespaces {
    xsi: Option<String>,
    xsd: Option<String>,
}

impl XmlNamespaces {
    /// The `xmlns:xsi` namespace.
    pub closed spec fn spec_xsi(&self) -> Option<Seq<char>> {
        opt_text(self.xsi)
    }

    /// The `xmlns:xsd` namespace.
    pub closed spec fn spec_xsd(&self) -> Option<Seq<char>> {
        opt_text(self.xsd)
    }
}

/// The `ComicInfo` complex type of the schema (draft 2.1).
#[derive(Debug, Clone, PartialEq)]
#[non_exhaustive]
pub struct ComicInfo {
    /// The XML namespaces of the document; read them with [`ComicInfo::xmlns_xsi`]
    /// and [`ComicInfo::xmlns_xsd`].
    pub xmlns: XmlNamespaces,
    pub title: Option<String>,
    pub series: Option<String>,
    pub number: Option<String>,
    pub count: Option<usize>,
    pub volume: Option<usize>,
    pub alternate_series: Option<String>,
    pub alternate_number: Option<String>,
    pub alternate_count: Option<usize>,
    pub summary: Option<String>,
    pub notes: Option<String>,
    pub year: Option<usize>,
    pub month: Option<usize>,
    pub day: Option<usize>,
    pub writer: Option<String>,
    pub inker: Option<String>,
    pub colorist: Option<String>,
    pub letterer: Option<String>,
    pub cover_artist: Option<String>,
    pub editor: Option<String>,
    pub translator: Option<String>,
    pub publisher: Option<String>,
    pub imprint: Option<String>,
    pub genre: Option<String>,
    pub tags: Option<String>,
    /// Web address of the book.
    pub web: Option<String>,
    pub page_count: Option<usize>,
    /// Language of the book, as an ISO code.
    pub language_iso: Option<String>,
    pub format: Option<String>,
    pub black_and_white: Option<YesNo>,
    pub manga: Option<Manga>,
    pub characters: Option<String>,
    pub teams: Option<String>,
    pub locations: Option<String>,
    pub scan_information: Option<String>,
    pub story_arc: Option<String>,
    /// Number of the book in its story arc.
    pub story_ard_number: Option<String>,
    pub series_group: Option<String>,
    pub age_rating: Option<AgeRating>,
    pub pages: Vec<ComicPageInfo>,
    pub community_rating: Option<Rating>,
    pub main_character_or_team: Option<String>,
    pub review: Option<String>,
    /// Global Trade Item Number of the book.
    pub gtin: Option<String>,
}

impl Default for ComicInfo {
    /// Metadata with no field set, and no namespaces.
    fn default() -> (r: Self)
        ensures
            r.spec_xmlns_xsi() is None,
            r.spec_xmlns_xsd() is None,
            r.pages@.len() == 0,
            r.title is None,
            r.series is None,
            r.number is None,
            r.count is None,
            r.volume is None,
            r.alternate_series is None,
            r.alternate_number is None,
            r.alternate_count is None,
            r.summary is None,
            r.notes is None,
            r.year is None,
            r.month is None,
            r.day is None,
            r.writer is None,
            r.inker is None,
            r.colorist is None,
            r.letterer is None,
            r.cover_artist is None,
            r.editor is None,
            r.translator is None,
            r.publisher is None,
            r.imprint is None,
            r.genre is None,
            r.tags is None,
            r.web is None,
            r.page_count is None,
            r.language_iso is None,
            r.format is None,
            r.black_and_white is None,
            r.manga is None,
            r.characters is None,
            r.teams is None,
            r.locations is None,
            r.scan_information is None,
            r.story_arc is None,
            r.story_ard_number is None,
            r.series_group is None,
            r.age_rating is None,
            r.community_rating is None,
            r.main_character_or_team is None,
            r.review is None,
            r.gtin is None,
    {
        ComicInfo {
            xmlns: XmlNamespaces { xsi: None, xsd: None },
            title: None,
            series: None,
            number: None,
            count: None,
            volume: None,
            alternate_series: None,
            alternate_number: None,
            alternate_count: None,
            summary: None,
            notes: None,
            year: None,
            month: None,
            day: None,
            writer: None,
            inker: None,
            colorist: None,
            letterer: None,
            cover_artist: None,
            editor: None,
            translator: None,
            publisher: None,
            imprint: None,
            genre: None,
            tags: None,
            web: None,
            page_count: None,
            language_iso: None,
            format: None,
            black_and_white: None,
            manga: None,
            characters: None,
            teams: None,
            locations: None,
            scan_information: None,
            story_arc: None,
            story_ard_number: None,
            series_group: None,
            age_rating: None,
            pages: Vec::new(),
            community_rating: None,
            main_character_or_team: None,
            review: None,
            gtin: None,
        }
    }
}

impl ComicInfo {
    /// The `xmlns:xsi` namespace.
    pub open spec fn spec_xmlns_xsi(&self) -> Option<Seq<char>> {
        self.xmlns.spec_xsi()
    }

    /// The `xmlns:xsd` namespace.
    pub open spec fn spec_xmlns_xsd(&self) -> Option<Seq<char>> {
        self.xmlns.spec_xsd()
    }

    /// Get the the xmlns
    pub fn xmlns_xsi(&self) -> (r: Option<&str>)
        ensures
            opt_str_text(r) == self.spec_xmlns_xsi(),
    {
        match &self.xmlns.xsi {
            Some(s) => Some(s.as_str()),
            None => None,
        }
    }

    pub fn xmlns_xsd(&self) -> (r: Option<&str>)
        ensures
            opt_str_text(r) == self.spec_xmlns_xsd(),
    {
        match &self.xmlns.xsd {
            Some(s) => Some(s.as_str()),
            None => None,
        }
    }

    /// Sets both namespaces, as a document that is read gives them.
    pub fn set_xmlns(&mut self, xsi: Option<String>, xsd: Option<String>)
        ensures
            final(self).spec_xmlns_xsi() == opt_text(xsi),
            final(self).spec_xmlns_xsd() == opt_text(xsd),
            final(self).pages == old(self).pages,
            final(self).title == old(self).title,
            final(self).series == old(self).series,
            final(self).number == old(self).number,
            final(self).count == old(self).count,
            final(self).volume == old(self).volume,
            final(self).alternate_series == old(self).alternate_series,
            final(self).alternate_number == old(self).alternate_number,
            final(self).alternate_count == old(self).alternate_count,
            final(self).summary == old(self).summary,
            final(self).notes == old(self).notes,
            final(self).year == old(self).year,
            final(self).month == old(self).month,
            final(self).day == old(self).day,
            final(self).writer == old(self).writer,
            final(self).inker == old(self).inker,
            final(self).colorist == old(self).colorist,
            final(self).letterer == old(self).letterer,
            final(self).cover_artist == old(self).cover_artist,
            final(self).editor == old(self).editor,
            final(self).translator == old(self).translator,
            final(self).publisher == old(self).publisher,
            final(self).imprint == old(self).imprint,
            final(self).genre == old(self).genre,
            final(self).tags == old(self).tags,
            final(self).web == old(self).web,
            final(self).page_count == old(self).page_count,
            final(self).language_iso == old(self).language_iso,
            final(self).format == old(self).format,
            final(self).black_and_white == old(self).black_and_white,
            final(self).manga == old(self).manga,
            final(self).characters == old(self).characters,
            final(self).teams == old(self).teams,
            final(self).locations == old(self).locations,
            final(self).scan_information == old(self).scan_information,
            final(self).story_arc == old(self).story_arc,
            final(self).story_ard_number == old(self).story_ard_number,
            final(self).series_group == old(self).series_group,
            final(self).age_rating == old(self).age_rating,
            final(self).community_rating == old(self).community_rating,
            final(self).main_character_or_team == old(self).main_character_or_team,
            final(self).review == old(self).review,
            final(self).gtin == old(self).gtin,
    {
        self.xmlns = XmlNamespaces { xsi, xsd };
    }
}

/// The text of an optional string slice.
pub open spec fn opt_str_text(o: Option<&str>) -> Option<Seq<char>> {
    match o {
        Some(s) => Some(s@),
        None => None,
    }
}

/// Error of [`ComicInfoBuilder::build`].
#[derive(Debug)]
#[non_exhaustive]
pub enum ComicInfoBuilderError {
    /// A field with no default was not set; its name.
    UninitializedField(&'static str),
    /// A value was refused.
    ValidationError(String),
}

/// Builder for [`ComicInfo`]: each field is `None` until it is set; the
/// namespaces cannot be set.
#[derive(Clone)]
pub struct ComicInfoBuilder {
    pub title: Option<Option<String>>,
    pub series: Option<Option<String>>,
    pub number: Option<Option<String>>,
    pub count: Option<Option<usize>>,
    pub volume: Option<Option<usize>>,
    pub alternate_series: Option<Option<String>>,
    pub alternate_number: Option<Option<String>>,
    pub alternate_count: Option<Option<usize>>,
    pub summary: Option<Option<String>>,
    pub notes: Option<Option<String>>,
    pub year: Option<Option<usize>>,
    pub month: Option<Option<usize>>,
    pub day: Option<Option<usize>>,
    pub writer: Option<Option<String>>,
    pub inker: Option<Option<String>>,
    pub colorist: Option<Option<String>>,
    pub letterer: Option<Option<String>>,
    pub cover_artist: Option<Option<String>>,
    pub editor: Option<Option<String>>,
    pub translator: Option<Option<String>>,
    pub publisher: Option<Option<String>>,
    pub imprint: Option<Option<String>>,
    pub genre: Option<Option<String>>,
    pub tags: Option<Option<String>>,
    pub web: Option<Option<String>>,
    pub page_count: Option<Option<usize>>,
    pub language_iso: Option<Option<String>>,
    pub format: Option<Option<String>>,
    pub black_and_white: Option<Option<YesNo>>,
    pub manga: Option<Option<Manga>>,
    pub characters: Option<Option<String>>,
    pub teams: Option<Option<String>>,
    pub locations: Option<Option<String>>,
    pub scan_information: Option<Option<String>>,
    pub story_arc: Option<Option<String>>,
    pub story_ard_number: Option<Option<String>>,
    pub series_group: Option<Option<String>>,
    pub age_rating: Option<Option<AgeRating>>,
    pub pages: Option<Vec<ComicPageInfo>>,
    pub community_rating: Option<Option<Rating>>,
    pub main_character_or_team: Option<Option<String>>,
    pub review: Option<Option<String>>,
    pub gtin: Option<Option<String>>,
}

/// The value of a field: the one set, else none.
pub open spec fn set_or_none<T>(field: Option<Option<T>>) -> Option<T> {
    match field {
        Some(v) => v,
        None => None,
    }
}

/// What building gives: the namespaces, every field that was set, and no value
/// (no pages) for the others.
pub open spec fn built_comic_info(b: ComicInfoBuilder, c: ComicInfo) -> bool {
    &&& c.spec_xmlns_xsi() == Some(xsi_namespace())
    &&& c.spec_xmlns_xsd() == Some(xsd_namespace())
    &&& pages_view(c.pages@) == (match b.pages {
        Some(v) => pages_view(v@),
        None => Seq::empty(),
    })
    &&& c.title == set_or_none(b.title)
    &&& c.series == set_or_none(b.series)
    &&& c.number == set_or_none(b.number)
    &&& c.count == set_or_none(b.count)
    &&& c.volume == set_or_none(b.volume)
    &&& c.alternate_series == set_or_none(b.alternate_series)
    &&& c.alternate_number == set_or_none(b.alternate_number)
    &&& c.alternate_count == set_or_none(b.alternate_count)
    &&& c.summary == set_or_none(b.summary)
    &&& c.notes == set_or_none(b.notes)
    &&& c.year == set_or_none(b.year)
    &&& c.month == set_or_none(b.month)
    &&& c.day == set_or_none(b.day)
    &&& c.writer == set_or_none(b.writer)
    &&& c.inker == set_or_none(b.inker)
    &&& c.colorist == set_or_none(b.colorist)
    &&& c.letterer == set_or_none(b.letterer)
    &&& c.cover_artist == set_or_none(b.cover_artist)
    &&& c.editor == set_or_none(b.editor)
    &&& c.translator == set_or_none(b.translator)
    &&& c.publisher == set_or_none(b.publisher)
    &&& c.imprint == set_or_none(b.imprint)
    &&& c.genre == set_or_none(b.genre)
    &&& c.tags == set_or_none(b.tags)
    &&& c.web == set_or_none(b.web)
    &&& c.page_count == set_or_none(b.page_count)
    &&& c.language_iso == set_or_none(b.language_iso)
    &&& c.format == set_or_none(b.format)
    &&& c.black_and_white == set_or_none(b.black_and_white)
    &&& c.manga == set_or_none(b.manga)
    &&& c.characters == set_or_none(b.characters)
    &&& c.teams == set_or_none(b.teams)
    &&& c.locations == set_or_none(b.locations)
    &&& c.scan_information == set_or_none(b.scan_information)
    &&& c.story_arc == set_or_none(b.story_arc)
    &&& c.story_ard_number == set_or_none(b.story_ard_number)
    &&& c.series_group == set_or_none(b.series_group)
    &&& c.age_rating == set_or_none(b.age_rating)
    &&& c.community_rating == set_or_none(b.community_rating)
    &&& c.main_character_or_team == set_or_none(b.main_character_or_team)
    &&& c.review == set_or_none(b.review)
    &&& c.gtin == set_or_none(b.gtin)
}

impl Default for ComicInfoBuilder {
    fn default() -> (r: Self)
        ensures
            r == ComicInfoBuilder::empty(),
    {
        ComicInfoBuilder::create_empty()
    }
}

impl ComicInfoBuilder {
    /// A builder with no field set.
    pub open spec fn empty() -> ComicInfoBuilder {
        ComicInfoBuilder {
            title: None,
            series: None,
            number: None,
            count: None,
            volume: None,
            alternate_series: None,
            alternate_number: None,
            alternate_count: None,
            summary: None,
            notes: None,
            year: None,
            month: None,
            day: None,
            writer: None,
            inker: None,
            colorist: None,
            letterer: None,
            cover_artist: None,
            editor: None,
            translator: None,
            publisher: None,
            imprint: None,
            genre: None,
            tags: None,
            web: None,
            page_count: None,
            language_iso: None,
            format: None,
            black_and_white: None,
            manga: None,
            characters: None,
            teams: None,
            locations: None,
            scan_information: None,
            story_arc: None,
            story_ard_number: None,
            series_group: None,
            age_rating: None,
            pages: None,
            community_rating: None,
            main_character_or_team: None,
            review: None,
            gtin: None,
        }
    }

    /// A builder with no field set.
    pub fn create_empty() -> (r: Self)
        ensures
            r == ComicInfoBuilder::empty(),
    {
        ComicInfoBuilder {
            title: None,
            series: None,
            number: None,
            count: None,
            volume: None,
            alternate_series: None,
            alternate_number: None,
            alternate_count: None,
            summary: None,
            notes: None,
            year: None,
            month: None,
            day: None,
            writer: None,
            inker: None,
            colorist: None,
            letterer: None,
            cover_artist: None,
            editor: None,
            translator: None,
            publisher: None,
            imprint: None,
            genre: None,
            tags: None,
            web: None,
            page_count: None,
            language_iso: None,
            format: None,
            black_and_white: None,
            manga: None,
            characters: None,
            teams: None,
            locations: None,
            scan_information: None,
            story_arc: None,
            story_ard_number: None,
            series_group: None,
            age_rating: None,
            pages: None,
            community_rating: None,
            main_character_or_team: None,
            review: None,
            gtin: None,
        }
    }

    pub fn title(&mut self, value: String) -> (r: &mut Self)
        ensures
            *r == (ComicInfoBuilder { title: Some(Some(value)), ..*old(self) }),
            *final(self) == *final(r),
    {
        self.title = Some(Some(value));
        self
    }

    pub fn series(&mut self, value: String) -> (r: &mut Self)
        ensures
            *r == (ComicInfoBuilder { series: Some(Some(value)), ..*old(self) }),
            *final(self) == *final(r),
    {
        self.series = Some(Some(value));
        self
    }

    pub fn number(&mut self, value: String) -> (r: &mut Self)
        ensures
            *r == (ComicInfoBuilder { number: Some(Some(value)), ..*old(self) }),
            *final(self) == *final(r),
    {
        self.number = Some(Some(value));
        self
    }

    pub fn count(&mut self, value: usize) -> (r: &mut Self)
        ensures
            *r == (ComicInfoBuilder { count: Some(Some(value)), ..*old(self) }),
            *final(self) == *final(r),
    {
        self.count = Some(Some(value));
        self
    }

    pub fn volume(&mut self, value: usize) -> (r: &mut Self)
        ensures
            *r == (ComicInfoBuilder { volume: Some(Some(value)), ..*old(self) }),
            *final(self) == *final(r),
    {
        self.volume = Some(Some(value));
        self
    }

    pub fn alternate_series(&mut self, value: String) -> (r: &mut Self)
        ensures
            *r == (ComicInfoBuilder { alternate_series: Some(Some(value)), ..*old(self) }),
            *final(self) == *final(r),
    {
        self.alternate_series = Some(Some(value));
        self
    }

    pub fn alternate_number(&mut self, value: String) -> (r: &mut Self)
        ensures
            *r == (ComicInfoBuilder { alternate_number: Some(Some(value)), ..*old(self) }),
            *final(self) == *final(r),
    {
        self.alternate_number = Some(Some(value));
        self
    }

    pub fn alternate_count(&mut self, value: usize) -> (r: &mut Self)
        ensures
            *r == (ComicInfoBuilder { alternate_count: Some(Some(value)), ..*old(self) }),
            *final(self) == *final(r),
    {
        self.alternate_count = Some(Some(value));
        self
    }

    pub fn summary(&mut self, value: String) -> (r: &mut Self)
        ensures
            *r == (ComicInfoBuilder { summary: Some(Some(value)), ..*old(self) }),
            *final(self) == *final(r),
    {
        self.summary = Some(Some(value));
        self
    }

    pub fn notes(&mut self, value: String) -> (r: &mut Self)
        ensures
            *r == (ComicInfoBuilder { notes: Some(Some(value)), ..*old(self) }),
            *final(self) == *final(r),
    {
        self.notes = Some(Some(value));
        self
    }

    pub fn year(&mut self, value: usize) -> (r: &mut Self)
        ensures
            *r == (ComicInfoBuilder { year: Some(Some(value)), ..*old(self) }),
            *final(self) == *final(r),
    {
        self.year = Some(Some(value));
        self
    }

    pub fn month(&mut self, value: usize) -> (r: &mut Self)
        ensures
            *r == (ComicInfoBuilder { month: Some(Some(value)), ..*old(self) }),
            *final(self) == *final(r),
    {
        self.month = Some(Some(value));
        self
    }

    pub fn day(&mut self, value: usize) -> (r: &mut Self)
        ensures
            *r == (ComicInfoBuilder { day: Some(Some(value)), ..*old(self) }),
            *final(self) == *final(r),
    {
        self.day = Some(Some(value));
        self
    }

    pub fn writer(&mut self, value: String) -> (r: &mut Self)
        ensures
            *r == (ComicInfoBuilder { writer: Some(Some(value)), ..*old(self) }),
            *final(self) == *final(r),
    {
        self.writer = Some(Some(value));
        self
    }

    pub fn inker(&mut self, value: String) -> (r: &mut Self)
        ensures
            *r == (ComicInfoBuilder { inker: Some(Some(value)), ..*old(self) }),
            *final(self) == *final(r),
    {
        self.inker = Some(Some(value));
        self
    }

    pub fn colorist(&mut self, value: String) -> (r: &mut Self)
        ensures
            *r == (ComicInfoBuilder { colorist: Some(Some(value)), ..*old(self) }),
            *final(self) == *final(r),
    {
        self.colorist = Some(Some(value));
        self
    }

    pub fn letterer(&mut self, value: String) -> (r: &mut Self)
        ensures
            *r == (ComicInfoBuilder { letterer: Some(Some(value)), ..*old(self) }),
            *final(self) == *final(r),
    {
        self.letterer = Some(Some(value));
        self
    }

    pub fn cover_artist(&mut self, value: String) -> (r: &mut Self)
        ensures
            *r == (ComicInfoBuilder { cover_artist: Some(Some(value)), ..*old(self) }),
            *final(self) == *final(r),
    {
        self.cover_artist = Some(Some(value));
        self
    }

    pub fn editor(&mut self, value: String) -> (r: &mut Self)
        ensures
            *r == (ComicInfoBuilder { editor: Some(Some(value)), ..*old(self) }),
            *final(self) == *final(r),
    {
        self.editor = Some(Some(value));
        self
    }

    pub fn translator(&mut self, value: String) -> (r: &mut Self)
        ensures
            *r == (ComicInfoBuilder { translator: Some(Some(value)), ..*old(self) }),
            *final(self) == *final(r),
    {
        self.translator = Some(Some(value));
        self
    }

    pub fn publisher(&mut self, value: String) -> (r: &mut Self)
        ensures
            *r == (ComicInfoBuilder { publisher: Some(Some(value)), ..*old(self) }),
            *final(self) == *final(r),
    {
        self.publisher = Some(Some(value));
        self
    }

    pub fn imprint(&mut self, value: String) -> (r: &mut Self)
        ensures
            *r == (ComicInfoBuilder { imprint: Some(Some(value)), ..*old(self) }),
            *final(self) == *final(r),
    {
        self.imprint = Some(Some(value));
        self
    }

    pub fn genre(&mut self, value: String) -> (r: &mut Self)
        ensures
            *r == (ComicInfoBuilder { genre: Some(Some(value)), ..*old(self) }),
            *final(self) == *final(r),
    {
        self.genre = Some(Some(value));
        self
    }

    pub fn tags(&mut self, value: String) -> (r: &mut Self)
        ensures
            *r == (ComicInfoBuilder { tags: Some(Some(value)), ..*old(self) }),
            *final(self) == *final(r),
    {
        self.tags = Some(Some(value));
        self
    }

    pub fn web(&mut self, value: String) -> (r: &mut Self)
        ensures
            *r == (ComicInfoBuilder { web: Some(Some(value)), ..*old(self) }),
            *final(self) == *final(r),
    {
        self.web = Some(Some(value));
        self
    }

    pub fn page_count(&mut self, value: usize) -> (r: &mut Self)
        ensures
            *r == (ComicInfoBuilder { page_count: Some(Some(value)), ..*old(self) }),
            *final(self) == *final(r),
    {
        self.page_count = Some(Some(value));
        self
    }

    pub fn language_iso(&mut self, value: String) -> (r: &mut Self)
        ensures
            *r == (ComicInfoBuilder { language_iso: Some(Some(value)), ..*old(self) }),
            *final(self) == *final(r),
    {
        self.language_iso = Some(Some(value));
        self
    }

    pub fn format(&mut self, value: String) -> (r: &mut Self)
        ensures
            *r == (ComicInfoBuilder { format: Some(Some(value)), ..*old(self) }),
            *final(self) == *final(r),
    {
        self.format = Some(Some(value));
        self
    }

    pub fn black_and_white(&mut self, value: YesNo) -> (r: &mut Self)
        ensures
            *r == (ComicInfoBuilder { black_and_white: Some(Some(value)), ..*old(self) }),
            *final(self) == *final(r),
    {
        self.black_and_white = Some(Some(value));
        self
    }

    pub fn manga(&mut self, value: Manga) -> (r: &mut Self)
        ensures
            *r == (ComicInfoBuilder { manga: Some(Some(value)), ..*old(self) }),
            *final(self) == *final(r),
    {
        self.manga = Some(Some(value));
        self
    }

    pub fn characters(&mut self, value: String) -> (r: &mut Self)
        ensures
            *r == (ComicInfoBuilder { characters: Some(Some(value)), ..*old(self) }),
            *final(self) == *final(r),
    {
        self.characters = Some(Some(value));
        self
    }

    pub fn teams(&mut self, value: String) -> (r: &mut Self)
        ensures
            *r == (ComicInfoBuilder { teams: Some(Some(value)), ..*old(self) }),
            *final(self) == *final(r),
    {
        self.teams = Some(Some(value));
        self
    }

    pub fn locations(&mut self, value: String) -> (r: &mut Self)
        ensures
            *r == (ComicInfoBuilder { locations: Some(Some(value)), ..*old(self) }),
            *final(self) == *final(r),
    {
        self.locations = Some(Some(value));
        self
    }

    pub fn scan_information(&mut self, value: String) -> (r: &mut Self)
        ensures
            *r == (ComicInfoBuilder { scan_information: Some(Some(value)), ..*old(self) }),
            *final(self) == *final(r),
    {
        self.scan_information = Some(Some(value));
        self
    }

    pub fn story_arc(&mut self, value: String) -> (r: &mut Self)
        ensures
            *r == (ComicInfoBuilder { story_arc: Some(Some(value)), ..*old(self) }),
            *final(self) == *final(r),
    {
        self.story_arc = Some(Some(value));
        self
    }

    pub fn story_ard_number(&mut self, value: String) -> (r: &mut Self)
        ensures
            *r == (ComicInfoBuilder { story_ard_number: Some(Some(value)), ..*old(self) }),
            *final(self) == *final(r),
    {
        self.story_ard_number = Some(Some(value));
        self
    }

    pub fn series_group(&mut self, value: String) -> (r: &mut Self)
        ensures
            *r == (ComicInfoBuilder { series_group: Some(Some(value)), ..*old(self) }),
            *final(self) == *final(r),
    {
        self.series_group = Some(Some(value));
        self
    }

    pub fn age_rating(&mut self, value: AgeRating) -> (r: &mut Self)
        ensures
            *r == (ComicInfoBuilder { age_rating: Some(Some(value)), ..*old(self) }),
            *final(self) == *final(r),
    {
        self.age_rating = Some(Some(value));
        self
    }

    /// Sets the pages, replacing any set or added before.
    pub fn pages(&mut self, value: Vec<ComicPageInfo>) -> (r: &mut Self)
        ensures
            *r == (ComicInfoBuilder { pages: Some(value), ..*old(self) }),
            *final(self) == *final(r),
    {
        self.pages = Some(value);
        self
    }

    /// Adds a page after those set or added so far.
    pub fn add_page(&mut self, item: ComicPageInfo) -> (r: &mut Self)
        ensures
            r.pages matches Some(v) && v@ == (match old(self).pages {
                Some(w) => w@,
                None => Seq::empty(),
            }).push(item),
            *r == (ComicInfoBuilder { pages: r.pages, ..*old(self) }),
            *final(self) == *final(r),
    {
        match self.pages.take() {
            Some(mut v) => {
                v.push(item);
                self.pages = Some(v);
            },
            None => {
                let mut v: Vec<ComicPageInfo> = Vec::new();
                v.push(item);
                self.pages = Some(v);
            },
        }
        self
    }

    pub fn community_rating(&mut self, value: Rating) -> (r: &mut Self)
        ensures
            *r == (ComicInfoBuilder { community_rating: Some(Some(value)), ..*old(self) }),
            *final(self) == *final(r),
    {
        self.community_rating = Some(Some(value));
        self
    }

    pub fn main_character_or_team(&mut self, value: String) -> (r: &mut Self)
        ensures
            *r == (ComicInfoBuilder { main_character_or_team: Some(Some(value)), ..*old(self) }),
            *final(self) == *final(r),
    {
        self.main_character_or_team = Some(Some(value));
        self
    }

    pub fn review(&mut self, value: String) -> (r: &mut Self)
        ensures
            *r == (ComicInfoBuilder { review: Some(Some(value)), ..*old(self) }),
            *final(self) == *final(r),
    {
        self.review = Some(Some(value));
        self
    }

    pub fn gtin(&mut self, value: String) -> (r: &mut Self)
        ensures
            *r == (ComicInfoBuilder { gtin: Some(Some(value)), ..*old(self) }),
            *final(self) == *final(r),
    {
        self.gtin = Some(Some(value));
        self
    }

    /// Builds the metadata: the namespaces, each field as set, and no value
    /// (no pages) for the others. It does not fail.
    pub fn build(&self) -> (r: Result<ComicInfo, ComicInfoBuilderError>)
        ensures
            r matches Ok(c) && built_comic_info(*self, c),
    {
        let pages = match &self.pages {
            Some(v) => {
                let c = v.clone();
                proof {
                    assert forall|i: int| 0 <= i < c@.len() implies c@[i]@ == v@[i]@ by {
                        assert(vstd::pervasive::cloned(v@[i], c@[i]));
                    }
                    assert(pages_view(c@) =~= pages_view(v@));
                }
                c
            },
            None => Vec::new(),
        };
        let info = ComicInfo {
            xmlns: XmlNamespaces { xsi: default_xsi(), xsd: default_xsd() },
            title: match &self.title {
                Some(v) => v.clone(),
                None => None,
            },
            series: match &self.series {
                Some(v) => v.clone(),
                None => None,
            },
            number: match &self.number {
                Some(v) => v.clone(),
                None => None,
            },
            count: match self.count {
                Some(v) => v,
                None => None,
            },
            volume: match self.volume {
                Some(v) => v,
                None => None,
            },
            alternate_series: match &self.alternate_series {
                Some(v) => v.clone(),
                None => None,
            },
            alternate_number: match &self.alternate_number {
                Some(v) => v.clone(),
                None => None,
            },
            alternate_count: match self.alternate_count {
                Some(v) => v,
                None => None,
            },
            summary: match &self.summary {
                Some(v) => v.clone(),
                None => None,
            },
            notes: match &self.notes {
                Some(v) => v.clone(),
                None => None,
            },
            year: match self.year {
                Some(v) => v,
                None => None,
            },
            month: match self.month {
                Some(v) => v,
                None => None,
            },
            day: match self.day {
                Some(v) => v,
                None => None,
            },
            writer: match &self.writer {
                Some(v) => v.clone(),
                None => None,
            },
            inker: match &self.inker {
                Some(v) => v.clone(),
                None => None,
            },
            colorist: match &self.colorist {
                Some(v) => v.clone(),
                None => None,
            },
            letterer: match &self.letterer {
                Some(v) => v.clone(),
                None => None,
            },
            cover_artist: match &self.cover_artist {
                Some(v) => v.clone(),
                None => None,
            },
            editor: match &self.editor {
                Some(v) => v.clone(),
                None => None,
            },
            translator: match &self.translator {
                Some(v) => v.clone(),
                None => None,
            },
            publisher: match &self.publisher {
                Some(v) => v.clone(),
                None => None,
            },
            imprint: match &self.imprint {
                Some(v) => v.clone(),
                None => None,
            },
            genre: match &self.genre {
                Some(v) => v.clone(),
                None => None,
            },
            tags: match &self.tags {
                Some(v) => v.clone(),
                None => None,
            },
            web: match &self.web {
                Some(v) => v.clone(),
                None => None,
            },
            page_count: match self.page_count {
                Some(v) => v,
                None => None,
            },
            language_iso: match &self.language_iso {
                Some(v) => v.clone(),
                None => None,
            },
            format: match &self.format {
                Some(v) => v.clone(),
                None => None,
            },
            black_and_white: match self.black_and_white {
                Some(v) => v,
                None => None,
            },
            manga: match self.manga {
                Some(v) => v,
                None => None,
            },
            characters: match &self.characters {
                Some(v) => v.clone(),
                None => None,
            },
            teams: match &self.teams {
                Some(v) => v.clone(),
                None => None,
            },
            locations: match &self.locations {
                Some(v) => v.clone(),
                None => None,
            },
            scan_information: match &self.scan_information {
                Some(v) => v.clone(),
                None => None,
            },
            story_arc: match &self.story_arc {
                Some(v) => v.clone(),
                None => None,
            },
            story_ard_number: match &self.story_ard_number {
                Some(v) => v.clone(),
                None => None,
            },
            series_group: match &self.series_group {
                Some(v) => v.clone(),
                None => None,
            },
            age_rating: match self.age_rating {
                Some(v) => v,
                None => None,
            },
            pages,
            community_rating: match self.community_rating {
                Some(v) => v,
                None => None,
            },
            main_character_or_team: match &self.main_character_or_team {
                Some(v) => v.clone(),
                None => None,
            },
            review: match &self.review {
                Some(v) => v.clone(),
                None => None,
            },
            gtin: match &self.gtin {
                Some(v) => v.clone(),
                None => None,
            },
        };
        proof {
            assert(pages_view(info.pages@) =~= (match self.pages {
                Some(v) => pages_view(v@),
                None => Seq::empty(),
            }));
        }
        Ok(info)
    }
}

/// Building gives each field of `ComicInfo.xml` the value set for the field of the
/// same name in the builder, and no value for a field that was not set (or was
/// set to none); the pages are those added, none when none were; and the
/// document gets its standard XML namespaces. Building never fails.
pub proof fn law_build_keeps_each_field(b: &ComicInfoBuilder, r: Result<ComicInfo, ComicInfoBuilderError>)
    requires
        call_ensures(ComicInfoBuilder::build, (b,), r),
    ensures
        r matches Ok(c) && {
            &&& c.spec_xmlns_xsi() == Some(xsi_namespace())
            &&& c.spec_xmlns_xsd() == Some(xsd_namespace())
            &&& c.pages@.len() == (match b.pages {
                Some(v) => v@.len(),
                None => 0,
            })
            &&& forall|i: int| 0 <= i < c.pages@.len() ==> (b.pages matches Some(v) && #[trigger] c.pages@[i]@ == v@[i]@)
            &&& c.title == (match b.title {
                Some(Some(v)) => Some(v),
                _ => None,
            })
            &&& c.series == (match b.series {
                Some(Some(v)) => Some(v),
                _ => None,
            })
            &&& c.number == (match b.number {
                Some(Some(v)) => Some(v),
                _ => None,
            })
            &&& c.count == (match b.count {
                Some(Some(v)) => Some(v),
                _ => None,
            })
            &&& c.volume == (match b.volume {
                Some(Some(v)) => Some(v),
                _ => None,
            })
            &&& c.alternate_series == (match b.alternate_series {
                Some(Some(v)) => Some(v),
                _ => None,
            })
            &&& c.alternate_number == (match b.alternate_number {
                Some(Some(v)) => Some(v),
                _ => None,
            })
            &&& c.alternate_count == (match b.alternate_count {
                Some(Some(v)) => Some(v),
                _ => None,
            })
            &&& c.summary == (match b.summary {
                Some(Some(v)) => Some(v),
                _ => None,
            })
            &&& c.notes == (match b.notes {
                Some(Some(v)) => Some(v),
                _ => None,
            })
            &&& c.year == (match b.year {
                Some(Some(v)) => Some(v),
                _ => None,
            })
            &&& c.month == (match b.month {
                Some(Some(v)) => Some(v),
                _ => None,
            })
            &&& c.day == (match b.day {
                Some(Some(v)) => Some(v),
                _ => None,
            })
            &&& c.writer == (match b.writer {
                Some(Some(v)) => Some(v),
                _ => None,
            })
            &&& c.inker == (match b.inker {
                Some(Some(v)) => Some(v),
                _ => None,
            })
            &&& c.colorist == (match b.colorist {
                Some(Some(v)) => Some(v),
                _ => None,
            })
            &&& c.letterer == (match b.letterer {
                Some(Some(v)) => Some(v),
                _ => None,
            })
            &&& c.cover_artist == (match b.cover_artist {
                Some(Some(v)) => Some(v),
                _ => None,
            })
            &&& c.editor == (match b.editor {
                Some(Some(v)) => Some(v),
                _ => None,
            })
            &&& c.translator == (match b.translator {
                Some(Some(v)) => Some(v),
                _ => None,
            })
            &&& c.publisher == (match b.publisher {
                Some(Some(v)) => Some(v),
                _ => None,
            })
            &&& c.imprint == (match b.imprint {
                Some(Some(v)) => Some(v),
                _ => None,
            })
            &&& c.genre == (match b.genre {
                Some(Some(v)) => Some(v),
                _ => None,
            })
            &&& c.tags == (match b.tags {
                Some(Some(v)) => Some(v),
                _ => None,
            })
            &&& c.web == (match b.web {
                Some(Some(v)) => Some(v),
                _ => None,
            })
            &&& c.page_count == (match b.page_count {
                Some(Some(v)) => Some(v),
                _ => None,
            })
            &&& c.language_iso == (match b.language_iso {
                Some(Some(v)) => Some(v),
                _ => None,
            })
            &&& c.format == (match b.format {
                Some(Some(v)) => Some(v),
                _ => None,
            })
            &&& c.black_and_white == (match b.black_and_white {
                Some(Some(v)) => Some(v),
                _ => None,
            })
            &&& c.manga == (match b.manga {
                Some(Some(v)) => Some(v),
                _ => None,
            })
            &&& c.characters == (match b.characters {
                Some(Some(v)) => Some(v),
                _ => None,
            })
            &&& c.teams == (match b.teams {
                Some(Some(v)) => Some(v),
                _ => None,
            })
            &&& c.locations == (match b.locations {
                Some(Some(v)) => Some(v),
                _ => None,
            })
            &&& c.scan_information == (match b.scan_information {
                Some(Some(v)) => Some(v),
                _ => None,
            })
            &&& c.story_arc == (match b.story_arc {
                Some(Some(v)) => Some(v),
                _ => None,
            })
            &&& c.story_ard_number == (match b.story_ard_number {
                Some(Some(v)) => Some(v),
                _ => None,
            })
            &&& c.series_group == (match b.series_group {
                Some(Some(v)) => Some(v),
                _ => None,
            })
            &&& c.age_rating == (match b.age_rating {
                Some(Some(v)) => Some(v),
                _ => None,
            })
            &&& c.community_rating == (match b.community_rating {
                Some(Some(v)) => Some(v),
                _ => None,
            })
            &&& c.main_character_or_team == (match b.main_character_or_team {
                Some(Some(v)) => Some(v),
                _ => None,
            })
            &&& c.review == (match b.review {
                Some(Some(v)) => Some(v),
                _ => None,
            })
            &&& c.gtin == (match b.gtin {
                Some(Some(v)) => Some(v),
                _ => None,
            })
        },
{
    let c = r.unwrap();
    let ps: Seq<ComicPageInfo> = match b.pages {
        Some(v) => v@,
        None => Seq::empty(),
    };
    assert(pages_view(c.pages@).len() == c.pages@.len());
    assert forall|i: int| 0 <= i < c.pages@.len() implies (b.pages matches Some(v) && #[trigger] c.pages@[i]@ == v@[i]@) by {
        assert(pages_view(c.pages@)[i] == c.pages@[i]@);
        assert(pages_view(ps)[i] == ps[i]@);
    }
}

} // verus!
