use cbz::comicinfo::age_rating::AgeRating;
use cbz::comicinfo::comic_page_info::{ComicPageInfo, ComicPageInfoBuilderError, NonZeroSize};
use cbz::comicinfo::comic_page_type::ComicPageType;
use cbz::comicinfo::manga::Manga;
use cbz::comicinfo::rating::{Rating, RatingError};
use cbz::comicinfo::yes_no::YesNo;
use cbz::comicinfo::{default_xsd, default_xsi, ComicInfo, ComicInfoBuilder, COMIC_INFO_XML};

#[test]
fn test_display() {
    assert_eq!(ComicPageType::Story.to_string().as_str(), "Story");
    assert_eq!(ComicPageType::BackCover.to_string().as_str(), "BackCover");
}

#[test]
fn test_from_str() -> anyhow::Result<()> {
    assert_eq!(ComicPageType::Advertisement, "Advertisement".parse()?);
    assert_eq!(ComicPageType::FrontCover, "FrontCover".parse()?);
    Ok(())
}

#[test]
fn comic_page_type_parse_ignores_case_and_refuses_others() {
    assert_eq!("backcover".parse::<ComicPageType>().unwrap(), ComicPageType::BackCover);
    assert_eq!("DELETED".parse::<ComicPageType>().unwrap(), ComicPageType::Deleted);
    assert!("Back Cover".parse::<ComicPageType>().is_err());
    assert!("".parse::<ComicPageType>().is_err());
    assert_eq!(ComicPageType::default(), ComicPageType::Story);
}

#[test]
fn comic_page_type_text_round_trip() {
    let all = [
        ComicPageType::FrontCover,
        ComicPageType::InnerCover,
        ComicPageType::Roundup,
        ComicPageType::Story,
        ComicPageType::Advertisement,
        ComicPageType::Editorial,
        ComicPageType::Letters,
        ComicPageType::Preview,
        ComicPageType::BackCover,
        ComicPageType::Other,
        ComicPageType::Deleted,
    ];
    for t in all {
        assert_eq!(t.to_string().parse::<ComicPageType>().unwrap(), t);
    }
}

#[test]
fn manga_display() -> anyhow::Result<()> {
    assert_eq!(Manga::Yes.to_string().as_str(), "Yes");
    assert_eq!(Manga::YesAndRightToLeft.to_string().as_str(), "YesAndRightToLeft");
    assert_eq!(Manga::No.to_string().as_str(), "No");
    assert_eq!(Manga::Unknown.to_string().as_str(), "Unknown");
    Ok(())
}

#[test]
fn manga_from_str() -> anyhow::Result<()> {
    assert_eq!("Yes".parse::<Manga>()?, Manga::Yes);
    assert_eq!("No".parse::<Manga>()?, Manga::No);
    assert_eq!("YesAndRightToLeft".parse::<Manga>()?, Manga::YesAndRightToLeft);
    assert_eq!("unknown".parse::<Manga>()?, Manga::Unknown);
    Ok(())
}

#[test]
fn manga_refuses_other_texts() {
    assert!("maybe".parse::<Manga>().is_err());
    assert!("Yes ".parse::<Manga>().is_err());
    assert_eq!("YESANDRIGHTTOLEFT".parse::<Manga>().unwrap(), Manga::YesAndRightToLeft);
}

#[test]
fn yes_no_display() -> anyhow::Result<()> {
    assert_eq!(YesNo::Yes.to_string().as_str(), "Yes");
    assert_eq!(YesNo::No.to_string().as_str(), "No");
    assert_eq!(YesNo::Unknown.to_string().as_str(), "Unknown");
    Ok(())
}

#[test]
fn yes_no_from_str() -> anyhow::Result<()> {
    assert_eq!(YesNo::Yes, "Yes".into());
    assert_eq!(YesNo::No, "No".into());
    assert_eq!(YesNo::Unknown, "unknown".into());
    Ok(())
}

#[test]
fn yes_no_from_is_case_sensitive() {
    assert_eq!(YesNo::from("yes"), YesNo::Unknown);
    assert_eq!(YesNo::from("NO"), YesNo::Unknown);
    assert_eq!(YesNo::from(YesNo::Unknown.to_string().as_str()), YesNo::Unknown);
}

const AGE_RATINGS: [(AgeRating, &str); 14] = [
    (AgeRating::AdultsOnly18Plus, "Adults Only 18+"),
    (AgeRating::EarlyChildhood, "Early Childhood"),
    (AgeRating::Everyone, "Everyone"),
    (AgeRating::Everyone18Plus, "Everyone 10+"),
    (AgeRating::G, "G"),
    (AgeRating::KidsToAdults, "Kids to Adults"),
    (AgeRating::M, "M"),
    (AgeRating::MA15Plus, "MA15+"),
    (AgeRating::Mature17Plus, "Mature 17+"),
    (AgeRating::PG, "PG"),
    (AgeRating::R18Plus, "R18+"),
    (AgeRating::RatingPending, "Rating Pending"),
    (AgeRating::Teen, "Teen"),
    (AgeRating::X18Plus, "X18+"),
];

#[test]
fn age_rating_test_display() {
    for (key, value) in AGE_RATINGS {
        assert_eq!(key.to_string().as_str(), value);
    }
}

#[test]
fn age_rating_test_from_str() {
    for (key, value) in AGE_RATINGS {
        assert_eq!(key, value.into());
    }
}

#[test]
fn age_rating_unknown_texts() {
    assert_eq!(AgeRating::from("teen"), AgeRating::Unknown);
    assert_eq!(AgeRating::from("Unknown"), AgeRating::Unknown);
    assert_eq!(AgeRating::from(""), AgeRating::Unknown);
    assert_eq!(AgeRating::default(), AgeRating::Unknown);
}

#[test]
fn test_rating_eps_cmp_default() {
    let rating = Rating::default();
    assert!((f32::from_bits(rating.to_bits()) - 0.0).abs() < f32::EPSILON);
}

#[test]
fn rating_eps_cmp() {
    let rating = Rating::from_bits(1.2f32.to_bits()).unwrap();
    assert!((f32::from_bits(rating.to_bits()) - 1.2).abs() < f32::EPSILON);
}

#[test]
fn rating_eps_cmp_invalid() {
    assert!(Rating::from_bits((-1.2f32).to_bits()).is_none());
    assert!(Rating::from_bits(6.2f32.to_bits()).is_none());
}

#[test]
fn rating_bounds_and_nan() {
    assert!(Rating::from_bits(0.0f32.to_bits()).is_some());
    assert!(Rating::from_bits(5.0f32.to_bits()).is_some());
    assert!(Rating::from_bits(5.01f32.to_bits()).is_none());
    assert!(Rating::from_bits(f32::INFINITY.to_bits()).is_none());
    assert!(Rating::from_bits(f32::MIN_POSITIVE.to_bits()).is_some());
    let negative_zero = Rating::from_bits((-0.0f32).to_bits()).unwrap();
    assert_eq!(negative_zero, Rating::default());
    match Rating::try_from_bits(f32::NAN.to_bits()) {
        Err(RatingError::Cmp { a, b }) => {
            assert_eq!(a, f32::NAN.to_bits());
            assert_eq!(b, 0);
        },
        _ => panic!("a NaN cannot be compared"),
    }
    assert!(matches!(Rating::try_from_bits(7.0f32.to_bits()), Err(RatingError::InvalidValue)));
    assert_ne!(Rating::from_bits(4.9f32.to_bits()).unwrap(), Rating::default());
}

#[test]
fn page_info_builder_defaults() {
    let page = ComicPageInfo::builder().image(1).build().unwrap();
    assert_eq!(page.image, 1);
    assert_eq!(page.type_, vec![ComicPageType::Story]);
    assert!(!page.double_page);
    assert_eq!(page.image_size, 0);
    assert_eq!(page.key, "");
    assert_eq!(page.bookmark, "");
    assert_eq!(page.image_width, None);
    assert_eq!(page.image_height, None);
}

#[test]
fn page_info_builder_needs_image() {
    match ComicPageInfo::builder().double_page(true).build() {
        Err(ComicPageInfoBuilderError::UninitializedField(name)) => assert_eq!(name, "image"),
        _ => panic!("the image is not set"),
    }
}

#[test]
fn page_info_builder_adds_types_from_none() {
    let page = ComicPageInfo::builder()
        .image(1)
        .add_type(ComicPageType::Story)
        .add_type(ComicPageType::Other)
        .build()
        .unwrap();
    assert_eq!(page.type_, vec![ComicPageType::Story, ComicPageType::Other]);
    let only_other = ComicPageInfo::builder().image(2).add_type(ComicPageType::Other).build().unwrap();
    assert_eq!(only_other.type_, vec![ComicPageType::Other]);
}

#[test]
fn page_info_builder_sizes() {
    let page = ComicPageInfo::builder()
        .image(1)
        .image_width(NonZeroSize::new(120))
        .image_height(NonZeroSize::new(500))
        .key("k".to_string())
        .bookmark("b".to_string())
        .image_size(42)
        .build()
        .unwrap();
    assert_eq!(page.image_width.map(|w| w.get()), Some(120));
    assert_eq!(page.image_height.map(|h| h.get()), Some(500));
    assert_eq!(page.key, "k");
    assert_eq!(page.bookmark, "b");
    assert_eq!(page.image_size, 42);
    assert!(NonZeroSize::new(0).is_none());
    let copy = page.clone();
    assert_eq!(copy, page);
}

#[test]
fn comic_info_builder_defaults() {
    let info = ComicInfoBuilder::create_empty().black_and_white(YesNo::Yes).build().unwrap();
    assert_eq!(info.black_and_white, Some(YesNo::Yes));
    assert_eq!(info.title, None);
    assert!(info.pages.is_empty());
    assert_eq!(info.xmlns_xsi(), Some("http://www.w3.org/2001/XMLSchema-instance"));
    assert_eq!(info.xmlns_xsd(), Some("http://www.w3.org/2001/XMLSchema"));
    assert_eq!(default_xsi().as_deref(), info.xmlns_xsi());
    assert_eq!(default_xsd().as_deref(), info.xmlns_xsd());
}

#[test]
fn comic_info_builder_setters_and_pages() {
    let mut builder = ComicInfoBuilder::default();
    builder.title("Title".to_string()).count(3).language_iso("en".into());
    builder.add_page(ComicPageInfo::builder().image(1).build().unwrap());
    builder.add_page(ComicPageInfo::builder().image(2).build().unwrap());
    let info = builder.build().unwrap();
    assert_eq!(info.title.as_deref(), Some("Title"));
    assert_eq!(info.count, Some(3));
    assert_eq!(info.language_iso.as_deref(), Some("en"));
    assert_eq!(info.pages.len(), 2);
    assert_eq!(info.pages[1].image, 2);
    builder.pages(Vec::new());
    assert!(builder.build().unwrap().pages.is_empty());
}

#[test]
fn comic_info_default_has_no_namespaces() {
    let mut info = ComicInfo::default();
    assert_eq!(info.xmlns_xsi(), None);
    assert_eq!(info.xmlns_xsd(), None);
    info.set_xmlns(Some("a".to_string()), None);
    assert_eq!(info.xmlns_xsi(), Some("a"));
    assert_eq!(COMIC_INFO_XML, "ComicInfo.xml");
}

#[test]
fn rating_order_follows_values() {
    let low = Rating::from_bits(1.5f32.to_bits()).unwrap();
    let high = Rating::from_bits(4.5f32.to_bits()).unwrap();
    let negative_zero = Rating::from_bits((-0.0f32).to_bits()).unwrap();
    assert!(low < high);
    assert!(negative_zero < low);
    assert_eq!(negative_zero.partial_cmp(&Rating::default()), Some(std::cmp::Ordering::Equal));
}

#[test]
fn comic_info_clone_is_equal() {
    let mut builder = ComicInfoBuilder::create_empty();
    builder.series("S".to_string()).community_rating(Rating::from_bits(2.5f32.to_bits()).unwrap());
    let info = builder.build().unwrap();
    assert_eq!(info.clone(), info);
}
