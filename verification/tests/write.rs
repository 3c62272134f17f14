use cbz::comicinfo::comic_page_info::NonZeroSize;
use cbz::comicinfo::comic_page_type::ComicPageType;
use cbz::comicinfo::ComicInfoBuilder;
use cbz::read::sort_pages;
use cbz::write::cb7::Cb7WriterImageFormat;
use cbz::write::cbt::CbtWriterImageFormat;
use cbz::write::cbz::CbzWriterImageFormat;
use cbz::write::{page_name, ComicBookWriterState};

#[test]
fn page_names() {
    assert_eq!(page_name(1, 4, "", "png"), "0001.png");
    assert_eq!(page_name(42, 3, "-vol1", "jpg"), "042-vol1.jpg");
    assert_eq!(page_name(12345, 4, "", "gif"), "12345.gif");
    assert_eq!(page_name(0, 1, "", "png"), "0.png");
}

#[test]
fn formats() {
    assert_eq!(CbzWriterImageFormat::default(), CbzWriterImageFormat::Png);
    assert_eq!(CbzWriterImageFormat::Jpeg.extension(), "jpg");
    assert_eq!(CbtWriterImageFormat::Png.page_extension(false), "png");
    assert_eq!(Cb7WriterImageFormat::Jpeg.page_extension(true), "gif");
    assert_eq!(Cb7WriterImageFormat::Jpeg.page_extension(false), "jpg");
}

#[test]
fn written_names_sort_in_writing_order() {
    let mut state = ComicBookWriterState::new();
    let mut names = Vec::new();
    for _ in 0..16 {
        names.push(state.next_page_name("jpg"));
        state.record_page(10, 20, Vec::new(), None);
    }
    let mut shuffled = names.clone();
    shuffled.reverse();
    shuffled.swap(3, 9);
    assert_eq!(sort_pages(shuffled), names);
    assert_eq!(names[0], "0001.jpg");
    assert_eq!(names[15], "0016.jpg");
}

#[test]
fn writer_state_options() {
    let state = ComicBookWriterState::new()
        .suffix("p".to_string())
        .width(NonZeroSize::new(2).unwrap())
        .auto_double_page(false);
    assert_eq!(state.next_page_name("png"), "01p.png");
    let suffixed = ComicBookWriterState::new().suffix("x".to_string());
    assert_eq!(suffixed.next_page_name("png"), "0001x.png");
    assert_eq!(state.count(), 1);
    let state = state.no_suffix();
    assert_eq!(state.next_page_name("png"), "01.png");
    assert!(state.get_comicinfo_builder().is_none());
}

#[test]
fn writer_state_records_pages_in_metadata() {
    let mut state = ComicBookWriterState::new().set_comicinfo_builder(ComicInfoBuilder::default());
    state.record_page(200, 100, Vec::new(), Some("start".to_string()));
    state.record_page(100, 200, vec![ComicPageType::BackCover], None);
    state.record_page(0, 50, Vec::new(), None);
    assert_eq!(state.count(), 4);
    let info = state.finish_comicinfo().unwrap();
    assert_eq!(info.pages.len(), 3);
    assert_eq!(info.pages[0].image, 1);
    assert!(info.pages[0].double_page);
    assert_eq!(info.pages[0].bookmark, "start");
    assert_eq!(info.pages[0].image_width.map(|w| w.get()), Some(200));
    assert_eq!(info.pages[0].type_, vec![ComicPageType::Story]);
    assert_eq!(info.pages[1].image, 2);
    assert!(!info.pages[1].double_page);
    assert_eq!(info.pages[1].type_, vec![ComicPageType::BackCover]);
    assert_eq!(info.pages[2].image_width, None);
    assert_eq!(info.pages[2].image_height.map(|h| h.get()), Some(50));
    assert!(state.finish_comicinfo().is_none());
}

#[test]
fn writer_state_without_double_page_detection() {
    let mut state = ComicBookWriterState::new()
        .set_comicinfo_builder(ComicInfoBuilder::default())
        .auto_double_page(false);
    state.record_page(200, 100, Vec::new(), None);
    let taken = state.take_comicinfo_builder().unwrap();
    assert!(!taken.build().unwrap().pages[0].double_page);
    let state = ComicBookWriterState::new().set_comicinfo_builder(ComicInfoBuilder::default()).unset_comicinfo_builder();
    assert!(state.get_comicinfo_builder().is_none());
}

#[test]
fn failed_page_keeps_its_number() {
    let mut state = ComicBookWriterState::new().set_comicinfo_builder(ComicInfoBuilder::default());
    let failed: Result<(), String> = Err("encoding failed".to_string());
    assert_eq!(state.complete_page(failed, 10, 20, Vec::new(), None), Err("encoding failed".to_string()));
    assert_eq!(state.count(), 1);
    assert_eq!(state.next_page_name("png"), "0001.png");
    assert_eq!(state.complete_page(Ok::<(), String>(()), 10, 20, Vec::new(), None), Ok(()));
    assert_eq!(state.count(), 2);
    assert_eq!(state.next_page_name("png"), "0002.png");
    let info = state.finish_comicinfo().unwrap();
    assert_eq!(info.pages.len(), 1);
    assert_eq!(info.pages[0].image, 1);
}
