use cbz::read::cb7;
use cbz::read::cbt::{first_matching_entry, normalize_current_dir, same_entry_path, top_level_page_names};
use cbz::read::cbz::zip_page_names;
use cbz::read::{page_at, sort_pages, ComicBookReader};
use cbz::{supported_image_type, SUPPORTED_IMAGES_TYPES};

fn strings(v: &[&str]) -> Vec<String> {
    v.iter().map(|s| s.to_string()).collect()
}

#[test]
fn sorting_ignores_case() {
    let sorted = sort_pages(strings(&["b.jpg", "A.jpg", "c.png", "B2.jpg"]));
    assert_eq!(sorted, strings(&["A.jpg", "b.jpg", "B2.jpg", "c.png"]));
}

#[test]
fn sorting_is_stable() {
    let sorted = sort_pages(strings(&["a.PNG", "A.png", "0.png", "a.png"]));
    assert_eq!(sorted, strings(&["0.png", "a.PNG", "A.png", "a.png"]));
    assert!(sort_pages(Vec::new()).is_empty());
}

#[test]
fn sorting_numbers_as_text() {
    let sorted = sort_pages(strings(&["10.jpg", "9.jpg", "0010.jpg", "0009.jpg"]));
    assert_eq!(sorted, strings(&["0009.jpg", "0010.jpg", "10.jpg", "9.jpg"]));
}

#[test]
fn supported_types() {
    for t in SUPPORTED_IMAGES_TYPES {
        assert!(supported_image_type(t));
    }
    assert!(!supported_image_type("JPG"));
    assert!(!supported_image_type("txt"));
}

#[test]
fn zip_pages_filter_and_dedup() {
    let names = strings(&["001.jpg", "ComicInfo.xml", "dir/002.png", "other/002.png", "003.txt", "001.jpg", "noext"]);
    assert_eq!(
        zip_page_names(&names),
        strings(&["001.jpg", "dir/002.png", "other/002.png", "001.jpg"])
    );
    let repeated = strings(&["a/1.jpg", "a/1.jpg", "b/1.jpg", "a/1.jpg"]);
    assert_eq!(zip_page_names(&repeated), strings(&["a/1.jpg", "b/1.jpg", "a/1.jpg"]));
}

#[test]
fn top_level_pages_only() {
    let names = strings(&["./001.jpg", "002.png", "dir/003.png", "ComicInfo.xml", "004.gif", "./sub/005.jpg"]);
    assert_eq!(top_level_page_names(&names), strings(&["001.jpg", "002.png", "004.gif"]));
    assert_eq!(cb7::top_level_page_names(&strings(&["a.webp"])), strings(&["a.webp"]));
}

#[test]
fn normalizing_current_dir() {
    assert_eq!(normalize_current_dir("./a/b.png"), "a/b.png");
    assert_eq!(normalize_current_dir("a/./b.png"), "a/b.png");
    assert_eq!(normalize_current_dir("a.png"), "a.png");
    assert_eq!(normalize_current_dir("."), "");
    assert!(same_entry_path("./test-metadata.txt", "test-metadata.txt"));
    assert!(same_entry_path("a//b.png", "./a/b.png"));
    assert!(!same_entry_path("a/b.png", "b.png"));
}

#[test]
fn matching_entries_in_archive_order() {
    let names = strings(&["ComicInfo.xml", "./001.jpg", "001.jpg", "dir/002.png"]);
    assert_eq!(first_matching_entry(&names, "001.jpg"), Some(1));
    assert_eq!(first_matching_entry(&names, "./001.jpg"), Some(1));
    assert_eq!(first_matching_entry(&names, "dir/./002.png"), Some(3));
    assert_eq!(first_matching_entry(&names, "002.png"), None);
    assert_eq!(cb7::first_matching_entry(&Vec::new(), "a.png"), None);
}

#[test]
fn listed_pages_name_their_entries() {
    let names = strings(&["./001.jpg", "dir/002.png", "./003.png", "004.gif", "ComicInfo.xml"]);
    let pages = top_level_page_names(&names);
    assert_eq!(pages, strings(&["001.jpg", "003.png", "004.gif"]));
    assert_eq!(first_matching_entry(&names, &pages[0]), Some(0));
    assert_eq!(first_matching_entry(&names, &pages[1]), Some(2));
    assert_eq!(first_matching_entry(&names, &pages[2]), Some(3));
}

#[test]
fn normalizing_twice_changes_nothing() {
    for p in ["./a/b.png", "a/./b.png", "./.", "/x/./y", "../z.png", "a//b/"] {
        let once = normalize_current_dir(p);
        assert_eq!(normalize_current_dir(&once), once);
    }
}

#[test]
fn pages_by_index() {
    let pages = strings(&["a", "b"]);
    assert_eq!(page_at(&pages, 1), Some(&"b".to_string()));
    assert_eq!(page_at(&pages, 2), None);
}

struct Listing {
    names: Vec<String>,
}

impl ComicBookReader for Listing {
    type Error = String;

    fn pages_unordered(&self) -> Vec<String> {
        self.names.clone()
    }

    fn get_file(&mut self, file: &str) -> Result<Vec<u8>, String> {
        if self.names.iter().any(|n| n == file) {
            Ok(file.as_bytes().to_vec())
        } else {
            Err(format!("the file {file} is not found"))
        }
    }
}

#[test]
fn reader_default_methods() {
    let mut reader = Listing { names: strings(&["b.png", "A.png"]) };
    assert_eq!(reader.pages(), strings(&["A.png", "b.png"]));
    assert_eq!(reader.get_page_by_index(0).unwrap(), Some(b"A.png".to_vec()));
    assert_eq!(reader.get_page_by_index_unordered(0).unwrap(), Some(b"b.png".to_vec()));
    assert_eq!(reader.get_page_by_index(2).unwrap(), None);
    assert!(reader.get_page_by_path("c.png").is_err());
}

#[test]
fn spool_only_for_solid_archives() {
    assert!(cb7::reads_from_spool(true, true));
    assert!(!cb7::reads_from_spool(true, false));
    assert!(!cb7::reads_from_spool(false, true));
}
