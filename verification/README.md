# cbz

Read and write comic book archives (`cbz`, `cbt`, `cb7`) with `ComicInfo.xml`
metadata, with the logic proved by Verus.

- `src/` is the verified library:
  - `comicinfo` — the metadata model (`ComicInfo`, `ComicPageInfo`, their
    builders, and the `YesNo`, `Manga`, `AgeRating`, `ComicPageType` and `Rating`
    values with their texts);
  - `read` — which archive entries are pages (`cbz`: any entry with an image
    extension, listed by its path in the archive, adjacent repeats removed; `cbt`/`cb7`: top-level
    entries only, each page naming its own entry so it reads back by its name),
    the case-insensitive stable order of pages, and the `ComicBookReader` trait;
  - `write` — how a writer numbers and names pages and what it records of each
    page in `ComicInfo.xml`; a proof shows that the pages it writes come back in
    writing order once sorted;
  - `text`, `path` — lexicographic order and lowercase of texts, and the
    `std::path` functions the readers rely on.
- `app/` holds the archive readers and writers themselves (zip, tar and 7z I/O,
  image encoding), the XML (de)serialisation of the metadata, and the float side
  of ratings.
- `tests/` runs the library on concrete values.
