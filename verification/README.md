# vivs_images_webserver

The search, metadata and path logic of a web server for a personal image library,
written in Verus: every function in `src/` carries a contract that Verus proves.

- `src/models/` — the image records (IPTC, tags, thumbnails, OCR text, XMP), their
  number codes, and the search form's parameters (`query_params/`).
- `src/database/` — the search statement builder, the insert/update statements built
  from column descriptions, and migration records.
- `src/filesystem/` — recognising image and text files, rebasing paths.
- `src/metrics/` — comparisons of the disk with the database.
- `src/str_map.rs`, `src/text.rs` — an insertion-ordered string map with distinct keys,
  and the string operations everything else is built on.
- `src/case.rs`, `src/url.rs`, `src/io_error.rs` — the calls into `convert_case`,
  `url_escape` and `std::io::Error`, each behind a small trusted wrapper.
- `app/` — the server around the library: database access, the file system, the
  floating-point records (EXIF, brightness, aspect ratio, similarity) and `main`.
- `tests/` — tests of the library on concrete values.
