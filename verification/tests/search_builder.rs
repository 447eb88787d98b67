use vivs_images_webserver::database::search::{SearchBuilder, SearchBuilderImageFeature, TableMetas};
use vivs_images_webserver::models::image::ImageFieldMeta;
use vivs_images_webserver::str_map::StrMap;

fn meta(name: &str, table: &str) -> ImageFieldMeta {
    ImageFieldMeta {
        name: name.to_string(),
        table_name: table.to_string(),
        label: name.to_string(),
        description: String::new(),
        field_type: "string".to_string(),
        default: None,
        example: None,
        category: None,
    }
}

fn table(name: &str, cols: &[&str]) -> Vec<ImageFieldMeta> {
    cols.iter().map(|c| meta(c, name)).collect()
}

fn strings(v: &[&str]) -> Vec<String> {
    v.iter().map(|s| s.to_string()).collect()
}

#[test]
fn empty_search_selects_everything() {
    let (sql, params) = SearchBuilder::new().build_sql();
    assert_eq!(sql, "SELECT * FROM image_paths    ");
    assert!(params.is_empty());
}

#[test]
fn full_search_statement() {
    let mut group = StrMap::new();
    group.insert("x = ?".to_string(), "1".to_string());
    group.insert("y = ?".to_string(), "".to_string());
    group.insert("z = ?".to_string(), "3".to_string());
    let b = SearchBuilder::new()
        .with_select_columns(strings(&["[image_paths].[image_path]"]))
        .with_get_paths(strings(&["/a", "/b"]))
        .with_criteria(vec![("AND".to_string(), group), ("OR".to_string(), StrMap::new())])
        .with_order_by("image_path")
        .with_pagination(10, 20);
    let (sql, params) = b.build_sql();
    assert_eq!(
        sql,
        "SELECT [image_paths].[image_path] FROM image_paths  WHERE image_paths.image_path IN (?, ?) AND (x = ? AND z = ?) ORDER BY image_path LIMIT 10 OFFSET 20"
    );
    assert_eq!(params, strings(&["/a", "/b", "1", "3"]));
    let (count_sql, count_params) = b.build_count_sql();
    assert_eq!(count_sql, format!("SELECT COUNT(*) as count FROM ({}) as subquery", sql));
    assert_eq!(count_params, params);
}

#[test]
fn group_with_empty_operator_keeps_its_condition() {
    let mut group = StrMap::new();
    group.insert("image_paths.image_path = ?".to_string(), "/p.jpg".to_string());
    let (sql, params) = SearchBuilder::new()
        .with_criteria(vec![("".to_string(), group)])
        .with_limit(1)
        .build_sql();
    assert_eq!(sql, "SELECT * FROM image_paths  WHERE (image_paths.image_path = ?)  LIMIT 1 ");
    assert_eq!(params, strings(&["/p.jpg"]));
}

#[test]
fn empty_path_list_adds_no_condition() {
    let (sql, _) = SearchBuilder::new().with_get_paths(vec![]).with_offset(5).build_sql();
    assert_eq!(sql, "SELECT * FROM image_paths    OFFSET 5");
}

#[test]
fn nested_search_binds_its_parameters_after_the_select_ones() {
    let inner = SearchBuilder::new().with_get_paths(strings(&["/x"]));
    let (inner_sql, _) = SearchBuilder::new().with_get_paths(strings(&["/x"])).build_sql();
    let outer = SearchBuilder::new()
        .with_select_clause_param("s".to_string())
        .with_base_table_as_select(inner)
        .with_join("LEFT JOIN t ON t.image_path = image_paths.image_path");
    let (sql, params) = outer.build_sql();
    assert_eq!(
        sql,
        format!(
            "SELECT * FROM ({}) image_paths\n  LEFT JOIN t ON t.image_path = image_paths.image_path    ",
            inner_sql
        )
    );
    assert_eq!(params, strings(&["s", "/x"]));
}

#[test]
fn tables_are_selected_and_joined() {
    let b = SearchBuilder::new()
        .with_field_meta_columns(table("image_paths", &["image_path"]))
        .with_tables(vec![SearchBuilderImageFeature::from_meta(
            "image_exif",
            &table("image_exif", &["camera", "lens"]),
        )]);
    let (sql, _) = b.build_sql();
    assert_eq!(
        sql,
        "SELECT [image_paths].[image_path], [image_exif].[camera], [image_exif].[lens] FROM image_paths\n  LEFT JOIN image_exif ON image_paths.image_path = image_exif.image_path    "
    );
    assert_eq!(b.get_tables_selected(), strings(&["image_paths", "image_exif", "image_exif"]));
}

fn metas() -> TableMetas {
    TableMetas {
        image_paths: table("image_paths", &["image_path"]),
        image_similarity_single: table("image_similarity", &["image_path_a", "similarity_value"]),
        image_exif: table("image_exif", &["image_path", "camera"]),
        image_brightness: table("image_brightness", &["image_path", "brightness"]),
        image_ocr_text: table("image_ocr_text", &["image_path"]),
        image_aspect_ratio: table("image_aspect_ratio", &["image_path", "aspect_ratio"]),
        image_iptc: table("image_iptc", &["image_path", "city"]),
        image_xmp: table("image_xmp", &["image_path", "xmp"]),
    }
}

#[test]
fn default_tables_skip_each_tables_path_column() {
    let b = SearchBuilder::new().with_default_tables(&metas());
    assert_eq!(
        b.get_tables_selected(),
        strings(&["image_paths", "image_exif", "image_brightness", "image_aspect_ratio", "image_iptc", "image_xmp"])
    );
    let (sql, _) = b.build_sql();
    assert!(sql.starts_with(
        "SELECT [image_paths].[image_path], [image_exif].[camera], [image_brightness].[brightness], [image_aspect_ratio].[aspect_ratio], [image_iptc].[city], [image_xmp].[xmp] FROM image_paths\n  LEFT JOIN image_exif ON image_paths.image_path = image_exif.image_path\n  LEFT JOIN image_brightness"
    ));
    assert!(sql.contains("\n  LEFT JOIN image_ocr_text ON image_paths.image_path = image_ocr_text.image_path\n"));
}

#[test]
fn default_tables_on_similarity_base() {
    let b = SearchBuilder::new().with_base_table("image_similarity").with_default_tables(&metas());
    assert_eq!(b.base_table(), "image_similarity");
    let (sql, _) = b.build_sql();
    assert!(sql.starts_with(
        "SELECT [image_similarity].[image_path_a], [image_similarity].[similarity_value], [image_exif].[camera]"
    ));
    assert!(sql.contains("LEFT JOIN image_xmp ON image_similarity.image_path = image_xmp.image_path"));
}
