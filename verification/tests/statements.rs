use vivs_images_webserver::database::migration::Migration;
use vivs_images_webserver::database::statements::{
    check_rows_affected, column_names, column_names_of_kind, insert_sql, iptc_update_sql,
    thumbnail_insert_sql, width_length_sql,
};
use vivs_images_webserver::models::image::ImageFieldMeta;

fn meta(name: &str, table: &str, field_type: &str) -> ImageFieldMeta {
    ImageFieldMeta {
        name: name.to_string(),
        table_name: table.to_string(),
        label: name.to_uppercase(),
        description: String::new(),
        field_type: field_type.to_string(),
        default: None,
        example: None,
        category: None,
    }
}

#[test]
fn insert_sql_has_one_placeholder_per_column() {
    let cols = vec!["image_path".to_string(), "tag_name".to_string()];
    assert_eq!(
        insert_sql("image_tags", &cols),
        "INSERT INTO image_tags (image_path, tag_name) VALUES (?, ?);"
    );
    assert_eq!(insert_sql("t", &vec![]), "INSERT INTO t () VALUES ();");
}

#[test]
fn thumbnail_insert_puts_blob_columns_last() {
    let metas = vec![
        meta("image_path", "image_thumbnail", "string"),
        meta("thumbnail_data", "image_thumbnail", "blob"),
        meta("width_and_length", "image_thumbnail", "u32"),
        meta("thumbnail_format", "image_thumbnail", "u8"),
    ];
    assert_eq!(
        thumbnail_insert_sql(&metas),
        "INSERT INTO image_thumbnail (image_path, width_and_length, thumbnail_format,thumbnail_data) VALUES (?, ?, ?, ?);"
    );
    assert_eq!(column_names_of_kind(&metas, true), vec!["thumbnail_data".to_string()]);
    assert_eq!(
        column_names(&metas),
        vec!["image_path", "thumbnail_data", "width_and_length", "thumbnail_format"]
    );
}

#[test]
fn iptc_update_sets_each_column() {
    let cols = vec!["headline".to_string(), "city".to_string()];
    assert_eq!(
        iptc_update_sql(&cols),
        "\n        UPDATE image_iptc\n        SET headline = ?, city = ?, updated_at = CURRENT_TIMESTAMP\n        WHERE image_path = ?;\n    "
    );
}

#[test]
fn width_length_query_with_and_without_options() {
    assert_eq!(
        width_length_sql("=", None, None),
        "SELECT * FROM image_thumbnail WHERE image_path = ? AND width_and_length = ?"
    );
    assert_eq!(
        width_length_sql("<=", Some("width_and_length DESC"), Some(1)),
        "SELECT * FROM image_thumbnail WHERE image_path = ? AND width_and_length <= ? ORDER BY width_and_length DESC LIMIT 1"
    );
}

#[test]
fn one_row_changed_is_success() {
    assert_eq!(check_rows_affected("update", 1), Ok(()));
    assert_eq!(check_rows_affected("update", 0), Err("SQL update returned 0 rows".to_string()));
    assert_eq!(
        check_rows_affected("delete iptc", 12),
        Err("SQL delete iptc returned 12 rows".to_string())
    );
}

#[test]
fn migrations_from_file_and_from_rows() {
    let m = Migration::new_from_file(3, "add tags");
    assert_eq!(m.version, 3);
    assert_eq!(m.description, "add tags");
    assert_eq!(m.applied_at, "");
    let m = Migration::new_from_db(None, Some("x".to_string()), None);
    assert_eq!(m.version, 0);
    assert_eq!(m.description, "x");
    assert_eq!(m.applied_at, "");
}
