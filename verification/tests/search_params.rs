use vivs_images_webserver::models::image::ImageFieldMeta;
use vivs_images_webserver::models::query_params::default_search_params::get_image_wallpaper_based_on_brightness_search_params;
use vivs_images_webserver::models::query_params::search_params::{
    SearchParamFieldInput, SearchParamFieldList, SearchParamFieldMeta, SearchParamFieldOutput,
    SearchParams,
};
use vivs_images_webserver::str_map::StrMap;

fn meta(name: &str, input_type: &str, sql_field: Option<&str>, default: Option<&str>) -> SearchParamFieldMeta {
    SearchParamFieldMeta {
        name: name.to_string(),
        label: format!("{} label", name),
        input_type: input_type.to_string(),
        placeholder: "type here".to_string(),
        sql_field: sql_field.map(|s| s.to_string()),
        default: default.map(|s| s.to_string()),
        is_regular: true,
        is_advanced: false,
        is_for_display: false,
    }
}

fn field(
    name: &str,
    input_type: &str,
    sql_field: Option<&str>,
    default: Option<&str>,
    value: Option<&str>,
) -> SearchParamFieldOutput {
    SearchParamFieldOutput {
        field_meta: meta(name, input_type, sql_field, default),
        field_input: SearchParamFieldInput { name: name.to_string(), value: value.map(|s| s.to_string()) },
    }
}

fn entries(m: &StrMap) -> Vec<(String, String)> {
    (0..m.len()).map(|i| (m.key_at(i).clone(), m.value_at(i).clone())).collect()
}

fn pair(k: &str, v: &str) -> (String, String) {
    (k.to_string(), v.to_string())
}

fn values(p: &SearchParams) -> Vec<(String, Option<String>)> {
    p.fields.iter().map(|f| (f.field_meta.name.clone(), f.field_input.value.clone())).collect()
}

#[test]
fn number_field_html_allows_any_step() {
    let f = field("brightness_min", "number", Some("brightness"), None, Some("0.5"));
    assert_eq!(
        f.to_html(),
        "<div class=\"form-group\">\n                <label for=\"brightness_min\">brightness_min label</label>\n                <input type=\"number\" id=\"brightness_min\" name=\"brightness_min\" placeholder=\"type here\" value=\"0.5\" step=\"any\"/>\n            </div>"
    );
}

#[test]
fn field_list_html_is_one_field_per_line() {
    let list = SearchParamFieldList::new(vec![
        field("a", "text", None, None, None),
        field("b", "checkbox", None, None, Some("true")),
    ]);
    let a = "<div class=\"form-group\">\n                <label for=\"a\">a label</label>\n                <input type=\"text\" id=\"a\" name=\"a\" placeholder=\"type here\" value=\"\" />\n            </div>";
    let b = "<div class=\"form-group\">\n                <label for=\"b\">b label</label>\n                <input type=\"checkbox\" id=\"b\" name=\"b\" placeholder=\"type here\" value=\"true\" />\n            </div>";
    assert_eq!(list.to_html(), format!("{}\n{}", a, b));
    assert_eq!(SearchParamFieldList::new(vec![]).to_html(), "");
}

#[test]
fn comparison_operator_follows_type_and_name() {
    assert_eq!(field("size_min", "number", Some("s"), None, None).get_sql_comparison_operator(), Some(">="));
    assert_eq!(field("size_max", "number", Some("s"), None, None).get_sql_comparison_operator(), Some("<="));
    assert_eq!(field("size", "number", Some("s"), None, None).get_sql_comparison_operator(), Some("="));
    assert_eq!(field("taken_min", "date", Some("d"), None, None).get_sql_comparison_operator(), Some(">="));
    assert_eq!(field("title", "text", Some("t"), None, None).get_sql_comparison_operator(), Some("LIKE"));
    assert_eq!(field("flag", "checkbox", Some("f"), None, None).get_sql_comparison_operator(), Some("="));
    assert_eq!(field("title", "text", None, None, None).get_sql_comparison_operator(), None);
}

#[test]
fn sql_condition_uses_value_or_default() {
    let mut m = StrMap::new();
    field("title", "text", Some("ocr_text"), None, Some("cat")).add_sql_condition(&mut m);
    field("brightness_min", "number", Some("brightness"), Some("5"), None).add_sql_condition(&mut m);
    field("brightness_max", "number", Some("brightness"), Some("9"), Some("")).add_sql_condition(&mut m);
    field("other", "number", None, Some("1"), Some("2")).add_sql_condition(&mut m);
    assert_eq!(
        entries(&m),
        vec![pair("ocr_text LIKE ?", "%cat%"), pair("brightness >= ?", "5")]
    );
}

fn sample_params() -> SearchParams {
    SearchParams {
        fields: vec![
            field("query", "text", None, None, Some("dog")),
            field("title", "text", Some("image_ocr_text.ocr_text"), None, None),
            field("brightness_min", "number", Some("image_brightness.brightness"), Some("0.2"), Some("0.2")),
            field("limit", "number", None, Some("50"), None),
            field("offset", "number", None, None, Some("20")),
            field("use_simple_view", "checkbox", None, None, Some("true")),
            field("category", "text", None, None, Some("")),
        ],
    }
}

#[test]
fn getters_read_the_fields() {
    let p = sample_params();
    assert_eq!(p.get_query(), Some("dog".to_string()));
    assert_eq!(p.get_limit(), Some(50));
    assert_eq!(p.get_offset(), Some(20));
    assert_eq!(p.get_use_simple_view(), Some(true));
    assert_eq!(p.get_category(), None);
    assert_eq!(p.get_category_value(), None);
    assert_eq!(SearchParams::default().get_limit(), None);
}

#[test]
fn unparsable_limit_is_none() {
    let p = SearchParams { fields: vec![field("limit", "number", None, Some("50"), Some("ten"))] };
    assert_eq!(p.get_limit(), None);
    let p = SearchParams { fields: vec![field("limit", "number", None, Some("50"), Some("-7"))] };
    assert_eq!(p.get_limit(), Some(-7));
    let p = SearchParams { fields: vec![field("use_simple_view", "checkbox", None, None, Some("no"))] };
    assert_eq!(p.get_use_simple_view(), Some(false));
}

#[test]
fn sql_query_params_have_a_text_search_group_for_a_query() {
    let groups = sample_params().into_sql_query_params();
    assert_eq!(groups.len(), 2);
    assert_eq!(entries(&groups[0]), vec![pair("image_ocr_text.ocr_text LIKE ?", "%dog%")]);
    assert_eq!(entries(&groups[1]), vec![pair("image_brightness.brightness >= ?", "0.2")]);
    let no_query = SearchParams { fields: vec![field("title", "text", Some("t"), None, Some("x"))] };
    let groups = no_query.into_sql_query_params();
    assert_eq!(groups.len(), 1);
    assert_eq!(entries(&groups[0]), vec![pair("t LIKE ?", "%x%")]);
}

#[test]
fn html_params_leave_out_defaults() {
    let m = sample_params().into_html_params();
    assert_eq!(
        entries(&m),
        vec![pair("query", "dog"), pair("offset", "20"), pair("use_simple_view", "true")]
    );
}

#[test]
fn to_string_lists_the_given_values() {
    let mut p = sample_params();
    p.fields[1].field_meta.is_for_display = true;
    assert_eq!(
        p.to_string(),
        "query label: dog, brightness_min label: 0.2, offset label: 20, use_simple_view label: true, category label: "
    );
}

#[test]
fn set_field_value_moves_the_field_to_the_end() {
    let mut p = sample_params();
    p.set_field_value("limit", Some("10".to_string()));
    assert_eq!(p.fields.len(), 7);
    assert_eq!(p.fields[6].field_meta.name, "limit");
    assert_eq!(p.fields[6].field_input.value, Some("10".to_string()));
    assert_eq!(p.get_limit(), Some(10));
    p.set_field_value("no_such_field", Some("1".to_string()));
    assert_eq!(p.fields.len(), 7);
    assert_eq!(p.fields[0].field_meta.name, "query");
}

#[test]
fn wallpaper_search_starts_from_no_field() {
    let p = get_image_wallpaper_based_on_brightness_search_params("0.35", "0.65");
    assert_eq!(p.fields.len(), 0);
}

#[test]
fn params_from_map_follow_the_field_descriptions() {
    let metas = vec![
        meta("a", "text", None, None),
        meta("b", "text", None, Some("x")),
        meta("c", "text", None, None),
    ];
    let mut m = StrMap::new();
    m.insert("a".to_string(), "".to_string());
    m.insert("b".to_string(), "".to_string());
    m.insert("z".to_string(), "ignored".to_string());
    let p = SearchParams::new_from_hashmap(&m, &metas);
    assert_eq!(
        values(&p),
        vec![("a".to_string(), None), ("b".to_string(), Some("".to_string())), ("c".to_string(), None)]
    );
}

#[test]
fn params_from_query_string() {
    let metas = vec![
        meta("query", "text", None, None),
        meta("flag", "checkbox", None, None),
        meta("limit", "number", None, Some("50")),
        meta("offset", "number", None, Some("0")),
    ];
    let p = SearchParams::new_from_querystring("query=hello%20world&flag=on&limit=50&offset=30", &metas);
    assert_eq!(
        values(&p),
        vec![
            ("query".to_string(), Some("hello world".to_string())),
            ("flag".to_string(), Some("true".to_string())),
            ("limit".to_string(), None),
            ("offset".to_string(), Some("30".to_string())),
        ]
    );
    assert_eq!(p.get_limit(), Some(50));
    assert_eq!(p.get_offset(), Some(30));
}

#[test]
fn query_string_without_value_or_with_repeated_key() {
    let metas = vec![meta("query", "text", None, None), meta("flag", "checkbox", None, None)];
    let p = SearchParams::new_from_querystring("flag&query=a&query=b", &metas);
    assert_eq!(
        values(&p),
        vec![("query".to_string(), Some("b".to_string())), ("flag".to_string(), Some("true".to_string()))]
    );
    let p = SearchParams::new_from_querystring("", &metas);
    assert_eq!(values(&p), vec![("query".to_string(), None), ("flag".to_string(), None)]);
}

#[test]
fn columns_to_display_are_trimmed() {
    let p = SearchParams { fields: vec![field("columns_to_display", "text", None, None, Some(" a , b,c"))] };
    assert_eq!(p.get_columns_to_display(), Some(vec!["a".to_string(), "b".to_string(), "c".to_string()]));
    let p = SearchParams { fields: vec![field("columns_to_display", "text", None, None, Some(""))] };
    assert_eq!(p.get_columns_to_display(), None);
    assert_eq!(SearchParams::default().get_columns_to_display(), None);
}

#[test]
fn column_titles_come_from_the_labels() {
    let all_meta = vec![ImageFieldMeta {
        name: "brightness".to_string(),
        table_name: "image_brightness".to_string(),
        label: "Brightness".to_string(),
        description: String::new(),
        field_type: "f64".to_string(),
        default: None,
        example: None,
        category: None,
    }];
    let cols = vec!["thumbnail".to_string(), "path".to_string(), "brightness".to_string(), "unknown".to_string()];
    assert_eq!(
        SearchParams::get_column_titles(&cols, &all_meta),
        vec!["Thumbnail".to_string(), "Path".to_string(), "Brightness".to_string()]
    );
}

#[test]
fn html_params_read_back_as_the_same_search() {
    let metas = vec![
        meta("query", "text", None, None),
        meta("brightness_min", "number", Some("image_brightness.brightness"), Some("0.2")),
        meta("limit", "number", None, Some("50")),
        meta("offset", "number", None, None),
        meta("category", "text", None, None),
    ];
    let mut m = StrMap::new();
    m.insert("query".to_string(), "dog".to_string());
    m.insert("brightness_min".to_string(), "0.2".to_string());
    m.insert("offset".to_string(), "40".to_string());
    m.insert("category".to_string(), "".to_string());
    let p = SearchParams::new_from_hashmap(&m, &metas);
    let q = SearchParams::new_from_hashmap(&p.into_html_params(), &metas);
    assert_eq!(q.get_query(), p.get_query());
    assert_eq!(q.get_query(), Some("dog".to_string()));
    assert_eq!(q.get_offset(), p.get_offset());
    assert_eq!(q.get_offset(), Some(40));
    assert_eq!(q.get_category(), p.get_category());
    assert_eq!(q.get_limit(), Some(50));
    assert_eq!(entries(&q.into_html_params()), entries(&p.into_html_params()));
}
