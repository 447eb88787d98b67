use vivs_images_webserver::str_map::StrMap;

fn pairs(m: &StrMap) -> Vec<(String, String)> {
    let mut v = Vec::new();
    for i in 0..m.len() {
        v.push((m.key_at(i).clone(), m.value_at(i).clone()));
    }
    v
}

#[test]
fn new_map_is_empty() {
    let m = StrMap::new();
    assert!(m.is_empty());
    assert_eq!(m.len(), 0);
    assert_eq!(m.get("a"), None);
}

#[test]
fn get_reads_back_what_insert_stored() {
    let mut m = StrMap::new();
    m.insert("a".to_string(), "1".to_string());
    m.insert("b".to_string(), "2".to_string());
    assert_eq!(m.get("a"), Some(&"1".to_string()));
    assert_eq!(m.get("b"), Some(&"2".to_string()));
    assert_eq!(m.get("c"), None);
    assert!(m.contains_key("a"));
    assert!(!m.contains_key("c"));
}

#[test]
fn insert_of_existing_key_replaces_in_place() {
    let mut m = StrMap::new();
    m.insert("a".to_string(), "1".to_string());
    m.insert("b".to_string(), "2".to_string());
    m.insert("a".to_string(), "3".to_string());
    assert_eq!(m.len(), 2);
    assert_eq!(
        pairs(&m),
        vec![("a".to_string(), "3".to_string()), ("b".to_string(), "2".to_string())]
    );
}

#[test]
fn remove_takes_out_the_key_only() {
    let mut m = StrMap::new();
    m.insert("a".to_string(), "1".to_string());
    m.insert("b".to_string(), "2".to_string());
    m.insert("c".to_string(), "3".to_string());
    assert_eq!(m.remove("b"), Some("2".to_string()));
    assert_eq!(m.get("b"), None);
    assert_eq!(m.get("a"), Some(&"1".to_string()));
    assert_eq!(m.get("c"), Some(&"3".to_string()));
    assert_eq!(m.len(), 2);
    assert_eq!(m.remove("b"), None);
    assert_eq!(m.len(), 2);
}

