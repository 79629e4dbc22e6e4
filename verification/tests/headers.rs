use shareshot::headers::HeaderMap;

fn pair(name: &str, value: &str) -> (String, String) {
    (name.to_string(), value.to_string())
}

#[test]
fn new_header_map_is_empty() {
    let headers = HeaderMap::new();
    assert!(headers.is_empty());
    assert_eq!(headers.len(), 0);
    assert_eq!(headers.get("Authorization"), None);
    assert_eq!(headers.to_pairs(), vec![]);
    assert_eq!(HeaderMap::default(), headers);
}

#[test]
fn insert_appends_new_names_in_order() {
    let mut headers = HeaderMap::new();
    assert_eq!(headers.insert("b".to_string(), "2".to_string()), None);
    assert_eq!(headers.insert("a".to_string(), "1".to_string()), None);
    assert_eq!(headers.insert("".to_string(), "0".to_string()), None);
    assert_eq!(headers.len(), 3);
    assert!(!headers.is_empty());
    assert_eq!(headers.to_pairs(), vec![pair("b", "2"), pair("a", "1"), pair("", "0")]);
    assert_eq!(headers.get("a"), Some(&"1".to_string()));
    assert_eq!(headers.get("b"), Some(&"2".to_string()));
    assert_eq!(headers.get(""), Some(&"0".to_string()));
    assert_eq!(headers.get("c"), None);
}

#[test]
fn insert_replaces_the_value_of_a_known_name() {
    let mut headers = HeaderMap::new();
    headers.insert("a".to_string(), "1".to_string());
    headers.insert("b".to_string(), "2".to_string());
    assert_eq!(headers.insert("a".to_string(), "3".to_string()), Some("1".to_string()));
    assert_eq!(headers.len(), 2);
    assert_eq!(headers.to_pairs(), vec![pair("a", "3"), pair("b", "2")]);
    assert_eq!(headers.get("a"), Some(&"3".to_string()));
}

#[test]
fn header_names_are_told_apart_by_case() {
    let mut headers = HeaderMap::new();
    headers.insert("Accept".to_string(), "x".to_string());
    headers.insert("accept".to_string(), "y".to_string());
    assert_eq!(headers.len(), 2);
    assert_eq!(headers.get("ACCEPT"), None);
}
