use hostman::{
    apply_editor_pass, EditorPass, HostMan, HttpMethod, HttpRequest, KeyValueMap, RowEdit,
};

fn pairs(map: &KeyValueMap) -> Vec<(String, String)> {
    map.entries().clone()
}

fn s(text: &str) -> String {
    text.to_string()
}

#[test]
fn default_request_is_post_with_nothing_filled_in() {
    let req = HttpRequest::default();
    assert_eq!(req.method, HttpMethod::POST);
    assert_eq!(req.url, "");
    assert!(req.headers.is_empty());
    assert!(req.query_params.is_empty());
    assert!(req.body.is_empty());
}

#[test]
fn insert_replaces_value_of_existing_key() {
    let mut map = KeyValueMap::new();
    map.insert(s("a"), s("1"));
    map.insert(s("b"), s("2"));
    map.insert(s("a"), s("3"));
    assert_eq!(map.len(), 2);
    assert_eq!(map.get("a"), Some(&s("3")));
    assert_eq!(pairs(&map), vec![(s("a"), s("3")), (s("b"), s("2"))]);
}

#[test]
fn remove_returns_old_value_and_drops_key() {
    let mut map = KeyValueMap::new();
    map.insert(s("a"), s("1"));
    map.insert(s("b"), s("2"));
    assert_eq!(map.remove("a"), Some(s("1")));
    assert_eq!(map.remove("a"), None);
    assert!(!map.contains_key("a"));
    assert_eq!(pairs(&map), vec![(s("b"), s("2"))]);
}

#[test]
fn second_send_while_loading_is_ignored() {
    let mut hostman = HostMan::new();
    hostman.request.url = s("http://localhost/first");
    hostman.send_request();
    hostman.request.url = s("http://localhost/second");
    hostman.send_request();
    assert!(hostman.is_loading);
    let staged = hostman.check_pending_request().unwrap();
    assert_eq!(staged.url, "http://localhost/first");
    assert!(hostman.check_pending_request().is_none());
}

#[test]
fn snapshot_is_not_changed_by_later_edits() {
    let mut hostman = HostMan::new();
    hostman.request.headers.insert(s("X-Test"), s("1"));
    hostman.request.body.insert(s("a"), s("1"));
    hostman.send_request();
    hostman.request.headers.insert(s("X-Test"), s("2"));
    hostman.request.headers.insert(s("X-Other"), s("3"));
    hostman.request.body.remove("a");
    hostman.request.query_params.insert(s("q"), s("x"));
    let staged = hostman.pending_request.as_ref().unwrap();
    assert_eq!(pairs(&staged.headers), vec![(s("X-Test"), s("1"))]);
    assert_eq!(pairs(&staged.body), vec![(s("a"), s("1"))]);
    assert!(staged.query_params.is_empty());
}

#[test]
fn loading_ends_when_slot_is_filled() {
    let mut hostman = HostMan::new();
    hostman.send_request();
    hostman.poll_response("");
    assert!(hostman.is_loading);
    hostman.poll_response("Error: boom");
    assert!(!hostman.is_loading);
    assert_eq!(hostman.response, "Error: boom");
}

#[test]
fn renaming_two_rows_to_one_key_keeps_the_last() {
    let mut map = KeyValueMap::new();
    map.insert(s("k1"), s("v1"));
    map.insert(s("k2"), s("v2"));
    let pass = EditorPass {
        removed: None,
        edits: vec![
            RowEdit { old_key: s("k1"), new_key: s("same"), new_value: s("v1") },
            RowEdit { old_key: s("k2"), new_key: s("same"), new_value: s("v2") },
        ],
        add_clicked: false,
    };
    assert!(apply_editor_pass(&mut map, &pass));
    assert_eq!(map.len(), 1);
    assert_eq!(map.get("same"), Some(&s("v2")));
}

#[test]
fn editor_pass_removes_edits_and_adds() {
    let mut map = KeyValueMap::new();
    map.insert(s("a"), s("1"));
    map.insert(s("b"), s("2"));
    let pass = EditorPass {
        removed: Some(s("a")),
        edits: vec![RowEdit { old_key: s("b"), new_key: s("b"), new_value: s("20") }],
        add_clicked: true,
    };
    assert!(apply_editor_pass(&mut map, &pass));
    assert_eq!(map.get("a"), None);
    assert_eq!(map.get("b"), Some(&s("20")));
    assert_eq!(map.get(""), Some(&s("")));
    assert_eq!(map.len(), 2);
}

#[test]
fn add_collides_with_existing_empty_key() {
    let mut map = KeyValueMap::new();
    map.insert(s(""), s("filled"));
    let pass = EditorPass { removed: None, edits: Vec::new(), add_clicked: true };
    assert!(apply_editor_pass(&mut map, &pass));
    assert_eq!(map.len(), 1);
    assert_eq!(map.get(""), Some(&s("")));
}

#[test]
fn empty_pass_changes_nothing() {
    let mut map = KeyValueMap::new();
    map.insert(s("a"), s("1"));
    let pass = EditorPass { removed: None, edits: Vec::new(), add_clicked: false };
    assert!(!apply_editor_pass(&mut map, &pass));
    assert_eq!(pairs(&map), vec![(s("a"), s("1"))]);
}

#[test]
fn second_cycle_keeps_loading_until_new_text_arrives() {
    let mut hostman = HostMan::new();
    assert!(hostman.send_request());
    hostman.check_pending_request().unwrap();
    hostman.poll_response("Status 200 \nResponse: \"\\\"ok\\\"\"");
    assert!(!hostman.is_loading);

    // Send again: the shown response belongs to the last request and is cleared.
    assert!(hostman.send_request());
    assert!(hostman.is_loading);
    assert_eq!(hostman.response, "");
    // The slot has been emptied for the new request, so a poll keeps loading on.
    hostman.poll_response("");
    assert!(hostman.is_loading);
    // A further Send while loading stages nothing more.
    assert!(hostman.check_pending_request().is_some());
    assert!(!hostman.send_request());
    assert!(hostman.check_pending_request().is_none());
}

#[test]
fn clone_copies_the_request() {
    let mut req = HttpRequest::default();
    req.url = s("http://localhost/");
    req.body.insert(s("a"), s("1"));
    let copy = req.clone();
    req.body.insert(s("a"), s("2"));
    assert_eq!(copy.url, "http://localhost/");
    assert_eq!(pairs(&copy.body), vec![(s("a"), s("1"))]);
}
