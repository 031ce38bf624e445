use cable_timer::document::{Document, Member};

#[test]
fn parse_hands_out_the_members_of_an_object() {
    let document = Document::parse(br#"{"a":"x","b":1,"c":null,"d":{"e":"f"},"g":""}"#).unwrap();
    let text = |name: &str| document.member(name.as_bytes()).map(|member| member.text.clone());
    assert_eq!(text("a"), Some(Some(b"x".to_vec())));
    assert_eq!(text("b"), Some(None));
    assert_eq!(text("c"), Some(None));
    assert_eq!(text("d"), Some(None));
    assert_eq!(text("g"), Some(Some(Vec::new())));
    assert_eq!(text("e"), None);
    assert_eq!(text("A"), None);
    match &document {
        Document::Object(members) => assert_eq!(members.len(), 5),
        Document::Other => panic!("an object was parsed"),
    }
}

#[test]
fn parse_tells_objects_from_other_values() {
    assert_eq!(Document::parse(b"{}"), Some(Document::Object(vec![])));
    assert_eq!(Document::parse(b"[1, 2]"), Some(Document::Other));
    assert_eq!(Document::parse(b"\"text\""), Some(Document::Other));
    assert_eq!(Document::parse(b" 7 "), Some(Document::Other));
    assert_eq!(Document::parse(b"null"), Some(Document::Other));
}

#[test]
fn parse_refuses_what_is_not_json() {
    assert_eq!(Document::parse(b""), None);
    assert_eq!(Document::parse(b"{\"a\":}"), None);
    assert_eq!(Document::parse(b"{\"a\":1} {\"b\":2}"), None);
    assert_eq!(Document::parse(b"{\"a\":\"\xc3\x28\"}"), None);
}

#[test]
fn parse_gives_names_and_strings_in_utf8() {
    let document = Document::parse("{\"k\\u00e9y\":\"caf\\u00e9 ☕\"}".as_bytes()).unwrap();
    assert_eq!(
        document,
        Document::Object(vec![Member {
            name: "kéy".as_bytes().to_vec(),
            text: Some("café ☕".as_bytes().to_vec()),
        }])
    );
}

#[test]
fn member_finds_the_first_of_a_name() {
    let document = Document::Object(vec![
        Member { name: b"a".to_vec(), text: Some(b"1".to_vec()) },
        Member { name: b"b".to_vec(), text: None },
        Member { name: b"a".to_vec(), text: Some(b"2".to_vec()) },
    ]);
    assert_eq!(document.member(b"a").unwrap().text, Some(b"1".to_vec()));
    assert_eq!(document.member(b"b").unwrap().text, None);
    assert_eq!(document.member(b"c"), None);
    assert_eq!(document.member(b""), None);
    assert_eq!(Document::Other.member(b"a"), None);
}
