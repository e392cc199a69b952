use behindthename::request::{lookup, lookup_exact};

#[test]
fn test_lookup_exact() {
    let req = lookup_exact("Angus");
    assert_eq!(
        req.url("asdf"),
        "https://www.behindthename.com/api/lookup.json?key=asdf&name=Angus&exact=yes"
    );
}

#[test]
fn test_lookup() {
    let req = lookup("Angus");
    assert_eq!(
        req.url("asdf"),
        "https://www.behindthename.com/api/lookup.json?key=asdf&name=Angus"
    );
}

#[test]
fn lookup_encodes_spaces_and_ampersands() {
    let req = lookup("Mary Ann&Jo");
    assert_eq!(
        req.url("a b"),
        "https://www.behindthename.com/api/lookup.json?key=a+b&name=Mary+Ann%26Jo"
    );
}
