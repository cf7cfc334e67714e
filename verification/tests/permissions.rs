use qxchat::permissions::{granted, DECLARED};

#[test]
fn declared_permissions_are_granted() {
    let r = granted(&DECLARED);
    let keys: Vec<&str> = r.iter().map(|(k, _)| k.as_str()).collect();
    assert_eq!(keys, vec!["camera", "microphone", "notifications", "storage"]);
    assert!(r.iter().all(|(_, v)| v == "granted"));
}

#[test]
fn duplicate_aliases_appear_once() {
    let r = granted(&["camera", "camera", "storage", "camera"]);
    let keys: Vec<&str> = r.iter().map(|(k, _)| k.as_str()).collect();
    assert_eq!(keys, vec!["camera", "storage"]);
    assert!(granted(&[]).is_empty());
}
