use clevercloud_operator::svc::k8s::{finalizer, ObjectMeta};

fn meta(finalizers: Option<Vec<&str>>) -> ObjectMeta {
    ObjectMeta {
        name: Some("n".to_string()),
        namespace: None,
        uid: None,
        finalizers: finalizers.map(|list| list.iter().map(|f| f.to_string()).collect()),
    }
}

#[test]
fn add_sets_the_finalizer_once() {
    let once = finalizer::add(meta(None), "a");
    assert_eq!(once, meta(Some(vec!["a"])));
    assert!(finalizer::contains(&once, "a"));
    assert_eq!(finalizer::add(once, "a"), meta(Some(vec!["a"])));
    assert_eq!(finalizer::add(meta(Some(vec!["b"])), "a"), meta(Some(vec!["b", "a"])));
}

#[test]
fn remove_takes_the_finalizer_away() {
    assert_eq!(
        finalizer::remove(meta(Some(vec!["b", "a", "c", "a"])), "a"),
        meta(Some(vec!["b", "c"]))
    );
    assert_eq!(finalizer::remove(meta(Some(vec!["b"])), "a"), meta(Some(vec!["b"])));
    assert_eq!(finalizer::remove(meta(None), "a"), meta(None));
}

#[test]
fn remove_after_add_gives_the_finalizers_back() {
    let before = meta(Some(vec!["b", "c"]));
    assert_eq!(finalizer::remove(finalizer::add(before.clone(), "a"), "a"), before);
}

#[test]
fn contains_looks_at_every_finalizer() {
    assert!(!finalizer::contains(&meta(None), "a"));
    assert!(!finalizer::contains(&meta(Some(vec!["b", "aa"])), "a"));
    assert!(finalizer::contains(&meta(Some(vec!["b", "a"])), "a"));
}
