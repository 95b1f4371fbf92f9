use testcontainers_ext::labels::container_label_key;
use testcontainers_ext::labels::prune_label_key;
use testcontainers_ext::labels::scope_label_key;
use testcontainers_ext::labels::RequestLabels;
use testcontainers_ext::reaper::label_filter_strings;
use testcontainers_ext::reaper::label_triple;

#[test]
fn label_keys_exact() {
    assert_eq!(scope_label_key("proj-A"), "proj-A.testcontainers.scope");
    assert_eq!(container_label_key("proj-A"), "proj-A.testcontainers.container");
    assert_eq!(prune_label_key("proj-A"), "proj-A.testcontainers.prune");
}

#[test]
fn label_triple_entries_exact() {
    let triple = label_triple("proj-A", "redis");
    assert_eq!(triple.len(), 3);
    assert_eq!(triple[0].0, "proj-A.testcontainers.prune");
    assert_eq!(triple[0].1, "true");
    assert_eq!(triple[1].0, "proj-A.testcontainers.scope");
    assert_eq!(triple[1].1, "proj-A");
    assert_eq!(triple[2].0, "proj-A.testcontainers.container");
    assert_eq!(triple[2].1, "redis");
}

#[test]
fn label_triple_completes_request() {
    let labeled = RequestLabels::new().with_label_triple("proj-A", "redis");
    assert_eq!(labeled.len(), 3);
    assert_eq!(
        labeled.label_value("proj-A.testcontainers.scope"),
        Some(&String::from("proj-A"))
    );
    assert_eq!(
        labeled.label_value("proj-A.testcontainers.container"),
        Some(&String::from("redis"))
    );
    assert_eq!(
        labeled.label_value("proj-A.testcontainers.prune"),
        Some(&String::from("true"))
    );
    assert_eq!(labeled.label_value("proj-A.testcontainers.other"), None);
    assert_eq!(labeled.label_value("proj-B.testcontainers.scope"), None);
}

#[test]
fn later_label_entry_overrides_earlier() {
    let mut labels = RequestLabels::new();
    labels.add_label(String::from("color"), String::from("red"));
    labels.add_label(String::from("shape"), String::from("round"));
    labels.add_label(String::from("color"), String::from("blue"));
    assert_eq!(labels.label_value("color"), Some(&String::from("blue")));
    assert_eq!(labels.label_value("shape"), Some(&String::from("round")));
}

#[test]
fn reapplying_the_triple_is_safe() {
    let labeled = RequestLabels::new()
        .with_label_triple("proj-A", "redis")
        .with_label_triple("proj-A", "redis");
    assert_eq!(
        labeled.label_value("proj-A.testcontainers.scope"),
        Some(&String::from("proj-A"))
    );
    assert_eq!(
        labeled.label_value("proj-A.testcontainers.container"),
        Some(&String::from("redis"))
    );
    assert_eq!(
        labeled.label_value("proj-A.testcontainers.prune"),
        Some(&String::from("true"))
    );
}

#[test]
fn filter_strings_exact() {
    let filters = label_filter_strings("proj-A", "redis");
    assert_eq!(
        filters,
        vec![
            String::from("proj-A.testcontainers.prune=true"),
            String::from("proj-A.testcontainers.scope=proj-A"),
            String::from("proj-A.testcontainers.container=redis"),
        ]
    );
}
