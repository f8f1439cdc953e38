use nude::completers::{label_filter, LabelIndex, Suggestion};

fn labels() -> LabelIndex {
    let mut idx = LabelIndex::new();
    idx.insert("app".to_string(), "web".to_string());
    idx.insert("app".to_string(), "db".to_string());
    idx.insert("env".to_string(), "prod".to_string());
    idx
}

fn values(suggestions: &[Suggestion]) -> Vec<&str> {
    suggestions.iter().map(|s| s.value.as_str()).collect()
}

#[test]
fn nothing_typed_offers_every_key() {
    assert_eq!(values(&label_filter("", &labels())), ["app=", "env="]);
}

#[test]
fn after_key_eq_offers_that_key_values() {
    assert_eq!(
        values(&label_filter("app=", &labels())),
        ["app=db", "app=web"]
    );
}

#[test]
fn partial_value_still_offers_values_for_nushell_to_filter() {
    assert_eq!(
        values(&label_filter("app=w", &labels())),
        ["app=db", "app=web"]
    );
}

#[test]
fn exact_value_offers_the_separating_comma() {
    assert_eq!(values(&label_filter("app=web", &labels())), ["app=web,"]);
}

#[test]
fn next_key_keeps_the_committed_pairs() {
    assert_eq!(
        values(&label_filter("env=prod,ap", &labels())),
        ["env=prod,app=", "env=prod,env="]
    );
}

#[test]
fn comma_after_a_committed_pair_keeps_the_prefix() {
    assert_eq!(
        values(&label_filter("env=prod,app=web", &labels())),
        ["env=prod,app=web,"]
    );
}

#[test]
fn unknown_key_offers_nothing() {
    assert!(label_filter("nope=", &labels()).is_empty());
}

#[test]
fn candidates_never_end_the_token_with_a_space() {
    assert!(label_filter("app=", &labels())
        .iter()
        .all(|s| !s.append_whitespace));
}
