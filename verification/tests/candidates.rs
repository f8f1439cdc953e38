use nude::commands::container::{complete_ids, complete_names, ContainerSummary};
use nude::commands::image::{complete_refs, ImageSummary};
use nude::commands::volume::{complete_drivers, Volume};
use nude::completers::{
    flag_prefix, from_pairs, label_filter_from, static_candidates, CompletionSource, Suggestion,
};

fn values(suggestions: &[Suggestion]) -> Vec<&str> {
    suggestions.iter().map(|s| s.value.as_str()).collect()
}

fn volume(name: &str, driver: &str) -> Volume {
    Volume {
        name: name.to_string(),
        driver: driver.to_string(),
        scope: None,
        created_at: None,
        mountpoint: String::new(),
        options: vec![],
        usage: None,
        labels: vec![],
    }
}

fn image(tags: &[&str]) -> ImageSummary {
    ImageSummary {
        id: "sha256:0".to_string(),
        repo_tags: tags.iter().map(|t| t.to_string()).collect(),
        created: 0,
        size: 0,
        labels: vec![],
    }
}

#[test]
fn pairs_keep_their_order_and_drop_empty_descriptions() {
    let s = from_pairs(&[("a", "first"), ("b", "")]);
    assert_eq!(values(&s), ["a", "b"]);
    assert_eq!(s[0].description.as_deref(), Some("first"));
    assert_eq!(s[1].description, None);
    assert!(s.iter().all(|c| c.append_whitespace));
}

#[test]
fn closed_sets_need_no_daemon() {
    let formats = static_candidates(CompletionSource::OutputFormats).unwrap();
    assert_eq!(values(&formats), ["compact", "wide", "full"]);
    let health = static_candidates(CompletionSource::Health).unwrap();
    assert_eq!(values(&health), ["starting", "healthy", "unhealthy", "none"]);
    assert_eq!(static_candidates(CompletionSource::Status).unwrap().len(), 7);
    assert_eq!(static_candidates(CompletionSource::Capabilities).unwrap().len(), 6);
    assert!(static_candidates(CompletionSource::ContainerNames).is_none());
    assert!(static_candidates(CompletionSource::Nothing).is_none());
}

#[test]
fn the_completion_cursor_is_stripped_when_asked() {
    assert_eq!(flag_prefix("app=wX", true), "app=w");
    assert_eq!(flag_prefix("app=wX", false), "app=wX");
    assert_eq!(flag_prefix("", true), "");
}

#[test]
fn image_refs_skip_the_untagged_placeholder() {
    let images = vec![image(&["nginx:latest", "<none>:<none>"]), image(&[]), image(&["redis:7"])];
    let refs = complete_refs(&images);
    assert_eq!(values(&refs), ["nginx:latest", "redis:7"]);
    assert!(refs.iter().all(|s| s.description.is_none() && s.append_whitespace));
}

#[test]
fn volume_drivers_are_distinct_and_sorted() {
    let volumes = vec![
        volume("a", "local"),
        volume("b", "zfs"),
        volume("c", "local"),
        volume("d", "azure"),
    ];
    let drivers = complete_drivers(&volumes);
    assert_eq!(values(&drivers), ["azure", "local", "zfs"]);
    assert!(complete_drivers(&vec![]).is_empty());
}

#[test]
fn volume_and_container_names_carry_a_description() {
    let names = nude::commands::volume::complete_names(&vec![volume("data", "local")]);
    assert_eq!(values(&names), ["data"]);
    assert_eq!(names[0].description.as_deref(), Some("local"));
    let summaries = vec![
        ContainerSummary {
            id: Some("abc".to_string()),
            names: Some(vec!["/web".to_string()]),
            image: None,
            state: None,
            status: Some("Up 1 hour".to_string()),
            created: None,
            labels: None,
        },
        ContainerSummary {
            id: None,
            names: None,
            image: None,
            state: None,
            status: None,
            created: None,
            labels: None,
        },
    ];
    let by_name = complete_names(&summaries);
    assert_eq!(values(&by_name), ["web"]);
    assert_eq!(by_name[0].description.as_deref(), Some("Up 1 hour"));
    let by_id = complete_ids(&summaries);
    assert_eq!(values(&by_id), ["abc"]);
    assert_eq!(by_id[0].description.as_deref(), Some("web"));
}

#[test]
fn labels_from_several_objects_are_merged() {
    let maps = vec![
        vec![("app".to_string(), "web".to_string()), ("env".to_string(), "prod".to_string())],
        vec![("app".to_string(), "db".to_string()), ("app".to_string(), "web".to_string())],
    ];
    assert_eq!(values(&label_filter_from("", &maps)), ["app=", "env="]);
    assert_eq!(values(&label_filter_from("env=prod,app=", &maps)), ["env=prod,app=db", "env=prod,app=web"]);
    assert_eq!(values(&label_filter_from("app=db", &maps)), ["app=db,"]);
    assert!(label_filter_from("tier=", &maps).is_empty());
}

#[test]
fn label_completion_cycles_key_value_comma() {
    let maps = vec![vec![
        ("app".to_string(), "web".to_string()),
        ("app".to_string(), "db".to_string()),
        ("env".to_string(), "prod".to_string()),
    ]];
    assert_eq!(values(&label_filter_from("env=prod,app=", &maps)), ["env=prod,app=db", "env=prod,app=web"]);
    assert_eq!(values(&label_filter_from("env=prod,app=web", &maps)), ["env=prod,app=web,"]);
    assert_eq!(
        values(&label_filter_from("env=prod,app=web,", &maps)),
        ["env=prod,app=web,app=", "env=prod,app=web,env="]
    );
    assert!(label_filter_from("app=", &maps).iter().all(|s| !s.append_whitespace));
}

#[test]
fn a_label_seen_twice_is_offered_once() {
    let mut idx = nude::completers::LabelIndex::new();
    idx.insert("app".to_string(), "web".to_string());
    idx.insert("app".to_string(), "web".to_string());
    idx.insert("zone".to_string(), "a".to_string());
    idx.insert("app".to_string(), "api".to_string());
    assert_eq!(values(&nude::completers::label_filter("", &idx)), ["app=", "zone="]);
    assert_eq!(values(&nude::completers::label_filter("app=", &idx)), ["app=api", "app=web"]);
}
