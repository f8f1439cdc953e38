use nude::commands::image::split_ref;

#[test]
fn splits_repository_and_tag_at_the_last_colon() {
    assert_eq!(split_ref("nginx:latest"), (Some("nginx"), Some("latest")));
    assert_eq!(
        split_ref("localhost:5000/team/img:v1.2"),
        (Some("localhost:5000/team/img"), Some("v1.2"))
    );
}

#[test]
fn none_placeholder_and_empties_become_none() {
    assert_eq!(split_ref("<none>:<none>"), (None, None));
    assert_eq!(split_ref("repo:<none>"), (Some("repo"), None));
    assert_eq!(split_ref("<none>:latest"), (None, Some("latest")));
}
