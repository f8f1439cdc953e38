use nude::commands::container::{status_exit_code, status_health};

#[test]
fn health_is_parsed_from_the_status_line() {
    assert_eq!(
        status_health(Some("Up 12 hours (healthy)")),
        Some("healthy")
    );
    assert_eq!(
        status_health(Some("Up 2 minutes (unhealthy)")),
        Some("unhealthy")
    );
    assert_eq!(
        status_health(Some("Up Less than a second (health: starting)")),
        Some("starting")
    );
    assert_eq!(status_health(Some("Up 12 hours")), None);
    assert_eq!(status_health(Some("Exited (0) 47 hours ago")), None);
    assert_eq!(status_health(None), None);
}

#[test]
fn exit_code_is_parsed_from_the_status_line() {
    assert_eq!(status_exit_code(Some("Exited (0) 47 hours ago")), Some(0));
    assert_eq!(status_exit_code(Some("Exited (137) 3 days ago")), Some(137));
    assert_eq!(
        status_exit_code(Some("Restarting (1) 5 seconds ago")),
        Some(1)
    );
    assert_eq!(status_exit_code(Some("Up 12 hours (healthy)")), None);
    assert_eq!(status_exit_code(Some("Created")), None);
    assert_eq!(status_exit_code(None), None);
}
