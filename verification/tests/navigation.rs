use luma_weaver::navigation::{
    browser_path_navigation, ensure_selected_graph_document_requested, websocket_url, PathNavigation,
};
use luma_weaver::protocol::ClientMessage;
use luma_weaver::navigation::{
    graph_id_from_path, graph_id_from_path_with_base, infer_base_path_from_location,
    join_base_path, normalize_base_path, route_path_for_view, strip_base_path, AppView,
};

#[test]
fn parses_graph_route() {
    assert_eq!(graph_id_from_path("/graphs/demo"), Some("demo".to_owned()));
    assert_eq!(graph_id_from_path("graphs/demo"), Some("demo".to_owned()));
}

#[test]
fn rejects_non_graph_routes() {
    assert_eq!(graph_id_from_path("/"), None);
    assert_eq!(graph_id_from_path("/graphs"), None);
    assert_eq!(graph_id_from_path("/graphs/demo/extra"), None);
}

#[test]
fn parses_graph_route_under_base_path() {
    assert_eq!(
        graph_id_from_path_with_base("/luma-weaver/graphs/demo", "/luma-weaver"),
        Some("demo".to_owned())
    );
    assert_eq!(graph_id_from_path_with_base("/luma-weaver/", "/luma-weaver"), None);
}

#[test]
fn infers_pages_base_path_from_dashboard_and_graph_routes() {
    assert_eq!(infer_base_path_from_location("/"), String::new());
    assert_eq!(infer_base_path_from_location("/luma-weaver/"), "/luma-weaver".to_owned());
    assert_eq!(
        infer_base_path_from_location("/luma-weaver/graphs/demo"),
        "/luma-weaver".to_owned()
    );
}

#[test]
fn graph_route_ignores_surrounding_slashes() {
    assert_eq!(graph_id_from_path("///graphs/demo///"), Some("demo".to_owned()));
    assert_eq!(graph_id_from_path("/graphs//demo"), None);
    assert_eq!(graph_id_from_path("/graph/demo"), None);
    assert_eq!(graph_id_from_path("/graphs/"), None);
}

#[test]
fn paths_outside_the_base_are_not_routes() {
    assert_eq!(graph_id_from_path_with_base("/other/graphs/demo", "/luma-weaver"), None);
    assert_eq!(graph_id_from_path_with_base("/luma-weaverx/graphs/demo", "/luma-weaver"), None);
    assert_eq!(strip_base_path("/luma-weaver", "/luma-weaver"), Some("/"));
    assert_eq!(strip_base_path("/luma-weaver/graphs", "/luma-weaver"), Some("/graphs"));
    assert_eq!(strip_base_path("/luma-weaverx", "/luma-weaver"), None);
    assert_eq!(strip_base_path("/anything", ""), Some("/anything"));
}

#[test]
fn joins_routes_onto_base_paths() {
    assert_eq!(join_base_path("", "/graphs/a"), "/graphs/a");
    assert_eq!(join_base_path("/base", "/"), "/base/");
    assert_eq!(join_base_path("/base", "/graphs/a"), "/base/graphs/a");
}

#[test]
fn normalizes_base_paths() {
    assert_eq!(normalize_base_path("/base///"), "/base");
    assert_eq!(normalize_base_path("///"), "");
    assert_eq!(normalize_base_path(""), "");
}

#[test]
fn route_of_each_view_under_a_base() {
    assert_eq!(route_path_for_view(AppView::Dashboard, Some("g"), "/base"), "/base/");
    assert_eq!(route_path_for_view(AppView::Editor, Some("g"), "/base"), "/base/graphs/g");
    assert_eq!(route_path_for_view(AppView::Editor, None, ""), "/");
}

#[test]
fn base_path_round_trips_through_a_graph_route() {
    let path = route_path_for_view(AppView::Editor, Some("demo"), "/luma-weaver");
    let base = infer_base_path_from_location(&path);
    assert_eq!(base, "/luma-weaver");
    assert_eq!(graph_id_from_path_with_base(&path, &base), Some("demo".to_owned()));
}

#[test]
fn the_selected_graph_is_requested_once() {
    let mut requested = None;
    match ensure_selected_graph_document_requested(Some("a"), None, &mut requested) {
        Some(ClientMessage::GetGraphDocument { id }) => assert_eq!(id, "a"),
        other => panic!("unexpected request {:?}", other),
    }
    assert_eq!(requested.as_deref(), Some("a"));
    assert!(ensure_selected_graph_document_requested(Some("a"), None, &mut requested).is_none());
    assert!(ensure_selected_graph_document_requested(Some("b"), Some("b"), &mut requested).is_none());
    assert_eq!(requested.as_deref(), Some("a"));
    assert!(ensure_selected_graph_document_requested(None, None, &mut requested).is_none());
    assert!(ensure_selected_graph_document_requested(Some("b"), Some("a"), &mut requested).is_some());
    assert_eq!(requested.as_deref(), Some("b"));
}

#[test]
fn websocket_url_follows_the_page_location() {
    assert_eq!(websocket_url(Some("https:"), Some("example.org")), "wss://example.org/ws");
    assert_eq!(websocket_url(Some("http:"), Some("localhost:8080")), "ws://localhost:8080/ws");
    assert_eq!(websocket_url(Some("https:"), Some("")), "wss://127.0.0.1:3000/ws");
    assert_eq!(websocket_url(None, None), "ws://127.0.0.1:3000/ws");
}

#[test]
fn browser_path_opens_the_addressed_graph_or_the_dashboard() {
    assert_eq!(
        browser_path_navigation("/app/graphs/demo", "/app", AppView::Dashboard, None),
        Some(PathNavigation::OpenGraph("demo".to_owned()))
    );
    assert_eq!(
        browser_path_navigation("/app/graphs/demo", "/app", AppView::Editor, Some("other")),
        Some(PathNavigation::OpenGraph("demo".to_owned()))
    );
    assert_eq!(browser_path_navigation("/app/graphs/demo", "/app", AppView::Editor, Some("demo")), None);
    assert_eq!(
        browser_path_navigation("/app/", "/app", AppView::Editor, Some("demo")),
        Some(PathNavigation::ReturnToDashboard)
    );
    assert_eq!(
        browser_path_navigation("/app/", "/app", AppView::Dashboard, Some("demo")),
        Some(PathNavigation::ReturnToDashboard)
    );
    assert_eq!(browser_path_navigation("/app/", "/app", AppView::Dashboard, None), None);
}

#[test]
fn editor_route_reads_back_under_its_inferred_base() {
    for (base, id) in [("", "demo"), ("/app", "g-1"), ("/a/b", "x")] {
        let path = format!("{base}/graphs/{id}");
        assert_eq!(
            graph_id_from_path_with_base(&path, &infer_base_path_from_location(&path)),
            Some(id.to_owned())
        );
    }
}
