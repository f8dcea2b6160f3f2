//! Frontend routing: graph routes, deployment base paths, and the path of each view.
//!
//! The editor lives at `<base>/graphs/<graph_id>`; the dashboard at `<base>/`.

use vstd::prelude::*;
use crate::protocol::ClientMessage;
use crate::session::optional_text;
use crate::text::{
    find_text, first_occurrence, occurs_at, starts_with, starts_with_text, str_equal, text_of,
};

verus! {

/// `s` without leading `/` characters.
pub open spec fn trim_start_slashes(s: Seq<char>) -> Seq<char>
    decreases s.len(),
{
    if s.len() > 0 && s[0] == '/' {
        trim_start_slashes(s.skip(1))
    } else {
        s
    }
}

/// `s` without trailing `/` characters.
pub open spec fn trim_end_slashes(s: Seq<char>) -> Seq<char>
    decreases s.len(),
{
    if s.len() > 0 && s.last() == '/' {
        trim_end_slashes(s.drop_last())
    } else {
        s
    }
}

/// `s` without leading and trailing `/` characters.
pub open spec fn trim_slashes(s: Seq<char>) -> Seq<char> {
    trim_end_slashes(trim_start_slashes(s))
}

fn trim_end_slash(s: &str) -> (trimmed: &str)
    ensures
        trimmed@ == trim_end_slashes(s@),
{
    let length = s.unicode_len();
    let mut end: usize = length;
    assert(s@ =~= s@.subrange(0, end as int));
    while end > 0 && s.get_char(end - 1) == '/'
        invariant
            length == s@.len(),
            end <= length,
            trim_end_slashes(s@) == trim_end_slashes(s@.subrange(0, end as int)),
        decreases end,
    {
        assert(s@.subrange(0, end as int).drop_last() =~= s@.subrange(0, end - 1));
        end = end - 1;
    }
    s.substring_char(0, end)
}

fn trim_slash(s: &str) -> (trimmed: &str)
    ensures
        trimmed@ == trim_slashes(s@),
{
    let length = s.unicode_len();
    let mut start: usize = 0;
    assert(s@.skip(0) =~= s@);
    while start < length && s.get_char(start) == '/'
        invariant
            length == s@.len(),
            start <= length,
            trim_start_slashes(s@) == trim_start_slashes(s@.skip(start as int)),
        decreases length - start,
    {
        assert(s@.skip(start as int).skip(1) =~= s@.skip(start + 1));
        start = start + 1;
    }
    assert(trim_start_slashes(s@) == s@.skip(start as int));
    let rest = s.substring_char(start, length);
    assert(rest@ =~= s@.skip(start as int));
    trim_end_slash(rest)
}

/// The part of `pathname` below `base_path`: all of it when there is no base, `/` at the base
/// itself, and what follows the base when that starts with `/`; nothing otherwise.
pub open spec fn strip_base(pathname: Seq<char>, base_path: Seq<char>) -> Option<Seq<char>> {
    if base_path.len() == 0 {
        Some(pathname)
    } else if pathname == base_path {
        Some("/"@)
    } else if starts_with_text(pathname, base_path) && starts_with_text(
        pathname.skip(base_path.len() as int),
        "/"@,
    ) {
        Some(pathname.skip(base_path.len() as int))
    } else {
        None
    }
}

/// Returns the part of `pathname` below `base_path`, if the path lies under that base.
pub fn strip_base_path<'a>(pathname: &'a str, base_path: &str) -> (relative: Option<&'a str>)
    ensures
        match strip_base(pathname@, base_path@) {
            Some(r) => relative matches Some(t) && t@ == r,
            None => relative is None,
        },
{
    let base_length = base_path.unicode_len();
    if base_length == 0 {
        return Some(pathname);
    }
    if str_equal(pathname, base_path) {
        return Some("/");
    }
    if !starts_with(pathname, base_path) {
        return None;
    }
    let suffix = pathname.substring_char(base_length, pathname.unicode_len());
    assert(suffix@ =~= pathname@.skip(base_length as int));
    if starts_with(suffix, "/") {
        Some(suffix)
    } else {
        None
    }
}

/// The graph id that a route path below the base names: the route, slashes trimmed, must be
/// exactly `graphs/<graph_id>` with a non-empty id free of `/`.
pub open spec fn graph_route_id(route: Seq<char>) -> Option<Seq<char>> {
    let trimmed = trim_slashes(route);
    if starts_with_text(trimmed, "graphs/"@) && trimmed.len() > 7 && !trimmed.skip(7).contains(
        '/',
    ) {
        Some(trimmed.skip(7))
    } else {
        None
    }
}

/// The graph id that `pathname` addresses under `base_path`, if it is a graph route.
pub open spec fn graph_id_under(pathname: Seq<char>, base_path: Seq<char>) -> Option<Seq<char>> {
    match strip_base(pathname, base_path) {
        Some(route) => graph_route_id(route),
        None => None,
    }
}

fn contains_char(s: &str, c: char) -> (found: bool)
    ensures
        found == s@.contains(c),
{
    let length = s.unicode_len();
    let mut i: usize = 0;
    while i < length
        invariant
            length == s@.len(),
            i <= length,
            forall|k: int| 0 <= k < i ==> s@[k] != c,
        decreases length - i,
    {
        if s.get_char(i) == c {
            assert(s@[i as int] == c);
            return true;
        }
        i = i + 1;
    }
    false
}

/// Extracts a graph ID from a frontend route path under a deployment base path.
///
/// The route format is `<base>/graphs/<graph_id>`.
pub fn graph_id_from_path_with_base(pathname: &str, base_path: &str) -> (graph_id: Option<String>)
    ensures
        match graph_id_under(pathname@, base_path@) {
            Some(id) => graph_id matches Some(g) && g@ == id,
            None => graph_id is None,
        },
{
    let route = match strip_base_path(pathname, base_path) {
        Some(route) => route,
        None => return None,
    };
    let trimmed = trim_slash(route);
    let length = trimmed.unicode_len();
    if !starts_with(trimmed, "graphs/") {
        return None;
    }
    proof {
        reveal_strlit("graphs/");
    }
    if length <= 7 {
        return None;
    }
    let graph_id = trimmed.substring_char(7, length);
    assert(graph_id@ =~= trimmed@.skip(7));
    if contains_char(graph_id, '/') {
        return None;
    }
    Some(graph_id.to_owned())
}

/// Where the browser's address sends the editor when it differs from what is shown.
#[derive(Debug, Clone, PartialEq, Eq)]
pub enum PathNavigation {
    /// Open the addressed graph in the editor.
    OpenGraph(String),
    /// Close the open graph and show the dashboard.
    ReturnToDashboard,
}

/// Returns where the browser path takes the editor: the addressed graph unless the editor already
/// shows it, or the dashboard for any other path unless the dashboard already shows with no graph
/// selected; `None` when the view already matches the path.
pub fn browser_path_navigation(
    pathname: &str,
    base_path: &str,
    active_view: AppView,
    selected_graph_id: Option<&str>,
) -> (navigation: Option<PathNavigation>)
    ensures
        match graph_id_under(pathname@, base_path@) {
            Some(id) => if active_view == AppView::Editor && optional_text(selected_graph_id) == Some(
                id,
            ) {
                navigation is None
            } else {
                navigation matches Some(PathNavigation::OpenGraph(g)) && g@ == id
            },
            None => if active_view == AppView::Dashboard && selected_graph_id is None {
                navigation is None
            } else {
                navigation == Some(PathNavigation::ReturnToDashboard)
            },
        },
{
    match graph_id_from_path_with_base(pathname, base_path) {
        Some(graph_id) => {
            let already_selected = match (active_view, selected_graph_id) {
                (AppView::Editor, Some(selected)) => str_equal(selected, graph_id.as_str()),
                _ => false,
            };
            if already_selected {
                None
            } else {
                Some(PathNavigation::OpenGraph(graph_id))
            }
        },
        None => {
            let on_dashboard = match (active_view, selected_graph_id) {
                (AppView::Dashboard, None) => true,
                _ => false,
            };
            if on_dashboard {
                None
            } else {
                Some(PathNavigation::ReturnToDashboard)
            }
        },
    }
}

/// Extracts a graph ID from a frontend route path.
///
/// The route format is `/graphs/<graph_id>`.
pub fn graph_id_from_path(pathname: &str) -> (graph_id: Option<String>)
    ensures
        match graph_route_id(pathname@) {
            Some(id) => graph_id matches Some(g) && g@ == id,
            None => graph_id is None,
        },
{
    proof {
        reveal_strlit("");
    }
    graph_id_from_path_with_base(pathname, "")
}

/// The full path of a route path under a base path.
pub open spec fn joined_path(base_path: Seq<char>, relative_path: Seq<char>) -> Seq<char> {
    if base_path.len() == 0 {
        relative_path
    } else if relative_path == "/"@ {
        base_path + "/"@
    } else {
        base_path + relative_path
    }
}

/// Joins a route path onto a deployment base path.
pub fn join_base_path(base_path: &str, relative_path: &str) -> (path: String)
    ensures
        path@ == joined_path(base_path@, relative_path@),
{
    if base_path.unicode_len() == 0 {
        return relative_path.to_owned();
    }
    let mut path = base_path.to_owned();
    if str_equal(relative_path, "/") {
        path.append("/");
    } else {
        path.append(relative_path);
    }
    path
}

/// A base path without trailing slashes; empty for the root.
pub open spec fn normalized_base(pathname: Seq<char>) -> Seq<char> {
    let trimmed = trim_end_slashes(pathname);
    if trimmed.len() == 0 || trimmed == "/"@ {
        Seq::empty()
    } else {
        trimmed
    }
}

/// Normalizes a base path: trailing slashes dropped, the root as the empty base.
pub fn normalize_base_path(pathname: &str) -> (base_path: String)
    ensures
        base_path@ == normalized_base(pathname@),
{
    let trimmed = trim_end_slash(pathname);
    if trimmed.unicode_len() == 0 || str_equal(trimmed, "/") {
        String::new()
    } else {
        trimmed.to_owned()
    }
}

/// The deployment base path of a location: what precedes the first `/graphs/` of an editor
/// route, else the whole path, normalized.
pub open spec fn inferred_base(pathname: Seq<char>) -> Seq<char> {
    let trimmed = trim_end_slashes(pathname);
    if trimmed.len() == 0 || trimmed == "/"@ {
        Seq::empty()
    } else {
        match first_occurrence(trimmed, "/graphs/"@) {
            Some(i) => normalized_base(trimmed.subrange(0, i)),
            None => normalized_base(trimmed),
        }
    }
}

/// Infers the deployment base path from the current browser location.
pub fn infer_base_path_from_location(pathname: &str) -> (base_path: String)
    ensures
        base_path@ == inferred_base(pathname@),
{
    let trimmed = trim_end_slash(pathname);
    if trimmed.unicode_len() == 0 || str_equal(trimmed, "/") {
        return String::new();
    }
    match find_text(trimmed, "/graphs/") {
        Some(i) => {
            proof {
                let s = trimmed@;
                let p = "/graphs/"@;
                assert(occurs_at(s, p, i as int) && forall|j: int|
                    0 <= j < i ==> !occurs_at(s, p, j));
                let c = choose|k: int|
                    occurs_at(s, p, k) && forall|j: int| 0 <= j < k ==> !occurs_at(s, p, j);
                if c < i {
                    assert(!occurs_at(s, p, c));
                }
                if i < c {
                    assert(!occurs_at(s, p, i as int));
                }
            }
            normalize_base_path(trimmed.substring_char(0, i))
        },
        None => normalize_base_path(trimmed),
    }
}

/// The views of the frontend.
#[derive(Debug, Clone, Copy, PartialEq, Eq, Structural)]
pub enum AppView {
    Dashboard,
    Editor,
}

/// The route path of a view: the graph route of the selected graph in the editor, else `/`.
pub open spec fn view_route(view: AppView, selected_graph_id: Option<Seq<char>>) -> Seq<char> {
    match view {
        AppView::Editor => match selected_graph_id {
            Some(id) => "/graphs/"@ + id,
            None => "/"@,
        },
        AppView::Dashboard => "/"@,
    }
}

/// Returns the full browser path of a view under a deployment base path.
pub fn route_path_for_view(view: AppView, selected_graph_id: Option<&str>, base_path: &str) -> (path:
    String)
    ensures
        path@ == joined_path(
            base_path@,
            view_route(
                view,
                match selected_graph_id {
                    Some(id) => Some(id@),
                    None => None,
                },
            ),
        ),
{
    let relative = match view {
        AppView::Editor => match selected_graph_id {
            Some(id) => {
                let mut route = "/graphs/".to_owned();
                route.append(id);
                route
            },
            None => "/".to_owned(),
        },
        AppView::Dashboard => "/".to_owned(),
    };
    join_base_path(base_path, relative.as_str())
}

/// The path of the editor view of a graph, under any base path, addresses that graph again,
/// for every non-empty graph id free of `/`.
pub proof fn lemma_editor_route_addresses_its_graph(base_path: Seq<char>, graph_id: Seq<char>)
    requires
        graph_id.len() > 0,
        !graph_id.contains('/'),
    ensures
        graph_id_under(
            joined_path(base_path, view_route(AppView::Editor, Some(graph_id))),
            base_path,
        ) == Some(graph_id),
{
    reveal_strlit("/graphs/");
    reveal_strlit("graphs/");
    reveal_strlit("/");
    let route = "/graphs/"@ + graph_id;
    let path = joined_path(base_path, route);
    assert(route.len() > 1);
    assert(route != "/"@);
    assert(starts_with_text(route, "/"@)) by {
        assert(route.subrange(0, 1) =~= "/"@);
    }
    if base_path.len() > 0 {
        assert(path == base_path + route);
        assert(path != base_path);
        assert(path.subrange(0, base_path.len() as int) =~= base_path);
        assert(path.skip(base_path.len() as int) =~= route);
    }
    assert(strip_base(path, base_path) == Some(route));
    let rest = "graphs/"@ + graph_id;
    assert(route.skip(1) =~= rest);
    assert(rest[0] == 'g');
    assert(trim_start_slashes(rest) == rest);
    assert(trim_start_slashes(route) == rest);
    assert(rest.last() == graph_id.last());
    assert(graph_id.last() != '/') by {
        assert(graph_id[graph_id.len() - 1] == graph_id.last());
    }
    assert(trim_end_slashes(rest) == rest);
    assert(trim_slashes(route) == rest);
    assert(rest.subrange(0, 7) =~= "graphs/"@);
    assert(rest.skip(7) =~= graph_id);
}


/// An editor route read back under the base path inferred from that same route names its graph:
/// for a path `<base>/graphs/<graph_id>` whose first `/graphs/` follows the base, with a base
/// that does not end with `/` and a non-empty graph id free of `/`.
pub proof fn lemma_route_under_inferred_base(base_path: Seq<char>, graph_id: Seq<char>)
    requires
        graph_id.len() > 0,
        !graph_id.contains('/'),
        base_path.len() == 0 || base_path.last() != '/',
        first_occurrence(base_path + "/graphs/"@ + graph_id, "/graphs/"@) == Some(
            base_path.len() as int,
        ),
    ensures
        graph_id_under(
            base_path + "/graphs/"@ + graph_id,
            inferred_base(base_path + "/graphs/"@ + graph_id),
        ) == Some(graph_id),
{
    reveal_strlit("/graphs/");
    reveal_strlit("/");
    let path = base_path + "/graphs/"@ + graph_id;
    assert(graph_id.last() != '/') by {
        assert(graph_id[graph_id.len() - 1] == graph_id.last());
    }
    assert(path.last() == graph_id.last());
    assert(trim_end_slashes(path) == path);
    assert(path.len() > 1);
    assert(path != "/"@);
    assert(path.subrange(0, base_path.len() as int) =~= base_path);
    if base_path.len() > 0 {
        assert(trim_end_slashes(base_path) == base_path);
        assert(base_path != "/"@) by {
            if base_path == "/"@ {
                assert(base_path.last() == '/');
            }
        }
    } else {
        assert(trim_end_slashes(base_path) == base_path);
    }
    assert(normalized_base(base_path) == base_path);
    assert(inferred_base(path) == base_path);
    let route = view_route(AppView::Editor, Some(graph_id));
    assert(route == "/graphs/"@ + graph_id);
    assert(route != "/"@) by {
        assert(route.len() > 1);
    }
    assert(joined_path(base_path, route) =~= path);
    lemma_editor_route_addresses_its_graph(base_path, graph_id);
}


/// Whether the selected graph still has to be asked for: it is neither loaded nor already
/// requested.
pub open spec fn document_request_due(
    selected_graph_id: Option<Seq<char>>,
    loaded_graph_id: Option<Seq<char>>,
    requested_graph_document_id: Option<Seq<char>>,
) -> bool {
    selected_graph_id is Some && loaded_graph_id != selected_graph_id && requested_graph_document_id
        != selected_graph_id
}

/// Requests the selected graph document from the backend when it is neither loaded nor already
/// requested, and records the request; returns the request to send, if any.
pub fn ensure_selected_graph_document_requested(
    selected_graph_id: Option<&str>,
    loaded_graph_id: Option<&str>,
    requested_graph_document_id: &mut Option<String>,
) -> (request: Option<ClientMessage>)
    ensures
        ({
            let selected = match selected_graph_id {
                Some(id) => Some(id@),
                None => None,
            };
            let loaded = match loaded_graph_id {
                Some(id) => Some(id@),
                None => None,
            };
            if document_request_due(selected, loaded, text_of(*old(requested_graph_document_id))) {
                &&& request matches Some(ClientMessage::GetGraphDocument { id }) && Some(id@)
                    == selected
                &&& text_of(*final(requested_graph_document_id)) == selected
            } else {
                &&& request is None
                &&& *final(requested_graph_document_id) == *old(requested_graph_document_id)
            }
        }),
{
    let selected = match selected_graph_id {
        Some(selected) => selected,
        None => {
            return None;
        },
    };
    let already_loaded = match loaded_graph_id {
        Some(loaded) => str_equal(loaded, selected),
        None => false,
    };
    if already_loaded {
        return None;
    }
    let already_requested = match requested_graph_document_id {
        Some(requested) => str_equal(requested.as_str(), selected),
        None => false,
    };
    if already_requested {
        return None;
    }
    *requested_graph_document_id = Some(selected.to_owned());
    Some(ClientMessage::GetGraphDocument { id: selected.to_owned() })
}


/// The WebSocket URL of the backend for a page served with the given protocol and host: `wss`
/// under `https:` and `ws` otherwise, on the page's host or `127.0.0.1:3000` when it has none,
/// at path `/ws`.
pub open spec fn websocket_url_text(protocol: Option<Seq<char>>, host: Option<Seq<char>>) -> Seq<char> {
    let scheme = if protocol == Some("https:"@) {
        "wss"@
    } else {
        "ws"@
    };
    let authority = match host {
        Some(h) => if h.len() > 0 {
            h
        } else {
            "127.0.0.1:3000"@
        },
        None => "127.0.0.1:3000"@,
    };
    scheme + "://"@ + authority + "/ws"@
}

/// Returns the WebSocket URL of the backend from the page location's protocol and host, each
/// absent when the browser does not give it.
pub fn websocket_url(protocol: Option<&str>, host: Option<&str>) -> (url: String)
    ensures
        url@ == websocket_url_text(
            match protocol {
                Some(p) => Some(p@),
                None => None,
            },
            match host {
                Some(h) => Some(h@),
                None => None,
            },
        ),
{
    let secure = match protocol {
        Some(p) => str_equal(p, "https:"),
        None => false,
    };
    let mut url = if secure {
        "wss://".to_owned()
    } else {
        "ws://".to_owned()
    };
    match host {
        Some(h) => {
            if h.unicode_len() > 0 {
                url.append(h);
            } else {
                url.append("127.0.0.1:3000");
            }
        },
        None => {
            url.append("127.0.0.1:3000");
        },
    }
    url.append("/ws");
    proof {
        reveal_strlit("wss");
        reveal_strlit("ws");
        reveal_strlit("://");
        reveal_strlit("wss://");
        reveal_strlit("ws://");
    }
    url
}

} // verus!
