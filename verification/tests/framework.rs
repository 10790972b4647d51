use ctchi::config::Config;
use ctchi::http::HttpMethod;
use ctchi::http::Request;
use ctchi::routes::Route;
use ctchi::routes::Routes;
use ctchi::routes::not_found_body;

#[test]
fn http_methods_parse_to_their_variants() {
    assert!(HttpMethod::parse("GET") == HttpMethod::GET);
    assert!(HttpMethod::parse("POST") == HttpMethod::POST);
    assert!(HttpMethod::parse("PUT") == HttpMethod::PUT);
    assert!(HttpMethod::parse("DELETE") == HttpMethod::DELETE);
    assert!(HttpMethod::parse("OPTIONS") == HttpMethod::OPTIONS);
    assert!(HttpMethod::parse("HEAD") == HttpMethod::HEAD);
    assert!(HttpMethod::parse("CONNECT") == HttpMethod::CONNECT);
    assert!(HttpMethod::parse("TRACE") == HttpMethod::TRACE);
    assert!(HttpMethod::parse("PATCH") == HttpMethod::PATCH);
}

#[test]
fn unrecognised_method_is_unknown() {
    assert!(HttpMethod::parse("SOMETHING") == HttpMethod::UNKNOWN);
    assert!(HttpMethod::parse("get") == HttpMethod::UNKNOWN);
    assert!(HttpMethod::parse("") == HttpMethod::UNKNOWN);
}

#[test]
fn requests_carry_their_parts() {
    let request = Request {
        method: HttpMethod::GET,
        url: "/blog/1/".to_string(),
        headers: "Host: localhost".to_string(),
        body: String::new(),
    };
    assert!(request.method == HttpMethod::GET);
    assert_eq!(request.url, "/blog/1/");
}

#[test]
fn dispatch_picks_the_first_matching_route() {
    let mut routes: Routes<&str> = Routes::new("not-found");
    routes.add_route(Route { path: "/".to_string(), render_action: "index" });
    routes.add_route(Route { path: "/blog/{id}/".to_string(), render_action: "blog" });

    assert_eq!(routes.get_route("/").unwrap().render_action, "index");
    assert_eq!(routes.get_route("/blog/42/").unwrap().render_action, "blog");
    assert_eq!(routes.get_route("/blog/some-slug/").unwrap().render_action, "blog");
}

#[test]
fn dispatch_falls_back_to_the_not_found_route() {
    let mut routes: Routes<&str> = Routes::new("not-found");
    routes.add_route(Route { path: "/blog/{id}/".to_string(), render_action: "blog" });
    assert_eq!(routes.get_route("/nowhere").unwrap().render_action, "not-found");
    assert_eq!(not_found_body(), "404 Not Found");
}

#[test]
fn registered_paths_become_anchored_patterns() {
    let mut routes: Routes<u32> = Routes::new(0);
    routes.add_route(Route { path: "/blog/{id}/".to_string(), render_action: 1 });
    // The blog pattern must not swallow an unrelated URI.
    assert_eq!(routes.get_route("/about/").unwrap().render_action, 0);
}

#[test]
fn config_lines_override_the_defaults() {
    let content = "bind_path=0.0.0.0:9000\nbase_path=/srv/pages\nlog_path=/tmp/server.log";
    let config = Config::parse_config(content, "/default/pages/");
    assert_eq!(config.bind_path, "0.0.0.0:9000");
    assert_eq!(config.base_path, "/srv/pages");
    assert_eq!(config.log_path, "/tmp/server.log");
    assert_eq!(config.static_uri_pref, "/static/");
}

#[test]
fn empty_config_keeps_the_defaults() {
    let config = Config::parse_config("", "/default/pages/");
    assert_eq!(config.bind_path, "127.0.0.1:8080");
    assert_eq!(config.base_path, "/default/pages/");
    assert_eq!(config.log_path, "/Users/glotitude/log/ctchi/server.log");
}

#[test]
fn later_config_lines_win() {
    let config = Config::parse_config("bind_path=first\nbind_path=second", "/d/");
    assert_eq!(config.bind_path, "second");
}

#[test]
fn config_lines_without_values_are_ignored() {
    let config = Config::parse_config("bind_path\nunknown=zzz", "/d/");
    assert_eq!(config.bind_path, "127.0.0.1:8080");
}

#[test]
fn server_defaults_are_fixed() {
    let config = ctchi::server::Config::new();
    assert_eq!(config.bind_path, "127.0.0.1:8080");
    assert_eq!(config.base_path, "");
    assert_eq!(config.static_uri_pref, "/css/");
}

#[test]
fn application_keeps_its_configuration_and_routes() {
    let mut routes: Routes<&str> = Routes::new("not-found");
    routes.add_route(Route { path: "/".to_string(), render_action: "index" });
    let app = ctchi::server::Ctchi::new(ctchi::server::Config::new(), routes);
    assert_eq!(app.config().bind_path, "127.0.0.1:8080");
    assert_eq!(app.routes().get_route("/").unwrap().render_action, "index");
}

#[test]
fn inline_configuration_keeps_its_routes() {
    let routes: Routes<&str> = Routes::new("not-found");
    let config = ctchi::ctchi::Config {
        bind_path: "127.0.0.1:8080",
        base_path: "/var/www/",
        static_uri_pref: "/css/",
        routes,
    };
    let app = ctchi::ctchi::Ctchi::new(config);
    assert_eq!(app.config().base_path, "/var/www/");
    assert_eq!(app.config().routes.get_route("/x").unwrap().render_action, "not-found");
}
