use astro_react_askama::content::content_type_for;
use astro_react_askama::content::extension_for;
use astro_react_askama::content::str_eq;
use astro_react_askama::render::Page;
use astro_react_askama::render::render_index;
use astro_react_askama::response::file_response;
use astro_react_askama::response::index_response;
use astro_react_askama::routes::route_for;
use astro_react_askama::routes::Route;
use astro_react_askama::SERVER_PORT;

#[test]
fn render_is_the_template_with_the_strings_substituted() {
    let page = Page::new(String::from("My Title"), String::from("My description"));
    let html = render_index(&page);
    assert_eq!(
        html,
        "<!DOCTYPE html><html><head><title>My Title</title></head><body><p>My description</p></body></html>"
    );
}

#[test]
fn render_of_empty_strings_is_the_bare_template() {
    let page = Page::new(String::new(), String::new());
    let html = render_index(&page);
    assert_eq!(html, "<!DOCTYPE html><html><head><title></title></head><body><p></p></body></html>");
}

#[test]
fn index_response_is_ok_and_contains_the_title() {
    let r = index_response();
    assert_eq!(r.status, 200);
    assert!(r.body.contains("Tuono - Astro React Askama"));
}

#[test]
fn site_page_holds_the_fixed_strings() {
    let p = Page::site_page();
    assert_eq!(p.title, "Tuono - Astro React Askama");
    assert_eq!(p.description, "The react / rust fullstack framework");
}

#[test]
fn root_path_routes_to_the_renderer() {
    assert!(matches!(route_for("/"), Route::Index));
}

#[test]
fn assets_path_routes_to_the_assets_directory() {
    match route_for("/assets/app.js") {
        Route::Asset(key) => assert_eq!(key, "app.js"),
        _ => panic!("expected an asset route"),
    }
}

#[test]
fn nested_assets_path_keeps_its_subdirectories() {
    match route_for("/assets/img/logo.png") {
        Route::Asset(key) => assert_eq!(key, "img/logo.png"),
        _ => panic!("expected an asset route"),
    }
}

#[test]
fn other_paths_route_to_the_fallback_directory() {
    match route_for("/about.html") {
        Route::Fallback(key) => assert_eq!(key, "about.html"),
        _ => panic!("expected a fallback route"),
    }
}

#[test]
fn assets_path_without_trailing_slash_falls_back() {
    match route_for("/assets") {
        Route::Fallback(key) => assert_eq!(key, "assets"),
        _ => panic!("expected a fallback route"),
    }
}

#[test]
fn empty_path_falls_back_unchanged() {
    match route_for("") {
        Route::Fallback(key) => assert_eq!(key, ""),
        _ => panic!("expected a fallback route"),
    }
}

#[test]
fn found_file_is_served_with_its_exact_bytes() {
    let bytes = vec![0u8, 159, 146, 150, 10];
    let r = file_response(Some(bytes.clone()));
    assert_eq!(r.status, 200);
    assert_eq!(r.body, bytes);
}

#[test]
fn missing_file_gives_not_found() {
    let r = file_response(None);
    assert_eq!(r.status, 404);
    assert!(r.body.is_empty());
}

#[test]
fn extension_is_the_part_after_the_last_dot() {
    assert_eq!(extension_for("archive.tar.gz"), Some(String::from("gz")));
    assert_eq!(extension_for("app.js"), Some(String::from("js")));
    assert_eq!(extension_for("trailing."), Some(String::from("")));
    assert_eq!(extension_for("no_extension"), None);
    assert_eq!(extension_for(""), None);
}

#[test]
fn content_type_follows_the_extension() {
    assert_eq!(content_type_for("index.html"), "text/html");
    assert_eq!(content_type_for("style.css"), "text/css");
    assert_eq!(content_type_for("app.js"), "text/javascript");
    assert_eq!(content_type_for("img/logo.png"), "image/png");
    assert_eq!(content_type_for("icon.svg"), "image/svg+xml");
    assert_eq!(content_type_for("data.bin"), "application/octet-stream");
    assert_eq!(content_type_for("README"), "application/octet-stream");
}

#[test]
fn str_eq_compares_characters() {
    assert!(str_eq("abc", "abc"));
    assert!(!str_eq("abc", "abd"));
    assert!(!str_eq("abc", "ab"));
    assert!(str_eq("", ""));
}

#[test]
fn port_is_the_configured_one() {
    assert_eq!(SERVER_PORT, 3007);
}
