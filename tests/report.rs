use tauri_config::report::{render_path, report, Violation};

fn violation(path: &str, title: &str, detail: Option<&str>) -> Violation {
    Violation { path: path.to_string(), title: title.to_string(), detail: detail.map(|d| d.to_string()) }
}

#[test]
fn path_renders_with_separators() {
    assert_eq!(render_path("/a/b/0"), "a > b > 0");
}

#[test]
fn root_and_empty_paths_render_empty() {
    assert_eq!(render_path(""), "");
    assert_eq!(render_path("/"), "");
}

#[test]
fn path_keeps_other_characters() {
    assert_eq!(render_path("/tauri/bundle/identifier"), "tauri > bundle > identifier");
    assert_eq!(render_path("/ä/ß"), "ä > ß");
}

#[test]
fn message_prefers_detail() {
    assert_eq!(violation("/a", "Type", Some("must be a string")).message(), "must be a string");
    assert_eq!(violation("/a", "Type", None).message(), "Type");
}

#[test]
fn report_line_names_file_path_and_message() {
    assert_eq!(
        violation("/build/devPath", "Required", Some("property missing")).report_line(),
        "`tauri.conf.json` error on `build > devPath`: property missing"
    );
}

#[test]
fn every_violation_is_reported() {
    let vs = vec![violation("/a", "A", None), violation("/b/0", "B", Some("bad")), violation("/c", "C", None)];
    let lines = report(&vs);
    assert_eq!(lines.len(), 3);
    assert_eq!(lines[0], "`tauri.conf.json` error on `a`: A");
    assert_eq!(lines[1], "`tauri.conf.json` error on `b > 0`: bad");
    assert_eq!(lines[2], "`tauri.conf.json` error on `c`: C");
}
