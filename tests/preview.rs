use lap_simulation::preview::{escape_html, normalize_media_path, preview_html};

#[test]
fn escape_html_replaces_special_characters() {
    assert_eq!(escape_html("a<b>&\"c'"), "a&lt;b&gt;&amp;&quot;c&#39;");
    assert_eq!(escape_html("open_loop.mp4"), "open_loop.mp4");
    assert_eq!(escape_html(""), "");
    assert_eq!(escape_html("\u{e9}t\u{e9}"), "\u{e9}t\u{e9}");
}

#[test]
fn normalize_media_path_keeps_relative_paths() {
    assert_eq!(normalize_media_path("initial_state.svg", true), Some("initial_state.svg".to_string()));
}

#[test]
fn normalize_media_path_reduces_absolute_paths_to_file_name() {
    assert_eq!(normalize_media_path("/tmp/run/final_state.svg", true), Some("final_state.svg".to_string()));
}

#[test]
fn normalize_media_path_drops_missing_files() {
    assert_eq!(normalize_media_path("initial_state.svg", false), None);
    assert_eq!(normalize_media_path("/tmp/run/final_state.svg", false), None);
}

#[test]
fn test_write_open_loop_html_preview_contents() {
    let html = preview_html(
        "open_loop.mp4",
        &Some("initial_state.svg".to_string()),
        &Some("final_state.svg".to_string()),
    );
    assert!(html.contains("open_loop.mp4"));
    assert!(html.contains("initial_state.svg"));
    assert!(html.contains("final_state.svg"));
    assert!(html.contains("Open-loop simulation preview"));
    assert!(html.contains("  <video controls src=\"open_loop.mp4\"></video>\n"));
    assert!(html.contains("<figcaption>Initial state</figcaption>"));
    assert!(html.ends_with("</body>\n</html>\n"));
}

#[test]
fn preview_without_frames_has_no_frame_section() {
    let html = preview_html("v&1.mp4", &None, &None);
    assert!(html.contains("src=\"v&amp;1.mp4\""));
    assert!(!html.contains("Frame previews"));
    let one = preview_html("v.mp4", &None, &Some("last.svg".to_string()));
    assert!(one.contains("Frame previews"));
    assert!(!one.contains("Initial state"));
    assert!(one.contains("<img alt=\"Final state\" src=\"last.svg\">"));
}
