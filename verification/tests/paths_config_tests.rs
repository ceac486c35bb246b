use overlay_sync::config::{rect_from_screen_values, settings_install_dir, work_area_from_config};
use overlay_sync::greet;
use overlay_sync::bounds::WindowRect;
use overlay_sync::paths::{
    auto_detect_diablo2_directory, common_install_candidates, find_diablo2_directory,
    get_chat_log_path, get_game_log_path, ProbeResult,
};

fn probe(path: &str, exists: bool) -> ProbeResult {
    ProbeResult { path: path.to_string(), exists }
}

#[test]
fn existing_custom_path_wins() {
    let custom = probe("/opt/d2", true);
    let registry = probe("C:\\Diablo II", true);
    let common = vec![probe("/home/u/Games/Diablo II", true)];
    assert_eq!(
        find_diablo2_directory(Some(&custom), Some(&registry), &common),
        Some("/opt/d2".to_string())
    );
}

#[test]
fn missing_or_empty_custom_path_is_skipped() {
    let registry = probe("C:\\Diablo II", true);
    let common = vec![probe("/home/u/Games/Diablo II", true)];
    let gone = probe("/opt/d2", false);
    assert_eq!(
        find_diablo2_directory(Some(&gone), Some(&registry), &common),
        Some("C:\\Diablo II".to_string())
    );
    let empty = probe("", true);
    assert_eq!(
        find_diablo2_directory(Some(&empty), Some(&registry), &common),
        Some("C:\\Diablo II".to_string())
    );
}

#[test]
fn first_existing_common_path_wins_in_order() {
    let common = vec![
        probe("/a", false),
        probe("/b", true),
        probe("/c", true),
    ];
    assert_eq!(
        find_diablo2_directory(None, None, &common),
        Some("/b".to_string())
    );
    assert_eq!(
        auto_detect_diablo2_directory(None, &common),
        Some("/b".to_string())
    );
}

#[test]
fn no_existing_candidate_yields_nothing() {
    let common = vec![probe("/a", false), probe("/b", false)];
    assert_eq!(find_diablo2_directory(None, None, &common), None);
    assert_eq!(find_diablo2_directory(None, None, &Vec::new()), None);
}

#[test]
fn log_paths_hang_beneath_the_install_directory() {
    assert_eq!(
        get_chat_log_path("/opt/d2"),
        "/opt/d2/ProjectD2/pd2logs/pd2_chat.log"
    );
    assert_eq!(
        get_game_log_path("/opt/d2"),
        "/opt/d2/ProjectD2/pd2logs/pd2_game.log"
    );
}

#[test]
fn common_candidates_probe_the_home_directory() {
    let v = common_install_candidates("/home/u");
    assert_eq!(
        v,
        vec![
            "/home/u/Games/Diablo II".to_string(),
            "/home/u/Games/project-diablo-2".to_string(),
            "/home/u/.wine/drive_c/Program Files (x86)/Diablo II".to_string(),
        ]
    );
}

#[test]
fn work_area_uses_the_configured_position_when_not_centered() {
    let text = r#"{"screen":{"window_size_width":1280,"window_size_height":720,"window_centered":false,"window_position_x":15,"window_position_y":25}}"#;
    assert_eq!(
        work_area_from_config(text),
        Some(WindowRect { x: 15, y: 25, width: 1280, height: 720 })
    );
}

#[test]
fn centered_window_reports_the_origin() {
    let text = r#"{"screen":{"window_size_width":800,"window_size_height":600,"window_centered":true}}"#;
    assert_eq!(
        work_area_from_config(text),
        Some(WindowRect { x: 0, y: 0, width: 800, height: 600 })
    );
}

#[test]
fn malformed_or_incomplete_config_yields_nothing() {
    assert_eq!(work_area_from_config("not json at all"), None);
    assert_eq!(work_area_from_config(r#"{"screen":{}}"#), None);
    assert_eq!(
        work_area_from_config(r#"{"screen":{"window_size_width":800}}"#),
        None
    );
    assert_eq!(
        work_area_from_config(
            r#"{"screen":{"window_size_width":800,"window_size_height":600,"window_centered":false}}"#
        ),
        None
    );
}

#[test]
fn screen_values_out_of_range_yield_nothing() {
    assert_eq!(rect_from_screen_values(8000000000, 600, true, 0, 0), None);
    assert_eq!(
        rect_from_screen_values(640, 480, false, -3000000000, 0),
        None
    );
    assert_eq!(
        rect_from_screen_values(640, 480, true, -3000000000, 0),
        Some(WindowRect { x: 0, y: 0, width: 640, height: 480 })
    );
}

#[test]
fn settings_carry_the_install_directory() {
    assert_eq!(
        settings_install_dir(r#"{"pd2InstallDir":"/opt/d2"}"#),
        Some("/opt/d2".to_string())
    );
    assert_eq!(settings_install_dir(r#"{"pd2InstallDir":7}"#), None);
    assert_eq!(settings_install_dir(r#"{}"#), None);
    assert_eq!(settings_install_dir("garbage"), None);
}

#[test]
fn greeting_embeds_the_name() {
    assert_eq!(greet("world"), "Hello, world! You've been greeted from Rust!");
}
