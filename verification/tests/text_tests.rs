use snips_core::chrome::Platform;
use snips_core::color::RGB;
use snips_core::error::{AppError, ShortcutError};
use snips_core::search::{build_fts5_query, clamp_search_limit, parse_tag_filter,
    validate_search_query_length};
use snips_core::selection::choose_selection;
use snips_core::shortcuts::{
    get_default_shortcuts, get_quick_add_shortcut_display, get_search_shortcut_display,
    shortcut_quick_add, shortcut_search,
};
use snips_core::strutil::{split_whitespace_tokens, str_contains, trim};
use snips_core::timeutil::{current_timestamp, current_timestamp_millis};

#[test]
fn test_rgb_from_hex() {
    let rgb = RGB::from_hex("#FF5733").unwrap();
    assert_eq!(rgb.r, 255);
    assert_eq!(rgb.g, 87);
    assert_eq!(rgb.b, 51);

    let rgb2 = RGB::from_hex("FF5733").unwrap();
    assert_eq!(rgb, rgb2);
}

#[test]
fn test_rgb_to_hex() {
    let rgb = RGB {
        r: 255,
        g: 87,
        b: 51,
    };
    assert_eq!(rgb.to_hex(), "#FF5733");
}

#[test]
fn test_invalid_hex() {
    assert!(RGB::from_hex("#FF").is_err());
    assert!(RGB::from_hex("#GGGGGG").is_err());
    assert!(RGB::from_hex("invalid").is_err());
}

#[test]
fn test_hex_round_trip() {
    let rgb = RGB { r: 1, g: 160, b: 9 };
    assert_eq!(rgb.to_hex(), "#01A009");
    assert_eq!(RGB::from_hex(&rgb.to_hex()).unwrap(), rgb);
}

#[test]
fn test_from_hex_error_messages() {
    assert_eq!(
        RGB::from_hex("#FF").unwrap_err(),
        "Invalid hex color: FF".to_string()
    );
    assert_eq!(
        RGB::from_hex("GG5733").unwrap_err(),
        "Invalid red component: GG".to_string()
    );
    assert_eq!(
        RGB::from_hex("FF57ZZ").unwrap_err(),
        "Invalid blue component: ZZ".to_string()
    );
}

#[test]
fn test_parse_tag_filter() {
    assert_eq!(parse_tag_filter("python:"), (Some("python"), ""));

    assert_eq!(parse_tag_filter("python:async"), (Some("python"), "async"));
    assert_eq!(
        parse_tag_filter("python: async await"),
        (Some("python"), "async await")
    );

    assert_eq!(parse_tag_filter("react hooks"), (None, "react hooks"));

    assert_eq!(
        parse_tag_filter("http://example.com"),
        (Some("http"), "//example.com")
    );

    assert_eq!(
        parse_tag_filter("python rust:query"),
        (None, "python rust:query")
    );

    assert_eq!(parse_tag_filter(""), (None, ""));

    assert_eq!(parse_tag_filter(":"), (None, ":"));

    assert_eq!(parse_tag_filter("tag:foo:bar"), (Some("tag"), "foo:bar"));

    assert_eq!(parse_tag_filter("Python:"), (Some("Python"), ""));
}

#[test]
fn test_build_fts5_query() {
    assert_eq!(build_fts5_query("react"), "react*");

    assert_eq!(build_fts5_query("react hooks"), "react* OR hooks*");

    assert_eq!(build_fts5_query("test*query"), "testquery*");

    assert_eq!(build_fts5_query(""), "");

    assert_eq!(build_fts5_query("   "), "");

    assert_eq!(build_fts5_query("taur"), "taur*");
}

#[test]
fn test_search_limits() {
    assert_eq!(clamp_search_limit(None), 50);
    assert_eq!(clamp_search_limit(Some(0)), 1);
    assert_eq!(clamp_search_limit(Some(2000)), 1000);
    assert_eq!(clamp_search_limit(Some(20)), 20);
}

#[test]
fn test_query_length_validation() {
    let long_query = "a".repeat(1001);
    assert!(long_query.len() > 1000);

    let normal_query = "test query";
    assert!(normal_query.len() <= 1000);

    assert!(validate_search_query_length(&long_query).is_err());
    assert!(validate_search_query_length(normal_query).is_ok());
}

#[test]
fn test_shortcut_constants() {
    assert_eq!(shortcut_search(), "CmdOrCtrl+Shift+S");
    assert_eq!(shortcut_quick_add(), "CmdOrCtrl+Shift+A");
}

#[test]
fn test_shortcut_error_display() {
    let error = ShortcutError::InvalidFormat("test".to_string());
    assert!(error.message().contains("Invalid shortcut format"));

    let error = ShortcutError::AlreadyRegistered("Cmd+S".to_string());
    assert!(error.message().contains("already registered"));
}

#[test]
fn test_platform_specific_search_shortcut_display() {
    assert_eq!(get_search_shortcut_display(Platform::MacOs), "Cmd+Shift+S");
    assert_eq!(get_search_shortcut_display(Platform::Linux), "Ctrl+Shift+S");
    assert_eq!(
        get_search_shortcut_display(Platform::Windows),
        "Ctrl+Shift+S"
    );
}

#[test]
fn test_platform_specific_quick_add_shortcut_display() {
    assert_eq!(
        get_quick_add_shortcut_display(Platform::MacOs),
        "Cmd+Shift+A"
    );
    assert_eq!(
        get_quick_add_shortcut_display(Platform::Linux),
        "Ctrl+Shift+A"
    );
    assert_eq!(
        get_quick_add_shortcut_display(Platform::Windows),
        "Ctrl+Shift+A"
    );
}

#[test]
fn test_cmdorctrl_maps_correctly() {
    assert!(shortcut_search().contains("CmdOrCtrl"));
    assert!(shortcut_quick_add().contains("CmdOrCtrl"));
}

#[test]
fn test_linux_shortcuts_documented() {
    let search_display = get_search_shortcut_display(Platform::Linux);
    let quick_add_display = get_quick_add_shortcut_display(Platform::Linux);

    assert_eq!(search_display, "Ctrl+Shift+S");
    assert_eq!(quick_add_display, "Ctrl+Shift+A");

    assert_eq!(shortcut_search(), "CmdOrCtrl+Shift+S");
    assert_eq!(shortcut_quick_add(), "CmdOrCtrl+Shift+A");
}

#[test]
fn test_windows_shortcuts_documented() {
    let search_display = get_search_shortcut_display(Platform::Windows);
    let quick_add_display = get_quick_add_shortcut_display(Platform::Windows);

    assert_eq!(search_display, "Ctrl+Shift+S");
    assert_eq!(quick_add_display, "Ctrl+Shift+A");

    assert_eq!(shortcut_search(), "CmdOrCtrl+Shift+S");
    assert_eq!(shortcut_quick_add(), "CmdOrCtrl+Shift+A");
}

#[test]
fn test_macos_shortcuts_documented() {
    let search_display = get_search_shortcut_display(Platform::MacOs);
    let quick_add_display = get_quick_add_shortcut_display(Platform::MacOs);

    assert_eq!(search_display, "Cmd+Shift+S");
    assert_eq!(quick_add_display, "Cmd+Shift+A");

    assert_eq!(shortcut_search(), "CmdOrCtrl+Shift+S");
    assert_eq!(shortcut_quick_add(), "CmdOrCtrl+Shift+A");
}

#[test]
fn test_default_shortcut_infos() {
    let shortcuts = get_default_shortcuts();
    assert_eq!(shortcuts.len(), 2);
    assert_eq!(shortcuts[0].shortcut, "CmdOrCtrl+Shift+S");
    assert_eq!(shortcuts[0].description, "Open search overlay");
    assert!(shortcuts[0].is_default);
    assert_eq!(shortcuts[1].shortcut, "CmdOrCtrl+Shift+A");
    assert_eq!(shortcuts[1].description, "Open quick add dialog");
    assert!(shortcuts[1].is_default);
}

#[test]
fn test_error_display() {
    let error = AppError::NotFound("snippet".to_string());
    assert_eq!(error.message(), "Not found: snippet");
}

#[test]
fn test_error_conversion_to_string() {
    let error = AppError::InvalidInput("empty name".to_string());
    let error_string: String = error.message();
    assert_eq!(error_string, "Invalid input: empty name");
}

#[test]
fn test_app_error_messages_by_variant() {
    assert_eq!(
        AppError::Database("no table".to_string()).message(),
        "Database error: no table"
    );
    assert_eq!(
        AppError::Validation("max_results".to_string()).message(),
        "Validation error: max_results"
    );
    assert_eq!(
        AppError::Duplicate("name".to_string()).message(),
        "Duplicate entry: name"
    );
    assert_eq!(
        AppError::Serialization("bad json".to_string()).message(),
        "Serialization error: bad json"
    );
    assert_eq!(
        AppError::TauriError("boom".to_string()).message(),
        "Tauri error: boom"
    );
    assert_eq!(
        AppError::External("spawn failed".to_string()).message(),
        "External process error: spawn failed"
    );
    assert_eq!(
        AppError::Unsupported("hide".to_string()).message(),
        "Unsupported operation: hide"
    );
    assert_eq!(
        AppError::Unknown("odd".to_string()).message(),
        "Unknown error: odd"
    );
}

#[test]
fn test_shortcut_error_messages_by_variant() {
    assert_eq!(
        ShortcutError::RegistrationFailed("Cmd+S".to_string(), "denied".to_string()).message(),
        "Failed to register shortcut 'Cmd+S': denied"
    );
    assert_eq!(
        ShortcutError::UnregistrationFailed("all".to_string(), "gone".to_string()).message(),
        "Failed to unregister shortcut 'all': gone"
    );
    assert_eq!(
        ShortcutError::TauriError("boom".to_string()).message(),
        "Tauri error: boom"
    );
}

#[test]
fn test_from_hex_green_component_error() {
    assert_eq!(
        RGB::from_hex("FFZZ33").unwrap_err(),
        "Invalid green component: ZZ".to_string()
    );
}

#[test]
fn test_current_timestamp() {
    let ts = current_timestamp();
    assert!(ts > 1_600_000_000);
}

#[test]
fn test_current_timestamp_millis() {
    let ts = current_timestamp_millis();
    assert!(ts > 1_600_000_000_000);
}

#[test]
fn test_trim_matches_std() {
    assert_eq!(trim("  hello\tworld \n"), "hello\tworld");
    assert_eq!(trim("   "), "");
    assert_eq!(trim(""), "");
    assert_eq!(trim("x"), "x");
}

#[test]
fn test_split_whitespace_tokens_matches_std() {
    let tokens = split_whitespace_tokens("  a bb \t ccc ");
    assert_eq!(tokens, vec!["a".to_string(), "bb".to_string(), "ccc".to_string()]);
    let none = split_whitespace_tokens("   ");
    assert!(none.is_empty());
}

#[test]
fn test_str_contains_matches_std() {
    assert!(str_contains("NotSupported by compositor", "NotSupported"));
    assert!(!str_contains("ok", "NotSupported"));
    assert!(str_contains("sway", "sway"));
    assert!(str_contains("", ""));
}

#[test]
fn test_choose_selection_prefers_primary() {
    let r = choose_selection(Ok("primary text".to_string()), Ok("fallback".to_string()));
    assert_eq!(r.unwrap(), "primary text");

    let r = choose_selection(Ok("   ".to_string()), Ok("fallback".to_string()));
    assert_eq!(r.unwrap(), "fallback");

    let r = choose_selection(Err("denied".to_string()), Ok("fallback".to_string()));
    assert_eq!(r.unwrap(), "fallback");

    let r = choose_selection(Err("denied".to_string()), Ok("  ".to_string()));
    assert_eq!(r.unwrap_err().message(), "Not found: No text selected");

    let r = choose_selection(Ok(String::new()), Err("denied".to_string()));
    assert_eq!(r.unwrap_err().message(), "Not found: No text selected");
}

#[test]
fn test_positioning_error_classification() {
    assert!(snips_core::service::should_ignore_positioning_error(
        "Error NotSupported by backend",
        true
    ));
    assert!(snips_core::service::should_ignore_positioning_error(
        "operation not supported here",
        true
    ));
    assert!(!snips_core::service::should_ignore_positioning_error(
        "window destroyed",
        true
    ));
    assert!(!snips_core::service::should_ignore_positioning_error(
        "Error NotSupported by backend",
        false
    ));
}

#[test]
fn test_hide_fallback_classification() {
    assert!(snips_core::service::hide_falls_back_to_close(
        "hide NotSupported",
        true
    ));
    assert!(!snips_core::service::hide_falls_back_to_close(
        "hide not supported",
        true
    ));
    assert!(!snips_core::service::hide_falls_back_to_close(
        "hide NotSupported",
        false
    ));
}

#[test]
fn test_parse_walker_colors() {
    let content = "\
@define-color base #1e1e2e;\n\
@define-color selected-text \"#89b4fa\";\n\
not a definition\n\
@define-color incomplete\n\
@define-color base #000000;\r\n";
    let colors = snips_core::theme::parse_walker_colors(content);
    assert_eq!(
        colors,
        vec![
            ("base".to_string(), "#1e1e2e".to_string()),
            ("selected_text".to_string(), "#89b4fa".to_string()),
            ("base".to_string(), "#000000".to_string()),
        ]
    );
    // The last definition of a name wins.
    assert_eq!(
        snips_core::theme::palette_color(&colors, "base"),
        Some("#000000".to_string())
    );
    assert_eq!(
        snips_core::theme::palette_color(&colors, "selected_text"),
        Some("#89b4fa".to_string())
    );
    assert_eq!(snips_core::theme::palette_color(&colors, "missing"), None);
}

#[test]
fn test_theme_name_matching() {
    assert_eq!(
        snips_core::theme::normalize_theme_name("Rose Pine"),
        "rose-pine"
    );
    assert!(snips_core::theme::theme_name_matches("Rose-Pine", "rose pine"));
    assert!(!snips_core::theme::theme_name_matches("gruvbox", "rose pine"));
}

#[test]
fn test_split_lines_matches_std() {
    let lines = snips_core::theme::split_lines("a\nb\r\nc\n");
    assert_eq!(lines, vec!["a".to_string(), "b".to_string(), "c".to_string()]);
    let text = "x\n\ny";
    assert_eq!(
        snips_core::theme::split_lines(text),
        text.lines().map(str::to_string).collect::<Vec<_>>()
    );
    assert!(snips_core::theme::split_lines("").is_empty());
}
