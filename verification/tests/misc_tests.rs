use clippy_core::settings::{default_position, position_value_allowed};
use clippy_core::window::ClippyPosition;
use clippy_core::paging::{page_info, PageInfo};
use clippy_core::settings::{Column, ColumnType, Entity, PrimaryKey, StringLen};
use clippy_core::xrdb::xft_dpi_candidates;

fn candidates(s: &str) -> Vec<String> {
    xft_dpi_candidates(s.as_bytes())
        .into_iter()
        .map(|v| String::from_utf8(v).unwrap())
        .collect()
}

#[test]
fn dpi_value_is_found_after_its_prefix() {
    let out = "Xft.antialias:\t1\nXft.dpi:\t144\nXft.hinting:\t1\n";
    assert_eq!(candidates(out), vec!["\t144".to_string()]);
}

#[test]
fn dpi_lines_keep_their_order_and_stop_at_a_colon() {
    let out = "Xft.dpi: 96:extra\r\nfoo\nXft.dpi:120";
    assert_eq!(candidates(out), vec![" 96".to_string(), "120".to_string()]);
}

#[test]
fn dpi_line_needs_the_prefix_at_its_start() {
    assert!(candidates(" Xft.dpi: 96\nXft.dpi 96\nxft.dpi: 96\n").is_empty());
    assert!(candidates("").is_empty());
    assert_eq!(candidates("Xft.dpi:"), vec!["".to_string()]);
    assert_eq!(candidates("Xft.dpi: 96\r"), vec![" 96\r".to_string()]);
}

#[test]
fn dpi_candidates_match_str_lines() {
    let out = "a\r\nXft.dpi:1\n\nXft.dpi:2:3\r\nXft.dpi:4\r";
    let expected: Vec<String> = out
        .lines()
        .filter(|l| l.starts_with("Xft.dpi:"))
        .filter_map(|l| l.split(':').nth(1))
        .map(|s| s.to_string())
        .collect();
    assert_eq!(candidates(out), expected);
}

#[test]
fn page_reports_whether_more_entries_follow() {
    assert_eq!(page_info(None, 20, 50), PageInfo { current_position: 20, has_more: true });
    assert_eq!(page_info(Some(40), 10, 50), PageInfo { current_position: 50, has_more: false });
    assert_eq!(page_info(Some(0), 0, 0), PageInfo { current_position: 0, has_more: false });
}

#[test]
fn settings_schema() {
    assert_eq!(Entity.table_name(), "settings");
    assert!(PrimaryKey::auto_increment());
    assert_eq!(Column::Id.def(), ColumnType::Integer);
    assert_eq!(Column::Language.def(), ColumnType::String(StringLen::N(2)));
    assert_eq!(Column::DisplayScale.def(), ColumnType::Float);
    assert_eq!(Column::Position.def(), ColumnType::String(StringLen::Unbounded));
    assert_eq!(Column::DarkMode.def(), ColumnType::Boolean);
    assert_eq!(Column::MaxHtmlSize.def(), ColumnType::Integer);
}


#[test]
fn settings_defaults_and_position_check() {
    assert_eq!(Column::Startup.flag_default(), Some(true));
    assert_eq!(Column::Synchronize.flag_default(), Some(false));
    assert_eq!(Column::DarkMode.flag_default(), Some(true));
    assert_eq!(Column::Tooltip.flag_default(), Some(true));
    assert_eq!(Column::Language.flag_default(), None);
    assert_eq!(default_position(), ClippyPosition::Cursor);
    assert!(position_value_allowed(default_position().name()));
    assert!(position_value_allowed("tray_center"));
    assert!(!position_value_allowed("middle"));
}
