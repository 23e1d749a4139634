use flicker::disks::pick_disks;
use flicker::kuma::{kuma_panel, monitor_row, monitors};
use flicker::look::highlighted_row;
use flicker::nzbget::{nzbget_panel, GROUP_ROWS};
use flicker::panel::{cell, RowItem, Tone};
use flicker::qbit::{fallback_path, qbit_panel, QbitCall, TORRENT_ROWS};
use flicker::sabnzbd::{sab_panel, SLOT_ROWS};
use flicker::ssh::section;

fn rows(n: usize) -> Vec<RowItem> {
    (0..n)
        .map(|i| RowItem { key: format!("r{i}"), cells: vec![cell("x", Tone::Default)], actions: vec![] })
        .collect()
}

#[test]
fn disks_are_picked_largest_first_collapsed_and_capped() {
    let d = |m: &str, size: u64| (m.to_string(), size, size / 2, 50u64);
    let picked = pick_disks(vec![
        d("/", 500),
        d("/pool", 44_000),
        d("/pool", 44_000),
        d("/a", 10),
        d("/b", 700),
        d("/c", 700),
        d("/d", 20),
        d("/e", 30),
    ]);
    let mounts: Vec<&str> = picked.iter().map(|t| t.0.as_str()).collect();
    assert_eq!(mounts, vec!["/pool", "/b", "/c", "/", "/e"]);
    assert_eq!(picked[0], ("/pool".to_string(), 44_000, 22_000, 50));
    assert!(pick_disks(vec![]).is_empty());
}

#[test]
fn every_listing_panel_is_bounded() {
    assert_eq!(qbit_panel(rows(30), "0 B/s", "0 B/s", 30, false).rows.len(), TORRENT_ROWS);
    let n = nzbget_panel(rows(20), "b".into(), "1 GB");
    assert_eq!(n.rows.len(), GROUP_ROWS);
    assert_eq!(n.rows[11].key, "r11");
    assert_eq!(sab_panel(rows(13), false, "1 MB/s", "2 GB", "9 GB").rows.len(), SLOT_ROWS);
    let k = kuma_panel(rows(20), 20, 20);
    assert_eq!(k.rows.len(), 14);
    assert_eq!(k.footer.as_deref(), Some("showing 14 of 20"));
    assert_eq!(qbit_panel(rows(3), "0 B/s", "0 B/s", 3, false).rows.len(), 3);
    let _ = monitor_row("plex", 1, "");
}

#[test]
fn monitors_come_in_name_order() {
    let text = "monitor_status{monitor_name=\"sonarr\"} 0\nmonitor_status{monitor_name=\"Plex\"} 1\nmonitor_status{monitor_name=\"modem\"} 2\nmonitor_status{monitor_name=\"plex\"} 1\n";
    let names: Vec<String> = monitors(text).into_iter().map(|m| m.name).collect();
    assert_eq!(names, vec!["Plex", "modem", "plex", "sonarr"]);
}

#[test]
fn the_second_path_is_tried_only_after_a_404() {
    let call = QbitCall { first: "torrents/stop".into(), second: "torrents/pause".into(), form: vec![], done: "paused".into() };
    assert_eq!(fallback_path(&call, 0, 404), Some("torrents/pause".to_string()));
    assert_eq!(fallback_path(&call, 0, 200), None);
    assert_eq!(fallback_path(&call, 0, 500), None);
    assert_eq!(fallback_path(&call, 1, 404), None);
}

#[test]
fn the_highlight_clamps_to_the_last_row() {
    assert_eq!(highlighted_row(true, 7, 3), Some(2));
    assert_eq!(highlighted_row(true, 1, 3), Some(1));
    assert_eq!(highlighted_row(false, 1, 3), None);
    assert_eq!(highlighted_row(true, 0, 0), None);
}

#[test]
fn a_section_skips_repeated_markers_and_blank_lines() {
    let raw = "noise\n@@DOCKER@@\na\tUp\n\n  @@DOCKER@@\nb\tUp\n@@UPTIME@@\nup\n@@DOCKER@@\nc\n";
    assert_eq!(section(raw, "DOCKER"), vec!["a\tUp", "b\tUp"]);
    assert!(section("a\nb\n", "DOCKER").is_empty());
}
