use flicker::arr::{
    api_version, arr_call, indexer_row, prowlarr_panel, queue_panel, queue_path, queue_row, queue_status, record_title,
    ArrMethod, QueueRecord, RecordFacts,
};
use flicker::config::SourceCfg;
use flicker::glances::{glances_panel, glances_refusal, GLANCES_SKIP_MOUNTS};
use flicker::jax::{JaxSource, LOG_LINES};
use flicker::kuma::{
    kuma_panel, kuma_refusal, label_name, monitor_look, monitor_row, monitors, samples, trouble_rank, MonitorState, Reading,
};
use flicker::nzbget::{group_row, group_tone, nzbget_badge, nzbget_call, nzbget_panel, rpc_error, GroupRecord};
use flicker::overseerr::{request_call, request_row, requests_panel, tmdb_path, TitleCache};
use flicker::panel::{unknown_action, ActionSpec, Tone};
use flicker::plex::{plex_call, plex_panel, plex_row, plex_title, PlexSession};
use flicker::sabnzbd::{reply_error, sab_call, sab_panel, sab_row, slot_tone};
use flicker::speedtest::{result_row, speedtest_call, speedtest_panel};
use flicker::qbit::{
    alt_limits_on, login_verdict, qbit_call, qbit_panel, qbit_panel_actions, state_glyph, torrent_actions, torrent_order,
    torrent_row,
};
use flicker::tautulli::{
    decision_tone, reply_verdict, session_icon, session_row, session_title, tautulli_call, tautulli_panel,
    BandwidthHistory, Session, HISTORY_KEEP,
};
use flicker::util::mount_hidden;

// --- qBittorrent ---

#[test]
fn torrent_states_map_to_glyphs_and_ranks() {
    assert_eq!(state_glyph("downloading"), ("▼", Tone::Good, 0));
    assert_eq!(state_glyph("metaDL"), ("▼", Tone::Good, 0));
    assert_eq!(state_glyph("uploading"), ("▲", Tone::Info, 1));
    assert_eq!(state_glyph("queuedDL"), ("…", Tone::Muted, 2));
    assert_eq!(state_glyph("pausedDL"), ("⏸", Tone::Warn, 3));
    assert_eq!(state_glyph("stalledUP"), ("✓", Tone::Muted, 4));
    assert_eq!(state_glyph("stoppedUP"), ("✓", Tone::Muted, 5));
    assert_eq!(state_glyph("missingFiles"), ("✗", Tone::Bad, 0));
    assert_eq!(state_glyph("moving"), ("·", Tone::Muted, 6));
}

#[test]
fn torrents_sort_by_rank_then_speed_stably() {
    let keys = vec![(6u8, 0i64), (0, 10), (1, 500), (0, 900), (0, 10), (3, 0)];
    assert_eq!(torrent_order(&keys), vec![3, 1, 4, 2, 5, 0]);
    assert_eq!(torrent_order(&vec![]), Vec::<usize>::new());
}

#[test]
fn torrent_actions_confirm_only_deletion() {
    let acts = torrent_actions();
    let ids: Vec<(&str, bool)> = acts.iter().map(|a| (a.id.as_str(), a.danger)).collect();
    assert_eq!(ids, vec![("pause", false), ("resume", false), ("delete", true)]);
    // pause/resume is reversible and never confirms
    assert!(qbit_panel_actions().iter().all(|a| !a.danger));
}

#[test]
fn qbit_actions_post_to_v5_then_v4() {
    let c = qbit_call("pause", "abc").ok().unwrap();
    assert_eq!((c.first.as_str(), c.second.as_str()), ("torrents/stop", "torrents/pause"));
    assert_eq!(c.form, vec![("hashes".to_string(), "abc".to_string())]);
    assert_eq!(c.done, "torrent paused");
    let c = qbit_call("delete", "abc").ok().unwrap();
    assert_eq!(c.form.len(), 2);
    assert_eq!(c.form[1], ("deleteFiles".to_string(), "false".to_string()));
    let c = qbit_call("resume_all", "").ok().unwrap();
    assert_eq!(c.form, vec![("hashes".to_string(), "all".to_string())]);
    assert_eq!(c.done, "all torrents resumed");
    let c = qbit_call("alt", "").ok().unwrap();
    assert!(c.form.is_empty());
    assert_eq!(qbit_call("launch", "x").err().unwrap(), "unknown action launch");
}

#[test]
fn qbit_login_needs_success_and_no_fails() {
    assert!(login_verdict(true, "200 OK", "Ok.").is_ok());
    assert!(login_verdict(true, "204 No Content", "").is_ok());
    assert_eq!(login_verdict(true, "200 OK", " Fails. ").err().unwrap(), "qbittorrent login failed (200 OK): Fails.");
    assert_eq!(login_verdict(false, "403 Forbidden", "").err().unwrap(), "qbittorrent login failed (403 Forbidden): no body");
}

#[test]
fn qbit_rows_and_panel() {
    let r = torrent_row("h1", "downloading", "Some.Film.2024", "██░░ 50%", Some(("1.0 MB/s".into(), 125)));
    let texts: Vec<&str> = r.cells.iter().map(|c| c.text.as_str()).collect();
    assert_eq!(texts, vec!["▼", "Some.Film.2024", "██░░ 50%", "1.0 MB/s", "2m 05s"]);
    let r = torrent_row("h2", "pausedUP", "x", "████ 100%", None);
    assert_eq!(r.cells[3].text, "pausedUP");
    assert_eq!(r.cells[3].tone, Tone::Muted);
    let p = qbit_panel(vec![r], "1 B/s", "2 B/s", 7, true);
    assert_eq!(p.badge.as_deref(), Some("▼ 1 B/s ▲ 2 B/s · 7 torrents"));
    assert_eq!(p.footer.as_deref(), Some("⚠ alternative speed limits are ON"));
    assert!(alt_limits_on(" 1\n"));
    assert!(!alt_limits_on("0"));
}

// --- Tautulli ---

#[test]
fn sessions_read_as_rows() {
    assert_eq!(session_icon("playing"), ("▶", Tone::Good));
    assert_eq!(session_icon("paused"), ("⏸", Tone::Warn));
    assert_eq!(session_icon("buffering"), ("◌", Tone::Info));
    assert_eq!(decision_tone("transcode"), Tone::Warn);
    assert_eq!(decision_tone("direct play"), Tone::Good);
    assert_eq!(session_title(true, "Show", 1, 2, "Pilot", ""), "Show · S01E02 Pilot");
    assert_eq!(session_title(false, "", 0, 0, "Film", "1999"), "Film (1999)");
    let s = Session {
        key: "7".into(),
        state: "playing".into(),
        user: "ann".into(),
        title: "Film (1999)".into(),
        decision: "transcode".into(),
        player: "TV".into(),
    };
    let r = session_row(&s, "██░░ 50%", "4.2 Mbps");
    assert_eq!(r.key, "7");
    assert_eq!(r.cells.len(), 7);
    assert_eq!(r.cells[4].tone, Tone::Warn);
    assert!(r.actions[0].danger);
}

#[test]
fn bandwidth_history_keeps_the_newest_samples() {
    let mut h = BandwidthHistory::new();
    for k in 0..(HISTORY_KEEP as u64 + 30) {
        h.record(k);
    }
    let s = h.series();
    assert_eq!(s.len(), HISTORY_KEEP);
    assert_eq!(s[0], 30);
    assert_eq!(*s.last().unwrap(), HISTORY_KEEP as u64 + 29);
    let p = tautulli_panel(vec![], "0 on air · 0.0 Mbps".into(), &h);
    assert_eq!(p.footer.as_deref(), Some("the house is dark — nobody is watching"));
    assert_eq!(p.spark.as_ref().unwrap().1.len(), HISTORY_KEEP);
}

#[test]
fn tautulli_terminates_by_session_key() {
    let (cmd, extra, done) = tautulli_call("terminate", "42").ok().unwrap();
    assert_eq!(cmd, "terminate_session");
    assert_eq!(extra, "&session_key=42&message=The projectionist needs this reel back. Sorry!");
    assert_eq!(done, "stream 42 terminated");
    assert_eq!(tautulli_call("pause", "42").err().unwrap(), "unknown action pause");
    assert!(reply_verdict(true, "").is_ok());
    assert_eq!(reply_verdict(false, "bad key").err().unwrap(), "tautulli: bad key");
}

// --- the *arr family ---

#[test]
fn arr_versions_and_queue_requests() {
    assert_eq!(api_version("sonarr"), "v3");
    assert_eq!(api_version("prowlarr"), "v1");
    assert_eq!(queue_path("sonarr"), "queue?pageSize=12&includeSeries=true&includeEpisode=true");
    assert_eq!(queue_path("lidarr"), "queue?pageSize=12&includeArtist=true&includeAlbum=true");
    assert_eq!(queue_path("whatever"), "queue?pageSize=12");
}

#[test]
fn arr_titles_per_kind() {
    let mut r = RecordFacts {
        title: "raw.release".into(),
        series: "Show".into(),
        season: 3,
        episode: 12,
        movie: "Film".into(),
        year: 1999,
        artist: "Band".into(),
        album: "Record".into(),
    };
    assert_eq!(record_title("sonarr", &r), "Show S03E12");
    assert_eq!(record_title("radarr", &r), "Film (1999)");
    assert_eq!(record_title("lidarr", &r), "Band — Record");
    assert_eq!(record_title("prowlarr", &r), "raw.release");
    r.series = String::new();
    assert_eq!(record_title("sonarr", &r), "raw.release");
}

#[test]
fn arr_queue_rows_and_panels() {
    assert_eq!(queue_status("downloading", "importPending"), ("import".to_string(), Tone::Warn));
    assert_eq!(queue_status("failed", "ok"), ("failed".to_string(), Tone::Bad));
    assert_eq!(queue_status("queued", "ok"), ("queued".to_string(), Tone::Muted));
    let q = QueueRecord {
        key: "9".into(),
        title: "Show S01E01".into(),
        progress: "██░░ 50%".into(),
        status: "downloading".into(),
        download_state: "downloading".into(),
        timeleft: String::new(),
        left: "1.0 GB".into(),
    };
    let row = queue_row(&q);
    assert_eq!(row.cells[3].text, "1.0 GB");
    assert!(row.actions[0].danger);
    let p = queue_panel("sonarr", vec![row], 5, 2);
    assert_eq!(p.badge.as_deref(), Some("5 queued · ⚠ 2"));
    assert_eq!(p.footer.as_deref(), Some("showing 1 of 5"));
    let p = queue_panel("radarr", vec![], 0, 0);
    assert_eq!(p.badge.as_deref(), Some("0 queued"));
    assert_eq!(p.footer.as_deref(), Some("no movies in flight"));
    let p = prowlarr_panel(vec![indexer_row("1", true, "idx", "torrent"), indexer_row("2", false, "x", "usenet")], 1, 0);
    assert_eq!(p.badge.as_deref(), Some("1/2 indexers"));
    assert_eq!(p.rows[1].cells[0].text, "○");
}

#[test]
fn arr_actions_reach_the_right_endpoints() {
    let c = arr_call("radarr", "remove", "17").ok().unwrap();
    assert_eq!(c.method, ArrMethod::Delete);
    assert_eq!(c.path, "/api/v3/queue/17?removeFromClient=true&blocklist=false");
    let c = arr_call("lidarr", "rss", "").ok().unwrap();
    assert_eq!(c.method, ArrMethod::Command);
    assert_eq!((c.path.as_str(), c.command.as_str()), ("/api/v1/command", "RssSync"));
    let c = arr_call("prowlarr", "testall", "").ok().unwrap();
    assert_eq!(c.path, "/api/v1/indexer/testall");
    assert_eq!(arr_call("sonarr", "x", "").err().unwrap(), unknown_action("x"));
}

// --- NZBGet ---

#[test]
fn nzbget_groups_and_calls() {
    assert_eq!(group_tone("DOWNLOADING"), Tone::Good);
    assert_eq!(group_tone("PAUSED"), Tone::Warn);
    assert_eq!(group_tone("PP_UNPACKING"), Tone::Info);
    assert_eq!(group_tone("QUEUED"), Tone::Muted);
    let g = GroupRecord {
        key: "3".into(),
        name: "big.nzb".into(),
        progress: "░░░░ 0%".into(),
        status: "PP_UNPACKING".into(),
        left: "0 B".into(),
    };
    let r = group_row(&g);
    assert_eq!(r.cells[2].text, "pp_unpacking");
    assert_eq!(nzbget_badge(true, "1 MB/s", "2 GB"), "⏸ paused · 2 GB left");
    assert_eq!(nzbget_badge(false, "1 MB/s", "2 GB"), "1 MB/s · 2 GB left");
    let p = nzbget_panel(vec![r], "x".into(), "3 GB");
    assert_eq!(p.footer.as_deref(), Some("3 GB this month"));
    let c = nzbget_call("group_pause", "12").ok().unwrap();
    assert_eq!(c.method, "editqueue");
    assert_eq!(c.edit, Some(("GroupPause".to_string(), 12)));
    assert_eq!(nzbget_call("group_resume", "junk").ok().unwrap().edit, Some(("GroupResume".to_string(), 0)));
    assert_eq!(nzbget_call("pause_all", "").ok().unwrap().done, "queue paused");
    assert!(nzbget_call("zap", "").is_err());
    assert_eq!(rpc_error("status", "denied"), "nzbget rpc status: denied");
}

// --- Overseerr ---

#[test]
fn overseerr_titles_are_looked_up_once() {
    let mut cache = TitleCache::new();
    assert_eq!(cache.lookup(5), None);
    assert_eq!(tmdb_path(true, 5), "movie/5");
    assert_eq!(tmdb_path(false, -5), "tv/-5");
    let t = cache.settle(5, Some((String::new(), "A Show".into())));
    assert_eq!(t, "A Show");
    assert_eq!(cache.lookup(5), Some("A Show".to_string()));
    assert_eq!(cache.settle(6, None), "tmdb:6");
    assert_eq!(cache.lookup(6), Some("tmdb:6".to_string()));
    assert_eq!(cache.lookup(5), Some("A Show".to_string()));
}

#[test]
fn overseerr_rows_panels_and_calls() {
    let r = request_row("8", true, "Film", "ann", "2024-05-01T10:00:00Z");
    let texts: Vec<&str> = r.cells.iter().map(|c| c.text.as_str()).collect();
    assert_eq!(texts, vec!["🎬", "Film", "by ann", "2024-05-01"]);
    assert!(!r.actions[0].danger && r.actions[1].danger);
    let p = requests_panel(vec![], 0);
    assert_eq!(p.badge.as_deref(), Some("0 pending"));
    assert_eq!(p.footer.as_deref(), Some("no pending requests — the lobby is quiet"));
    let (path, done) = request_call("decline", "8").ok().unwrap();
    assert_eq!(path, "/api/v1/request/8/decline");
    assert_eq!(done, "request 8 declined");
    assert!(request_call("delete", "8").is_err());
}

// --- Glances ---

#[test]
fn glances_panel_and_refusal() {
    let p = glances_panel(vec![], None, "3 days");
    assert_eq!(p.footer.as_deref(), Some("up 3 days"));
    let p = glances_panel(vec![], Some("load 4%".into()), "");
    assert_eq!(p.footer, None);
    assert_eq!(glances_refusal("x"), "glances has no actions (tried x)");
    assert!(mount_hidden("/snap/core", &GLANCES_SKIP_MOUNTS));
    assert!(!mount_hidden("/efi", &GLANCES_SKIP_MOUNTS));
}

// --- Jax ---

#[test]
fn jax_keeps_a_short_log_without_repeats() {
    let cfg = SourceCfg { kind: "jax".into(), ..Default::default() };
    let mut j = JaxSource::new(&cfg);
    let p = j.poll_with("one");
    assert_eq!(p.rows.len(), 1);
    let p = j.poll_with("one");
    assert_eq!(p.rows.len(), 1, "the same entry twice in a row is skipped");
    for l in ["two", "three", "four", "five", "six", "seven"] {
        j.poll_with(l);
    }
    let p = j.poll_with("eight");
    assert_eq!(p.rows.len(), 5);
    assert_eq!(p.rows[0].cells[1].text, "eight", "newest first");
    assert_eq!(p.rows[4].cells[1].text, "four");
    assert_eq!(j.shift_mins(), 9);
    let p = j.poll();
    assert!(LOG_LINES.contains(&p.rows[0].cells[1].text.as_str()));
    assert_eq!(j.shift_mins(), 10);
}

#[test]
fn jax_can_be_bothered() {
    let cfg = SourceCfg { kind: "jax".into(), ..Default::default() };
    let mut j = JaxSource::new(&cfg);
    assert_eq!(j.execute("pet", "").ok().unwrap(), "Jax chirps happily 🦦");
    assert_eq!(j.execute("snack", "").ok().unwrap(), "Jax catches it without looking 🍿");
    assert_eq!(j.snacks(), 1);
    assert_eq!(j.execute("bath", "").err().unwrap(), "Jax tilts his head at 'bath'");
    let p = j.poll_with("x");
    assert_eq!(p.badge.as_deref(), Some("on shift · 1 snacks"));
    assert_eq!(p.rows[1].cells[1].text, "caught a snack mid-air. still got it");
    assert_eq!(p.footer.as_deref(), Some("Jax 2.0 — now with object permanence"));
    assert_eq!(p.panel_actions.len(), 2);
}

// --- Uptime Kuma ---

const KUMA: &str = r#"# HELP monitor_status Monitor Status (1 = UP, 0 = DOWN, 2 = PENDING, 3 = MAINTENANCE)
monitor_status{monitor_name="plex",monitor_type="http",monitor_url="http://x"} 1
monitor_status{monitor_name="sonarr",monitor_type="http",monitor_url="http://y"} 0
monitor_status{monitor_name="modem",monitor_type="ping",monitor_hostname="1.1"} 2
monitor_response_time{monitor_name="plex",monitor_type="http",monitor_url="http://x"} 42
"#;

#[test]
fn kuma_samples_carry_status_and_response_time() {
    let s = samples(KUMA);
    assert_eq!(s.len(), 4);
    assert_eq!(s[0].name, "plex");
    assert_eq!(s[0].reading, Reading::Status(1));
    assert_eq!(s[1].reading, Reading::Status(0));
    assert_eq!(s[2].name, "modem");
    assert_eq!(s[2].reading, Reading::Status(2));
    assert_eq!(s[3].reading, Reading::ResponseTime("42".into()));
}

#[test]
fn ignores_lines_without_monitor_name() {
    assert!(samples("# comment\nprocess_cpu_seconds_total 1.5\nup 1\n").is_empty());
    assert_eq!(label_name("monitor_name=\"nas\",x=\"y\""), Some("nas".to_string()));
    assert_eq!(label_name("monitor_name=\"unterminated"), None);
    assert_eq!(label_name("job=\"kuma\""), None);
}

// --- Plex, SABnzbd, speedtest-tracker ---

#[test]
fn plex_sessions_and_terminate() {
    assert_eq!(plex_title(true, "Show", 2, 7, "Nine Frames", 0), "Show · S02E07 Nine Frames");
    assert_eq!(plex_title(false, "", 0, 0, "Film", 1978), "Film (1978)");
    let s = PlexSession {
        key: "s1".into(),
        state: "paused".into(),
        user: "dee".into(),
        title: "Film (1978)".into(),
        transcoding: false,
        product: "Plex Web".into(),
    };
    let r = plex_row(&s, "█░ 13%");
    assert_eq!(r.cells[0].text, "⏸");
    assert_eq!(r.cells[4].text, "direct play");
    assert!(r.actions[0].danger);
    assert_eq!(plex_panel(vec![r]).badge.as_deref(), Some("1 session"));
    let p = plex_panel(vec![]);
    assert_eq!(p.badge.as_deref(), Some("0 sessions"));
    assert_eq!(p.footer.as_deref(), Some("the lamp is warm, the house is empty"));
    assert_eq!(plex_call("terminate", "").err().unwrap(), "session has no id");
    let (extra, done) = plex_call("terminate", "42").ok().unwrap();
    assert_eq!(extra, "&sessionId=42&reason=The projectionist needs this reel back.");
    assert_eq!(done, "session terminated");
}

#[test]
fn sabnzbd_slots_and_calls() {
    assert_eq!(slot_tone("Downloading"), Tone::Good);
    assert_eq!(slot_tone("Queued"), Tone::Muted);
    assert_eq!(slot_tone("Verifying"), Tone::Info);
    let r = sab_row("nzo_1", "file.nzb", "░░ 0%", "Paused", "0:10:00");
    assert_eq!(r.cells[2].text, "paused");
    assert_eq!(r.cells[2].tone, Tone::Warn);
    assert!(r.actions[2].danger && !r.actions[0].danger);
    let p = sab_panel(vec![r], false, "1.5 MB/s", "2 GB", "100 GB");
    assert_eq!(p.badge.as_deref(), Some("1.5 MB/s · 2 GB left"));
    assert_eq!(p.footer.as_deref(), Some("100 GB free on download disk"));
    assert_eq!(sab_call("slot_delete", "nzo_1").ok().unwrap(), ("mode=queue&name=delete&value=nzo_1".to_string(), "download deleted".to_string()));
    assert_eq!(sab_call("pause_all", "").ok().unwrap().0, "mode=pause");
    assert_eq!(reply_error("API Key Incorrect"), "sabnzbd: API Key Incorrect");
    assert!(sab_call("nuke", "").is_err());
}

#[test]
fn speedtest_rows_and_run() {
    let r = result_row("latest", "▼ 940.2 Mbps", "▲ 40.0 Mbps", "9 ms", Tone::Good);
    assert_eq!(r.cells[0].text, "latest ");
    let r2 = result_row("average", "▼ 1 Mbps", "▲ 1 Mbps", "1 ms", Tone::Default);
    assert_eq!(r2.cells[0].text, "average");
    let p = speedtest_panel(vec![r, r2], "▼ 940 ▲ 40 Mbps".into(), "2026-07-15T03:00:00Z", "A Very Long Server Name In A Faraway Place");
    assert_eq!(p.footer.as_deref(), Some("last run 2026-07-15 · A Very Long Server Name In A …"));
    assert_eq!(speedtest_call("run").ok().unwrap().0, "/api/speedtest/run");
    assert!(speedtest_call("walk").is_err());
}

#[test]
fn every_catalog_confirms_exactly_the_destructive() {
    let destructive = ["delete", "remove", "terminate", "stop", "restart", "decline", "slot_delete"];
    let mut all: Vec<ActionSpec> = Vec::new();
    all.extend(torrent_actions());
    all.extend(qbit_panel_actions());
    let s = Session {
        key: "1".into(),
        state: "playing".into(),
        user: "u".into(),
        title: "t".into(),
        decision: "direct play".into(),
        player: "p".into(),
    };
    all.extend(session_row(&s, "", "").actions);
    let q = QueueRecord {
        key: "1".into(),
        title: "t".into(),
        progress: String::new(),
        status: String::new(),
        download_state: String::new(),
        timeleft: String::new(),
        left: String::new(),
    };
    all.extend(queue_row(&q).actions);
    all.extend(queue_panel("sonarr", vec![], 0, 0).panel_actions);
    all.extend(prowlarr_panel(vec![], 0, 0).panel_actions);
    let g = GroupRecord { key: "1".into(), name: "n".into(), progress: String::new(), status: String::new(), left: String::new() };
    all.extend(group_row(&g).actions);
    all.extend(nzbget_panel(vec![], String::new(), "").panel_actions);
    all.extend(request_row("1", true, "t", "w", "").actions);
    all.extend(flicker::ssh::host_panel("@@DOCKER@@\nplex\tUp\n").rows[0].actions.clone());
    let cfg = SourceCfg { kind: "jax".into(), ..Default::default() };
    all.extend(JaxSource::new(&cfg).poll_with("x").panel_actions);
    assert!(all.len() >= 20);
    for a in &all {
        assert_eq!(a.danger, destructive.contains(&a.id.as_str()), "{}", a.id);
        if a.id.contains("pause") || a.id.contains("resume") {
            assert!(!a.danger, "{} is reversible", a.id);
        }
    }
}

fn monitor<'a>(m: &'a [MonitorState], name: &str) -> &'a MonitorState {
    m.iter().find(|s| s.name == name).expect("monitor listed")
}

#[test]
fn parses_status_and_response_time() {
    let m = monitors(KUMA);
    assert_eq!(m.len(), 3);
    assert_eq!(monitor(&m, "plex").status, 1);
    assert_eq!(monitor(&m, "plex").response.as_deref().map(|t| t.parse::<f64>().unwrap()), Some(42.0));
    assert_eq!(monitor(&m, "sonarr").status, 0);
    assert_eq!(monitor(&m, "modem").status, 2);
    assert_eq!(monitor(&m, "sonarr").response, None);
    assert!(monitors("# comment\nprocess_cpu_seconds_total 1.5\nup 1\n").is_empty());
}

#[test]
fn kuma_rows_and_panel() {
    assert_eq!(monitor_look(1), ("●", "up", Tone::Good));
    assert_eq!(monitor_look(0), ("○", "down", Tone::Bad));
    assert_eq!(monitor_look(7), ("◑", "maintenance", Tone::Info));
    assert_eq!([trouble_rank(0), trouble_rank(2), trouble_rank(3), trouble_rank(1)], [0, 1, 2, 3]);
    let r = monitor_row("plex", 2, "42 ms");
    assert_eq!(r.cells[2].text, "pending");
    let p = kuma_panel(vec![r], 2, 20);
    assert_eq!(p.badge.as_deref(), Some("2/20 up"));
    assert_eq!(p.footer.as_deref(), Some("showing 14 of 20"));
    assert_eq!(kuma_panel(vec![], 0, 3).footer, None);
    assert_eq!(kuma_refusal("x"), "uptime-kuma has no actions (tried x)");
}
