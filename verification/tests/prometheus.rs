use flicker::config::SourceCfg;
use flicker::panel::Tone;
use flicker::prometheus::{prometheus_panel, prometheus_refusal, queries, split_query, QueryOutcome, Target};
use flicker::registry::{connection, SourceKind};

fn target(job: &str, instance: &str, value_is_one: bool) -> Target {
    Target { job: job.into(), instance: instance.into(), alive: value_is_one, down: !value_is_one }
}

#[test]
fn queries_split_at_the_first_bar_and_trim() {
    assert_eq!(split_query(" load | node_load1 "), ("load".to_string(), "node_load1".to_string()));
    assert_eq!(split_query("a|b|c"), ("a".to_string(), "b|c".to_string()));
    assert_eq!(split_query("up == 0"), ("up == 0".to_string(), "up == 0".to_string()));
    let cfg = SourceCfg {
        kind: "prometheus".into(),
        queries: Some(vec!["disk|node_filesystem_avail_bytes".into(), "count(up)".into()]),
        ..Default::default()
    };
    let q = queries(&cfg);
    assert_eq!(q.len(), 2);
    assert_eq!(q[0], ("disk".to_string(), "node_filesystem_avail_bytes".to_string()));
    assert_eq!(q[1], ("count(up)".to_string(), "count(up)".to_string()));
    assert!(queries(&SourceCfg { kind: "prometheus".into(), ..Default::default() }).is_empty());
}

#[test]
fn down_targets_get_rows_and_the_badge_counts_the_living() {
    let targets = vec![target("node", "nas:9100", true), target("cadvisor", "nas:8080", false), target("node", "pi:9100", true)];
    let p = prometheus_panel(&targets, &vec![]);
    assert_eq!(p.badge.as_deref(), Some("2/3 targets up"));
    assert_eq!(p.rows.len(), 1);
    let r = &p.rows[0];
    assert_eq!(r.cells[0].text, "○");
    assert_eq!(r.cells[0].tone, Tone::Bad);
    assert_eq!(r.cells[1].text, "cadvisor");
    assert_eq!(r.cells[2].text, "nas:8080");
    assert_eq!(r.cells[3].text, "down");
    assert_eq!(p.footer, None);
}

#[test]
fn a_healthy_roll_call_without_queries_gets_the_footer() {
    let p = prometheus_panel(&vec![target("node", "nas:9100", true)], &vec![]);
    assert_eq!(p.badge.as_deref(), Some("1/1 targets up"));
    assert!(p.rows.is_empty());
    assert_eq!(p.footer.as_deref(), Some("every scrape target answering the roll call"));
    let empty = prometheus_panel(&vec![], &vec![]);
    assert_eq!(empty.badge.as_deref(), Some("0/0 targets up"));
}

#[test]
fn each_query_answer_becomes_a_row() {
    let answers = vec![
        ("load".to_string(), QueryOutcome::Value("0.4200".into())),
        ("ghosts".to_string(), QueryOutcome::NoData),
        ("broken".to_string(), QueryOutcome::Failed("prometheus: parse error at char 3".into())),
    ];
    let p = prometheus_panel(&vec![target("node", "nas:9100", true)], &answers);
    assert_eq!(p.rows.len(), 3);
    assert_eq!(p.rows[0].cells[0].text, "·");
    assert_eq!(p.rows[0].cells[2].text, "0.4200");
    assert_eq!(p.rows[0].cells[2].tone, Tone::Info);
    assert_eq!(p.rows[1].cells[2].text, "no data");
    assert_eq!(p.rows[1].cells[0].tone, Tone::Muted);
    assert_eq!(p.rows[2].cells[0].text, "✗");
    assert_eq!(p.rows[2].cells[1].text, "broken");
    assert_eq!(p.rows[2].cells[2].text, "prometheus: parse error at char 3");
    assert_eq!(p.footer, None, "queries suppress the all-clear footer");
}

#[test]
fn prometheus_refuses_actions() {
    assert_eq!(prometheus_refusal("restart"), "prometheus has no actions (tried restart)");
}

#[test]
fn the_first_reel_kinds_are_all_registered() {
    for kind in ["plex", "sabnzbd", "prometheus", "uptime-kuma", "speedtest"] {
        let k = SourceKind::parse(kind).ok().unwrap();
        assert_eq!(k.name(), kind);
    }
    let bare = |kind: &str| SourceCfg { kind: kind.into(), url: Some("http://h:1/".into()), ..Default::default() };
    assert_eq!(connection(SourceKind::Plex, &bare("plex")).err().unwrap().message(), "source 'plex' needs api_key");
    assert_eq!(connection(SourceKind::Sabnzbd, &bare("sabnzbd")).err().unwrap().message(), "source 'sabnzbd' needs api_key");
    assert_eq!(connection(SourceKind::Speedtest, &bare("speedtest")).ok().unwrap().base, "http://h:1");
    assert_eq!(connection(SourceKind::Prometheus, &bare("prometheus")).ok().unwrap().base, "http://h:1");
    assert_eq!(connection(SourceKind::UptimeKuma, &bare("uptime-kuma")).ok().unwrap().base, "http://h:1");
    let no_url = SourceCfg { kind: "speedtest".into(), ..Default::default() };
    assert_eq!(connection(SourceKind::Speedtest, &no_url).err().unwrap().message(), "source 'speedtest' needs url");
}
