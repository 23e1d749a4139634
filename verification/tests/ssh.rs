use flicker::config::SourceCfg;
use flicker::panel::Tone;
use flicker::ssh::{container_name_ok, disk_fields, host_panel, section, ssh_error_text, SshHost};

const SAMPLE: &str = "@@LOAD@@\n0.42 0.51 0.48 1/234 5678\n@@MEM@@\n34359738368 12884901888\n@@DISK@@\n/ 500000000000 220000000000 44%\n/pool 44000000000000 31240000000000 71%\n@@DOCKER@@\nplex\tUp 9 days\nspeedtest\tExited (1) 3 hours ago\n@@UPTIME@@\nup 1 day, 19 hours\n";

#[test]
fn sections_split_on_markers() {
    assert_eq!(section(SAMPLE, "LOAD"), vec!["0.42 0.51 0.48 1/234 5678"]);
    assert_eq!(section(SAMPLE, "DOCKER").len(), 2);
    assert_eq!(section(SAMPLE, "UPTIME"), vec!["up 1 day, 19 hours"]);
    assert!(section(SAMPLE, "NOPE").is_empty());
}

#[test]
fn container_names_are_vetted_before_shell() {
    // the same rule execute() enforces
    let ok = |s: &str| container_name_ok(s);
    assert!(ok("acquire-sonarr-1"));
    assert!(ok("gitea-db-1"));
    assert!(!ok("evil; rm -rf /"));
    assert!(!ok("$(boom)"));
}

fn host() -> SshHost {
    let cfg = SourceCfg { kind: "ssh".into(), host: Some("nas".into()), ..Default::default() };
    SshHost::new(&cfg).ok().unwrap()
}

#[test]
fn a_host_is_required() {
    let cfg = SourceCfg { kind: "ssh".into(), ..Default::default() };
    assert_eq!(SshHost::new(&cfg).err().unwrap().message(), "ssh source needs host");
}

#[test]
fn plans_run_docker_only_on_vetted_names() {
    let h = host();
    let (cmd, msg) = h.plan("restart", "plex").ok().unwrap();
    assert_eq!(cmd, "docker restart plex");
    assert_eq!(msg, "restarted plex on nas");
    let (cmd, msg) = h.plan("stop", "plex").ok().unwrap();
    assert_eq!(cmd, "docker stop plex");
    assert_eq!(msg, "stoped plex on nas");
    assert_eq!(h.plan("stop", "").err().unwrap(), "no container selected");
    assert_eq!(h.plan("stop", "$(boom)").err().unwrap(), "suspicious container name");
    assert_eq!(h.plan("nuke", "plex").err().unwrap(), "unknown action nuke");
}

#[test]
fn host_panel_reads_load_containers_and_uptime() {
    let p = host_panel(SAMPLE);
    assert_eq!(p.badge.as_deref(), Some("load 0.42 0.51 0.48"));
    assert_eq!(p.rows.len(), 2);
    assert_eq!(p.rows[0].key, "plex");
    assert_eq!(p.rows[0].cells[0].text, "●");
    assert_eq!(p.rows[0].cells[0].tone, Tone::Good);
    assert_eq!(p.rows[0].cells[2].text, "Up 9 days");
    assert_eq!(p.rows[1].cells[0].text, "○");
    assert_eq!(p.rows[1].cells[2].tone, Tone::Bad);
    assert!(p.rows[0].actions.iter().all(|a| a.danger));
    assert_eq!(p.footer.as_deref(), Some("up 1 day, 19 hours"));
}

#[test]
fn a_host_without_docker_says_so() {
    let p = host_panel("@@LOAD@@\n1 2 3\n@@DOCKER@@\n@@UPTIME@@\n");
    assert_eq!(p.rows.len(), 1);
    assert_eq!(p.rows[0].cells[0].text, "no containers (docker not present)");
    assert!(p.rows[0].actions.is_empty());
    assert_eq!(p.footer, None);
}

#[test]
fn disk_lines_split_and_skip_system_mounts() {
    let (m, s, u, p) = disk_fields("/pool 44000000000000 31240000000000 71%").unwrap();
    assert_eq!((m.as_str(), s.as_str(), u.as_str(), p.as_str()), ("/pool", "44000000000000", "31240000000000", "71"));
    assert!(disk_fields("/boot 1 1 1%").is_none());
    assert!(disk_fields("/pool 1 1").is_none());
}

#[test]
fn a_failed_probe_names_the_host() {
    assert_eq!(ssh_error_text("nas", "  Permission denied\n"), "ssh nas: Permission denied");
}

#[test]
fn host_panel_lists_at_most_fourteen_containers() {
    let mut raw = String::from("@@LOAD@@\n1 2 3\n@@DOCKER@@\n");
    for i in 0..20 {
        raw.push_str(&format!("c{i}\tUp {i} hours\n"));
    }
    raw.push_str("@@UPTIME@@\nup 2 days\n");
    let p = host_panel(&raw);
    assert_eq!(p.rows.len(), 14);
    assert_eq!(p.rows[0].key, "c0");
    assert_eq!(p.rows[13].key, "c13");
    assert!(p.rows.iter().all(|r| r.actions.len() == 2 && r.actions.iter().all(|a| a.danger)));
}
