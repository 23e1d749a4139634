use flicker::config::{Config, ConfigError, ScreenCfg, SourceCfg, EXAMPLE};
use flicker::registry::{connection, SourceKind, KINDS};

fn example() -> toml::Table {
    toml::from_str::<toml::Table>(EXAMPLE).expect("EXAMPLE must stay valid")
}

#[test]
fn example_config_parses() {
    let cfg = example();
    assert_eq!(cfg["refresh_secs"].as_integer(), Some(15));
    let screens = cfg["screens"].as_array().unwrap();
    assert_eq!(screens.len(), 4);
    assert_eq!(screens[0]["name"].as_str(), Some("NOW SHOWING"));
    assert_eq!(screens[0]["sources"].as_array().unwrap()[0]["kind"].as_str(), Some("tautulli"));
}

#[test]
fn every_example_kind_is_registered() {
    let cfg = example();
    for screen in cfg["screens"].as_array().unwrap() {
        for s in screen["sources"].as_array().unwrap() {
            let kind = s["kind"].as_str().unwrap();
            assert!(KINDS.contains(&kind), "example uses unregistered kind {}", kind);
            assert!(SourceKind::parse(kind).is_ok());
        }
    }
}

#[test]
fn url_trims_trailing_slash() {
    let s = SourceCfg { kind: "tautulli".into(), url: Some("http://x:8181/".into()), ..Default::default() };
    assert_eq!(s.url().ok().unwrap(), "http://x:8181");
}

#[test]
fn unknown_kind_is_a_helpful_error() {
    let s = SourceCfg { kind: "betamax".into(), ..Default::default() };
    let err = match SourceKind::parse(&s.kind) {
        Err(e) => e,
        Ok(_) => panic!("betamax should not build"),
    };
    assert!(err.contains("betamax"));
    assert!(err.contains("tautulli"), "error should list available kinds");
}

#[test]
fn unknown_kind_lists_every_kind_in_order() {
    let err = SourceKind::parse("betamax").err().unwrap();
    assert_eq!(
        err,
        "unknown source kind 'betamax' (available: tautulli, plex, sonarr, radarr, lidarr, prowlarr, qbittorrent, nzbget, sabnzbd, overseerr, glances, ssh, prometheus, uptime-kuma, speedtest, jax)"
    );
    for k in KINDS {
        assert_eq!(SourceKind::parse(k).ok().unwrap().name(), k);
    }
}

#[test]
fn url_trims_every_trailing_slash_and_reports_a_missing_one() {
    let s = SourceCfg { kind: "glances".into(), url: Some("http://g:61208///".into()), ..Default::default() };
    assert_eq!(s.url().ok().unwrap(), "http://g:61208");
    let s = SourceCfg { kind: "glances".into(), ..Default::default() };
    assert_eq!(s.url().err().unwrap().message(), "source 'glances' needs url");
}

#[test]
fn api_key_is_required_by_name() {
    let s = SourceCfg { kind: "sonarr".into(), ..Default::default() };
    assert_eq!(s.api_key().err().unwrap().message(), "source 'sonarr' needs api_key");
    let s = SourceCfg { kind: "sonarr".into(), api_key: Some("k".into()), ..Default::default() };
    assert_eq!(s.api_key().ok().unwrap(), "k");
}

#[test]
fn display_name_defaults_to_the_kind() {
    let s = SourceCfg { kind: "ssh".into(), ..Default::default() };
    assert_eq!(s.display_name(), "ssh");
    let s = SourceCfg { kind: "ssh".into(), name: Some("nas".into()), ..Default::default() };
    assert_eq!(s.display_name(), "nas");
}

#[test]
fn intervals_floor_at_two_seconds() {
    let cfg = Config { refresh_secs: None, screens: vec![] };
    assert_eq!(cfg.default_interval(), 15);
    let cfg = Config { refresh_secs: Some(0), screens: vec![] };
    assert_eq!(cfg.default_interval(), 2);
    let s = SourceCfg { kind: "jax".into(), interval_secs: Some(1), ..Default::default() };
    assert_eq!(s.interval(15), 2);
    let s = SourceCfg { kind: "jax".into(), ..Default::default() };
    assert_eq!(s.interval(30), 30);
}

#[test]
fn a_config_needs_a_screen() {
    let cfg = Config { refresh_secs: None, screens: vec![] };
    match cfg.validate() {
        Err(e) => {
            assert!(matches!(e, ConfigError::NoScreens));
            assert_eq!(e.message(), "config has no [[screens]]");
        }
        Ok(_) => panic!("an empty config is not usable"),
    }
    let cfg = Config {
        refresh_secs: Some(5),
        screens: vec![ScreenCfg { name: "A".into(), sources: vec![] }],
    };
    assert_eq!(cfg.validate().ok().unwrap().screens.len(), 1);
}

#[test]
fn connections_ask_for_what_each_kind_needs() {
    let bare = SourceCfg { kind: "tautulli".into(), url: Some("http://t/".into()), ..Default::default() };
    let e = connection(SourceKind::Tautulli, &bare).err().unwrap();
    assert_eq!(e.message(), "source 'tautulli' needs api_key");

    let q = SourceCfg { kind: "qbittorrent".into(), url: Some("http://q/".into()), ..Default::default() };
    let c = connection(SourceKind::Qbittorrent, &q).ok().unwrap();
    assert_eq!(c.base, "http://q");
    assert_eq!(c.user, "admin");
    assert_eq!(c.pass, "");

    let n = SourceCfg { kind: "nzbget".into(), url: Some("http://n".into()), ..Default::default() };
    assert_eq!(connection(SourceKind::Nzbget, &n).ok().unwrap().user, "nzbget");

    let ssh = SourceCfg { kind: "ssh".into(), ..Default::default() };
    assert!(matches!(connection(SourceKind::Ssh, &ssh).err().unwrap(), ConfigError::NeedsHost));
    assert_eq!(ConfigError::NeedsHost.message(), "ssh source needs host");

    let none = SourceCfg { kind: "overseerr".into(), api_key: Some("k".into()), ..Default::default() };
    assert_eq!(connection(SourceKind::Overseerr, &none).err().unwrap().message(), "source 'overseerr' needs url");

    let jax = SourceCfg { kind: "jax".into(), ..Default::default() };
    assert!(connection(SourceKind::Jax, &jax).is_ok());
}
