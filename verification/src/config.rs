//! Config: screens of sources. Secrets live here and only here.

use vstd::prelude::*;

use crate::text::{lemma_trim_end, owned, trim_end_char};

verus! {

pub struct Config {
    /// Default poll cadence in seconds; sources may override.
    pub refresh_secs: Option<u64>,
    pub screens: Vec<ScreenCfg>,
}

pub struct ScreenCfg {
    pub name: String,
    pub sources: Vec<SourceCfg>,
}

pub struct SourceCfg {
    pub kind: String,
    /// Display name; defaults to the kind.
    pub name: Option<String>,
    pub url: Option<String>,
    pub api_key: Option<String>,
    pub username: Option<String>,
    pub password: Option<String>,
    /// For `ssh` sources: the host to reach (name or IP, ~/.ssh/config applies).
    pub host: Option<String>,
    pub interval_secs: Option<u64>,
    /// For `prometheus` sources: extra instant queries, each `label|expr`.
    pub queries: Option<Vec<String>>,
}

impl Default for SourceCfg {
    fn default() -> (c: SourceCfg)
        ensures
            c.kind@ == Seq::<char>::empty(),
            c.name is None,
            c.url is None,
            c.api_key is None,
            c.username is None,
            c.password is None,
            c.host is None,
            c.interval_secs is None,
            c.queries is None,
    {
        SourceCfg {
            kind: String::new(),
            name: None,
            url: None,
            api_key: None,
            username: None,
            password: None,
            host: None,
            interval_secs: None,
            queries: None,
        }
    }
}

/// What is wrong with a config.
pub enum ConfigError {
    /// A source of `kind` lacks a setting it needs.
    Missing { kind: String, field: String },
    /// The config holds no `[[screens]]`.
    NoScreens,
    /// An ssh source names no host.
    NeedsHost,
}

pub enum ConfigErrorView {
    Missing { kind: Seq<char>, field: Seq<char> },
    NoScreens,
    NeedsHost,
}

impl View for ConfigError {
    type V = ConfigErrorView;

    open spec fn view(&self) -> ConfigErrorView {
        match self {
            ConfigError::Missing { kind, field } => ConfigErrorView::Missing { kind: kind@, field: field@ },
            ConfigError::NoScreens => ConfigErrorView::NoScreens,
            ConfigError::NeedsHost => ConfigErrorView::NeedsHost,
        }
    }
}

pub open spec fn error_text(e: ConfigErrorView) -> Seq<char> {
    match e {
        ConfigErrorView::Missing { kind, field } => "source '"@ + kind + "' needs "@ + field,
        ConfigErrorView::NoScreens => "config has no [[screens]]"@,
        ConfigErrorView::NeedsHost => "ssh source needs host"@,
    }
}

impl ConfigError {
    /// The message shown to the user.
    pub fn message(&self) -> (m: String)
        ensures
            m@ == error_text(self@),
    {
        match self {
            ConfigError::Missing { kind, field } => {
                let mut m = owned("source '");
                m.append(kind.as_str());
                m.append("' needs ");
                m.append(field.as_str());
                m
            },
            ConfigError::NoScreens => owned("config has no [[screens]]"),
            ConfigError::NeedsHost => owned("ssh source needs host"),
        }
    }
}

pub open spec fn missing(kind: Seq<char>, field: Seq<char>) -> ConfigErrorView {
    ConfigErrorView::Missing { kind, field }
}

/// A commented example config, written by `--init`.
pub const EXAMPLE: &'static str = r#"# flicker — the space between frames
# Screens are rooms; each holds one or more sources (panels).
# Available kinds: tautulli, plex, sonarr, radarr, lidarr, prowlarr,
#                  qbittorrent, nzbget, sabnzbd, overseerr, glances, ssh,
#                  prometheus, uptime-kuma, speedtest, jax

refresh_secs = 15

[[screens]]
name = "NOW SHOWING"

  [[screens.sources]]
  kind = "tautulli"
  url = "http://192.168.1.10:8181"
  api_key = "changeme"

[[screens]]
name = "COMING SOON"

  [[screens.sources]]
  kind = "overseerr"
  url = "http://192.168.1.10:5055"
  api_key = "changeme"

  [[screens.sources]]
  kind = "sonarr"
  url = "http://192.168.1.10:8989"
  api_key = "changeme"

  [[screens.sources]]
  kind = "radarr"
  url = "http://192.168.1.10:7878"
  api_key = "changeme"

[[screens]]
name = "FREIGHT"

  [[screens.sources]]
  kind = "qbittorrent"
  url = "http://192.168.1.10:8090"
  username = "admin"
  password = "changeme"

  [[screens.sources]]
  kind = "nzbget"
  url = "http://192.168.1.10:6789"
  username = "nzbget"
  password = "changeme"

[[screens]]
name = "BACK LOT"

  [[screens.sources]]
  kind = "glances"
  name = "media-box"
  url = "http://192.168.1.10:61208"

  [[screens.sources]]
  kind = "ssh"
  name = "nas"
  host = "192.168.1.20"
"#;

/// The shortest poll interval any source gets, in seconds.
pub const MIN_INTERVAL_SECS: u64 = 2;

/// The poll interval when the config names none, in seconds.
pub const DEFAULT_REFRESH_SECS: u64 = 15;

impl Config {
    /// The default poll cadence: the configured one (or 15 s), never
    /// below the 2 s floor.
    pub fn default_interval(&self) -> (secs: u64)
        ensures
            secs == (match self.refresh_secs {
                Some(r) => if r < MIN_INTERVAL_SECS { MIN_INTERVAL_SECS } else { r },
                None => DEFAULT_REFRESH_SECS,
            }),
            secs >= MIN_INTERVAL_SECS,
    {
        let r = match self.refresh_secs {
            Some(r) => r,
            None => DEFAULT_REFRESH_SECS,
        };
        if r < MIN_INTERVAL_SECS { MIN_INTERVAL_SECS } else { r }
    }

    /// A parsed config is usable only when it has at least one screen.
    pub fn validate(self) -> (r: Result<Config, ConfigError>)
        ensures
            self.screens@.len() > 0 ==> (r matches Ok(c) && c == self),
            self.screens@.len() == 0 ==> (r matches Err(e) && e@ == ConfigErrorView::NoScreens),
    {
        if self.screens.len() == 0 {
            Err(ConfigError::NoScreens)
        } else {
            Ok(self)
        }
    }
}

impl SourceCfg {
    /// The base URL, without trailing slashes.
    pub fn url(&self) -> (r: Result<String, ConfigError>)
        ensures
            match self.url {
                Some(u) => r matches Ok(s) && s@ == trim_end_char(u@, '/'),
                None => r matches Err(e) && e@ == missing(self.kind@, "url"@),
            },
    {
        match &self.url {
            Some(u) => {
                let v = crate::text::chars_of(u.as_str());
                let mut e = v.len();
                while e > 0 && v[e - 1] == '/'
                    invariant
                        e <= v.len(),
                        forall|j: int| e <= j < v.len() ==> #[trigger] v@[j] == '/',
                    decreases e,
                {
                    e -= 1;
                }
                proof {
                    lemma_trim_end(v@, '/', e as int);
                }
                let s = crate::text::slice_string(&v, 0, e);
                assert(s@ =~= v@.take(e as int));
                Ok(s)
            },
            None => Err(ConfigError::Missing { kind: self.kind.clone(), field: owned("url") }),
        }
    }

    pub fn api_key(&self) -> (r: Result<String, ConfigError>)
        ensures
            match self.api_key {
                Some(k) => r matches Ok(s) && s@ == k@,
                None => r matches Err(e) && e@ == missing(self.kind@, "api_key"@),
            },
    {
        match &self.api_key {
            Some(k) => Ok(k.clone()),
            None => Err(ConfigError::Missing { kind: self.kind.clone(), field: owned("api_key") }),
        }
    }

    /// The name shown on the panel: the configured one, else the kind.
    pub fn display_name(&self) -> (n: String)
        ensures
            n@ == (match self.name {
                Some(s) => s@,
                None => self.kind@,
            }),
    {
        match &self.name {
            Some(s) => s.clone(),
            None => self.kind.clone(),
        }
    }

    /// This source's poll interval: its own setting, else the config's
    /// default, never below the 2 s floor.
    pub fn interval(&self, default_secs: u64) -> (secs: u64)
        ensures
            secs == ({
                let r = match self.interval_secs {
                    Some(r) => r,
                    None => default_secs,
                };
                if r < MIN_INTERVAL_SECS { MIN_INTERVAL_SECS } else { r }
            }),
            secs >= MIN_INTERVAL_SECS,
    {
        let r = match self.interval_secs {
            Some(r) => r,
            None => default_secs,
        };
        if r < MIN_INTERVAL_SECS { MIN_INTERVAL_SECS } else { r }
    }
}

} // verus!
