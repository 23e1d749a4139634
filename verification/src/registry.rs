//! The one place a new source kind gets wired in.

use vstd::prelude::*;

use crate::config::{missing, ConfigError, ConfigErrorView, SourceCfg};
use crate::text::trim_end_char;
use crate::text::{owned, same};

verus! {

/// Every source kind the console can build.
#[derive(Clone, Copy, Debug, PartialEq, Eq, Structural)]
pub enum SourceKind {
    Tautulli,
    Plex,
    Sonarr,
    Radarr,
    Lidarr,
    Prowlarr,
    Qbittorrent,
    Nzbget,
    Sabnzbd,
    Overseerr,
    Glances,
    Ssh,
    Prometheus,
    UptimeKuma,
    Speedtest,
    Jax,
}

/// The kinds, in the order the registry lists them.
pub const KINDS: [&'static str; 16] = [
    "tautulli",
    "plex",
    "sonarr",
    "radarr",
    "lidarr",
    "prowlarr",
    "qbittorrent",
    "nzbget",
    "sabnzbd",
    "overseerr",
    "glances",
    "ssh",
    "prometheus",
    "uptime-kuma",
    "speedtest",
    "jax",
];

pub open spec fn all_kinds() -> Seq<SourceKind> {
    seq![
        SourceKind::Tautulli,
        SourceKind::Plex,
        SourceKind::Sonarr,
        SourceKind::Radarr,
        SourceKind::Lidarr,
        SourceKind::Prowlarr,
        SourceKind::Qbittorrent,
        SourceKind::Nzbget,
        SourceKind::Sabnzbd,
        SourceKind::Overseerr,
        SourceKind::Glances,
        SourceKind::Ssh,
        SourceKind::Prometheus,
        SourceKind::UptimeKuma,
        SourceKind::Speedtest,
        SourceKind::Jax,
    ]
}

pub open spec fn kind_name(k: SourceKind) -> Seq<char> {
    match k {
        SourceKind::Tautulli => "tautulli"@,
        SourceKind::Plex => "plex"@,
        SourceKind::Sonarr => "sonarr"@,
        SourceKind::Radarr => "radarr"@,
        SourceKind::Lidarr => "lidarr"@,
        SourceKind::Prowlarr => "prowlarr"@,
        SourceKind::Qbittorrent => "qbittorrent"@,
        SourceKind::Nzbget => "nzbget"@,
        SourceKind::Sabnzbd => "sabnzbd"@,
        SourceKind::Overseerr => "overseerr"@,
        SourceKind::Glances => "glances"@,
        SourceKind::Ssh => "ssh"@,
        SourceKind::Prometheus => "prometheus"@,
        SourceKind::UptimeKuma => "uptime-kuma"@,
        SourceKind::Speedtest => "speedtest"@,
        SourceKind::Jax => "jax"@,
    }
}

/// A name the registry knows: one of the kinds' names.
pub open spec fn registered(name: Seq<char>) -> bool {
    exists|i: int| 0 <= i < all_kinds().len() && kind_name(#[trigger] all_kinds()[i]) == name
}

/// The names of the kinds, joined by `", "`.
pub open spec fn joined_names(ks: Seq<SourceKind>) -> Seq<char>
    decreases ks.len(),
{
    if ks.len() == 0 {
        seq![]
    } else if ks.len() == 1 {
        kind_name(ks[0])
    } else {
        joined_names(ks.drop_last()) + ", "@ + kind_name(ks.last())
    }
}

/// The error for a kind nobody registered: it names the kind and lists the
/// available ones.
pub open spec fn unknown_kind_text(kind: Seq<char>) -> Seq<char> {
    "unknown source kind '"@ + kind + "' (available: "@ + joined_names(all_kinds()) + ")"@
}

impl SourceKind {
    pub fn name(self) -> (s: &'static str)
        ensures
            s@ == kind_name(self),
    {
        match self {
            SourceKind::Tautulli => "tautulli",
            SourceKind::Plex => "plex",
            SourceKind::Sonarr => "sonarr",
            SourceKind::Radarr => "radarr",
            SourceKind::Lidarr => "lidarr",
            SourceKind::Prowlarr => "prowlarr",
            SourceKind::Qbittorrent => "qbittorrent",
            SourceKind::Nzbget => "nzbget",
            SourceKind::Sabnzbd => "sabnzbd",
            SourceKind::Overseerr => "overseerr",
            SourceKind::Glances => "glances",
            SourceKind::Ssh => "ssh",
            SourceKind::Prometheus => "prometheus",
            SourceKind::UptimeKuma => "uptime-kuma",
            SourceKind::Speedtest => "speedtest",
            SourceKind::Jax => "jax",
        }
    }

    /// The kind a config names, or the error that lists what is available.
    pub fn parse(kind: &str) -> (r: Result<SourceKind, String>)
        ensures
            r matches Ok(k) ==> kind_name(k) == kind@,
            registered(kind@) ==> r is Ok,
            r matches Err(m) ==> m@ == unknown_kind_text(kind@),
    {
        let all = [
            SourceKind::Tautulli,
            SourceKind::Plex,
            SourceKind::Sonarr,
            SourceKind::Radarr,
            SourceKind::Lidarr,
            SourceKind::Prowlarr,
            SourceKind::Qbittorrent,
            SourceKind::Nzbget,
            SourceKind::Sabnzbd,
            SourceKind::Overseerr,
            SourceKind::Glances,
            SourceKind::Ssh,
            SourceKind::Prometheus,
            SourceKind::UptimeKuma,
            SourceKind::Speedtest,
            SourceKind::Jax,
        ];
        assert(all@ =~= all_kinds());
        let mut i: usize = 0;
        while i < 16
            invariant
                i <= 16,
                all@ == all_kinds(),
                forall|j: int| 0 <= j < i ==> kind_name(#[trigger] all_kinds()[j]) != kind@,
            decreases 16 - i,
        {
            if same(kind, all[i].name()) {
                return Ok(all[i]);
            }
            i += 1;
        }
        let mut m = owned("unknown source kind '");
        m.append(kind);
        m.append("' (available: ");
        let mut j: usize = 0;
        while j < 16
            invariant
                j <= 16,
                all@ == all_kinds(),
                m@ == "unknown source kind '"@ + kind@ + "' (available: "@ + joined_names(all_kinds().take(j as int)),
            decreases 16 - j,
        {
            let ghost before = m@;
            if j > 0 {
                m.append(", ");
            }
            m.append(all[j].name());
            proof {
                let t = all_kinds().take(j + 1);
                assert(t.drop_last() =~= all_kinds().take(j as int));
                if j == 0 {
                    assert(joined_names(all_kinds().take(0)) =~= Seq::<char>::empty());
                    assert(before + kind_name(all_kinds()[0]) =~= before + joined_names(t));
                }
            }
            j += 1;
        }
        assert(all_kinds().take(16) =~= all_kinds());
        m.append(")");
        Err(m)
    }
}

/// Every kind is listed, and no two kinds share a name, so the name a kind
/// shows is the one `SourceKind::parse` reads back as that kind.
pub proof fn law_kind_names_round_trip(k: SourceKind, other: SourceKind)
    ensures
        exists|i: int| 0 <= i < all_kinds().len() && #[trigger] all_kinds()[i] == k,
        kind_name(other) == kind_name(k) ==> other == k,
{
    reveal_strlit("tautulli");
    reveal_strlit("plex");
    reveal_strlit("sonarr");
    reveal_strlit("radarr");
    reveal_strlit("lidarr");
    reveal_strlit("prowlarr");
    reveal_strlit("qbittorrent");
    reveal_strlit("nzbget");
    reveal_strlit("sabnzbd");
    reveal_strlit("overseerr");
    reveal_strlit("glances");
    reveal_strlit("ssh");
    reveal_strlit("prometheus");
    reveal_strlit("uptime-kuma");
    reveal_strlit("speedtest");
    reveal_strlit("jax");
    let all = all_kinds();
    let i: int = match k {
        SourceKind::Tautulli => 0,
        SourceKind::Plex => 1,
        SourceKind::Sonarr => 2,
        SourceKind::Radarr => 3,
        SourceKind::Lidarr => 4,
        SourceKind::Prowlarr => 5,
        SourceKind::Qbittorrent => 6,
        SourceKind::Nzbget => 7,
        SourceKind::Sabnzbd => 8,
        SourceKind::Overseerr => 9,
        SourceKind::Glances => 10,
        SourceKind::Ssh => 11,
        SourceKind::Prometheus => 12,
        SourceKind::UptimeKuma => 13,
        SourceKind::Speedtest => 14,
        SourceKind::Jax => 15,
    };
    assert(all[i] == k);
    if kind_name(other) == kind_name(k) && other != k {
        let a = kind_name(other);
        let b = kind_name(k);
        assert(a.len() == b.len());
        assert(a[0] == b[0]);
        assert(a[1] == b[1]);
        assert(a[2] == b[2]);
        assert(a[3] == b[3]);
    }
}

/// Every kind's own name is a registered name.
pub proof fn lemma_kind_registered(k: SourceKind)
    ensures
        registered(kind_name(k)),
{
    law_kind_names_round_trip(k, k);
    let i = choose|i: int| 0 <= i < all_kinds().len() && #[trigger] all_kinds()[i] == k;
    assert(kind_name(all_kinds()[i]) == kind_name(k));
}

/// What a source needs to reach its service: the base URL (for `ssh`, the
/// host), the API key, and the login. Settings a kind does not use stay empty;
/// Uptime Kuma's key is optional and read from the config as it stands.
pub struct Conn {
    pub base: String,
    pub key: String,
    pub user: String,
    pub pass: String,
}

pub struct ConnView {
    pub base: Seq<char>,
    pub key: Seq<char>,
    pub user: Seq<char>,
    pub pass: Seq<char>,
}

impl View for Conn {
    type V = ConnView;

    open spec fn view(&self) -> ConnView {
        ConnView { base: self.base@, key: self.key@, user: self.user@, pass: self.pass@ }
    }
}

pub open spec fn or_text(o: Option<String>, d: Seq<char>) -> Seq<char> {
    match o {
        Some(s) => s@,
        None => d,
    }
}

/// The connection settings a kind requires, in the order it asks for them:
/// a missing URL is reported before a missing key.
pub open spec fn conn_of(kind: SourceKind, c: SourceCfg) -> Result<ConnView, ConfigErrorView> {
    match kind {
        SourceKind::Jax => Ok(ConnView { base: seq![], key: seq![], user: seq![], pass: seq![] }),
        SourceKind::Ssh => match c.host {
            Some(h) => Ok(ConnView { base: h@, key: seq![], user: seq![], pass: seq![] }),
            None => Err(ConfigErrorView::NeedsHost),
        },
        _ => match c.url {
            None => Err(missing(c.kind@, "url"@)),
            Some(u) => {
                let base = trim_end_char(u@, '/');
                match kind {
                    SourceKind::Qbittorrent => Ok(ConnView {
                        base,
                        key: seq![],
                        user: or_text(c.username, "admin"@),
                        pass: or_text(c.password, seq![]),
                    }),
                    SourceKind::Nzbget => Ok(ConnView {
                        base,
                        key: seq![],
                        user: or_text(c.username, "nzbget"@),
                        pass: or_text(c.password, seq![]),
                    }),
                    SourceKind::Glances | SourceKind::Prometheus | SourceKind::UptimeKuma | SourceKind::Speedtest => Ok(
                        ConnView { base, key: seq![], user: seq![], pass: seq![] },
                    ),
                    _ => match c.api_key {
                        Some(k) => Ok(ConnView { base, key: k@, user: seq![], pass: seq![] }),
                        None => Err(missing(c.kind@, "api_key"@)),
                    },
                }
            },
        },
    }
}

fn text_or(o: &Option<String>, d: &str) -> (s: String)
    ensures
        s@ == or_text(*o, d@),
{
    match o {
        Some(s) => s.clone(),
        None => owned(d),
    }
}

/// The settings a source of `kind` is built from, or what its config lacks.
pub fn connection(kind: SourceKind, cfg: &SourceCfg) -> (r: Result<Conn, ConfigError>)
    ensures
        match conn_of(kind, *cfg) {
            Ok(c) => r matches Ok(k) && k@ == c,
            Err(e) => r matches Err(x) && x@ == e,
        },
{
    proof {
        reveal_strlit("");
        assert(""@ =~= Seq::<char>::empty());
    }
    match kind {
        SourceKind::Jax => {
            return Ok(Conn { base: String::new(), key: String::new(), user: String::new(), pass: String::new() });
        },
        SourceKind::Ssh => {
            return match &cfg.host {
                Some(h) => Ok(Conn { base: h.clone(), key: String::new(), user: String::new(), pass: String::new() }),
                None => Err(ConfigError::NeedsHost),
            };
        },
        _ => {},
    }
    let base = match cfg.url() {
        Ok(b) => b,
        Err(e) => {
            return Err(e);
        },
    };
    match kind {
        SourceKind::Qbittorrent => Ok(Conn {
            base,
            key: String::new(),
            user: text_or(&cfg.username, "admin"),
            pass: text_or(&cfg.password, ""),
        }),
        SourceKind::Nzbget => Ok(Conn {
            base,
            key: String::new(),
            user: text_or(&cfg.username, "nzbget"),
            pass: text_or(&cfg.password, ""),
        }),
        SourceKind::Glances | SourceKind::Prometheus | SourceKind::UptimeKuma | SourceKind::Speedtest => Ok(
            Conn { base, key: String::new(), user: String::new(), pass: String::new() },
        ),
        _ => match cfg.api_key() {
            Ok(key) => Ok(Conn { base, key, user: String::new(), pass: String::new() }),
            Err(e) => Err(e),
        },
    }
}

} // verus!
