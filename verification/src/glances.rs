//! Glances: CPU, memory and swap gauges and the filesystems, from the
//! Glances v4 REST API. The gauges carry fractions and are measured outside;
//! here are the rules for which disks show and how the panel reads.

use vstd::prelude::*;

use crate::panel::{gauges_view, opt_text, GaugeItem, Panel, PanelView};
use crate::text::owned;

verus! {

/// Mount points that are the system's, not the user's.
pub const GLANCES_SKIP_MOUNTS: [&'static str; 5] = ["/boot", "/snap", "/run", "/dev", "/var/lib/docker"];

/// The Glances panel: the gauges, the load badge (rendered by the caller,
/// `None` when there is no load figure) and how long the machine has been up.
pub open spec fn glances_panel_of(gauges: Seq<crate::panel::GaugeView>, badge: Option<Seq<char>>, uptime: Seq<char>) -> PanelView {
    PanelView {
        badge,
        gauges,
        spark: None,
        rows: seq![],
        footer: if uptime.len() == 0 { None } else { Some("up "@ + uptime) },
        panel_actions: seq![],
    }
}

pub fn glances_panel(gauges: Vec<GaugeItem>, badge: Option<String>, uptime: &str) -> (p: Panel)
    ensures
        p@ == glances_panel_of(gauges_view(gauges@), opt_text(badge), uptime@),
{
    let footer = if uptime.is_empty() {
        None
    } else {
        let mut f = owned("up ");
        f.append(uptime);
        Some(f)
    };
    let ghost want = glances_panel_of(gauges_view(gauges@), opt_text(badge), uptime@);
    let p = Panel { badge, gauges, spark: None, rows: Vec::new(), footer, panel_actions: Vec::new() };
    proof {
        assert(p@.rows =~= want.rows);
        assert(p@.panel_actions =~= want.panel_actions);
    }
    p
}

/// Glances only reports; every action is refused.
pub fn glances_refusal(action_id: &str) -> (m: String)
    ensures
        m@ == "glances has no actions (tried "@ + action_id@ + ")"@,
{
    let mut m = owned("glances has no actions (tried ");
    m.append(action_id);
    m.append(")");
    m
}

} // verus!
