use flicker::demo::demo_screens;
use flicker::registry::{SourceKind, KINDS};

#[test]
fn demo_reel_covers_the_rooms() {
    let screens = demo_screens();
    assert_eq!(screens.len(), 4);
    for (name, slots) in &screens {
        assert!(!name.is_empty());
        assert!(!slots.is_empty(), "screen {} is an empty theatre", name);
    }
    let names: Vec<&str> = screens.iter().map(|(n, _)| n.as_str()).collect();
    assert_eq!(names, vec!["NOW SHOWING", "COMING SOON", "FREIGHT", "BACK LOT"]);
}

#[test]
fn demo_kinds_are_all_registered() {
    for (_, slots) in demo_screens() {
        for s in slots {
            assert!(KINDS.contains(&s.kind.as_str()), "demo kind {} not in registry", s.kind);
            assert!(SourceKind::parse(&s.kind).is_ok());
        }
    }
}

#[test]
fn danger_actions_are_marked() {
    for (_, slots) in demo_screens() {
        for s in slots {
            for row in &s.panel.rows {
                for a in &row.actions {
                    if ["terminate", "delete", "remove", "stop", "restart"].contains(&a.id.as_str()) {
                        assert!(a.danger, "{} should be danger", a.id);
                    }
                }
            }
            for a in &s.panel.panel_actions {
                if ["pause_all", "resume_all", "alt"].contains(&a.id.as_str()) {
                    assert!(!a.danger, "{} never asks first", a.id);
                }
            }
        }
    }
}

#[test]
fn demo_progress_cells_round_like_the_live_sources() {
    let screens = demo_screens();
    let plex = &screens[0].1[0].panel;
    assert_eq!(plex.rows[0].cells[3].text, "████░░░░░░ 42%");
    assert_eq!(plex.rows[1].cells[3].text, "█████████░ 87%");
    let sonarr = &screens[1].1[1].panel;
    assert_eq!(sonarr.rows[0].cells[1].text, "██████░░ 72%");
    assert_eq!(sonarr.rows[2].cells[1].text, "████████ 100%");
    assert_eq!(screens[3].1[2].kind, "jax");
}
