use flicker::cli::{check_detail, check_line, check_verdict, parse_args, CliRequest, HELP};
use flicker::look::{centred, column_split, gauge_bar_width, kind_hue, modal_height, rgb, spinner_frame, tone_hue, Hue};
use flicker::mood::Mood;
use flicker::panel::{SourceCmd, Tone};
use flicker::scene::{scene, Ink};
use flicker::worker::{first_jobs, jobs_after, Job, Wake};

fn args(a: &[&str]) -> Vec<String> {
    a.iter().map(|s| s.to_string()).collect()
}

#[test]
fn flags_are_read_left_to_right() {
    assert_eq!(
        parse_args(&args(&[])),
        Ok(CliRequest::Run { demo: false, init: false, check: false, config: None })
    );
    assert_eq!(
        parse_args(&args(&["--demo", "--config", "/tmp/f.toml", "--check"])),
        Ok(CliRequest::Run { demo: true, init: false, check: true, config: Some("/tmp/f.toml".into()) })
    );
    assert_eq!(parse_args(&args(&["--init"])), Ok(CliRequest::Run { demo: false, init: true, check: false, config: None }));
    assert_eq!(parse_args(&args(&["--config"])), Err("--config needs a path".to_string()));
    assert_eq!(parse_args(&args(&["--bogus"])), Err("unknown flag --bogus (try --help)".to_string()));
    assert_eq!(parse_args(&args(&["-h", "--bogus"])), Ok(CliRequest::Help));
    assert_eq!(parse_args(&args(&["--demo", "-V"])), Ok(CliRequest::Version));
    assert!(HELP.contains("--check"));
}

#[test]
fn check_report_lines() {
    assert_eq!(check_line(true, "tautulli", "2 on air"), "  ✓ tautulli       2 on air");
    assert_eq!(check_line(false, "a-very-long-source-name", "boom"), "  ✗ a-very-long-source-name boom");
    assert_eq!(check_detail(None, 3), "3 rows");
    assert_eq!(check_detail(Some("badge".into()), 3), "badge");
    assert_eq!(check_verdict(0), Ok("all reels accounted for 🎬".to_string()));
    assert_eq!(check_verdict(2), Err("2 source(s) failed".to_string()));
}

#[test]
fn scenes_follow_mood_and_tick() {
    let (caption, lines) = scene(0, Mood::Showtime);
    assert_eq!(caption, "🎬 now showing");
    assert_eq!(lines.len(), 4);
    assert_eq!(lines[0].text, " .---.  ▄◐▄");
    assert_eq!(lines[1].text, " |- ‿ -|══╣ ║", "tick 0 blinks");
    assert_eq!(lines[3].ink, Ink::Info);
    let (_, lines) = scene(6, Mood::Showtime);
    assert_eq!(lines[0].text, " .---.  ▄◑▄");
    assert_eq!(lines[1].text, " |●‿●|══╣ ║");
    let (caption, lines) = scene(9, Mood::Hauling);
    assert_eq!(caption, "📦 hauling reels");
    assert_eq!(lines[1].text, " |●‿●|→       ▣▣");
    let (caption, _) = scene(0, Mood::Party);
    assert_eq!(caption, "🎉 it worked!");
    let (caption, lines) = scene(0, Mood::Alarm);
    assert_eq!(caption, "😰 splicing!");
    assert_eq!(lines[3].ink, Ink::Bad);
    let (caption, _) = scene(45, Mood::Chill);
    assert_eq!(caption, "😴 zzz…");
    let (caption, lines) = scene(9 + 180, Mood::Chill);
    assert_eq!(caption, "🦦 otter break");
    assert_eq!(lines[3].text, "         🦦~~");
}

#[test]
fn palette_and_proportions() {
    assert_eq!(tone_hue(Tone::Default), Hue::Reset);
    assert_eq!(tone_hue(Tone::Bad), Hue::Bad);
    assert_eq!(rgb(Hue::Accent), Some((0xff, 0xb4, 0x54)));
    assert_eq!(rgb(Hue::Reset), None);
    assert_eq!(kind_hue("plex"), Hue::Accent2);
    assert_eq!(kind_hue("nzbget"), Hue::Good);
    assert_eq!(kind_hue("mystery"), Hue::Accent);
    assert_eq!(spinner_frame(0), '⠋');
    assert_eq!(spinner_frame(3), '⠙');
    assert_eq!(spinner_frame(12), '⠋');
    assert_eq!(column_split(1), (1, 0));
    assert_eq!(column_split(5), (3, 2));
    assert_eq!(column_split(4), (2, 2));
    assert_eq!(centred(46, 7, 0, 0, 80, 24), (17, 8, 46, 7));
    assert_eq!(centred(46, 30, 0, 0, 40, 24), (1, 1, 38, 22));
    assert_eq!(gauge_bar_width(80, 11), 40);
    assert_eq!(gauge_bar_width(30, 11), 6);
    assert_eq!(gauge_bar_width(40, 11), 14);
    assert_eq!(modal_height(3, 2, 14), 5);
    assert_eq!(modal_height(30, 2, 14), 14);
}

#[test]
fn workers_poll_after_every_wake() {
    assert!(matches!(first_jobs()[..], [Job::Poll]));
    assert!(matches!(jobs_after(Wake::Timer)[..], [Job::Poll]));
    assert!(matches!(jobs_after(Wake::Command(SourceCmd::Refresh))[..], [Job::Poll]));
    let jobs = jobs_after(Wake::Command(SourceCmd::Execute { action_id: "stop".into(), row_key: "plex".into() }));
    match &jobs[..] {
        [Job::Execute { action_id, row_key }, Job::Poll] => {
            assert_eq!(action_id, "stop");
            assert_eq!(row_key, "plex");
        }
        _ => panic!("an action is followed by a poll"),
    }
    assert!(matches!(jobs_after(Wake::Closed)[..], [Job::Stop]));
}
