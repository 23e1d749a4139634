//! The command line: what the flags ask for, and how `--check` reports.

use vstd::prelude::*;

use crate::text::{decimal, owned, push_char, push_decimal, same};

verus! {

pub const HELP: &'static str = "\
flicker — the space between frames · a pluggable homelab ops console

usage: flicker [options]

options:
  --demo            run the offline demo reel (no config, no network)
  --config <path>   config file (default: $XDG_CONFIG_HOME/flicker/config.toml)
  --init            write a commented example config, then exit
  --check           poll every configured source once, report, exit
  -h, --help        this
  -V, --version     version
";

/// What the command line asks for.
#[derive(Clone, Debug, PartialEq, Eq)]
pub enum CliRequest {
    /// Run (or `--init`, or `--check`), with the config path if one was given.
    Run { demo: bool, init: bool, check: bool, config: Option<String> },
    Help,
    Version,
}

pub enum CliView {
    Run { demo: bool, init: bool, check: bool, config: Option<Seq<char>> },
    Help,
    Version,
}

impl View for CliRequest {
    type V = CliView;

    open spec fn view(&self) -> CliView {
        match self {
            CliRequest::Run { demo, init, check, config } => CliView::Run {
                demo: *demo,
                init: *init,
                check: *check,
                config: match config {
                    Some(c) => Some(c@),
                    None => None,
                },
            },
            CliRequest::Help => CliView::Help,
            CliRequest::Version => CliView::Version,
        }
    }
}

/// Reads the flags left to right from `k` on, with what the flags before
/// `k` set so far. `--help` and `--version` answer at once, whatever
/// follows; an unknown flag, or `--config` with nothing after it, is an error.
pub open spec fn cli_from(
    args: Seq<Seq<char>>,
    k: int,
    demo: bool,
    init: bool,
    check: bool,
    config: Option<Seq<char>>,
) -> Result<CliView, Seq<char>>
    decreases args.len() - k,
{
    if k < 0 || k >= args.len() {
        Ok(CliView::Run { demo, init, check, config })
    } else {
        let a = args[k];
        if a == "--demo"@ {
            cli_from(args, k + 1, true, init, check, config)
        } else if a == "--init"@ {
            cli_from(args, k + 1, demo, true, check, config)
        } else if a == "--check"@ {
            cli_from(args, k + 1, demo, init, true, config)
        } else if a == "--config"@ {
            if k + 1 < args.len() {
                cli_from(args, k + 2, demo, init, check, Some(args[k + 1]))
            } else {
                Err("--config needs a path"@)
            }
        } else if a == "-h"@ || a == "--help"@ {
            Ok(CliView::Help)
        } else if a == "-V"@ || a == "--version"@ {
            Ok(CliView::Version)
        } else {
            Err("unknown flag "@ + a + " (try --help)"@)
        }
    }
}

pub open spec fn cli_of(args: Seq<Seq<char>>) -> Result<CliView, Seq<char>> {
    cli_from(args, 0, false, false, false, None)
}

pub open spec fn strings_view(v: Seq<String>) -> Seq<Seq<char>> {
    v.map_values(|s: String| s@)
}

/// Reads the command-line flags (the program name already dropped).
pub fn parse_args(args: &Vec<String>) -> (r: Result<CliRequest, String>)
    ensures
        match cli_of(strings_view(args@)) {
            Ok(v) => r matches Ok(q) && q@ == v,
            Err(m) => r matches Err(e) && e@ == m,
        },
{
    let ghost a = strings_view(args@);
    let mut demo = false;
    let mut init = false;
    let mut check = false;
    let mut config: Option<String> = None;
    let mut k: usize = 0;
    while k < args.len()
        invariant
            a == strings_view(args@),
            k <= args.len(),
            cli_of(a) == cli_from(a, k as int, demo, init, check, match config {
                Some(c) => Some(c@),
                None => None,
            }),
        decreases args.len() - k,
    {
        let f = args[k].as_str();
        if same(f, "--demo") {
            demo = true;
            k += 1;
        } else if same(f, "--init") {
            init = true;
            k += 1;
        } else if same(f, "--check") {
            check = true;
            k += 1;
        } else if same(f, "--config") {
            if k + 1 < args.len() {
                config = Some(args[k + 1].clone());
                k += 2;
            } else {
                return Err(owned("--config needs a path"));
            }
        } else if same(f, "-h") || same(f, "--help") {
            return Ok(CliRequest::Help);
        } else if same(f, "-V") || same(f, "--version") {
            return Ok(CliRequest::Version);
        } else {
            let mut m = owned("unknown flag ");
            m.append(f);
            m.append(" (try --help)");
            return Err(m);
        }
    }
    Ok(CliRequest::Run { demo, init, check, config })
}

/// `s` padded with spaces on the right to `width` characters (`{:<width}`).
pub open spec fn pad_right(s: Seq<char>, width: nat) -> Seq<char> {
    if s.len() < width { s + Seq::new((width - s.len()) as nat, |i: int| ' ') } else { s }
}

/// One line of the `--check` report: a tick or a cross, the source's name
/// padded to fourteen columns, and the badge or the error.
pub open spec fn check_line_of(ok: bool, name: Seq<char>, detail: Seq<char>) -> Seq<char> {
    "  "@ + (if ok { "✓"@ } else { "✗"@ }) + " "@ + pad_right(name, 14) + " "@ + detail
}

pub fn check_line(ok: bool, name: &str, detail: &str) -> (r: String)
    ensures
        r@ == check_line_of(ok, name@, detail@),
{
    let mut r = owned("  ");
    if ok {
        r.append("✓");
    } else {
        r.append("✗");
    }
    r.append(" ");
    let ghost head = r@;
    r.append(name);
    let n = name.unicode_len();
    let mut i = n;
    while i < 14
        invariant
            n == name@.len(),
            n <= i <= 14 || (n > 14 && i == n),
            r@ == head + name@ + Seq::new((i - n) as nat, |j: int| ' '),
        decreases 14 - i,
    {
        push_char(&mut r, ' ');
        i += 1;
        assert(r@ =~= head + name@ + Seq::new((i - n) as nat, |j: int| ' '));
    }
    proof {
        if n < 14 {
            assert(head + name@ + Seq::new((i - n) as nat, |j: int| ' ') =~= head + pad_right(name@, 14));
        } else {
            assert(head + name@ + Seq::new((i - n) as nat, |j: int| ' ') =~= head + pad_right(name@, 14));
        }
    }
    r.append(" ");
    r.append(detail);
    proof {
        assert(r@ =~= check_line_of(ok, name@, detail@));
    }
    r
}

/// What a source's `--check` line shows after its name when the poll
/// worked: its badge, or how many rows it had.
pub open spec fn check_detail_of(badge: Option<Seq<char>>, rows: nat) -> Seq<char> {
    match badge {
        Some(b) => b,
        None => decimal(rows) + " rows"@,
    }
}

pub fn check_detail(badge: Option<String>, rows: usize) -> (d: String)
    ensures
        d@ == check_detail_of(crate::panel::opt_text(badge), rows as nat),
{
    match badge {
        Some(b) => b,
        None => {
            let mut d = String::new();
            push_decimal(&mut d, rows as u64);
            d.append(" rows");
            d
        },
    }
}

/// The end of the `--check` report: fine when nothing failed, else the
/// error that counts the failures.
pub fn check_verdict(failures: u64) -> (r: Result<String, String>)
    ensures
        failures == 0 ==> (r matches Ok(m) && m@ == "all reels accounted for 🎬"@),
        failures > 0 ==> (r matches Err(m) && m@ == decimal(failures as nat) + " source(s) failed"@),
{
    if failures == 0 {
        Ok(owned("all reels accounted for 🎬"))
    } else {
        let mut m = String::new();
        push_decimal(&mut m, failures);
        m.append(" source(s) failed");
        Err(m)
    }
}

} // verus!
