//! The command line: its options and subcommands, and the log level that the
//! verbosity options select.

use vstd::prelude::*;

verus! {

/// The parsed command line.
#[derive(Debug, Clone, Copy, PartialEq, Eq)]
pub struct Cli {
    /// How often `-v` was given.
    pub verbose: u8,
    /// How often `-q` was given.
    pub quiet: u8,
    /// The subcommand, if any; without one the daemon runs.
    pub command: Option<Commands>,
}

/// The subcommands that manage the systemd user service.
#[derive(Debug, Clone, Copy, PartialEq, Eq)]
pub enum Commands {
    /// Install and enable the systemd user service.
    Install,
    /// Verify the installed systemd user service.
    Verify,
    /// Disable and uninstall the systemd user service.
    Uninstall,
}

/// How much more detail than `info` the options ask for, from -2 to 2.
pub open spec fn verbosity_detail(verbose: u8, quiet: u8) -> int {
    let delta = verbose - quiet;
    if delta < -2 {
        -2
    } else if delta > 2 {
        2
    } else {
        delta
    }
}

/// The log level for a level of detail.
pub open spec fn level_for_detail(detail: int) -> &'static str {
    if detail <= -2 {
        "error"
    } else if detail == -1 {
        "warn"
    } else if detail == 0 {
        "info"
    } else if detail == 1 {
        "debug"
    } else {
        "trace"
    }
}

/// The log level used when `RUST_LOG` is not set: `info`, one level more
/// detailed for each `-v` and one less for each `-q`, from `error` to `trace`.
pub fn verbosity_level(verbose: u8, quiet: u8) -> (r: &'static str)
    ensures
        r == level_for_detail(verbosity_detail(verbose, quiet)),
{
    let delta: i16 = verbose as i16 - quiet as i16;
    if delta <= -2 {
        "error"
    } else if delta == -1 {
        "warn"
    } else if delta == 0 {
        "info"
    } else if delta == 1 {
        "debug"
    } else {
        "trace"
    }
}

/// Only the difference between `-v` and `-q` counts.
pub proof fn lemma_verbosity_counts_difference(verbose: u8, quiet: u8)
    requires
        verbose < 255,
        quiet < 255,
    ensures
        level_for_detail(verbosity_detail((verbose + 1) as u8, (quiet + 1) as u8))
            == level_for_detail(verbosity_detail(verbose, quiet)),
{
}

/// Another `-v` never gives less detail, and another `-q` never gives more.
pub proof fn lemma_verbosity_monotone(verbose: u8, quiet: u8)
    requires
        verbose < 255,
        quiet < 255,
    ensures
        verbosity_detail(verbose, quiet) <= verbosity_detail((verbose + 1) as u8, quiet),
        verbosity_detail(verbose, (quiet + 1) as u8) <= verbosity_detail(verbose, quiet),
{
}

/// The rank of a log level, from the least detailed (`error`, 0) to the most
/// detailed (`trace`, 4); -1 for any other text.
pub open spec fn level_rank(level: &str) -> int {
    if level@ == "error"@ {
        0
    } else if level@ == "warn"@ {
        1
    } else if level@ == "info"@ {
        2
    } else if level@ == "debug"@ {
        3
    } else if level@ == "trace"@ {
        4
    } else {
        -1
    }
}

/// The level names differ from one another.
proof fn lemma_level_names_differ()
    ensures
        "error"@ != "warn"@,
        "error"@ != "info"@,
        "error"@ != "debug"@,
        "error"@ != "trace"@,
        "warn"@ != "info"@,
        "warn"@ != "debug"@,
        "warn"@ != "trace"@,
        "info"@ != "debug"@,
        "info"@ != "trace"@,
        "debug"@ != "trace"@,
{
    reveal_strlit("error");
    reveal_strlit("warn");
    reveal_strlit("info");
    reveal_strlit("debug");
    reveal_strlit("trace");
    assert("error"@[0] != "warn"@[0]);
    assert("error"@.len() != "info"@.len());
    assert("error"@[0] != "debug"@[0]);
    assert("error"@[0] != "trace"@[0]);
    assert("warn"@[0] != "info"@[0]);
    assert("warn"@.len() != "debug"@.len());
    assert("warn"@.len() != "trace"@.len());
    assert("info"@.len() != "debug"@.len());
    assert("info"@.len() != "trace"@.len());
    assert("debug"@[0] != "trace"@[0]);
}

/// The log level is `info` without options, one step more detailed per `-v`
/// and one less per `-q`: the rank of the level is 2 + verbose - quiet,
/// bounded to the ranks from `error` (0) to `trace` (4). So `-vv` and more
/// give `trace`, `-qq` and more give `error`.
pub proof fn lemma_verbosity_level_rank(verbose: u8, quiet: u8)
    ensures
        level_rank(level_for_detail(verbosity_detail(verbose, quiet))) == (if verbose - quiet >= 2 {
            4
        } else if verbose - quiet <= -2 {
            0
        } else {
            2 + verbose - quiet
        }),
        verbose - quiet >= 2 ==> level_for_detail(verbosity_detail(verbose, quiet)) == "trace",
        verbose - quiet <= -2 ==> level_for_detail(verbosity_detail(verbose, quiet)) == "error",
        verbose == quiet ==> level_for_detail(verbosity_detail(verbose, quiet)) == "info",
{
    lemma_level_names_differ();
}

/// Another `-v` never gives a less detailed level, and another `-q` never a
/// more detailed one.
pub proof fn lemma_verbosity_level_monotone(verbose: u8, quiet: u8)
    requires
        verbose < 255,
        quiet < 255,
    ensures
        level_rank(level_for_detail(verbosity_detail(verbose, quiet))) <= level_rank(
            level_for_detail(verbosity_detail((verbose + 1) as u8, quiet)),
        ),
        level_rank(level_for_detail(verbosity_detail(verbose, (quiet + 1) as u8))) <= level_rank(
            level_for_detail(verbosity_detail(verbose, quiet)),
        ),
{
    lemma_verbosity_level_rank(verbose, quiet);
    lemma_verbosity_level_rank((verbose + 1) as u8, quiet);
    lemma_verbosity_level_rank(verbose, (quiet + 1) as u8);
}

} // verus!
