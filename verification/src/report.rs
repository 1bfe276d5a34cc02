//! Rendering of the process log lines: migration start and finish, one line
//! per newly-applied migration, the "no migrations" notice, and the server
//! start announcement. Rendering is pure; writing the lines to a stream is
//! the caller's outside work.

use vstd::prelude::*;
use vstd::string::StringExecFns;
use crate::delta::{AppliedMigration, DeltaReport};

verus! {

/// The decimal digit character for `d` (`d < 10`).
pub open spec fn digit_char(d: nat) -> char {
    if d == 0 {
        '0'
    } else if d == 1 {
        '1'
    } else if d == 2 {
        '2'
    } else if d == 3 {
        '3'
    } else if d == 4 {
        '4'
    } else if d == 5 {
        '5'
    } else if d == 6 {
        '6'
    } else if d == 7 {
        '7'
    } else if d == 8 {
        '8'
    } else {
        '9'
    }
}

/// The decimal digits of `n`, most significant first, without leading
/// zeroes (a single `'0'` for zero).
pub open spec fn decimal_digits(n: nat) -> Seq<char>
    decreases n,
{
    if n < 10 {
        seq![digit_char(n)]
    } else {
        decimal_digits(n / 10).push(digit_char(n % 10))
    }
}

/// The single-character string for the decimal digit `d`.
fn digit_str(d: u32) -> (r: &'static str)
    requires
        d < 10,
    ensures
        r@.len() == 1,
        r@[0] == digit_char(d as nat),
{
    proof {
        reveal_strlit("0");
        reveal_strlit("1");
        reveal_strlit("2");
        reveal_strlit("3");
        reveal_strlit("4");
        reveal_strlit("5");
        reveal_strlit("6");
        reveal_strlit("7");
        reveal_strlit("8");
        reveal_strlit("9");
    }
    if d == 0 {
        "0"
    } else if d == 1 {
        "1"
    } else if d == 2 {
        "2"
    } else if d == 3 {
        "3"
    } else if d == 4 {
        "4"
    } else if d == 5 {
        "5"
    } else if d == 6 {
        "6"
    } else if d == 7 {
        "7"
    } else if d == 8 {
        "8"
    } else {
        "9"
    }
}

/// Renders `n` in decimal.
pub fn decimal_string(n: u32) -> (r: String)
    ensures
        r@ == decimal_digits(n as nat),
    decreases n,
{
    if n < 10 {
        let r = digit_str(n).to_owned();
        proof {
            assert(r@ =~= decimal_digits(n as nat));
        }
        r
    } else {
        let mut r = decimal_string(n / 10);
        r.append(digit_str(n % 10));
        proof {
            assert(r@ =~= decimal_digits(n as nat));
        }
        r
    }
}

/// The log line for one newly-applied migration.
pub open spec fn applied_line_spec(version: nat, name: Seq<char>) -> Seq<char> {
    "Migration Applied - Name: "@ + name + ", Version: "@ + decimal_digits(version)
}

/// Renders the log line identifying one newly-applied migration by name and
/// version.
pub fn render_applied_line(version: u32, name: &str) -> (r: String)
    ensures
        r@ == applied_line_spec(version as nat, name@),
{
    let mut r = "Migration Applied - Name: ".to_owned();
    r.append(name);
    r.append(", Version: ");
    let digits = decimal_string(version);
    r.append(digits.as_str());
    proof {
        assert(r@ =~= applied_line_spec(version as nat, name@));
    }
    r
}

/// The notice emitted instead of per-migration lines when nothing was newly
/// applied.
pub fn no_migrations_line() -> (r: String)
    ensures
        r@ == "No migrations were applied"@,
{
    "No migrations were applied".to_owned()
}

/// Announces the start of the migration phase.
pub fn migrations_start_line() -> (r: String)
    ensures
        r@ == "Running DB migrations..."@,
{
    "Running DB migrations...".to_owned()
}

/// Announces the end of the migration phase.
pub fn migrations_finished_line() -> (r: String)
    ensures
        r@ == "DB migrations finished!"@,
{
    "DB migrations finished!".to_owned()
}

/// Announces that the listener is up.
pub fn server_start_line() -> (r: String)
    ensures
        r@ == "Started server at localhost:8000"@,
{
    "Started server at localhost:8000".to_owned()
}

/// The log lines a delta report turns into: the single notice when nothing
/// was newly applied, otherwise one line per applied migration, in report
/// order.
pub open spec fn delta_lines_spec(r: DeltaReport) -> Seq<Seq<char>> {
    match r {
        DeltaReport::NoMigrations => seq!["No migrations were applied"@],
        DeltaReport::Applied(v) => v@.map_values(
            |m: AppliedMigration| applied_line_spec(m.version as nat, m.name@),
        ),
    }
}

/// Renders a delta report into its log lines.
#[verifier::loop_isolation(false)]
pub fn delta_log_lines(r: &DeltaReport) -> (lines: Vec<String>)
    ensures
        lines@.map_values(|s: String| s@) =~= delta_lines_spec(*r),
{
    match r {
        DeltaReport::NoMigrations => {
            let mut lines: Vec<String> = Vec::new();
            lines.push(no_migrations_line());
            proof {
                assert(lines@.map_values(|s: String| s@) =~= delta_lines_spec(*r));
            }
            lines
        },
        DeltaReport::Applied(v) => {
            let mut lines: Vec<String> = Vec::new();
            let mut i: usize = 0;
            while i < v.len()
                invariant
                    i <= v.len(),
                    lines@.len() == i,
                    forall|k: int| 0 <= k < i ==> (#[trigger] lines@[k])@ == applied_line_spec(
                        v@[k].version as nat,
                        v@[k].name@,
                    ),
                decreases v.len() - i,
            {
                lines.push(render_applied_line(v[i].version, v[i].name.as_str()));
                i = i + 1;
            }
            proof {
                assert(lines@.map_values(|s: String| s@) =~= v@.map_values(
                    |m: AppliedMigration| applied_line_spec(m.version as nat, m.name@),
                ));
            }
            lines
        },
    }
}

} // verus!
