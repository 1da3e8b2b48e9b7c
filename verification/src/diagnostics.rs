//! The diagnostic log: the record of one launch, for a person to read.

use crate::scanner::{find_data_file, first_data_file};
use vstd::prelude::*;
use vstd::string::StringExecFns;

verus! {

/// One attempt to write the marker.
pub struct MarkerWrite {
    /// The argument that was handed over, as it was given.
    pub path: String,
    /// Where the marker lives, as the log is to show it.
    pub location: String,
    /// Why the write failed, or `None` if it went through.
    pub error: Option<String>,
}

/// What the log reads of a [`MarkerWrite`].
pub struct MarkerWriteView {
    /// The argument that was handed over.
    pub path: Seq<char>,
    /// Where the marker lives.
    pub location: Seq<char>,
    /// Why the write failed, or `None` if it went through.
    pub error: Option<Seq<char>>,
}

impl View for MarkerWrite {
    type V = MarkerWriteView;

    open spec fn view(&self) -> MarkerWriteView {
        MarkerWriteView {
            path: self.path@,
            location: self.location@,
            error: match self.error {
                Some(e) => Some(e@),
                None => None,
            },
        }
    }
}

/// What the log reads of an attempt, if one was made.
pub open spec fn attempt_view(write: Option<MarkerWrite>) -> Option<MarkerWriteView> {
    match write {
        Some(w) => Some(w@),
        None => None,
    }
}

/// The character for the digit `d`.
pub open spec fn digit(d: nat) -> char {
    if d == 0 {
        '0'
    } else if d == 1 {
        '1'
    } else if d == 2 {
        '2'
    } else if d == 3 {
        '3'
    } else if d == 4 {
        '4'
    } else if d == 5 {
        '5'
    } else if d == 6 {
        '6'
    } else if d == 7 {
        '7'
    } else if d == 8 {
        '8'
    } else {
        '9'
    }
}

/// `n` in decimal, without leading zeros.
pub open spec fn decimal(n: nat) -> Seq<char>
    decreases n,
{
    if n < 10 {
        seq![digit(n)]
    } else {
        decimal(n / 10).push(digit(n % 10))
    }
}

/// The line of the argument at `index`.
pub open spec fn argument_line(index: nat, arg: Seq<char>) -> Seq<char> {
    "  Arg["@ + decimal(index) + "]: "@ + arg + "\n"@
}

/// The lines of the first `count` arguments, in order.
pub open spec fn argument_lines(args: Seq<Seq<char>>, count: nat) -> Seq<char>
    decreases count,
{
    if count == 0 {
        Seq::empty()
    } else {
        argument_lines(args, (count - 1) as nat) + argument_line(
            (count - 1) as nat,
            args[count - 1],
        )
    }
}

/// What the log says of the scan: that no data file was found, or which one
/// was, where the marker lives and how the write went.
pub open spec fn outcome_lines(write: Option<MarkerWriteView>) -> Seq<char> {
    match write {
        None => "No H5 file found in arguments\n"@,
        Some(w) => "Found H5 file: "@ + w.path + "\n"@ + "Temp file path: "@ + w.location + "\n"@
            + match w.error {
            None => "Successfully wrote temp file\n"@,
            Some(e) => "Failed to write temp file: "@ + e + "\n"@,
        },
    }
}

/// The whole log of one launch: the header, the number of arguments, a line
/// for each argument, and the outcome of the scan.
pub open spec fn log_text(args: Seq<Seq<char>>, write: Option<MarkerWriteView>) -> Seq<char> {
    "=== App started ===\n"@ + "Arguments count: "@ + decimal(args.len()) + "\n"@ + argument_lines(
        args,
        args.len(),
    ) + outcome_lines(write)
}

/// The write that a launch with `args` attempts: none without a data file
/// among them, else that of the first one, to the marker at `location`,
/// with the `error` it met, if any.
pub open spec fn launch_write(
    args: Seq<Seq<char>>,
    location: Seq<char>,
    error: Option<Seq<char>>,
) -> Option<MarkerWriteView> {
    match first_data_file(args) {
        Some(i) => Some(MarkerWriteView { path: args[i], location: location, error: error }),
        None => None,
    }
}

/// The digit `d` as text.
fn digit_text(d: usize) -> (r: &'static str)
    requires
        d < 10,
    ensures
        r@ == seq![digit(d as nat)],
{
    proof {
        reveal_strlit("0");
        reveal_strlit("1");
        reveal_strlit("2");
        reveal_strlit("3");
        reveal_strlit("4");
        reveal_strlit("5");
        reveal_strlit("6");
        reveal_strlit("7");
        reveal_strlit("8");
        reveal_strlit("9");
    }
    let r = if d == 0 {
        "0"
    } else if d == 1 {
        "1"
    } else if d == 2 {
        "2"
    } else if d == 3 {
        "3"
    } else if d == 4 {
        "4"
    } else if d == 5 {
        "5"
    } else if d == 6 {
        "6"
    } else if d == 7 {
        "7"
    } else if d == 8 {
        "8"
    } else {
        "9"
    };
    assert(r@ =~= seq![digit(d as nat)]);
    r
}

/// Appends `n` in decimal to `out`.
pub fn push_decimal(out: &mut String, n: usize)
    ensures
        final(out)@ == old(out)@ + decimal(n as nat),
    decreases n,
{
    if n >= 10 {
        push_decimal(out, n / 10);
    }
    out.append(digit_text(n % 10));
}

/// Composes the diagnostic log of one launch from its arguments and from
/// the attempt to write the marker, if one was made.
pub fn diagnostic_log(args: &Vec<String>, write: &Option<MarkerWrite>) -> (log: String)
    ensures
        log@ == log_text(args.deep_view(), attempt_view(*write)),
{
    let ghost views = args.deep_view();
    let mut log = String::new();
    log.append("=== App started ===\n");
    log.append("Arguments count: ");
    push_decimal(&mut log, args.len());
    log.append("\n");
    let ghost head = log@;
    assert(head =~= "=== App started ===\n"@ + "Arguments count: "@ + decimal(args.len() as nat)
        + "\n"@);
    let mut i: usize = 0;
    while i < args.len()
        invariant
            i <= args.len(),
            views == args.deep_view(),
            log@ == head + argument_lines(views, i as nat),
        decreases args.len() - i,
    {
        let ghost before = log@;
        log.append("  Arg[");
        push_decimal(&mut log, i);
        log.append("]: ");
        log.append(args[i].as_str());
        log.append("\n");
        proof {
            assert(views[i as int] == args[i as int]@);
            assert(log@ =~= before + argument_line(i as nat, views[i as int]));
            assert(log@ =~= head + argument_lines(views, (i + 1) as nat));
        }
        i = i + 1;
    }
    let ghost listed = log@;
    match write {
        None => {
            log.append("No H5 file found in arguments\n");
        },
        Some(w) => {
            log.append("Found H5 file: ");
            log.append(w.path.as_str());
            log.append("\n");
            log.append("Temp file path: ");
            log.append(w.location.as_str());
            log.append("\n");
            match &w.error {
                None => {
                    log.append("Successfully wrote temp file\n");
                },
                Some(e) => {
                    log.append("Failed to write temp file: ");
                    log.append(e.as_str());
                    log.append("\n");
                },
            }
        },
    }
    assert(log@ =~= listed + outcome_lines(attempt_view(*write)));
    log
}

/// Composes the diagnostic log of a launch with `args`, whose marker lives
/// at `location`. `error` says why writing the marker failed, and is `None`
/// if the write went through; it is not read when `args` name no data file,
/// since then there was nothing to write.
pub fn launch_log(args: &Vec<String>, location: &str, error: &Option<String>) -> (log: String)
    ensures
        log@ == log_text(
            args.deep_view(),
            launch_write(args.deep_view(), location@, error.deep_view()),
        ),
{
    let write = match find_data_file(args) {
        Some(i) => {
            assert(args.deep_view()[i as int] == args[i as int]@);
            Some(
                MarkerWrite {
                    path: args[i].clone(),
                    location: String::from_str(location),
                    error: error.clone(),
                },
            )
        },
        None => None,
    };
    diagnostic_log(args, &write)
}

} // verus!
