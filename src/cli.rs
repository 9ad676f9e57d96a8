use vstd::prelude::*;
use vstd::string::StringExecFns;
use crate::front_end::has_syntax_errors;
use crate::validation::{is_self_contained, outcome_spec, validate, ValidationError};

verus! {

/// What an invocation ends with: the process's exit status and, where there
/// is one, the line for the diagnostic stream.
pub struct Report {
    pub exit_code: i32,
    pub diagnostic: Option<String>,
}

impl View for Report {
    type V = (i32, Option<Seq<char>>);

    open spec fn view(&self) -> (i32, Option<Seq<char>>) {
        (
            self.exit_code,
            match self.diagnostic {
                Some(d) => Some(d@),
                None => None,
            },
        )
    }
}

/// The usage line for a program invoked under the name `program`.
pub open spec fn usage_text(program: Seq<char>) -> Seq<char> {
    "Usage: "@ + program + " <qasm-string>"@
}

/// The diagnostic line for a failure described by `description`.
pub open spec fn error_line(description: Seq<char>) -> Seq<char> {
    "Error: "@ + description
}

/// The report due for a validation outcome: status 0 and silence on
/// success, status 1 and the error line on failure.
pub open spec fn outcome_report_spec(outcome: Result<(), ValidationError>) -> (i32, Option<Seq<char>>) {
    match outcome {
        Ok(()) => (0, None),
        Err(e) => (1, Some(error_line(e.description()))),
    }
}

/// The name the program was invoked under: the first argument, or nothing.
pub open spec fn program_name(args: Seq<Seq<char>>) -> Seq<char> {
    if args.len() > 0 {
        args[0]
    } else {
        Seq::empty()
    }
}

/// The report due for the argument list `args` (program name first).
/// `None` where the one source is not self-contained: it mentions `include`,
/// which the front end resolves on disk, or is too long to hand over.
pub open spec fn run_spec(args: Seq<Seq<char>>) -> Option<(i32, Option<Seq<char>>)> {
    if args.len() != 2 {
        Some((1, Some(usage_text(program_name(args)))))
    } else if !is_self_contained(args[1]) {
        None
    } else {
        Some(outcome_report_spec(outcome_spec(has_syntax_errors(args[1]))))
    }
}

/// The view of an optional report.
pub open spec fn report_option_view(r: Option<Report>) -> Option<(i32, Option<Seq<char>>)> {
    match r {
        Some(rep) => Some(rep@),
        None => None,
    }
}

/// The report for a wrong number of arguments.
pub fn usage_report(program: &str) -> (r: Report)
    ensures
        r@ == (1i32, Some(usage_text(program@))),
{
    let mut line = String::from_str("Usage: ");
    line.append(program);
    line.append(" <qasm-string>");
    Report { exit_code: 1, diagnostic: Some(line) }
}

/// The report for a validation outcome.
pub fn outcome_report(outcome: &Result<(), ValidationError>) -> (r: Report)
    ensures
        r@ == outcome_report_spec(*outcome),
{
    match outcome {
        Ok(()) => Report { exit_code: 0, diagnostic: None },
        Err(e) => {
            let line = String::from_str("Error: ").concat(e.message().as_str());
            Report { exit_code: 1, diagnostic: Some(line) }
        },
    }
}

/// Decides an invocation from its arguments (program name first): the usage
/// report unless exactly one source is given, else the report for that
/// source's validation. `None` where the source is not self-contained.
pub fn run(args: &Vec<String>) -> (r: Option<Report>)
    ensures
        report_option_view(r) == run_spec(args.deep_view()),
{
    let ghost all = args.deep_view();
    if args.len() != 2 {
        if args.len() > 0 {
            assert(all[0] == args@[0]@);
            Some(usage_report(args[0].as_str()))
        } else {
            proof {
                reveal_strlit("");
            }
            assert(""@ =~= Seq::<char>::empty());
            Some(usage_report(""))
        }
    } else {
        assert(all[1] == args@[1]@);
        match validate(args[1].as_str()) {
            Some(outcome) => Some(outcome_report(&outcome)),
            None => None,
        }
    }
}

} // verus!
