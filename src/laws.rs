use vstd::prelude::*;
use crate::cli::{error_line, outcome_report_spec, program_name, run_spec, usage_text};
use crate::front_end::{has_syntax_errors, mentions_include};
use crate::validation::{is_self_contained, outcome_spec, ValidationError};

verus! {

/// A source the front end accepts validates, and the invocation with it as
/// the one argument exits 0 with nothing on the diagnostic stream.
pub proof fn lemma_accepted_source_exits_zero(program: Seq<char>, source: Seq<char>)
    requires
        is_self_contained(source),
        !has_syntax_errors(source),
    ensures
        outcome_spec(has_syntax_errors(source)) == Ok::<(), ValidationError>(()),
        run_spec(seq![program, source]) == Some((0i32, None::<Seq<char>>)),
{
}

/// A source with a syntax error fails validation, and the invocation with it
/// exits 1 with a non-empty `Error: ...` line.
pub proof fn lemma_rejected_source_exits_one(program: Seq<char>, source: Seq<char>)
    requires
        is_self_contained(source),
        has_syntax_errors(source),
    ensures
        outcome_spec(has_syntax_errors(source)) == Err::<(), ValidationError>(
            ValidationError::ParseFailed,
        ),
        run_spec(seq![program, source]) == Some(
            (1i32, Some(error_line(ValidationError::ParseFailed.description()))),
        ),
        error_line(ValidationError::ParseFailed.description()).len() > 0,
{
    reveal_strlit("Error: ");
}

/// Any argument count other than one source gives exit status 1 and the usage
/// line, whatever the front end would say of any text.
pub proof fn lemma_wrong_arity_shows_usage(args: Seq<Seq<char>>)
    requires
        args.len() != 2,
    ensures
        run_spec(args) == Some((1i32, Some(usage_text(program_name(args))))),
        usage_text(program_name(args)).len() > 0,
{
    reveal_strlit("Usage: ");
}

/// With a wrong argument count the sources play no part: two such argument
/// lists under one program name get the same report, whatever texts follow
/// the name and whatever the front end would say of them.
pub proof fn lemma_usage_ignores_sources(a: Seq<Seq<char>>, b: Seq<Seq<char>>)
    requires
        a.len() != 2,
        b.len() != 2,
        program_name(a) == program_name(b),
    ensures
        run_spec(a) == run_spec(b),
{
}

/// Equal argument lists are decided alike: nothing but the arguments and the
/// front end's verdict on the text enters the outcome.
pub proof fn lemma_same_arguments_same_report(a: Seq<Seq<char>>, b: Seq<Seq<char>>)
    requires
        a == b,
    ensures
        run_spec(a) == run_spec(b),
{
}

/// Validating one text twice gives one outcome, whatever was validated in
/// between: the outcome is a function of the text alone.
pub proof fn lemma_same_source_same_outcome(a: Seq<char>, b: Seq<char>)
    requires
        a == b,
    ensures
        outcome_spec(has_syntax_errors(a)) == outcome_spec(has_syntax_errors(b)),
{
}

/// The empty text is an ordinary source: it is self-contained, and its
/// outcome is the front end's verdict on the empty program.
pub proof fn lemma_empty_source_is_ordinary(program: Seq<char>)
    ensures
        is_self_contained(Seq::<char>::empty()),
        !mentions_include(Seq::<char>::empty()),
        run_spec(seq![program, Seq::<char>::empty()]) == Some(
            outcome_report_spec(outcome_spec(has_syntax_errors(Seq::<char>::empty()))),
        ),
{
}

} // verus!
