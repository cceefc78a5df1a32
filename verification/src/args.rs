//! The argument interpreter: turns the command-line arguments (program
//! name excluded) into a structured request, or into one of the two
//! usage errors, exactly as the flag table prescribes.

use vstd::prelude::*;

use crate::text::str_eq;

verus! {

/// The field of a package record that a command-line flag selects.
#[derive(Clone, Copy, PartialEq, Eq, Debug)]
pub enum Field {
    Latest,
    Stable,
    Homepage,
    Repository,
    Documentation,
}

/// What one invocation's arguments call for.
pub enum ArgOutcome {
    /// Look up the package `id`; print the whole report, or only `field`.
    Lookup { id: String, field: Option<Field> },
    /// No package identifier was given: print the short usage text and
    /// exit normally, without any network call.
    MissingId,
    /// The second argument is not a recognized flag: print the extended
    /// usage text and exit with a failure code, without any network call.
    InvalidFlag,
}

/// The field selected by a flag token, or `None` for an unrecognized one.
pub open spec fn flag_field(arg: Seq<char>) -> Option<Field> {
    if arg == "--latest"@ {
        Some(Field::Latest)
    } else if arg == "--stable"@ {
        Some(Field::Stable)
    } else if arg == "--homepage"@ {
        Some(Field::Homepage)
    } else if arg == "--repo"@ {
        Some(Field::Repository)
    } else if arg == "--doc"@ {
        Some(Field::Documentation)
    } else {
        None
    }
}

/// The short usage text, printed when no package identifier is given.
pub open spec fn usage_spec() -> Seq<char> {
    "Invalid arguments! Usage: crates <id>"@
}

/// The extended usage text, printed on an unrecognized flag.
pub open spec fn extended_usage_spec() -> Seq<char> {
    "Invalid arguments! Usage: crates <id> [--latest, --stable, --homepage, --repo, --doc]"@
}

/// Interprets the command-line arguments, program name excluded.
///
/// The first argument is the package identifier; a missing one is the
/// benign usage error. The second, if present, must be one of the five
/// flag tokens; anything else is the fatal usage error. Arguments past
/// the second are ignored.
pub fn parse_args(args: &Vec<String>) -> (r: ArgOutcome)
    ensures
        args@.len() == 0 ==> r is MissingId,
        args@.len() == 1 ==> (r matches ArgOutcome::Lookup { id, field } && id@ == args@[0]@
            && field is None),
        args@.len() >= 2 ==> match flag_field(args@[1]@) {
            Some(f) => r matches ArgOutcome::Lookup { id, field } && id@ == args@[0]@ && field
                == Some(f),
            None => r is InvalidFlag,
        },
{
    if args.len() == 0 {
        return ArgOutcome::MissingId;
    }
    let id = args[0].clone();
    if args.len() == 1 {
        return ArgOutcome::Lookup { id, field: None };
    }
    let flag = args[1].as_str();
    let field: Field = if str_eq(flag, "--latest") {
        Field::Latest
    } else if str_eq(flag, "--stable") {
        Field::Stable
    } else if str_eq(flag, "--homepage") {
        Field::Homepage
    } else if str_eq(flag, "--repo") {
        Field::Repository
    } else if str_eq(flag, "--doc") {
        Field::Documentation
    } else {
        return ArgOutcome::InvalidFlag;
    };
    ArgOutcome::Lookup { id, field: Some(field) }
}

impl ArgOutcome {
    /// The process exit status the outcome calls for: failure only on an
    /// unrecognized flag.
    pub fn exit_code(&self) -> (c: i32)
        ensures
            c == if self is InvalidFlag {
                1i32
            } else {
                0i32
            },
    {
        match self {
            ArgOutcome::InvalidFlag => 1,
            _ => 0,
        }
    }
}

/// The short usage text as a value, for printing.
pub fn usage_message() -> (r: String)
    ensures
        r@ == usage_spec(),
{
    String::from_str("Invalid arguments! Usage: crates <id>")
}

/// The extended usage text as a value, for printing.
pub fn extended_usage_message() -> (r: String)
    ensures
        r@ == extended_usage_spec(),
{
    String::from_str(
        "Invalid arguments! Usage: crates <id> [--latest, --stable, --homepage, --repo, --doc]",
    )
}

} // verus!
