//! The command line: at most one filter text.

use vstd::prelude::*;
use vstd::string::StringExecFns;
use crate::failure::Failure;

verus! {

/// The filter that a command line asks for. The first argument is the
/// program's own name; one more argument is the filter text; none means no
/// filter, which is the empty text; more than one is a usage error.
pub open spec fn filter_of(args: Seq<Seq<char>>) -> Result<Seq<char>, Failure> {
    if args.len() > 2 {
        Err(Failure::Usage)
    } else if args.len() == 2 {
        Ok(args[1])
    } else {
        Ok(Seq::empty())
    }
}

/// The characters of each argument.
pub open spec fn arg_views(args: Seq<String>) -> Seq<Seq<char>> {
    args.map_values(|arg: String| arg@)
}

/// Reads the filter text from the command line, program name included.
/// Fails with a usage error exactly when more than one filter is given.
pub fn filter_argument<'a>(args: &'a Vec<String>) -> (r: Result<&'a str, Failure>)
    ensures
        args.len() > 2 <==> r == Err::<&str, Failure>(Failure::Usage),
        match r {
            Ok(needle) => filter_of(arg_views(args@)) == Ok::<Seq<char>, Failure>(needle@),
            Err(e) => filter_of(arg_views(args@)) == Err::<Seq<char>, Failure>(e),
        },
{
    if args.len() > 2 {
        Err(Failure::Usage)
    } else if args.len() == 2 {
        assert(arg_views(args@)[1] == args@[1]@);
        Ok(args[1].as_str())
    } else {
        proof {
            reveal_strlit("");
            assert(""@ =~= Seq::<char>::empty());
        }
        Ok("")
    }
}

/// The usage line that accompanies a usage error.
pub open spec fn help_line() -> Seq<char> {
    "Usage: <executable_path> [ARG]\n"@
}

/// The usage line that accompanies a usage error.
pub fn help_text() -> (out: String)
    ensures
        out@ == help_line(),
{
    String::from_str("Usage: <executable_path> [ARG]\n")
}

} // verus!
