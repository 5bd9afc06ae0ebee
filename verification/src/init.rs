//! Command-line argument rules and the initial configuration text.
//!
//! The process-facing work (printing, creating the configuration file,
//! exiting) stays with the caller; these functions only decide and render.

use vstd::prelude::*;

use vstd::string::StringExecFns;

verus! {

/// The arguments are wrong when there are more than two of them, or when the
/// single flag given is not `--init`.
pub fn incorrect_args_passed(args: &Vec<String>) -> (r: bool)
    ensures
        r == (args@.len() > 2 || (args@.len() == 2 && args@[1]@ != ("--init")@)),
{
    if args.len() > 2 {
        true
    } else if args.len() == 2 {
        let flag = String::from_str("--init");
        !args[1].eq(&flag)
    } else {
        false
    }
}

/// Whether the first flag asks for the configuration to be initialized.
pub fn init_arg_passed(args: &Vec<String>) -> (r: bool)
    ensures
        r == (args@.len() >= 2 && args@[1]@ == ("--init")@),
{
    if args.len() >= 2 {
        let flag = String::from_str("--init");
        args[1].eq(&flag)
    } else {
        false
    }
}

/// The usage text shown when the arguments are wrong.
pub fn usage() -> (r: String)
    ensures
        r@ == (
        "sweetch-bot - notify about game sales\n\nUSAGE:\n    sweetch-bot [FLAGS]\n\nFLAGS:\n    --init      Initialize configuration\n")@,
{
    String::from_str(
        "sweetch-bot - notify about game sales\n\nUSAGE:\n    sweetch-bot [FLAGS]\n\nFLAGS:\n    --init      Initialize configuration\n",
    )
}

/// The content written into a freshly initialized configuration file.
pub fn init_config() -> (r: String)
    ensures
        r@ == (
        "[schedule]\nrun_at = [\"7:00 pm\"]\n\n[[watched_game]]\ntitle = \"Game 1 title here\"\n\n[[watched_game]]\ntitle = \"Game 2 title here\"\n")@,
{
    String::from_str(
        "[schedule]\nrun_at = [\"7:00 pm\"]\n\n[[watched_game]]\ntitle = \"Game 1 title here\"\n\n[[watched_game]]\ntitle = \"Game 2 title here\"\n",
    )
}

} // verus!
