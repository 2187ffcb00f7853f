//! Command-line options.
use vstd::prelude::*;
use crate::text::str_eq;

verus! {

broadcast use vstd::string::group_string_axioms;

/// The options given on the command line.
#[derive(Debug, Clone, Copy, PartialEq, Eq, Structural)]
pub struct Cli {
    /// Use hibernate mode instead of sleep
    pub hibernate: bool,
    /// Use legacy input detection method
    pub legacy_input: bool,
}

/// The text printed for `-h` / `--help`.
pub const HELP_MESSAGE: &'static str = "SleepTool compatible app in Rust\n\nOptions:\n  -H, --hibernate      Use hibernate mode instead of sleep\n  -O, --legacy-input  Use legacy input detection method\n  -h, --help           Print help";

/// The text printed for `-V` / `--version`.
pub const VERSION_MESSAGE: &'static str = "sleeptool-rs 0.1.0";

/// `a` asks for hibernation.
pub open spec fn is_hibernate_flag(a: Seq<char>) -> bool {
    a == "-H"@ || a == "--hibernate"@
}

/// `a` asks for legacy input detection.
pub open spec fn is_legacy_input_flag(a: Seq<char>) -> bool {
    a == "-O"@ || a == "--legacy-input"@
}

/// `a` asks for the help text.
pub open spec fn is_help_flag(a: Seq<char>) -> bool {
    a == "-h"@ || a == "--help"@
}

/// `a` asks for the version text.
pub open spec fn is_version_flag(a: Seq<char>) -> bool {
    a == "-V"@ || a == "--version"@
}

/// `a` ends argument parsing with a message to print.
pub open spec fn is_message_flag(a: Seq<char>) -> bool {
    is_help_flag(a) || is_version_flag(a)
}

/// The outcome of reading the arguments from left to right: the two
/// switches, or the message of the first help/version flag met.
pub open spec fn parse_args_spec(args: Seq<Seq<char>>) -> Result<(bool, bool), Seq<char>>
    decreases args.len(),
{
    if args.len() == 0 {
        Ok((false, false))
    } else {
        match parse_args_spec(args.drop_last()) {
            Err(m) => Err(m),
            Ok((h, l)) => {
                let a = args.last();
                if is_hibernate_flag(a) {
                    Ok((true, l))
                } else if is_legacy_input_flag(a) {
                    Ok((h, true))
                } else if is_help_flag(a) {
                    Err(HELP_MESSAGE@)
                } else if is_version_flag(a) {
                    Err(VERSION_MESSAGE@)
                } else {
                    Ok((h, l))
                }
            },
        }
    }
}

/// The view of parsed options in the shape of `parse_args_spec`.
pub open spec fn cli_result_view(r: Result<Cli, String>) -> Result<(bool, bool), Seq<char>> {
    match r {
        Ok(cli) => Ok((cli.hibernate, cli.legacy_input)),
        Err(m) => Err(m@),
    }
}

/// Parses the command-line arguments (without the program name).
/// `-h` / `--help` and `-V` / `--version` return the text to print as
/// `Err`; the caller prints it and exits. Unknown arguments are ignored.
pub fn parse_args(args: &[String]) -> (r: Result<Cli, String>)
    ensures
        cli_result_view(r) == parse_args_spec(args@.map_values(|s: String| s@)),
{
    let ghost views = args@.map_values(|s: String| s@);
    let mut hibernate = false;
    let mut legacy_input = false;
    let n = args.len();
    let mut i: usize = 0;
    while i < n
        invariant
            n == args@.len(),
            views == args@.map_values(|s: String| s@),
            i <= n,
            parse_args_spec(views.take(i as int)) == Ok::<(bool, bool), Seq<char>>(
                (hibernate, legacy_input),
            ),
        decreases n - i,
    {
        let arg = args[i].as_str();
        proof {
            assert(views.take(i + 1).drop_last() =~= views.take(i as int));
            assert(views.take(i + 1).last() == arg@);
        }
        if str_eq(arg, "-H") || str_eq(arg, "--hibernate") {
            hibernate = true;
        } else if str_eq(arg, "-O") || str_eq(arg, "--legacy-input") {
            legacy_input = true;
        } else if str_eq(arg, "-h") || str_eq(arg, "--help") {
            let m = HELP_MESSAGE.to_owned();
            proof {
                lemma_err_is_kept(views, i + 1);
            }
            return Err(m);
        } else if str_eq(arg, "-V") || str_eq(arg, "--version") {
            let m = VERSION_MESSAGE.to_owned();
            proof {
                lemma_err_is_kept(views, i + 1);
            }
            return Err(m);
        }
        i = i + 1;
    }
    assert(views.take(n as int) =~= views);
    Ok(Cli { hibernate, legacy_input })
}

proof fn lemma_flags_disjoint()
    ensures
        forall|x: Seq<char>| !(#[trigger] is_hibernate_flag(x) && is_legacy_input_flag(x)),
        forall|x: Seq<char>| !(#[trigger] is_hibernate_flag(x) && is_message_flag(x)),
        forall|x: Seq<char>| !(#[trigger] is_legacy_input_flag(x) && is_message_flag(x)),
        forall|x: Seq<char>| !(#[trigger] is_help_flag(x) && is_version_flag(x)),
{
    reveal_strlit("-H");
    reveal_strlit("--hibernate");
    reveal_strlit("-O");
    reveal_strlit("--legacy-input");
    reveal_strlit("-h");
    reveal_strlit("--help");
    reveal_strlit("-V");
    reveal_strlit("--version");
    assert("-H"@[1] == 'H');
    assert("-O"@[1] == 'O');
    assert("-h"@[1] == 'h');
    assert("-V"@[1] == 'V');
    assert("-H"@.len() == 2 && "-O"@.len() == 2 && "-h"@.len() == 2 && "-V"@.len() == 2);
    assert("--hibernate"@.len() == 11);
    assert("--legacy-input"@.len() == 14);
    assert("--help"@.len() == 6);
    assert("--version"@.len() == 9);
}

proof fn lemma_err_is_kept(args: Seq<Seq<char>>, k: int)
    requires
        0 <= k <= args.len(),
        parse_args_spec(args.take(k)) is Err,
    ensures
        parse_args_spec(args) == parse_args_spec(args.take(k)),
    decreases args.len() - k,
{
    if k < args.len() {
        assert(args.take(k + 1).drop_last() =~= args.take(k));
        lemma_err_is_kept(args, k + 1);
    } else {
        assert(args.take(k) =~= args);
    }
}

/// Parsing stops with a message exactly when some argument is a help or
/// version flag. Otherwise each switch is on exactly when some argument
/// names it.
pub proof fn law_parse_args_flags(args: Seq<Seq<char>>)
    ensures
        parse_args_spec(args) is Err <==> exists|i: int|
            0 <= i < args.len() && is_message_flag(#[trigger] args[i]),
        parse_args_spec(args) matches Ok((h, l)) ==> {
            &&& h == exists|i: int| 0 <= i < args.len() && is_hibernate_flag(#[trigger] args[i])
            &&& l == exists|i: int| 0 <= i < args.len() && is_legacy_input_flag(#[trigger] args[i])
        },
    decreases args.len(),
{
    lemma_flags_disjoint();
    if args.len() > 0 {
        let init = args.drop_last();
        let a = args.last();
        law_parse_args_flags(init);
        assert(args[args.len() - 1] == a);
        assert forall|i: int| 0 <= i < init.len() implies init[i] == args[i] by {}
        if exists|i: int| 0 <= i < args.len() && is_message_flag(#[trigger] args[i]) {
            let i = choose|i: int| 0 <= i < args.len() && is_message_flag(#[trigger] args[i]);
            if i < init.len() {
                assert(is_message_flag(init[i]));
            } else {
                assert(is_message_flag(a));
            }
        } else {
            assert(!is_message_flag(a));
            assert forall|i: int| 0 <= i < init.len() implies !is_message_flag(#[trigger] init[i]) by {
                assert(!is_message_flag(args[i]));
            }
            let h0 = parse_args_spec(init)->Ok_0.0;
            let l0 = parse_args_spec(init)->Ok_0.1;
            assert(is_hibernate_flag(a) ==> !is_legacy_input_flag(a));
            assert(parse_args_spec(args) == Ok::<(bool, bool), Seq<char>>(
                (h0 || is_hibernate_flag(a), l0 || is_legacy_input_flag(a)),
            ));
            if exists|i: int| 0 <= i < args.len() && is_hibernate_flag(#[trigger] args[i]) {
                let i = choose|i: int| 0 <= i < args.len() && is_hibernate_flag(#[trigger] args[i]);
                if i < init.len() {
                    assert(is_hibernate_flag(init[i]));
                }
            }
            if h0 {
                let i = choose|i: int| 0 <= i < init.len() && is_hibernate_flag(#[trigger] init[i]);
                assert(is_hibernate_flag(args[i]));
            }
            if is_hibernate_flag(a) {
                assert(is_hibernate_flag(args[args.len() - 1]));
            }
            if exists|i: int| 0 <= i < args.len() && is_legacy_input_flag(#[trigger] args[i]) {
                let i = choose|i: int|
                    0 <= i < args.len() && is_legacy_input_flag(#[trigger] args[i]);
                if i < init.len() {
                    assert(is_legacy_input_flag(init[i]));
                }
            }
            if l0 {
                let i = choose|i: int| 0 <= i < init.len() && is_legacy_input_flag(#[trigger] init[i]);
                assert(is_legacy_input_flag(args[i]));
            }
            if is_legacy_input_flag(a) {
                assert(is_legacy_input_flag(args[args.len() - 1]));
            }
        }
    }
}

/// When parsing stops with a message, the message belongs to the first help
/// or version flag among the arguments.
pub proof fn law_parse_args_first_message_wins(args: Seq<Seq<char>>, k: int)
    requires
        0 <= k < args.len(),
        is_message_flag(args[k]),
        forall|j: int| 0 <= j < k ==> !is_message_flag(#[trigger] args[j]),
    ensures
        parse_args_spec(args) == Err::<(bool, bool), Seq<char>>(
            if is_help_flag(args[k]) {
                HELP_MESSAGE@
            } else {
                VERSION_MESSAGE@
            },
        ),
{
    lemma_flags_disjoint();
    let pre = args.take(k);
    law_parse_args_flags(pre);
    assert(!(exists|i: int| 0 <= i < pre.len() && is_message_flag(#[trigger] pre[i]))) by {
        if exists|i: int| 0 <= i < pre.len() && is_message_flag(#[trigger] pre[i]) {
            let i = choose|i: int| 0 <= i < pre.len() && is_message_flag(#[trigger] pre[i]);
            assert(pre[i] == args[i]);
        }
    }
    assert(args.take(k + 1).drop_last() =~= pre);
    assert(args.take(k + 1).last() == args[k]);
    assert(!(parse_args_spec(pre) is Err));
    assert(!is_hibernate_flag(args[k]) && !is_legacy_input_flag(args[k]));
    assert(parse_args_spec(args.take(k + 1)) is Err);
    lemma_err_is_kept(args, k + 1);
}

} // verus!
