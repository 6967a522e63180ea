//! What the command line asks for.
use vstd::prelude::*;

use crate::paths::same_text;

verus! {

/// What an invocation asks the tool to do.
#[derive(Debug)]
pub enum Invocation {
    /// Show the usage text and stop.
    Help,
    /// Prepend to `filename`: the given text, or, when `text` is `None`,
    /// the text read from standard input.
    Prepend { filename: String, text: Option<String>, dry_run: bool },
}

/// Whether `a` asks for a dry run.
pub open spec fn is_dry_run_flag(a: Seq<char>) -> bool {
    a == "--dry-run"@
}

/// Whether `a` asks for the usage text.
pub open spec fn is_help_flag(a: Seq<char>) -> bool {
    a == "--help"@ || a == "-h"@
}

/// Whether `a` is one of the flags.
pub open spec fn is_flag(a: Seq<char>) -> bool {
    is_dry_run_flag(a) || is_help_flag(a)
}

/// The arguments of `opts` that are no flag, in order.
pub open spec fn positionals(opts: Seq<String>) -> Seq<String>
    decreases opts.len(),
{
    if opts.len() == 0 {
        Seq::empty()
    } else {
        let rest = positionals(opts.drop_last());
        if is_flag(opts.last()@) {
            rest
        } else {
            rest.push(opts.last())
        }
    }
}

/// The arguments after the program's name.
pub open spec fn options_of(args: Seq<String>) -> Seq<String> {
    if args.len() == 0 {
        args
    } else {
        args.drop_first()
    }
}

/// Whether some argument of `opts` asks for the usage text.
pub open spec fn asks_help(opts: Seq<String>) -> bool {
    exists|j: int| 0 <= j < opts.len() && is_help_flag(#[trigger] opts[j]@)
}

/// Whether some argument of `opts` asks for a dry run.
pub open spec fn asks_dry_run(opts: Seq<String>) -> bool {
    exists|j: int| 0 <= j < opts.len() && is_dry_run_flag(#[trigger] opts[j]@)
}

/// Whether `r` is what the arguments `args` (the program's name first) ask
/// for. Flags may stand anywhere; the first other argument is the file, the
/// second the text, and any further one is ignored. Without a file, or with
/// a help flag, the usage text is asked for.
pub open spec fn parsed(args: Seq<String>, r: Invocation) -> bool {
    let opts = options_of(args);
    let pos = positionals(opts);
    if asks_help(opts) || pos.len() == 0 {
        r is Help
    } else {
        r matches Invocation::Prepend { filename, text, dry_run } && filename == pos[0] && text == (
        if pos.len() > 1 {
            Some(pos[1])
        } else {
            None
        }) && dry_run == asks_dry_run(opts)
    }
}

/// Reads the command line `args`, the program's name first.
pub fn parse_arguments(args: &Vec<String>) -> (r: Invocation)
    ensures
        parsed(args@, r),
{
    proof {
        reveal_strlit("--dry-run");
        reveal_strlit("--help");
        reveal_strlit("-h");
    }
    let n = args.len();
    if n == 0 {
        assert(positionals(options_of(args@)) =~= Seq::<String>::empty());
        return Invocation::Help;
    }
    let ghost opts = args@.drop_first();
    let mut filename: Option<String> = None;
    let mut text: Option<String> = None;
    let mut dry_run = false;
    let mut show_help = false;
    let mut i: usize = 1;
    assert(opts.subrange(0, 0) =~= Seq::<String>::empty());
    while i < n
        invariant
            n == args@.len() >= 1,
            opts == args@.drop_first(),
            1 <= i <= n,
            ({
                let pos = positionals(opts.subrange(0, i - 1));
                &&& filename == (if pos.len() > 0 {
                    Some(pos[0])
                } else {
                    None::<String>
                })
                &&& text == (if pos.len() > 1 {
                    Some(pos[1])
                } else {
                    None::<String>
                })
            }),
            show_help == asks_help(opts.subrange(0, i - 1)),
            dry_run == asks_dry_run(opts.subrange(0, i - 1)),
        decreases n - i,
    {
        let a = args[i].as_str();
        let ghost before = opts.subrange(0, i - 1);
        let ghost after = opts.subrange(0, i as int);
        assert(after.drop_last() =~= before);
        assert(after.last() == args@[i as int]);
        assert forall|j: int| 0 <= j < before.len() implies #[trigger] after[j] == before[j] by {}
        let is_dry = same_text(a, "--dry-run");
        let is_help = same_text(a, "--help") || same_text(a, "-h");
        if is_dry {
            dry_run = true;
        } else if is_help {
            show_help = true;
        } else if filename.is_none() {
            filename = Some(args[i].clone());
        } else if text.is_none() {
            text = Some(args[i].clone());
        }
        proof {
            reveal_strlit("--dry-run");
            reveal_strlit("--help");
            reveal_strlit("-h");
            if is_dry {
                assert("--dry-run"@.len() == 9 && "--help"@.len() == 6 && "-h"@.len() == 2);
                assert(!is_help_flag(after[before.len() as int]@));
            }
            if asks_help(after) && !is_help {
                let j = choose|j: int| 0 <= j < after.len() && is_help_flag(#[trigger] after[j]@);
                assert(j < before.len());
                assert(before[j] == after[j]);
            }
            if asks_dry_run(after) && !is_dry {
                let j = choose|j: int| 0 <= j < after.len() && is_dry_run_flag(#[trigger] after[j]@);
                assert(j < before.len());
                assert(before[j] == after[j]);
            }
            if asks_help(before) {
                let j = choose|j: int| 0 <= j < before.len() && is_help_flag(#[trigger] before[j]@);
                assert(after[j] == before[j]);
            }
            if asks_dry_run(before) {
                let j = choose|j: int| 0 <= j < before.len() && is_dry_run_flag(#[trigger] before[j]@);
                assert(after[j] == before[j]);
            }
            if is_help {
                assert(is_help_flag(after[before.len() as int]@));
            }
            if is_dry {
                assert(is_dry_run_flag(after[before.len() as int]@));
            }
        }
        i = i + 1;
    }
    assert(opts.subrange(0, n - 1) =~= opts);
    if show_help {
        return Invocation::Help;
    }
    match filename {
        Some(f) => Invocation::Prepend { filename: f, text, dry_run },
        None => Invocation::Help,
    }
}

} // verus!
