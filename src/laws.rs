//! Properties of the rewriting as a whole, stated over the model of the
//! rewriter.
use vstd::prelude::*;

use crate::rewriter::{notice_count, rewritten, shows_usage};
use crate::table::{is_command, lemma_help_flags_are_not_commands, table_entry};

verus! {

/// Once a command has been seen, the rest is forwarded as it stands, with no
/// notice and no usage text.
pub proof fn lemma_after_command(rest: Seq<Seq<char>>)
    ensures
        rewritten(true, rest) == rest,
        !shows_usage(true, rest),
        notice_count(true, rest) == 0,
    decreases rest.len(),
{
    if rest.len() > 0 {
        lemma_after_command(rest.drop_first());
        assert(rest == seq![rest[0]] + rest.drop_first());
    }
}

/// Rewriting keeps the number of arguments.
pub proof fn lemma_rewritten_len(seen: bool, rest: Seq<Seq<char>>)
    ensures
        rewritten(seen, rest).len() == rest.len(),
    decreases rest.len(),
{
    if rest.len() > 0 {
        lemma_rewritten_len(seen || is_command(rest[0]), rest.drop_first());
    }
}

/// A list with no legacy command and no help flag is forwarded exactly as
/// given, with no notice and no usage text.
pub proof fn identity_without_commands(args: Seq<Seq<char>>)
    requires
        forall|j: int|
            0 <= j < args.len() ==> !is_command(#[trigger] args[j]) && args[j] != "--help"@
                && args[j] != "--cab-help"@,
    ensures
        rewritten(false, args) == args,
        !shows_usage(false, args),
        notice_count(false, args) == 0,
    decreases args.len(),
{
    if args.len() > 0 {
        let tail = args.drop_first();
        assert forall|j: int| 0 <= j < tail.len() implies !is_command(#[trigger] tail[j])
            && tail[j] != "--help"@ && tail[j] != "--cab-help"@ by {
            assert(tail[j] == args[j + 1]);
        }
        identity_without_commands(tail);
        assert(args == seq![args[0]] + tail);
    }
}

/// The first legacy command, at position `i`, is replaced by its new-style
/// name and every other argument is forwarded unchanged, later legacy
/// commands included. The usage text is shown exactly when `--cab-help`
/// comes before position `i`.
pub proof fn first_command_rewritten(args: Seq<Seq<char>>, i: int)
    requires
        0 <= i < args.len(),
        is_command(args[i]),
        forall|j: int| 0 <= j < i ==> !is_command(#[trigger] args[j]),
    ensures
        rewritten(false, args) == args.update(i, table_entry(args[i]).unwrap()),
        shows_usage(false, args) <==> exists|j: int| 0 <= j < i && #[trigger] args[j] == "--cab-help"@,
        notice_count(false, args) == args.take(i).filter(|a: Seq<char>| a == "--help"@).len(),
    decreases i,
{
    reveal_with_fuel(Seq::filter, 2);
    let tail = args.drop_first();
    if i == 0 {
        lemma_after_command(tail);
        lemma_help_flags_are_not_commands();
        assert(args.update(0, table_entry(args[0]).unwrap()) == seq![table_entry(args[0]).unwrap()]
            + tail);
        assert(args.take(0) == Seq::<Seq<char>>::empty());
    } else {
        assert forall|j: int| 0 <= j < i - 1 implies !is_command(#[trigger] tail[j]) by {
            assert(tail[j] == args[j + 1]);
        }
        assert(tail[i - 1] == args[i]);
        first_command_rewritten(tail, i - 1);
        assert(args.update(i, table_entry(args[i]).unwrap()) == seq![args[0]] + tail.update(
            i - 1,
            table_entry(args[i]).unwrap(),
        ));
        if shows_usage(false, args) && args[0] != "--cab-help"@ {
            let j = choose|j: int| 0 <= j < i - 1 && #[trigger] tail[j] == "--cab-help"@;
            assert(args[j + 1] == "--cab-help"@);
        }
        if exists|j: int| 0 <= j < i && #[trigger] args[j] == "--cab-help"@ {
            let j = choose|j: int| 0 <= j < i && #[trigger] args[j] == "--cab-help"@;
            if j > 0 {
                assert(tail[j - 1] == "--cab-help"@);
            }
        }
        assert(args.take(i) == seq![args[0]] + tail.take(i - 1));
        assert(args.take(i).drop_first() == tail.take(i - 1));
    }
}

/// `--cab-help` before the first legacy command asks for the usage text,
/// which stops the run: nothing is forwarded.
pub proof fn usage_before_command(args: Seq<Seq<char>>, i: int)
    requires
        0 <= i < args.len(),
        args[i] == "--cab-help"@,
        forall|j: int| 0 <= j < i ==> !is_command(#[trigger] args[j]),
    ensures
        shows_usage(false, args),
    decreases i,
{
    if i > 0 {
        let tail = args.drop_first();
        assert forall|j: int| 0 <= j < i - 1 implies !is_command(#[trigger] tail[j]) by {
            assert(tail[j] == args[j + 1]);
        }
        assert(tail[i - 1] == args[i]);
        usage_before_command(tail, i - 1);
    }
}

/// `--help` before the first legacy command asks for at least one notice,
/// and is itself forwarded unchanged at its own position.
pub proof fn notice_before_command(args: Seq<Seq<char>>, i: int)
    requires
        0 <= i < args.len(),
        args[i] == "--help"@,
        forall|j: int| 0 <= j < i ==> !is_command(#[trigger] args[j]),
    ensures
        rewritten(false, args).len() == args.len(),
        rewritten(false, args)[i] == "--help"@,
        notice_count(false, args) >= 1,
    decreases i,
{
    lemma_rewritten_len(false, args);
    lemma_help_flags_are_not_commands();
    if i > 0 {
        let tail = args.drop_first();
        assert forall|j: int| 0 <= j < i - 1 implies !is_command(#[trigger] tail[j]) by {
            assert(tail[j] == args[j + 1]);
        }
        assert(tail[i - 1] == args[i]);
        notice_before_command(tail, i - 1);
    }
}

/// No new-style name is itself a legacy command: a replacement is never
/// rewritten again.
pub proof fn replacements_are_not_commands(s: Seq<char>)
    requires
        is_command(s),
    ensures
        !is_command(table_entry(s).unwrap()),
{
    reveal_strlit("build");
    reveal_strlit("configure");
    reveal_strlit("repl");
    reveal_strlit("run");
    reveal_strlit("test");
    reveal_strlit("bench");
    reveal_strlit("freeze");
    reveal_strlit("haddock");
    reveal_strlit("new-build");
    reveal_strlit("new-configure");
    reveal_strlit("new-repl");
    reveal_strlit("new-run");
    reveal_strlit("new-test");
    reveal_strlit("new-bench");
    reveal_strlit("new-freeze");
    reveal_strlit("new-haddock");
    let r = table_entry(s).unwrap();
    assert(r[0] == 'n' && r[1] == 'e' && r[2] == 'w');
}

} // verus!
