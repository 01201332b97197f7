//! The fixed table of commands that are rewritten to their new-style names.
use vstd::prelude::*;

verus! {

/// The new-style name of a legacy command, or `None` for every other string.
/// Matching is on the exact characters: `Build` or `new-build` are not keys.
pub open spec fn table_entry(s: Seq<char>) -> Option<Seq<char>> {
    if s == "build"@ {
        Some("new-build"@)
    } else if s == "configure"@ {
        Some("new-configure"@)
    } else if s == "repl"@ {
        Some("new-repl"@)
    } else if s == "run"@ {
        Some("new-run"@)
    } else if s == "test"@ {
        Some("new-test"@)
    } else if s == "bench"@ {
        Some("new-bench"@)
    } else if s == "freeze"@ {
        Some("new-freeze"@)
    } else if s == "haddock"@ {
        Some("new-haddock"@)
    } else {
        None
    }
}

/// Whether `s` is one of the legacy commands of the table.
pub open spec fn is_command(s: Seq<char>) -> bool {
    table_entry(s) is Some
}

/// The two help flags differ, and neither is a legacy command.
pub proof fn lemma_help_flags_are_not_commands()
    ensures
        !is_command("--help"@),
        !is_command("--cab-help"@),
        "--help"@ != "--cab-help"@,
{
    reveal_strlit("--help");
    reveal_strlit("--cab-help");
    reveal_strlit("build");
    reveal_strlit("configure");
    reveal_strlit("repl");
    reveal_strlit("run");
    reveal_strlit("test");
    reveal_strlit("bench");
    reveal_strlit("freeze");
    reveal_strlit("haddock");
    assert("--help"@[0] != "freeze"@[0]);
    assert("--cab-help"@.len() == 10);
}

/// Compares two strings character by character.
pub fn same_text(a: &str, b: &str) -> (r: bool)
    ensures
        r == (a@ == b@),
{
    let n = a.unicode_len();
    if n != b.unicode_len() {
        return false;
    }
    let mut i: usize = 0;
    while i < n
        invariant
            n == a@.len(),
            n == b@.len(),
            i <= n,
            a@.subrange(0, i as int) == b@.subrange(0, i as int),
        decreases n - i,
    {
        if a.get_char(i) != b.get_char(i) {
            assert(a@[i as int] != b@[i as int]);
            return false;
        }
        assert(a@.subrange(0, i + 1) == a@.subrange(0, i as int).push(a@[i as int]));
        assert(b@.subrange(0, i + 1) == b@.subrange(0, i as int).push(b@[i as int]));
        i += 1;
    }
    assert(a@ == a@.subrange(0, n as int));
    assert(b@ == b@.subrange(0, n as int));
    true
}

/// Looks `s` up in the table: the new-style name of a legacy command, and
/// `None` for any other string.
pub fn replace(s: &str) -> (r: Option<String>)
    ensures
        r matches Some(v) ==> table_entry(s@) == Some(v@),
        r is None ==> table_entry(s@) is None,
{
    if same_text(s, "build") {
        Some("new-build".to_owned())
    } else if same_text(s, "configure") {
        Some("new-configure".to_owned())
    } else if same_text(s, "repl") {
        Some("new-repl".to_owned())
    } else if same_text(s, "run") {
        Some("new-run".to_owned())
    } else if same_text(s, "test") {
        Some("new-test".to_owned())
    } else if same_text(s, "bench") {
        Some("new-bench".to_owned())
    } else if same_text(s, "freeze") {
        Some("new-freeze".to_owned())
    } else if same_text(s, "haddock") {
        Some("new-haddock".to_owned())
    } else {
        None
    }
}

} // verus!
