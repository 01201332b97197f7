//! The argument rewriter: a small state machine that walks the invocation
//! arguments once, rewriting the first legacy command and intercepting the
//! two help flags that may come before it.
use vstd::prelude::*;

use crate::table::{is_command, lemma_help_flags_are_not_commands, replace, same_text, table_entry};

verus! {

/// The character sequences of a list of strings.
pub open spec fn views(v: Seq<String>) -> Seq<Seq<char>> {
    v.map_values(|s: String| s@)
}

/// What is forwarded for `a`: its new-style name while no command has been
/// seen and `a` is a legacy command, `a` itself otherwise.
pub open spec fn forwarded_arg(seen: bool, a: Seq<char>) -> Seq<char> {
    if !seen && is_command(a) {
        table_entry(a).unwrap()
    } else {
        a
    }
}

/// Whether a command has been seen once `a` is read.
pub open spec fn seen_after(seen: bool, a: Seq<char>) -> bool {
    seen || is_command(a)
}

/// `--help` before the first command asks for the wrapper's notice.
pub open spec fn asks_notice(seen: bool, a: Seq<char>) -> bool {
    !seen && a == "--help"@
}

/// `--cab-help` before the first command asks for the wrapper's usage text.
pub open spec fn asks_usage(seen: bool, a: Seq<char>) -> bool {
    !seen && a == "--cab-help"@
}

/// Whether reading `rest` from state `seen` meets a request for the usage text.
pub open spec fn shows_usage(seen: bool, rest: Seq<Seq<char>>) -> bool
    decreases rest.len(),
{
    if rest.len() == 0 {
        false
    } else {
        asks_usage(seen, rest[0]) || shows_usage(seen_after(seen, rest[0]), rest.drop_first())
    }
}

/// The arguments forwarded for `rest` from state `seen`.
pub open spec fn rewritten(seen: bool, rest: Seq<Seq<char>>) -> Seq<Seq<char>>
    decreases rest.len(),
{
    if rest.len() == 0 {
        Seq::empty()
    } else {
        seq![forwarded_arg(seen, rest[0])] + rewritten(seen_after(seen, rest[0]), rest.drop_first())
    }
}

/// How many notices reading `rest` from state `seen` asks for.
pub open spec fn notice_count(seen: bool, rest: Seq<Seq<char>>) -> nat
    decreases rest.len(),
{
    if rest.len() == 0 {
        0
    } else {
        (if asks_notice(seen, rest[0]) { 1nat } else { 0nat }) + notice_count(
            seen_after(seen, rest[0]),
            rest.drop_first(),
        )
    }
}

/// One step of the rewriter.
pub enum Step {
    /// Forward `arg`; when `notice` holds, print the wrapper's notice first.
    Forward { arg: String, notice: bool },
    /// Print the wrapper's usage text and stop with success, forwarding nothing.
    Usage,
    /// No argument is left.
    End,
}

/// What to do with a whole argument list.
pub enum Plan {
    /// Print the wrapper's usage text and stop with success.
    Usage,
    /// Print the notice `notices` times, then run the tool with `args`.
    Run { args: Vec<String>, notices: usize },
}

/// The rewriter's state: whether a command has been seen, and the arguments
/// not yet read.
pub struct CabalArgs {
    seen_cmd: bool,
    args: Vec<String>,
    pos: usize,
}

impl CabalArgs {
    /// Whether a legacy command has been read.
    pub closed spec fn seen(&self) -> bool {
        self.seen_cmd
    }

    /// The arguments not yet read.
    pub closed spec fn rest(&self) -> Seq<Seq<char>> {
        views(self.args@).skip(self.pos as int)
    }

    /// The cursor stays within the argument list.
    pub closed spec fn wf(&self) -> bool {
        self.pos <= self.args.len()
    }

    /// A rewriter over `args`, the invocation arguments without the
    /// program's own name.
    pub fn new(args: Vec<String>) -> (r: CabalArgs)
        ensures
            r.wf(),
            !r.seen(),
            r.rest() == views(args@),
    {
        let r = CabalArgs { seen_cmd: false, args, pos: 0 };
        assert(r.rest() == views(args@));
        r
    }

    /// Reads the next argument and says what to do with it.
    pub fn next(&mut self) -> (s: Step)
        requires
            old(self).wf(),
        ensures
            final(self).wf(),
            old(self).seen() ==> final(self).seen(),
            old(self).rest().len() == 0 ==> s is End && final(self).seen() == old(self).seen()
                && final(self).rest() == old(self).rest(),
            old(self).rest().len() > 0 ==> {
                let a = old(self).rest()[0];
                &&& final(self).rest() == old(self).rest().drop_first()
                &&& final(self).seen() == seen_after(old(self).seen(), a)
                &&& asks_usage(old(self).seen(), a) ==> s is Usage
                &&& !asks_usage(old(self).seen(), a) ==> (s matches Step::Forward { arg, notice }
                    && arg@ == forwarded_arg(old(self).seen(), a) && notice == asks_notice(
                    old(self).seen(),
                    a,
                ))
            },
    {
        if self.pos >= self.args.len() {
            return Step::End;
        }
        let arg = self.args[self.pos].clone();
        assert(arg@ == self.rest()[0]);
        assert(self.rest().drop_first() == views(self.args@).skip(self.pos + 1));
        self.pos = self.pos + 1;
        if self.seen_cmd {
            return Step::Forward { arg, notice: false };
        }
        proof {
            lemma_help_flags_are_not_commands();
        }
        if same_text(arg.as_str(), "--help") {
            Step::Forward { arg, notice: true }
        } else if same_text(arg.as_str(), "--cab-help") {
            Step::Usage
        } else {
            match replace(arg.as_str()) {
                Some(r) => {
                    self.seen_cmd = true;
                    Step::Forward { arg: r, notice: false }
                },
                None => Step::Forward { arg, notice: false },
            }
        }
    }
}

/// Runs the rewriter over `args` to its end: either the usage text is asked
/// for before any command, or the rewritten arguments with the number of
/// notices to print.
pub fn rewrite_all(args: Vec<String>) -> (p: Plan)
    ensures
        p is Usage <==> shows_usage(false, views(args@)),
        p matches Plan::Run { args: out, notices } ==> (views(out@) == rewritten(
            false,
            views(args@),
        ) && notices == notice_count(false, views(args@))),
{
    let ghost all = views(args@);
    let n = args.len();
    let mut it = CabalArgs::new(args);
    let mut out: Vec<String> = Vec::new();
    let mut notices: usize = 0;
    loop
        invariant
            it.wf(),
            all == views(args@),
            all.len() == n,
            shows_usage(false, all) == shows_usage(it.seen(), it.rest()),
            rewritten(false, all) == views(out@) + rewritten(it.seen(), it.rest()),
            notice_count(false, all) == notices + notice_count(it.seen(), it.rest()),
            notices <= out.len(),
            out.len() + it.rest().len() == n,
        decreases it.rest().len(),
    {
        let ghost before = it;
        match it.next() {
            Step::End => {
                assert(views(out@) + rewritten(it.seen(), it.rest()) == views(out@));
                return Plan::Run { args: out, notices };
            },
            Step::Usage => {
                return Plan::Usage;
            },
            Step::Forward { arg, notice } => {
                if notice {
                    notices = notices + 1;
                }
                let ghost prev = out@;
                out.push(arg);
                assert(views(out@) == views(prev).push(arg@));
                assert(views(prev) + rewritten(before.seen(), before.rest()) == views(out@)
                    + rewritten(it.seen(), it.rest()));
            },
        }
    }
}

} // verus!
