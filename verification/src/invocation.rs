//! The invocation configuration fixed at startup: the build-tool action
//! (first argument), the remaining arguments passed through verbatim, and
//! the target list derived from them by skipping leading flag-like
//! tokens. Missing pieces are fatal configuration errors.

use vstd::prelude::*;
use vstd::string::StringExecFns;
use crate::classify::has_prefix;

verus! {

/// The fatal configuration errors: an invocation needs an action and at
/// least one target.
#[derive(Clone, Copy, Debug, PartialEq, Eq, Structural)]
pub enum InvocationError {
    MissingAction,
    MissingTargets,
}

/// The invocation configuration, immutable for the life of the process.
pub struct Invocation {
    /// The build-tool action (build, test, run, ...): the first argument.
    pub action: String,
    /// Every argument after the action, passed through verbatim on each
    /// (re)launch.
    pub args: Vec<String>,
    /// The arguments that name targets: `args` with its leading
    /// flag-like tokens skipped.
    pub targets: Vec<String>,
}

/// A flag-like token begins with `-`.
pub open spec fn is_flag(arg: Seq<char>) -> bool {
    "-"@.is_prefix_of(arg)
}

/// `args` with its leading flag-like tokens removed.
pub open spec fn drop_leading_flags(args: Seq<Seq<char>>) -> Seq<Seq<char>>
    decreases args.len(),
{
    if args.len() > 0 && is_flag(args.first()) {
        drop_leading_flags(args.drop_first())
    } else {
        args
    }
}

/// What a well-formed result of `parse_invocation` holds, in terms of the
/// raw argument list.
pub open spec fn invocation_of(inv: Invocation, argv: Seq<Seq<char>>) -> bool {
    &&& argv.len() >= 2
    &&& inv.action@ == argv[1]
    &&& inv.args.deep_view() == argv.skip(2)
    &&& inv.targets.deep_view() == drop_leading_flags(argv.skip(2))
    &&& inv.targets.deep_view().len() > 0
}

/// Skipping leading flags takes a suffix: when the first `t` entries are
/// flags and entry `t` (if any) is not, what is left is exactly the
/// suffix from `t`.
proof fn lemma_drop_leading_flags_skip(args: Seq<Seq<char>>, t: int)
    requires
        0 <= t <= args.len(),
        forall|j: int| 0 <= j < t ==> is_flag(#[trigger] args[j]),
        t < args.len() ==> !is_flag(args[t]),
    ensures
        drop_leading_flags(args) == args.skip(t),
    decreases t,
{
    if t == 0 {
        assert(args.skip(0) =~= args);
    } else {
        lemma_drop_leading_flags_skip(args.drop_first(), t - 1);
        assert(args.drop_first().skip(t - 1) =~= args.skip(t));
    }
}

/// Derive the invocation configuration from the raw argument list (the
/// program name first, as handed to the process): the action is the
/// second entry, everything after it is passed through, and the targets
/// are what remains of those after the leading flags. An argument list
/// without an action, or whose remainder holds no target, is rejected
/// with the matching fatal error.
pub fn parse_invocation(argv: &Vec<String>) -> (r: Result<Invocation, InvocationError>)
    ensures
        argv@.len() < 2 ==> r == Err::<Invocation, InvocationError>(
            InvocationError::MissingAction,
        ),
        argv@.len() >= 2 && drop_leading_flags(argv.deep_view().skip(2)).len() == 0 ==> r
            == Err::<Invocation, InvocationError>(InvocationError::MissingTargets),
        argv@.len() >= 2 && drop_leading_flags(argv.deep_view().skip(2)).len() > 0 ==> r is Ok
            && invocation_of(r->Ok_0, argv.deep_view()),
{
    let ghost adv = argv.deep_view();
    if argv.len() < 2 {
        return Err(InvocationError::MissingAction);
    }
    let action = argv[1].clone();
    let mut args: Vec<String> = Vec::new();
    let mut k: usize = 2;
    while k < argv.len()
        invariant
            2 <= k <= argv@.len(),
            adv == argv.deep_view(),
            args.deep_view() == adv.subrange(2, k as int),
        decreases argv@.len() - k,
    {
        let ghost prev = args.deep_view();
        args.push(argv[k].clone());
        proof {
            assert(args.deep_view() =~= prev.push(adv[k as int]));
            assert(prev.push(adv[k as int]) =~= adv.subrange(2, k + 1));
        }
        k += 1;
    }
    proof {
        assert(adv.subrange(2, adv.len() as int) =~= adv.skip(2));
    }
    let ghost dv = args.deep_view();
    let n_args: usize = args.len();
    let mut t: usize = 0;
    let mut at_flag: bool = t < args.len() && has_prefix(args[t].as_str(), "-");
    while at_flag
        invariant
            dv == args.deep_view(),
            dv.len() == args@.len(),
            n_args == args@.len(),
            t <= n_args,
            forall|j: int| 0 <= j < t ==> is_flag(#[trigger] dv[j]),
            at_flag == (t < n_args && is_flag(dv[t as int])),
        decreases args@.len() - t,
    {
        t += 1;
        at_flag = t < args.len() && has_prefix(args[t].as_str(), "-");
    }
    proof {
        lemma_drop_leading_flags_skip(dv, t as int);
    }
    let mut targets: Vec<String> = Vec::new();
    let mut k2: usize = t;
    while k2 < args.len()
        invariant
            dv == args.deep_view(),
            dv.len() == args@.len(),
            t <= k2 <= args@.len(),
            targets.deep_view() == dv.subrange(t as int, k2 as int),
        decreases args@.len() - k2,
    {
        let ghost prev = targets.deep_view();
        targets.push(args[k2].clone());
        proof {
            assert(targets.deep_view() =~= prev.push(dv[k2 as int]));
            assert(prev.push(dv[k2 as int]) =~= dv.subrange(t as int, k2 + 1));
        }
        k2 += 1;
    }
    proof {
        assert(dv.subrange(t as int, dv.len() as int) =~= dv.skip(t as int));
    }
    if targets.len() == 0 {
        return Err(InvocationError::MissingTargets);
    }
    Ok(Invocation { action, args, targets })
}

/// The message of a fatal configuration error.
pub open spec fn message_spec(e: InvocationError) -> Seq<char> {
    match e {
        InvocationError::MissingAction => "At least one bazel action is required. Try rebazel 'build', 'test', or 'run'"@,
        InvocationError::MissingTargets => "At least one bazel target is required.\nLearn more about specifying a target by visiting\nhttps://bazel.build/versions/master/docs/bazel-user-manual.html#target-patterns"@,
    }
}

impl InvocationError {
    /// The human-readable description a caller prints on fatal exit.
    pub fn message(&self) -> (m: String)
        ensures
            m@ == message_spec(*self),
    {
        match self {
            InvocationError::MissingAction => String::from_str(
                "At least one bazel action is required. Try rebazel 'build', 'test', or 'run'",
            ),
            InvocationError::MissingTargets => String::from_str(
                "At least one bazel target is required.\nLearn more about specifying a target by visiting\nhttps://bazel.build/versions/master/docs/bazel-user-manual.html#target-patterns",
            ),
        }
    }
}

} // verus!
