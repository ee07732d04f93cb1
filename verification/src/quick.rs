//! A ready-made configuration: the flags among a program's arguments.

use vstd::prelude::*;
use vstd::std_specs::iter::IteratorSpec;
use crate::CommandlineConfig;

verus! {

/// Whether an argument is a flag: it begins with `--` and holds no `:`.
pub open spec fn is_flag(arg: Seq<char>) -> bool {
    &&& arg.len() >= 2
    &&& arg[0] == '-'
    &&& arg[1] == '-'
    &&& !arg.contains(':')
}

/// The flags among `args`, in the order of the arguments. An argument that
/// occurs twice is kept twice.
pub open spec fn flags_of(args: Seq<Seq<char>>) -> Seq<Seq<char>> {
    args.filter(|arg: Seq<char>| is_flag(arg))
}

/// A list of no arguments holds no flag.
pub proof fn law_no_arguments_no_flags()
    ensures
        flags_of(Seq::empty()) == Seq::<Seq<char>>::empty(),
{
    reveal(Seq::filter);
}

/// Every flag taken from a list of arguments is one of the arguments and is
/// a flag, and every argument that is a flag is among the flags taken.
pub proof fn law_flags_are_the_flag_arguments(args: Seq<Seq<char>>)
    ensures
        forall|i: int|
            0 <= i < flags_of(args).len() ==> is_flag(#[trigger] flags_of(args)[i])
                && args.contains(flags_of(args)[i]),
        forall|i: int|
            0 <= i < args.len() && is_flag(#[trigger] args[i]) ==> flags_of(args).contains(args[i]),
        flags_of(args).len() <= args.len(),
{
    let pred = |arg: Seq<char>| is_flag(arg);
    assert forall|i: int| 0 <= i < flags_of(args).len() implies is_flag(
        #[trigger] flags_of(args)[i],
    ) && args.contains(flags_of(args)[i]) by {
        args.lemma_filter_pred(pred, i);
        args.lemma_filter_contains_rev(pred, flags_of(args)[i]);
    }
    assert forall|i: int| 0 <= i < args.len() && is_flag(#[trigger] args[i]) implies flags_of(
        args,
    ).contains(args[i]) by {
        args.lemma_filter_contains(pred, i);
    }
    args.lemma_filter_len(pred);
}

/// The flags of two lists of arguments, one behind the other, are the flags
/// of the first followed by the flags of the second: flags keep the order
/// of the arguments.
pub proof fn law_flags_keep_order(front: Seq<Seq<char>>, back: Seq<Seq<char>>)
    ensures
        flags_of(front + back) == flags_of(front) + flags_of(back),
{
    Seq::filter_distributes_over_add(front, back, |arg: Seq<char>| is_flag(arg));
}

/// Whether `arg` is a flag.
pub fn is_flag_arg(arg: &str) -> (flag: bool)
    ensures
        flag == is_flag(arg@),
{
    let mut rest = arg.chars();
    assert(arg@.skip(0) =~= arg@);
    match rest.next() {
        Some('-') => {},
        _ => {
            return false;
        },
    }
    assert(arg@.skip(0).drop_first() =~= arg@.skip(1));
    match rest.next() {
        Some('-') => {},
        _ => {
            return false;
        },
    }
    assert(arg@.skip(1).drop_first() =~= arg@.skip(2));
    let ghost mut seen: int = 2;
    loop
        invariant
            2 <= seen <= arg@.len(),
            arg@[0] == '-',
            arg@[1] == '-',
            rest.remaining() == arg@.skip(seen),
            forall|i: int| 0 <= i < seen ==> arg@[i] != ':',
        decreases arg@.len() - seen,
    {
        match rest.next() {
            Some(c) => {
                if c == ':' {
                    assert(arg@.contains(arg@[seen]));
                    return false;
                }
                proof {
                    assert(arg@.skip(seen).drop_first() =~= arg@.skip(seen + 1));
                    seen = seen + 1;
                }
            },
            None => {
                return true;
            },
        }
    }
}

/// The flags that a program was run with: those of its arguments that begin
/// with `--` and hold no `:`, in the order in which they were given.
pub struct FlagConfig(Vec<String>);

impl View for FlagConfig {
    type V = Seq<Seq<char>>;

    closed spec fn view(&self) -> Seq<Seq<char>> {
        self.0.deep_view()
    }
}

impl FlagConfig {
    /// The flags, in the order in which they were given.
    pub fn flags(&self) -> (flags: &Vec<String>)
        ensures
            flags.deep_view() == self@,
    {
        &self.0
    }
}

impl CommandlineConfig for FlagConfig {
    /// Keeps the flags among `args` and drops the other arguments.
    fn from_env_args(args: Vec<String>) -> (config: Self)
        ensures
            config@ == flags_of(args.deep_view()),
    {
        let mut flags: Vec<String> = Vec::new();
        let ghost given = args@;
        let ghost all = args.deep_view();
        proof {
            reveal(Seq::filter);
            assert(all.take(0) =~= Seq::<Seq<char>>::empty());
            assert(flags.deep_view() =~= Seq::<Seq<char>>::empty());
        }
        for arg in rest: args
            invariant
                rest.seq() == given,
                all.len() == given.len(),
                forall|i: int| 0 <= i < given.len() ==> all[i] == given[i]@,
                flags.deep_view() == flags_of(all.take(rest.index())),
        {
            let ghost at = rest.index();
            let ghost kept = flags.deep_view();
            proof {
                reveal(Seq::filter);
                assert(all.take(at + 1).drop_last() =~= all.take(at));
                assert(all.take(at + 1).last() == arg@);
            }
            if is_flag_arg(arg.as_str()) {
                flags.push(arg);
                assert(flags.deep_view() =~= kept.push(arg@));
            }
        }
        assert(all.take(given.len() as int) =~= all);
        FlagConfig(flags)
    }
}

} // verus!
