//! Span naming for the orchestrated subcommands.
//!
//! The orchestrator names the span it records for a supervised command,
//! a reported step or a reported build; an explicit name wins, otherwise
//! the command span falls back to the command line itself.

use vstd::prelude::*;
use vstd::string::StringExecFns;

verus! {

pub open spec fn opt_text(o: Option<String>) -> Option<Seq<char>> {
    match o {
        Some(s) => Some(s@),
        None => None,
    }
}

/// The command's arguments joined with single spaces.
pub open spec fn spec_joined_args(args: Seq<Seq<char>>) -> Seq<char>
    decreases args.len(),
{
    if args.len() == 0 {
        Seq::empty()
    } else if args.len() == 1 {
        args[0]
    } else {
        spec_joined_args(args.drop_last()) + seq![' '] + args.last()
    }
}

/// The fallback name of a command span: the command, a space, and the
/// joined arguments.
pub open spec fn spec_default_command_name(cmd: Seq<char>, args: Seq<Seq<char>>) -> Seq<char> {
    cmd + seq![' '] + spec_joined_args(args)
}

pub open spec fn spec_command_span_name(
    name: Option<Seq<char>>,
    cmd: Seq<char>,
    args: Seq<Seq<char>>,
) -> Seq<char> {
    "cmd - "@ + (match name {
        Some(n) => n,
        None => spec_default_command_name(cmd, args),
    })
}

pub open spec fn spec_step_span_name(name: Option<Seq<char>>) -> Seq<char> {
    match name {
        Some(n) => "step - "@ + n,
        None => "step"@,
    }
}

pub open spec fn spec_build_span_name(name: Option<Seq<char>>) -> Seq<char> {
    match name {
        Some(n) => "build - "@ + n,
        None => "build"@,
    }
}

fn join_args(args: &Vec<String>) -> (r: String)
    ensures
        r@ == spec_joined_args(args.deep_view()),
{
    let ghost dv = args.deep_view();
    let mut out = String::new();
    let mut i: usize = 0;
    proof {
        assert(dv.take(0) =~= Seq::<Seq<char>>::empty());
    }
    while i < args.len()
        invariant
            i <= args@.len(),
            dv == args.deep_view(),
            dv.len() == args@.len(),
            out@ == spec_joined_args(dv.take(i as int)),
        decreases args@.len() - i,
    {
        if i > 0 {
            out.append(" ");
        }
        out.append(args[i].as_str());
        proof {
            reveal_strlit(" ");
            assert(dv[i as int] == args@[i as int]@);
            if i == 0 {
                assert(dv.take(1)[0] == dv[0]);
                assert(out@ =~= spec_joined_args(dv.take(1)));
            } else {
                assert(dv.take(i as int + 1).drop_last() =~= dv.take(i as int));
                assert(dv.take(i as int + 1).last() == dv[i as int]);
                assert(out@ =~= spec_joined_args(dv.take(i as int + 1)));
            }
        }
        i += 1;
    }
    proof {
        assert(dv.take(args@.len() as int) =~= dv);
    }
    out
}

/// The name of the span recorded for a supervised command: the explicit
/// name when one is given, else the command line, behind `cmd - `.
pub fn command_span_name(name: &Option<String>, cmd: &str, args: &Vec<String>) -> (r: String)
    ensures
        r@ == spec_command_span_name(opt_text(*name), cmd@, args.deep_view()),
{
    let mut out = String::from_str("cmd - ");
    match name {
        Some(n) => out.append(n.as_str()),
        None => {
            out.append(cmd);
            out.append(" ");
            let joined = join_args(args);
            out.append(joined.as_str());
            proof {
                reveal_strlit(" ");
                assert(cmd@ + " "@ + spec_joined_args(args.deep_view())
                    =~= spec_default_command_name(cmd@, args.deep_view()));
            }
        },
    }
    out
}

/// The name of the span recorded for a reported step.
pub fn step_span_name(name: &Option<String>) -> (r: String)
    ensures
        r@ == spec_step_span_name(opt_text(*name)),
{
    match name {
        Some(n) => {
            let mut out = String::from_str("step - ");
            out.append(n.as_str());
            out
        },
        None => String::from_str("step"),
    }
}

/// The name of the span recorded for a reported build.
pub fn build_span_name(name: &Option<String>) -> (r: String)
    ensures
        r@ == spec_build_span_name(opt_text(*name)),
{
    match name {
        Some(n) => {
            let mut out = String::from_str("build - ");
            out.append(n.as_str());
            out
        },
        None => String::from_str("build"),
    }
}

} // verus!
