//! The command line: three alias identifiers and an optional `--sys` flag.
use vstd::prelude::*;

verus! {

/// The flag that selects the system-wide configuration; it may stand anywhere.
pub const SYSTEM_WIDE_FLAG: &'static str = "--sys";

/// Number of arguments that remain once the flag is taken out: the program
/// name and the three alias identifiers.
pub const EXPECTED_ARGS: usize = 4;

/// What a run was asked to do.
#[derive(Debug)]
pub struct Invocation {
    pub is_system_wide: bool,
    pub sans: String,
    pub serif: String,
    pub monospace: String,
}

/// The command line held the wrong number of arguments: `supplied` of them,
/// program name included, once the flag was taken out.
#[derive(Debug)]
pub struct ArgumentCountError {
    pub supplied: usize,
}

/// The text of each argument.
pub open spec fn texts(args: Seq<String>) -> Seq<Seq<char>> {
    args.map_values(|a: String| a@)
}

/// An argument other than the flag.
pub open spec fn is_positional(a: Seq<char>) -> bool {
    a != SYSTEM_WIDE_FLAG@
}

/// The arguments other than the flag, in their order.
pub open spec fn positional(args: Seq<Seq<char>>) -> Seq<Seq<char>> {
    args.filter(|a: Seq<char>| is_positional(a))
}

/// Reads the command line `args`, program name first. It asks for the
/// system-wide configuration where the flag stands anywhere in it; the
/// other arguments must be the program name and three alias identifiers,
/// for sans, serif and monospace in that order.
pub fn parse_args(args: &Vec<String>) -> (r: Result<Invocation, ArgumentCountError>)
    ensures
        r is Ok <==> positional(texts(args@)).len() == EXPECTED_ARGS,
        r matches Ok(inv) ==> {
            &&& inv.is_system_wide == texts(args@).contains(SYSTEM_WIDE_FLAG@)
            &&& inv.sans@ == positional(texts(args@))[1]
            &&& inv.serif@ == positional(texts(args@))[2]
            &&& inv.monospace@ == positional(texts(args@))[3]
        },
        r matches Err(e) ==> e.supplied == positional(texts(args@)).len(),
{
    let flag = String::from_str(SYSTEM_WIDE_FLAG);
    let ghost all = texts(args@);
    let mut kept: Vec<String> = Vec::new();
    let mut is_system_wide = false;
    let mut i: usize = 0;
    while i < args.len()
        invariant
            i <= args.len(),
            all == texts(args@),
            flag@ == SYSTEM_WIDE_FLAG@,
            texts(kept@) == positional(all.subrange(0, i as int)),
            is_system_wide == all.subrange(0, i as int).contains(SYSTEM_WIDE_FLAG@),
        decreases args.len() - i,
    {
        let ghost before = all.subrange(0, i as int);
        let ghost after = all.subrange(0, i + 1);
        assert(after.drop_last() =~= before);
        assert(after.last() == args@[i as int]@);
        proof {
            reveal(Seq::filter);
        }
        if args[i] == flag {
            is_system_wide = true;
            assert(after.contains(SYSTEM_WIDE_FLAG@)) by {
                assert(after[i as int] == SYSTEM_WIDE_FLAG@);
            }
        } else {
            let ghost old_kept = kept@;
            kept.push(args[i].clone());
            assert(texts(kept@) =~= texts(old_kept).push(after.last()));
            assert(after.contains(SYSTEM_WIDE_FLAG@) == before.contains(SYSTEM_WIDE_FLAG@)) by {
                if after.contains(SYSTEM_WIDE_FLAG@) {
                    let k = choose|k: int| 0 <= k < after.len() && after[k] == SYSTEM_WIDE_FLAG@;
                    assert(before[k] == SYSTEM_WIDE_FLAG@);
                }
                if before.contains(SYSTEM_WIDE_FLAG@) {
                    let k = choose|k: int| 0 <= k < before.len() && before[k] == SYSTEM_WIDE_FLAG@;
                    assert(after[k] == SYSTEM_WIDE_FLAG@);
                }
            }
        }
        i = i + 1;
    }
    assert(all.subrange(0, args.len() as int) =~= all);
    if kept.len() != EXPECTED_ARGS {
        return Err(ArgumentCountError { supplied: kept.len() });
    }
    Ok(
        Invocation {
            is_system_wide,
            sans: kept[1].clone(),
            serif: kept[2].clone(),
            monospace: kept[3].clone(),
        },
    )
}

} // verus!
