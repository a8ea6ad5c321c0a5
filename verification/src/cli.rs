//! Command-line decisions: decimal parsing of the size limit and the
//! argument scan. Printing, prompting and environment access stay outside
//! the engine and draw every decision from here.
use vstd::prelude::*;

verus! {

use vstd::arithmetic::div_mod::{lemma_div_multiples_vanish, lemma_fundamental_div_mod};
use crate::strutil::str_eq;

pub open spec fn is_ascii_digit(c: char) -> bool {
    48 <= c as int <= 57
}

pub open spec fn digit_value(c: char) -> int {
    c as int - 48
}

pub open spec fn all_digits(s: Seq<char>) -> bool {
    forall|i: int| 0 <= i < s.len() ==> is_ascii_digit(#[trigger] s[i])
}

/// The numeric value of a digit string, most significant digit first.
pub open spec fn digits_value(s: Seq<char>) -> int
    decreases s.len(),
{
    if s.len() == 0 {
        0
    } else {
        digits_value(s.drop_last()) * 10 + digit_value(s.last())
    }
}

proof fn lemma_digits_value_nonneg(s: Seq<char>)
    requires
        all_digits(s),
    ensures
        digits_value(s) >= 0,
    decreases s.len(),
{
    if s.len() > 0 {
        assert(all_digits(s.drop_last()));
        lemma_digits_value_nonneg(s.drop_last());
    }
}

/// A digit string's value never falls below any of its prefixes' values.
proof fn lemma_digits_value_prefix_le(s: Seq<char>, i: int)
    requires
        all_digits(s),
        0 <= i <= s.len(),
    ensures
        digits_value(s.take(i)) <= digits_value(s),
    decreases s.len() - i,
{
    if i == s.len() {
        assert(s.take(i) =~= s);
    } else {
        lemma_digits_value_prefix_le(s, i + 1);
        assert(s.take(i + 1).drop_last() =~= s.take(i));
        assert(all_digits(s.take(i)));
        lemma_digits_value_nonneg(s.take(i));
        assert(digits_value(s.take(i + 1)) == digits_value(s.take(i)) * 10 + digit_value(
            s.take(i + 1).last(),
        ));
        assert(is_ascii_digit(s[i]));
    }
}

/// What parsing a decimal string as an unsigned 64-bit count yields: an
/// optional leading plus sign, then at least one digit, with the value in
/// range; anything else is rejected.
pub open spec fn spec_parse_u64(s: Seq<char>) -> Option<u64> {
    let body = if s.len() > 0 && s[0] == '+' {
        s.subrange(1, s.len() as int)
    } else {
        s
    };
    if body.len() == 0 || !all_digits(body) || digits_value(body) > u64::MAX {
        None
    } else {
        Some(digits_value(body) as u64)
    }
}

proof fn lemma_div_mul_le(a: int, b: int)
    requires
        a >= 0,
        b >= 0,
    ensures
        a <= b / 10 <==> 10 * a <= b,
{
    lemma_fundamental_div_mod(b, 10);
    if 10 * a <= b {
        lemma_div_multiples_vanish(a, 10);
        vstd::arithmetic::div_mod::lemma_div_is_ordered(10 * a, b, 10);
    }
}

/// Parses a decimal count, per [`spec_parse_u64`].
pub fn parse_u64(s: &str) -> (r: Option<u64>)
    ensures
        r == spec_parse_u64(s@),
{
    let n = s.unicode_len();
    let mut start: usize = 0;
    if n > 0 && s.get_char(0) == '+' {
        start = 1;
    }
    if start == n {
        return None;
    }
    let ghost body = s@.subrange(start as int, n as int);
    proof {
        if start == 0 {
            assert(body =~= s@);
        }
    }
    let mut value: u64 = 0;
    let mut i: usize = start;
    while i < n
        invariant
            start <= i <= n,
            n == s@.len(),
            start < n,
            start == 0 || (start == 1 && s@[0] == '+'),
            start == 0 ==> s@[0] != '+',
            body == s@.subrange(start as int, n as int),
            start == 0 ==> body == s@,
            all_digits(body.take(i - start)),
            value == digits_value(body.take(i - start)),
        decreases n - i,
    {
        let c = s.get_char(i);
        let code = c as u32;
        if code < 48 || code > 57 {
            proof {
                assert(body[i - start] == s@[i as int]);
                assert(c as int == code as int);
                assert(!is_ascii_digit(body[i - start]));
                assert(!all_digits(body));
            }
            return None;
        }
        let d = (code - 48) as u64;
        proof {
            assert(body.take(i - start + 1).drop_last() =~= body.take(i - start));
            assert(body.take(i - start + 1).last() == s@[i as int]);
            lemma_div_mul_le(value as int, u64::MAX - d);
        }
        if value > (u64::MAX - d) / 10 {
            // Too many digits for a 64-bit count: the value of the full digit
            // string can only be larger still.
            proof {
                assert(digits_value(body.take(i - start + 1)) > u64::MAX);
                if all_digits(body) {
                    lemma_digits_value_prefix_le(body, i - start + 1);
                }
            }
            return None;
        }
        value = value * 10 + d;
        i = i + 1;
    }
    proof {
        assert(body.take(n - start) =~= body);
    }
    Some(value)
}

/// A command-line flag that forces overwriting without confirmation.
pub open spec fn is_force_flag(a: Seq<char>) -> bool {
    a == "--force"@ || a == "-f"@
}

/// What the CLI decides to do with its arguments.
#[derive(Debug)]
pub enum CliCommand {
    /// Too few arguments: show the usage text.
    ShowUsage,
    /// A third positional argument was given.
    UnexpectedArg(String),
    /// The size limit is not a decimal count.
    InvalidLimit(String),
    /// Diagnose the target, to `limit_mb` megabytes (0: unbounded).
    Run { file_path: String, limit_mb: u64, force: bool },
}

/// The scan over the arguments after the target path: flags set `force`, the
/// first other argument is the size limit, a second one stops the scan.
pub open spec fn scan_extras(
    extras: Seq<Seq<char>>,
    limit: Option<Seq<char>>,
    force: bool,
) -> (Option<Seq<char>>, bool, Option<Seq<char>>)
    decreases extras.len(),
{
    if extras.len() == 0 {
        (limit, force, None)
    } else {
        let a = extras[0];
        let rest = extras.skip(1);
        if is_force_flag(a) {
            scan_extras(rest, limit, true)
        } else if limit is None {
            scan_extras(rest, Some(a), force)
        } else {
            (limit, force, Some(a))
        }
    }
}

/// What the CLI decides for a full argument vector (program name first).
pub open spec fn spec_parse_cli(args: Seq<Seq<char>>) -> (Option<Seq<char>>, bool, Option<
    Seq<char>,
>)
    recommends
        args.len() >= 2,
{
    scan_extras(args.skip(2), None, false)
}

/// The views of an argument vector.
pub open spec fn arg_views(args: Seq<String>) -> Seq<Seq<char>> {
    args.map_values(|a: String| a@)
}

/// Decides what the CLI should do for the given arguments: fewer than two
/// arguments show the usage; flags after the target set `force`; one further
/// argument is the size limit (rejected when it is not a decimal count); any
/// more are rejected.
pub fn parse_cli_args(args: &Vec<String>) -> (r: CliCommand)
    ensures
        args@.len() < 2 <==> r is ShowUsage,
        args@.len() >= 2 ==> {
            let (limit, force, unexpected) = spec_parse_cli(arg_views(args@));
            match r {
                CliCommand::ShowUsage => false,
                CliCommand::UnexpectedArg(u) => (unexpected matches Some(t) && u@ == t),
                CliCommand::InvalidLimit(l) => unexpected is None && (limit matches Some(t) && l@
                    == t && spec_parse_u64(t) is None),
                CliCommand::Run { file_path, limit_mb, force: f } => {
                    &&& unexpected is None
                    &&& file_path@ == arg_views(args@)[1]
                    &&& f == force
                    &&& match limit {
                        None => limit_mb == 0,
                        Some(t) => spec_parse_u64(t) == Some(limit_mb),
                    }
                },
            }
        },
{
    let n = args.len();
    if n < 2 {
        return CliCommand::ShowUsage;
    }
    let ghost extras = arg_views(args@).skip(2);
    proof {
        assert(extras.skip(0) =~= extras);
    }
    let mut limit_arg: Option<&String> = None;
    let mut force = false;
    let mut i: usize = 2;
    while i < n
        invariant
            2 <= i <= n,
            n == args@.len(),
            extras == arg_views(args@).skip(2),
            scan_extras(extras, None, false) == scan_extras(
                extras.skip(i - 2),
                match limit_arg {
                    None => None::<Seq<char>>,
                    Some(l) => Some(l@),
                },
                force,
            ),
            limit_arg matches Some(l) ==> exists|j: int| 0 <= j < args@.len() && args@[j] == l,
        decreases n - i,
    {
        let arg = args.get(i).unwrap();
        proof {
            assert(extras.skip(i - 2)[0] == arg_views(args@)[i as int]);
            assert(extras.skip(i - 2).skip(1) =~= extras.skip(i - 1));
        }
        if str_eq(arg.as_str(), "--force") || str_eq(arg.as_str(), "-f") {
            force = true;
        } else if limit_arg.is_none() {
            limit_arg = Some(arg);
        } else {
            return CliCommand::UnexpectedArg(arg.clone());
        }
        i = i + 1;
    }
    proof {
        assert(extras.skip(n - 2) =~= Seq::<Seq<char>>::empty());
    }
    let limit_mb: u64 = match limit_arg {
        Some(value) => {
            match parse_u64(value.as_str()) {
                Some(parsed) => parsed,
                None => {
                    return CliCommand::InvalidLimit(value.clone());
                },
            }
        },
        None => 0,
    };
    CliCommand::Run { file_path: args.get(1).unwrap().clone(), limit_mb, force }
}

} // verus!
