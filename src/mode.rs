use vstd::prelude::*;
use vstd::string::StrSliceExecFns;
use crate::error::Error;

verus! {

/// The two halves of the protocol.
#[derive(Clone, Copy, Debug, PartialEq, Eq, Structural)]
pub enum Role {
    /// Sends the probes and collects acknowledgments.
    Broadcaster,
    /// Receives the probes and acknowledges each one.
    Receiver,
}

/// What `str::to_uppercase` makes of a sequence of characters.
pub uninterp spec fn upper_of(s: Seq<char>) -> Seq<char>;

/// Relies on `str::to_uppercase`: the result depends on the characters alone.
#[verifier::external_body]
fn uppercase(s: &str) -> (r: String)
    ensures
        r@ == upper_of(s@),
{
    s.to_uppercase()
}

/// `s` without its trailing run of line-feed and carriage-return characters.
pub open spec fn trim_line_end_spec(s: Seq<char>) -> Seq<char>
    decreases s.len(),
{
    if s.len() > 0 && (s.last() == '\n' || s.last() == '\r') {
        trim_line_end_spec(s.drop_last())
    } else {
        s
    }
}

/// The role that a command-line flag names.
pub open spec fn flag_role(arg: Seq<char>) -> Result<Role, Error> {
    if arg == "--sender"@ {
        Ok(Role::Broadcaster)
    } else if arg == "--receiver"@ {
        Ok(Role::Receiver)
    } else {
        Err(Error::BadArguments)
    }
}

/// The role that an upper-cased prompt answer names.
pub open spec fn choice_role(upper: Seq<char>) -> Option<Role> {
    if upper == seq!['S'] {
        Some(Role::Broadcaster)
    } else if upper == seq!['R'] {
        Some(Role::Receiver)
    } else {
        None
    }
}

/// `s` with the line ending that a line read from the operator carries removed.
pub fn trim_line_end(s: &str) -> (r: &str)
    ensures
        r@ == trim_line_end_spec(s@),
{
    let n = s.unicode_len();
    let mut end: usize = n;
    assert(s@.subrange(0, n as int) =~= s@);
    while end > 0 && (s.get_char(end - 1) == '\n' || s.get_char(end - 1) == '\r')
        invariant
            n == s@.len(),
            end <= n,
            trim_line_end_spec(s@) == trim_line_end_spec(s@.subrange(0, end as int)),
        decreases end,
    {
        assert(s@.subrange(0, end as int).drop_last() =~= s@.subrange(0, end - 1));
        end = end - 1;
    }
    let r = s.substring_char(0, end);
    assert(end > 0 ==> r@.last() == s@[end - 1]);
    r
}

/// Whether `a` and `b` hold the same characters.
fn same_text(a: &str, b: &str) -> (r: bool)
    ensures
        r == (a@ == b@),
{
    let n = a.unicode_len();
    if n != b.unicode_len() {
        return false;
    }
    let mut i: usize = 0;
    while i < n
        invariant
            n == a@.len(),
            n == b@.len(),
            i <= n,
            a@.subrange(0, i as int) == b@.subrange(0, i as int),
        decreases n - i,
    {
        if a.get_char(i) != b.get_char(i) {
            assert(a@[i as int] != b@[i as int]);
            return false;
        }
        assert(a@.subrange(0, i + 1) =~= a@.subrange(0, i as int).push(a@[i as int]));
        assert(b@.subrange(0, i + 1) =~= b@.subrange(0, i as int).push(b@[i as int]));
        i = i + 1;
    }
    assert(a@ =~= a@.subrange(0, n as int));
    assert(b@ =~= b@.subrange(0, n as int));
    true
}

/// The role named by a command-line flag: `--sender` or `--receiver`; any
/// other text is `BadArguments`.
pub fn role_from_flag(arg: &str) -> (r: Result<Role, Error>)
    ensures
        r == flag_role(arg@),
{
    if same_text(arg, "--sender") {
        Ok(Role::Broadcaster)
    } else if same_text(arg, "--receiver") {
        Ok(Role::Receiver)
    } else {
        Err(Error::BadArguments)
    }
}

/// The role named by an upper-cased prompt answer: `S` or `R`.
pub fn role_from_upper(upper: &str) -> (r: Option<Role>)
    ensures
        r == choice_role(upper@),
{
    if upper.unicode_len() != 1 {
        assert(upper@ != seq!['S'] && upper@ != seq!['R']);
        None
    } else {
        let c = upper.get_char(0);
        if c == 'S' {
            assert(upper@ =~= seq!['S']);
            Some(Role::Broadcaster)
        } else if c == 'R' {
            assert(upper@ =~= seq!['R']);
            Some(Role::Receiver)
        } else {
            assert(upper@ != seq!['S'] && upper@ != seq!['R']);
            None
        }
    }
}

/// The role named by a line the operator typed at the mode prompt, in either
/// case; `None` when it names none and the prompt is to be repeated.
pub fn role_from_choice(line: &str) -> (r: Option<Role>)
    ensures
        r == choice_role(upper_of(trim_line_end_spec(line@))),
{
    let upper = uppercase(trim_line_end(line));
    role_from_upper(upper.as_str())
}

/// The role asked for on the command line, whose first argument (after the
/// program name) is the mode flag. `None` when no argument is given, and the
/// operator is to be asked instead.
pub fn requested_role(args: &Vec<String>) -> (r: Option<Result<Role, Error>>)
    ensures
        args@.len() < 2 ==> r.is_none(),
        args@.len() >= 2 ==> r == Some(flag_role(args@[1]@)),
{
    if args.len() < 2 {
        None
    } else {
        Some(role_from_flag(args[1].as_str()))
    }
}

} // verus!
