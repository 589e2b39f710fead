//! Small helpers and the data structures behind subsystem lifetimes.
use vstd::prelude::*;
use vstd::string::StrSliceExecFns;

pub mod joiner_token;
pub mod remote_drop_collection;

verus! {

/// Appends `text` to `s`.
pub(crate) fn push_str(s: &mut String, text: &str)
    ensures
        final(s)@ == old(s)@ + text@,
{
    s.append(text);
}

/// The full name of subsystem `name` below the subsystem `parent_name`:
/// the non-empty parts joined by `/`.
pub open spec fn spec_subsystem_name(parent_name: Seq<char>, name: Seq<char>) -> Seq<char> {
    if name.len() == 0 {
        parent_name
    } else if parent_name.len() == 0 {
        name
    } else {
        parent_name + "/"@ + name
    }
}

/// Joins a parent subsystem name and a child name with a `/`,
/// leaving out empty parts.
pub fn get_subsystem_name(parent_name: &str, name: &str) -> (full: String)
    ensures
        full@ == spec_subsystem_name(parent_name@, name@),
{
    proof {
        reveal_strlit("/");
    }
    if name.unicode_len() == 0 {
        parent_name.to_string()
    } else if parent_name.unicode_len() == 0 {
        name.to_string()
    } else {
        let mut full = parent_name.to_string();
        push_str(&mut full, "/");
        push_str(&mut full, name);
        full
    }
}

/// The absolute name of a nested subsystem: children of the toplevel
/// subsystem `/` are named `/name`, all others `parent/name`.
pub open spec fn spec_nested_name(parent_name: Seq<char>, name: Seq<char>) -> Seq<char> {
    if parent_name == "/"@ {
        "/"@ + name
    } else {
        parent_name + "/"@ + name
    }
}

/// Computes the absolute name of a nested subsystem.
pub fn nested_subsystem_name(parent_name: &str, name: &str) -> (full: String)
    ensures
        full@ == spec_nested_name(parent_name@, name@),
{
    proof {
        reveal_strlit("/");
    }
    if parent_name.unicode_len() == 1 && parent_name.get_char(0) == '/' {
        assert(parent_name@ =~= "/"@);
        let mut full = "/".to_string();
        push_str(&mut full, name);
        full
    } else {
        let mut full = parent_name.to_string();
        push_str(&mut full, "/");
        push_str(&mut full, name);
        full
    }
}

/// The decimal digit character of `d`.
pub open spec fn digit_char(d: nat) -> char {
    if d == 0 { '0' } else if d == 1 { '1' } else if d == 2 { '2' } else if d == 3 { '3' }
    else if d == 4 { '4' } else if d == 5 { '5' } else if d == 6 { '6' } else if d == 7 { '7' }
    else if d == 8 { '8' } else { '9' }
}

/// The decimal notation of `n`, without leading zeros.
pub open spec fn decimal(n: nat) -> Seq<char>
    decreases n,
{
    if n < 10 {
        seq![digit_char(n)]
    } else {
        decimal(n / 10) + seq![digit_char(n % 10)]
    }
}

/// The one-character text of a decimal digit.
fn digit_text(d: usize) -> (text: &'static str)
    requires
        d < 10,
    ensures
        text@ == seq![digit_char(d as nat)],
{
    proof {
        reveal_strlit("0");
        reveal_strlit("1");
        reveal_strlit("2");
        reveal_strlit("3");
        reveal_strlit("4");
        reveal_strlit("5");
        reveal_strlit("6");
        reveal_strlit("7");
        reveal_strlit("8");
        reveal_strlit("9");
    }
    if d == 0 { "0" } else if d == 1 { "1" } else if d == 2 { "2" } else if d == 3 { "3" }
    else if d == 4 { "4" } else if d == 5 { "5" } else if d == 6 { "6" } else if d == 7 { "7" }
    else if d == 8 { "8" } else { "9" }
}

/// Writes `n` in decimal notation.
pub fn decimal_string(n: usize) -> (text: String)
    ensures
        text@ == decimal(n as nat),
    decreases n,
{
    if n < 10 {
        let digit = digit_text(n);
        let text = digit.to_string();
        text
    } else {
        let mut text = decimal_string(n / 10);
        let digit = digit_text(n % 10);
        push_str(&mut text, digit);
        text
    }
}

/// Writes a boolean as `true` or `false`.
pub fn bool_string(b: bool) -> (text: &'static str)
    ensures
        text@ == if b { "true"@ } else { "false"@ },
{
    if b { "true" } else { "false" }
}

} // verus!
