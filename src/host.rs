//! Reading Windows environment variables through `cmd.exe /C echo %NAME%`,
//! and choosing the temp directory from them.
use vstd::prelude::*;
use vstd::string::*;
use crate::error::BridgeError;
use crate::text::{opt_view, trim_end_white, trim_end_whitespace};

verus! {

/// The name as `cmd.exe` writes a variable reference: `%name%`.
pub open spec fn reference_of(name: Seq<char>) -> Seq<char> {
    seq!['%'] + name + seq!['%']
}

/// The value that `echo %name%` reported in `raw`: trailing white space goes,
/// and an empty line or the unexpanded reference means the variable is unset.
pub open spec fn echo_value(name: Seq<char>, raw: Seq<char>) -> Option<Seq<char>> {
    let v = trim_end_white(raw);
    if v.len() == 0 || v == reference_of(name) {
        None
    } else {
        Some(v)
    }
}

/// The argument that makes `cmd.exe /C` print the variable `name`.
pub fn echo_argument(name: &str) -> (r: String)
    ensures
        r@ == seq!['e', 'c', 'h', 'o', ' '] + reference_of(name@),
{
    let mut out = String::from_str("echo %");
    out.append(name);
    out.append("%");
    proof {
        reveal_strlit("echo %");
        reveal_strlit("%");
        assert(out@ =~= seq!['e', 'c', 'h', 'o', ' '] + reference_of(name@));
    }
    out
}

/// The value of the variable `name` from what `echo %name%` printed.
pub fn host_var_from_echo(name: &str, raw: &str) -> (r: Option<String>)
    ensures
        r is None <==> echo_value(name@, raw@) is None,
        r matches Some(v) ==> echo_value(name@, raw@) == Some(v@),
{
    let v = trim_end_whitespace(raw);
    if v.as_str().unicode_len() == 0 {
        return None;
    }
    let mut reference = String::from_str("%");
    reference.append(name);
    reference.append("%");
    proof {
        reveal_strlit("%");
        assert(reference@ =~= reference_of(name@));
    }
    if v == reference {
        None
    } else {
        Some(v)
    }
}

/// The first of the two values that is set and not empty.
pub open spec fn temp_dir_of(primary: Option<Seq<char>>, secondary: Option<Seq<char>>) -> Option<
    Seq<char>,
> {
    match primary {
        Some(p) if p.len() > 0 => Some(p),
        _ => match secondary {
            Some(s) if s.len() > 0 => Some(s),
            _ => None,
        },
    }
}

/// The Windows temp directory from `TMP` (`primary`) and then `TEMP` (`secondary`).
pub fn resolve_temp_dir(primary: Option<String>, secondary: Option<String>) -> (r: Result<
    String,
    BridgeError,
>)
    ensures
        r is Err <==> temp_dir_of(opt_view(primary), opt_view(secondary)) is None,
        r matches Ok(d) ==> temp_dir_of(opt_view(primary), opt_view(secondary))
            == Some(d@),
        r matches Err(e) ==> e == BridgeError::HostQueryFailed,
{
    if let Some(p) = primary {
        if p.as_str().unicode_len() > 0 {
            return Ok(p);
        }
    }
    if let Some(s) = secondary {
        if s.as_str().unicode_len() > 0 {
            return Ok(s);
        }
    }
    Err(BridgeError::HostQueryFailed)
}

/// A non-empty `TMP` is taken as it is, whatever `TEMP` holds.
pub proof fn lemma_primary_wins(primary: Seq<char>, secondary: Option<Seq<char>>)
    requires
        primary.len() > 0,
    ensures
        temp_dir_of(Some(primary), secondary) == Some(primary),
{
}

} // verus!
