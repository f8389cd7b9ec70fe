//! Linux paths inside a WSL distribution as Windows sees them.
use vstd::prelude::*;
use vstd::string::*;
use crate::error::BridgeError;

verus! {

/// The separator of Windows paths in place of each `/`.
pub open spec fn backslashed(c: char) -> char {
    if c == '/' {
        '\\'
    } else {
        c
    }
}

/// The share under which Windows reaches the files of a distribution: `\\wsl$\`.
pub open spec fn share_prefix() -> Seq<char> {
    seq!['\\', '\\', 'w', 's', 'l', '$', '\\']
}

/// `path` inside distribution `distro`, as a Windows UNC path.
pub open spec fn unc_path_of(distro: Seq<char>, path: Seq<char>) -> Seq<char> {
    share_prefix() + distro + path.map_values(|c: char| backslashed(c))
}

/// The Windows path of the absolute Linux path `cwd` in distribution `distro`
/// (`WSL_DISTRO_NAME`); without a distribution name there is none.
pub fn translate_path(distro: Option<&str>, cwd: &str) -> (r: Result<String, BridgeError>)
    ensures
        r is Err <==> (distro is None || distro->Some_0@.len() == 0),
        r matches Ok(p) ==> p@ == unc_path_of(distro->Some_0@, cwd@),
        r matches Err(e) ==> e == BridgeError::EnvironmentNotDetected,
{
    let name = match distro {
        Some(d) => d,
        None => return Err(BridgeError::EnvironmentNotDetected),
    };
    if name.unicode_len() == 0 {
        return Err(BridgeError::EnvironmentNotDetected);
    }
    let mut out = String::from_str("\\\\wsl$\\");
    proof {
        reveal_strlit("\\\\wsl$\\");
    }
    out.append(name);
    let n: usize = cwd.unicode_len();
    let mut i: usize = 0;
    assert(cwd@.subrange(0, 0).map_values(|c: char| backslashed(c)) =~= Seq::<char>::empty());
    assert(out@ =~= share_prefix() + name@ + cwd@.subrange(0, 0).map_values(|c: char| backslashed(c)));
    while i < n
        invariant
            i <= n,
            n == cwd@.len(),
            out@ == share_prefix() + name@ + cwd@.subrange(0, i as int).map_values(
                |c: char| backslashed(c),
            ),
        decreases n - i,
    {
        let ghost before = out@;
        let c = cwd.get_char(i);
        if c == '/' {
            out.append("\\");
            proof {
                reveal_strlit("\\");
            }
        } else {
            out.append(cwd.substring_char(i, i + 1));
            assert(cwd@.subrange(i as int, i + 1) =~= seq![c]);
        }
        assert(cwd@.subrange(0, i + 1).map_values(|c: char| backslashed(c)) =~= cwd@.subrange(
            0,
            i as int,
        ).map_values(|c: char| backslashed(c)).push(backslashed(c)));
        assert(out@ =~= before.push(backslashed(c)));
        i = i + 1;
    }
    assert(cwd@.subrange(0, n as int) =~= cwd@);
    Ok(out)
}

} // verus!
