//! The variables set on the Windows process, and the `WSLENV` list that
//! carries them across the WSL boundary.
use vstd::prelude::*;
use vstd::string::*;

verus! {

/// The list of variables that WSL passes on to Windows processes.
pub const PROPAGATION_VAR: &'static str = "WSLENV";

/// The variable that holds cargo's build-cache directory.
pub const TARGET_DIR_VAR: &'static str = "CARGO_TARGET_DIR";

/// The variable that selects rustup's toolchain.
pub const TOOLCHAIN_VAR: &'static str = "RUSTUP_TOOLCHAIN";

/// The entry `:<name>/w` of `WSLENV`: pass `name` on to Windows processes.
pub open spec fn entry_of(name: Seq<char>) -> Seq<char> {
    seq![':'] + name + seq!['/', 'w']
}

/// `existing` with the cache-directory entry and, where a toolchain is set,
/// the toolchain entry appended.
pub open spec fn propagation_of(existing: Seq<char>, with_toolchain: bool) -> Seq<char> {
    existing + entry_of(TARGET_DIR_VAR@) + if with_toolchain {
        entry_of(TOOLCHAIN_VAR@)
    } else {
        Seq::empty()
    }
}

/// The variables of the Windows process, in order: `WSLENV`, the cache
/// directory, and the toolchain where there is one.
pub open spec fn bridge_vars_of(
    existing: Seq<char>,
    target_dir: Seq<char>,
    toolchain: Option<Seq<char>>,
) -> Seq<(Seq<char>, Seq<char>)> {
    seq![
        (PROPAGATION_VAR@, propagation_of(existing, toolchain is Some)),
        (TARGET_DIR_VAR@, target_dir),
    ] + match toolchain {
        Some(t) => seq![(TOOLCHAIN_VAR@, t)],
        None => Seq::empty(),
    }
}

/// The characters of each name and value.
pub open spec fn vars_view(vars: Seq<(String, String)>) -> Seq<(Seq<char>, Seq<char>)> {
    vars.map_values(|p: (String, String)| (p.0@, p.1@))
}

/// Whether `list` holds `entry` somewhere.
pub open spec fn contains_run(list: Seq<char>, entry: Seq<char>) -> bool {
    exists|i: int| 0 <= i && i + entry.len() <= list.len() && #[trigger] list.subrange(i, i + entry.len()) == entry
}

/// Appends the `WSLENV` entry for `name`.
fn append_entry(list: &mut String, name: &str)
    ensures
        final(list)@ == old(list)@ + entry_of(name@),
{
    list.append(":");
    list.append(name);
    list.append("/w");
    proof {
        reveal_strlit(":");
        reveal_strlit("/w");
    }
    assert(final(list)@ =~= old(list)@ + entry_of(name@));
}

/// The new value of `WSLENV`, from its current value (`None` where unset).
pub fn propagation_list(existing: Option<&str>, with_toolchain: bool) -> (r: String)
    ensures
        r@ == propagation_of(
            match existing {
                Some(e) => e@,
                None => Seq::empty(),
            },
            with_toolchain,
        ),
{
    let mut list = match existing {
        Some(e) => String::from_str(e),
        None => String::new(),
    };
    let ghost start = list@;
    append_entry(&mut list, TARGET_DIR_VAR);
    if with_toolchain {
        append_entry(&mut list, TOOLCHAIN_VAR);
    } else {
        assert(list@ =~= list@ + Seq::<char>::empty());
    }
    assert(list@ =~= propagation_of(start, with_toolchain));
    list
}

/// The variables to set on the Windows process.
pub fn bridge_environment(existing: Option<&str>, target_dir: &str, toolchain: Option<&str>) -> (r:
    Vec<(String, String)>)
    ensures
        vars_view(r@) == bridge_vars_of(
            match existing {
                Some(e) => e@,
                None => Seq::empty(),
            },
            target_dir@,
            match toolchain {
                Some(t) => Some(t@),
                None => None,
            },
        ),
{
    let mut vars: Vec<(String, String)> = Vec::new();
    vars.push(
        (String::from_str(PROPAGATION_VAR), propagation_list(existing, toolchain.is_some())),
    );
    vars.push((String::from_str(TARGET_DIR_VAR), String::from_str(target_dir)));
    if let Some(t) = toolchain {
        vars.push((String::from_str(TOOLCHAIN_VAR), String::from_str(t)));
    }
    let ghost e = match existing {
        Some(e) => e@,
        None => Seq::empty(),
    };
    let ghost tc = match toolchain {
        Some(t) => Some(t@),
        None => None,
    };
    assert(vars_view(vars@) =~= bridge_vars_of(e, target_dir@, tc));
    vars
}

/// Every variable that the Windows process depends on is also listed in
/// `WSLENV`, so that WSL carries it across.
pub proof fn lemma_every_variable_propagated(
    existing: Seq<char>,
    target_dir: Seq<char>,
    toolchain: Option<Seq<char>>,
)
    ensures
        forall|k: int|
            1 <= k < bridge_vars_of(existing, target_dir, toolchain).len() ==> contains_run(
                bridge_vars_of(existing, target_dir, toolchain)[0].1,
                entry_of(#[trigger] bridge_vars_of(existing, target_dir, toolchain)[k].0),
            ),
{
    let vars = bridge_vars_of(existing, target_dir, toolchain);
    let list = propagation_of(existing, toolchain is Some);
    let t = entry_of(TARGET_DIR_VAR@);
    let u = entry_of(TOOLCHAIN_VAR@);
    assert(vars[0].1 == list);
    assert(list.subrange(existing.len() as int, (existing.len() + t.len()) as int) =~= t);
    assert(vars[1].0 == TARGET_DIR_VAR@);
    if toolchain is Some {
        let i: int = (existing.len() + t.len()) as int;
        assert(list.subrange(i, i + u.len() as int) =~= u);
        assert(vars[2].0 == TOOLCHAIN_VAR@);
    }
}

} // verus!
