use crate::req::{decimal, push_decimal};
use vstd::prelude::*;

verus! {

/// `x` and `y` joined by `", "`, where both are present.
pub open spec fn sep_join(x: Seq<char>, y: Seq<char>) -> Seq<char> {
    if x.len() == 0 {
        y
    } else if y.len() == 0 {
        x
    } else {
        x + ", "@ + y
    }
}

/// The facts shown about a package: its dependency and dependent counts
/// where not zero, and whether it has a changelog.
pub open spec fn meta_text(n_dependencies: nat, n_dependents: nat, has_changelog: bool) -> Seq<char> {
    let deps = if n_dependencies > 0 {
        "dependencies: "@ + decimal(n_dependencies)
    } else {
        Seq::<char>::empty()
    };
    let rdeps = if n_dependents > 0 {
        "dependents: "@ + decimal(n_dependents)
    } else {
        Seq::<char>::empty()
    };
    let log = if has_changelog {
        "changelog"@
    } else {
        Seq::<char>::empty()
    };
    sep_join(sep_join(deps, rdeps), log)
}

/// `name version`, then the facts in brackets where there are any.
pub open spec fn member_prompt_text(
    name: Seq<char>,
    version: Seq<char>,
    n_dependencies: nat,
    n_dependents: nat,
    has_changelog: bool,
) -> Seq<char> {
    let meta = meta_text(n_dependencies, n_dependents, has_changelog);
    name + " "@ + version + if meta.len() == 0 {
        Seq::<char>::empty()
    } else {
        " ("@ + meta + ")"@
    }
}

proof fn lemma_decimal_nonempty(n: nat)
    ensures
        decimal(n).len() > 0,
    decreases n,
{
    if n >= 10 {
        lemma_decimal_nonempty(n / 10);
    }
}

/// The line that offers a workspace member for selection, such as
/// `core 1.2.0 (dependencies: 2, changelog)`.
pub fn member_prompt(
    name: &str,
    version: &str,
    n_dependencies: usize,
    n_dependents: usize,
    has_changelog: bool,
) -> (r: String)
    ensures
        r@ == member_prompt_text(name@, version@, n_dependencies as nat, n_dependents as nat, has_changelog),
{
    proof {
        reveal_strlit("changelog");
        lemma_decimal_nonempty(n_dependencies as nat);
        lemma_decimal_nonempty(n_dependents as nat);
    }
    let ghost meta = meta_text(n_dependencies as nat, n_dependents as nat, has_changelog);
    let mut s = String::new();
    s.append(name);
    s.append(" ");
    s.append(version);
    let needs_brackets = n_dependencies > 0 || n_dependents > 0 || has_changelog;
    if needs_brackets {
        s.append(" (");
    }
    let ghost open = s@;
    let mut first = true;
    if n_dependencies > 0 {
        s.append("dependencies: ");
        push_decimal(&mut s, n_dependencies as u64);
        first = false;
    }
    if n_dependents > 0 {
        if !first {
            s.append(", ");
        }
        s.append("dependents: ");
        push_decimal(&mut s, n_dependents as u64);
        first = false;
    }
    assert(s@ =~= open + sep_join(
        if n_dependencies > 0 { "dependencies: "@ + decimal(n_dependencies as nat) } else { Seq::<char>::empty() },
        if n_dependents > 0 { "dependents: "@ + decimal(n_dependents as nat) } else { Seq::<char>::empty() },
    ));
    if has_changelog {
        if !first {
            s.append(", ");
        }
        s.append("changelog");
    }
    assert(s@ =~= open + meta);
    if needs_brackets {
        s.append(")");
    }
    assert(s@ =~= member_prompt_text(name@, version@, n_dependencies as nat, n_dependents as nat, has_changelog));
    s
}

} // verus!
