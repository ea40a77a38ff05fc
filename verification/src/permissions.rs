use vstd::prelude::*;
use vstd::string::*;

use crate::errors::ProcessError;
use crate::strutil::{
    has_prefix, is_blank, is_blank_str, is_space, is_space_char, lemma_skip_leading_space_at,
    skip_leading_space,
};

verus! {

/// A dangerous environment key: ignoring leading white space it belongs to
/// a library-preload variable family. Such a variable lets arbitrary code
/// run in the child, so declaring "run this exact program" is not enough.
pub open spec fn is_dangerous_key(k: Seq<char>) -> bool {
    has_prefix(skip_leading_space(k), "LD_"@) || has_prefix(skip_leading_space(k), "DYLD_"@)
}

/// Does `k@`, with leading white space skipped, start with `p@`?
fn has_prefix_after_space(k: &str, start: usize, p: &str) -> (r: bool)
    requires
        start <= k@.len(),
    ensures
        r == has_prefix(k@.skip(start as int), p@),
{
    let n = k.unicode_len();
    let pn = p.unicode_len();
    if n - start < pn {
        return false;
    }
    let ghost t = k@.skip(start as int);
    let mut j: usize = 0;
    while j < pn
        invariant
            0 <= j <= pn,
            start + pn <= n,
            n == k@.len(),
            pn == p@.len(),
            t == k@.skip(start as int),
            forall|l: int| 0 <= l < j ==> k@[start + l] == p@[l],
        decreases pn - j,
    {
        if k.get_char(start + j) != p.get_char(j) {
            proof {
                if has_prefix(t, p@) {
                    assert(t.subrange(0, p@.len() as int)[j as int] == p@[j as int]);
                    assert(t[j as int] == k@[start + j]);
                }
            }
            return false;
        }
        j = j + 1;
    }
    proof {
        assert(t.subrange(0, p@.len() as int) =~= p@);
    }
    true
}

/// Decides the dangerous-key predicate for a key string.
pub fn is_dangerous_key_str(k: &str) -> (r: bool)
    ensures
        r == is_dangerous_key(k@),
{
    let n = k.unicode_len();
    let mut i: usize = 0;
    while i < n && is_space(k.get_char(i))
        invariant
            0 <= i <= n,
            n == k@.len(),
            forall|j: int| 0 <= j < i ==> is_space_char(k@[j]),
        decreases n - i,
    {
        i = i + 1;
    }
    proof {
        lemma_skip_leading_space_at(k@, i as int);
    }
    has_prefix_after_space(k, i, "LD_") || has_prefix_after_space(k, i, "DYLD_")
}

/// The value of the first declared entry with this key, if any.
pub open spec fn env_lookup(env: Seq<(String, String)>, key: Seq<char>) -> Option<Seq<char>>
    decreases env.len(),
{
    if env.len() == 0 {
        None
    } else if env[0].0@ == key {
        Some(env[0].1@)
    } else {
        env_lookup(env.drop_first(), key)
    }
}

/// Does the request override `key` with a blank value? That is the
/// caller's way of clearing a dangerous inherited variable.
pub open spec fn override_is_blank(env: Seq<(String, String)>, key: Seq<char>) -> bool {
    match env_lookup(env, key) {
        Some(v) => is_blank(v),
        None => false,
    }
}

/// The key of the first declared override that is dangerous with a
/// non-blank value.
pub open spec fn first_dangerous_declared(env: Seq<(String, String)>) -> Option<Seq<char>>
    decreases env.len(),
{
    if env.len() == 0 {
        None
    } else if is_dangerous_key(env[0].0@) && !is_blank(env[0].1@) {
        Some(env[0].0@)
    } else {
        first_dangerous_declared(env.drop_first())
    }
}

/// The key of the first inherited variable that is dangerous with a
/// non-blank value and is not overridden with a blank value.
pub open spec fn first_dangerous_inherited(
    inherited: Seq<(String, String)>,
    declared: Seq<(String, String)>,
) -> Option<Seq<char>>
    decreases inherited.len(),
{
    if inherited.len() == 0 {
        None
    } else if is_dangerous_key(inherited[0].0@) && !is_blank(inherited[0].1@) && !override_is_blank(
        declared,
        inherited[0].0@,
    ) {
        Some(inherited[0].0@)
    } else {
        first_dangerous_inherited(inherited.drop_first(), declared)
    }
}

/// The environment key, if any, that makes this spawn need the
/// unrestricted-run permission: the permission check looks through the
/// declared overrides, and, unless the environment is cleared, through
/// the inherited environment as well.
pub open spec fn denied_env_key(
    clear_env: bool,
    declared: Seq<(String, String)>,
    inherited: Seq<(String, String)>,
) -> Option<Seq<char>> {
    match first_dangerous_declared(declared) {
        Some(k) => Some(k),
        None => if !clear_env {
            first_dangerous_inherited(inherited, declared)
        } else {
            None
        },
    }
}

proof fn lemma_env_lookup_at(env: Seq<(String, String)>, key: Seq<char>, i: int)
    requires
        0 <= i <= env.len(),
        forall|j: int| 0 <= j < i ==> env[j].0@ != key,
        i < env.len() ==> env[i].0@ == key,
    ensures
        env_lookup(env, key) == (if i < env.len() {
            Some(env[i].1@)
        } else {
            None::<Seq<char>>
        }),
    decreases env.len(),
{
    if env.len() == 0 {
    } else if i == 0 {
    } else {
        assert(env[0].0@ != key);
        let t = env.drop_first();
        assert(forall|j: int| 0 <= j < i - 1 ==> t[j] == env[j + 1]);
        lemma_env_lookup_at(t, key, i - 1);
        if i < env.len() {
            assert(t[i - 1] == env[i]);
        }
    }
}

proof fn lemma_first_declared_at(env: Seq<(String, String)>, i: int)
    requires
        0 <= i <= env.len(),
        forall|j: int|
            0 <= j < i ==> !(is_dangerous_key(env[j].0@) && !is_blank(env[j].1@)),
        i < env.len() ==> is_dangerous_key(env[i].0@) && !is_blank(env[i].1@),
    ensures
        first_dangerous_declared(env) == (if i < env.len() {
            Some(env[i].0@)
        } else {
            None::<Seq<char>>
        }),
    decreases env.len(),
{
    if env.len() == 0 {
    } else if i == 0 {
    } else {
        let t = env.drop_first();
        assert(forall|j: int| 0 <= j < i - 1 ==> t[j] == env[j + 1]);
        lemma_first_declared_at(t, i - 1);
        if i < env.len() {
            assert(t[i - 1] == env[i]);
        }
    }
}

proof fn lemma_first_inherited_at(
    inherited: Seq<(String, String)>,
    declared: Seq<(String, String)>,
    i: int,
)
    requires
        0 <= i <= inherited.len(),
        forall|j: int|
            0 <= j < i ==> !(is_dangerous_key(inherited[j].0@) && !is_blank(inherited[j].1@)
                && !override_is_blank(declared, inherited[j].0@)),
        i < inherited.len() ==> is_dangerous_key(inherited[i].0@) && !is_blank(inherited[i].1@)
            && !override_is_blank(declared, inherited[i].0@),
    ensures
        first_dangerous_inherited(inherited, declared) == (if i < inherited.len() {
            Some(inherited[i].0@)
        } else {
            None::<Seq<char>>
        }),
    decreases inherited.len(),
{
    if inherited.len() == 0 {
    } else if i == 0 {
    } else {
        let t = inherited.drop_first();
        assert(forall|j: int| 0 <= j < i - 1 ==> t[j] == inherited[j + 1]);
        lemma_first_inherited_at(t, declared, i - 1);
        if i < inherited.len() {
            assert(t[i - 1] == inherited[i]);
        }
    }
}

/// Is `key` overridden with a blank value by the declared entries? Goes by
/// the first declared entry with that key.
fn override_blank(declared: &Vec<(String, String)>, key: &String) -> (r: bool)
    ensures
        r == override_is_blank(declared@, key@),
{
    let mut i: usize = 0;
    while i < declared.len()
        invariant
            0 <= i <= declared@.len(),
            forall|j: int| 0 <= j < i ==> declared@[j].0@ != key@,
        decreases declared@.len() - i,
    {
        if declared[i].0.eq(key) {
            proof {
                lemma_env_lookup_at(declared@, key@, i as int);
            }
            return is_blank_str(declared[i].1.as_str());
        }
        i = i + 1;
    }
    proof {
        lemma_env_lookup_at(declared@, key@, declared@.len() as int);
    }
    false
}

/// Scans the declared overrides, and unless the environment is cleared
/// also the inherited environment, for a dangerous variable that would
/// require the unrestricted-run permission; returns the offending key.
pub fn find_requires_allow_all_env_var(
    clear_env: bool,
    declared: &Vec<(String, String)>,
    inherited: &Vec<(String, String)>,
) -> (r: Option<String>)
    ensures
        match r {
            Some(k) => denied_env_key(clear_env, declared@, inherited@) == Some(k@),
            None => denied_env_key(clear_env, declared@, inherited@) is None,
        },
{
    let mut i: usize = 0;
    while i < declared.len()
        invariant
            0 <= i <= declared@.len(),
            forall|j: int|
                0 <= j < i ==> !(is_dangerous_key(declared@[j].0@) && !is_blank(declared@[j].1@)),
        decreases declared@.len() - i,
    {
        if is_dangerous_key_str(declared[i].0.as_str()) && !is_blank_str(declared[i].1.as_str()) {
            proof {
                lemma_first_declared_at(declared@, i as int);
            }
            return Some(declared[i].0.clone());
        }
        i = i + 1;
    }
    proof {
        lemma_first_declared_at(declared@, declared@.len() as int);
    }
    if !clear_env {
        let mut i: usize = 0;
        while i < inherited.len()
            invariant
                0 <= i <= inherited@.len(),
                !clear_env,
                first_dangerous_declared(declared@) is None,
                forall|j: int|
                    0 <= j < i ==> !(is_dangerous_key(inherited@[j].0@) && !is_blank(
                        inherited@[j].1@,
                    ) && !override_is_blank(declared@, inherited@[j].0@)),
            decreases inherited@.len() - i,
        {
            if is_dangerous_key_str(inherited[i].0.as_str()) && !is_blank_str(
                inherited[i].1.as_str(),
            ) && !override_blank(declared, &inherited[i].0) {
                proof {
                    lemma_first_inherited_at(inherited@, declared@, i as int);
                }
                return Some(inherited[i].0.clone());
            }
            i = i + 1;
        }
        proof {
            lemma_first_inherited_at(inherited@, declared@, inherited@.len() as int);
        }
    }
    None
}

/// Authorizes a spawn. Policy answers arrive as two booleans: may this
/// exact program run, and is unrestricted execution allowed. Without the
/// latter, a dangerous environment variable in the declared overrides, or
/// an uncleared and unneutralized one in the inherited environment, denies
/// the spawn with the offending key.
pub fn authorize(
    program: &String,
    program_allowed: bool,
    all_allowed: bool,
    clear_env: bool,
    declared: &Vec<(String, String)>,
    inherited: &Vec<(String, String)>,
) -> (r: Result<(), ProcessError>)
    ensures
        !program_allowed ==> (r matches Err(ProcessError::RunPermissionDenied { program: p })
            && p@ == program@),
        program_allowed && all_allowed ==> r is Ok,
        program_allowed && !all_allowed ==> (match denied_env_key(
            clear_env,
            declared@,
            inherited@,
        ) {
            Some(k) => r matches Err(ProcessError::DangerousEnvVar { key }) && key@ == k,
            None => r is Ok,
        }),
{
    if !program_allowed {
        return Err(ProcessError::RunPermissionDenied { program: program.clone() });
    }
    if !all_allowed {
        if let Some(key) = find_requires_allow_all_env_var(clear_env, declared, inherited) {
            return Err(ProcessError::DangerousEnvVar { key });
        }
    }
    Ok(())
}

/// Law: a dangerous declared override with a non-blank value escalates,
/// whatever the clear-environment flag and the inherited environment say.
pub proof fn lemma_declared_dangerous_denied(
    clear_env: bool,
    declared: Seq<(String, String)>,
    inherited: Seq<(String, String)>,
    i: int,
)
    requires
        0 <= i < declared.len(),
        is_dangerous_key(declared[i].0@),
        !is_blank(declared[i].1@),
    ensures
        denied_env_key(clear_env, declared, inherited) is Some,
{
    lemma_declared_some(declared, i);
}

proof fn lemma_declared_some(declared: Seq<(String, String)>, i: int)
    requires
        0 <= i < declared.len(),
        is_dangerous_key(declared[i].0@),
        !is_blank(declared[i].1@),
    ensures
        first_dangerous_declared(declared) is Some,
    decreases declared.len(),
{
    if is_dangerous_key(declared[0].0@) && !is_blank(declared[0].1@) {
    } else {
        let t = declared.drop_first();
        assert(t[i - 1] == declared[i]);
        lemma_declared_some(t, i - 1);
    }
}

/// Law: when every dangerous key among the declared overrides holds a
/// blank value, the overrides alone are never denied, and with a cleared
/// environment nothing is denied at all.
pub proof fn lemma_blank_declared_not_denied(
    declared: Seq<(String, String)>,
    inherited: Seq<(String, String)>,
)
    requires
        forall|i: int|
            0 <= i < declared.len() ==> (is_dangerous_key(#[trigger] declared[i].0@) ==> is_blank(
                declared[i].1@,
            )),
    ensures
        first_dangerous_declared(declared) is None,
        denied_env_key(true, declared, inherited) is None,
    decreases declared.len(),
{
    if declared.len() > 0 {
        let t = declared.drop_first();
        assert forall|j: int|
            0 <= j < t.len() implies (is_dangerous_key(#[trigger] t[j].0@) ==> is_blank(
            t[j].1@,
        )) by {
            assert(t[j] == declared[j + 1]);
        }
        lemma_blank_declared_not_denied(t, inherited);
    }
}

/// Law: an inherited dangerous variable with a non-blank value is denied
/// when the environment is not cleared and the request does not override
/// that key with a blank value.
pub proof fn lemma_inherited_dangerous_denied(
    declared: Seq<(String, String)>,
    inherited: Seq<(String, String)>,
    i: int,
)
    requires
        0 <= i < inherited.len(),
        is_dangerous_key(inherited[i].0@),
        !is_blank(inherited[i].1@),
        !override_is_blank(declared, inherited[i].0@),
    ensures
        denied_env_key(false, declared, inherited) is Some,
{
    if first_dangerous_declared(declared) is Some {
    } else {
        lemma_inherited_some(declared, inherited, i);
    }
}

proof fn lemma_inherited_some(
    declared: Seq<(String, String)>,
    inherited: Seq<(String, String)>,
    i: int,
)
    requires
        0 <= i < inherited.len(),
        is_dangerous_key(inherited[i].0@),
        !is_blank(inherited[i].1@),
        !override_is_blank(declared, inherited[i].0@),
    ensures
        first_dangerous_inherited(inherited, declared) is Some,
    decreases inherited.len(),
{
    if is_dangerous_key(inherited[0].0@) && !is_blank(inherited[0].1@) && !override_is_blank(
        declared,
        inherited[0].0@,
    ) {
    } else {
        let t = inherited.drop_first();
        assert(t[i - 1] == inherited[i]);
        lemma_inherited_some(declared, t, i - 1);
    }
}

/// Law: an inherited environment whose dangerous non-blank variables are
/// each overridden with a blank value never escalates.
pub proof fn lemma_blank_override_neutralizes(
    declared: Seq<(String, String)>,
    inherited: Seq<(String, String)>,
)
    requires
        forall|i: int|
            0 <= i < inherited.len() ==> ((is_dangerous_key(#[trigger] inherited[i].0@)
                && !is_blank(inherited[i].1@)) ==> override_is_blank(declared, inherited[i].0@)),
    ensures
        first_dangerous_inherited(inherited, declared) is None,
    decreases inherited.len(),
{
    if inherited.len() > 0 {
        let t = inherited.drop_first();
        assert forall|j: int|
            0 <= j < t.len() implies ((is_dangerous_key(#[trigger] t[j].0@) && !is_blank(t[j].1@))
            ==> override_is_blank(declared, t[j].0@)) by {
            assert(t[j] == inherited[j + 1]);
        }
        lemma_blank_override_neutralizes(declared, t);
    }
}

} // verus!
