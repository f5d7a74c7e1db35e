//! Configuration: what the environment says.

use vstd::prelude::*;

use crate::envkey;
use crate::json::opt_string;

verus! {

/// Where logs are sent.
#[derive(Debug, Clone)]
pub struct Config {
    pub elastic_index: String,
    pub elastic_url: String,
    pub elastic_username: String,
    pub elastic_password: String,
}

/// An environment variable that is set.
#[derive(Debug)]
pub struct EnvVar {
    pub key: String,
    pub value: String,
}

/// The value of a variable after these assignments, where one of them sets it: the last one
/// counts.
pub open spec fn var_in(env: Seq<EnvVar>, key: Seq<char>) -> Option<Seq<char>>
    decreases env.len(),
{
    if env.len() == 0 {
        None
    } else if env.last().key@ == key {
        Some(env.last().value@)
    } else {
        var_in(env.drop_last(), key)
    }
}

/// The value of a variable after the assignments `env`.
pub fn find_var(env: &[EnvVar], key: &str) -> (r: Option<String>)
    ensures
        opt_string(r) == var_in(env@, key@),
{
    let wanted = key.to_owned();
    let mut i: usize = env.len();
    assert(env@.take(i as int) =~= env@);
    while i > 0
        invariant
            i <= env@.len(),
            wanted@ == key@,
            var_in(env@, key@) == var_in(env@.take(i as int), key@),
        decreases i,
    {
        assert(env@.take(i as int).drop_last() =~= env@.take(i - 1));
        i = i - 1;
        if env[i].key == wanted {
            return Some(env[i].value.clone());
        }
    }
    None
}

/// The assignment of one variable.
fn assign(key: &str, value: String) -> (r: EnvVar)
    ensures
        r.key@ == key@,
        r.value == value,
{
    EnvVar { key: key.to_owned(), value }
}

/// The assignments that put a configuration into the environment, in order. They have to be made
/// before the logger is used for the first time.
pub fn set_config(cfg: Config) -> (r: Vec<EnvVar>)
    ensures
        r@.len() == 4,
        r@[0].key@ == envkey::ELASTIC_INDEX@ && r@[0].value@ == cfg.elastic_index@,
        r@[1].key@ == envkey::ELASTIC_URL@ && r@[1].value@ == cfg.elastic_url@,
        r@[2].key@ == envkey::ELASTIC_USERNAME@ && r@[2].value@ == cfg.elastic_username@,
        r@[3].key@ == envkey::ELASTIC_PASSWORD@ && r@[3].value@ == cfg.elastic_password@,
        is_config(r@, cfg),
{
    let mut out: Vec<EnvVar> = Vec::new();
    out.push(assign(envkey::ELASTIC_INDEX, cfg.elastic_index));
    out.push(assign(envkey::ELASTIC_URL, cfg.elastic_url));
    out.push(assign(envkey::ELASTIC_USERNAME, cfg.elastic_username));
    out.push(assign(envkey::ELASTIC_PASSWORD, cfg.elastic_password));
    proof {
        lemma_keys_differ();
        reveal_with_fuel(var_in, 5);
    }
    out
}

/// An environment in which each variable has the value of the configuration.
pub open spec fn is_config(env: Seq<EnvVar>, cfg: Config) -> bool {
    &&& var_in(env, envkey::ELASTIC_INDEX@) == Some(cfg.elastic_index@)
    &&& var_in(env, envkey::ELASTIC_URL@) == Some(cfg.elastic_url@)
    &&& var_in(env, envkey::ELASTIC_USERNAME@) == Some(cfg.elastic_username@)
    &&& var_in(env, envkey::ELASTIC_PASSWORD@) == Some(cfg.elastic_password@)
}

pub(crate) proof fn lemma_keys_differ()
    ensures
        envkey::ELASTIC_INDEX@ != envkey::ELASTIC_URL@,
        envkey::ELASTIC_INDEX@ != envkey::ELASTIC_USERNAME@,
        envkey::ELASTIC_INDEX@ != envkey::ELASTIC_PASSWORD@,
        envkey::ELASTIC_URL@ != envkey::ELASTIC_USERNAME@,
        envkey::ELASTIC_URL@ != envkey::ELASTIC_PASSWORD@,
        envkey::ELASTIC_USERNAME@ != envkey::ELASTIC_PASSWORD@,
{
    reveal_strlit("ELASTIC_INDEX__");
    reveal_strlit("ELASTIC_URL__");
    reveal_strlit("ELASTIC_USERNAME__");
    reveal_strlit("ELASTIC_PASSWORD__");
    assert("ELASTIC_INDEX__"@.len() == 15);
    assert("ELASTIC_URL__"@.len() == 13);
    assert("ELASTIC_USERNAME__"@.len() == 18 && "ELASTIC_USERNAME__"@[8] == 'U');
    assert("ELASTIC_PASSWORD__"@.len() == 18 && "ELASTIC_PASSWORD__"@[8] == 'P');
}

/// What the environment says of a variable after further assignments: the last one counts, and
/// variables that they do not set keep their values.
pub proof fn law_later_assignments_win(env: Seq<EnvVar>, later: Seq<EnvVar>, key: Seq<char>)
    ensures
        var_in(env + later, key) == (match var_in(later, key) {
            Some(value) => Some(value),
            None => var_in(env, key),
        }),
    decreases later.len(),
{
    if later.len() == 0 {
        assert(env + later =~= env);
    } else {
        assert((env + later).drop_last() =~= env + later.drop_last());
        law_later_assignments_win(env, later.drop_last(), key);
    }
}

/// A variable has the value of its last assignment, whatever came before and whatever other
/// variables are assigned.
pub proof fn law_last_assignment_counts(env: Seq<EnvVar>, key: Seq<char>, i: int)
    requires
        0 <= i < env.len(),
        env[i].key@ == key,
        forall|j: int| i < j < env.len() ==> (#[trigger] env[j]).key@ != key,
    ensures
        var_in(env, key) == Some(env[i].value@),
    decreases env.len(),
{
    if i < env.len() - 1 {
        assert(env[env.len() - 1].key@ != key);
        let front = env.drop_last();
        assert forall|j: int| i < j < front.len() implies (#[trigger] front[j]).key@ != key by {
            assert(front[j] == env[j]);
        }
        law_last_assignment_counts(front, key, i);
    }
}

/// A variable that is not assigned has no value.
pub proof fn law_unassigned_variable_has_no_value(env: Seq<EnvVar>, key: Seq<char>)
    requires
        forall|j: int| 0 <= j < env.len() ==> (#[trigger] env[j]).key@ != key,
    ensures
        var_in(env, key) is None,
    decreases env.len(),
{
    if env.len() > 0 {
        assert(env[env.len() - 1].key@ != key);
        let front = env.drop_last();
        assert forall|j: int| 0 <= j < front.len() implies (#[trigger] front[j]).key@ != key by {
            assert(front[j] == env[j]);
        }
        law_unassigned_variable_has_no_value(front, key);
    }
}

} // verus!
