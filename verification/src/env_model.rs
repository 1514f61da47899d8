//! A mathematical model of the process environment table — a finite map from
//! variable names to values — together with the capture/restore algebra that
//! the environment-variable guards implement.

use vstd::prelude::*;

verus! {

/// The process environment table, seen abstractly: every variable that is
/// set is mapped to its value. "Absent" and "present but empty" are distinct
/// states: an unset name is simply outside the map's domain, while a name
/// set to the empty string is inside it.
pub type EnvTable = Map<Seq<char>, Seq<char>>;

/// What reading variable `key` yields: `Some(value)` if it is set,
/// `None` if it is unset.
pub open spec fn env_var(env: EnvTable, key: Seq<char>) -> Option<Seq<char>> {
    if env.dom().contains(key) {
        Some(env[key])
    } else {
        None
    }
}

/// The environment after `key` is set to `value`.
pub open spec fn with_var_set(env: EnvTable, key: Seq<char>, value: Seq<char>) -> EnvTable {
    env.insert(key, value)
}

/// The environment after `key` is removed; a no-op if `key` was unset.
pub open spec fn with_var_removed(env: EnvTable, key: Seq<char>) -> EnvTable {
    env.remove(key)
}

/// The environment after a guard restores `key` to a captured prior state:
/// a captured value is set back, a captured absence removes the variable.
pub open spec fn with_var_restored(
    env: EnvTable,
    key: Seq<char>,
    prior: Option<Seq<char>>,
) -> EnvTable {
    match prior {
        Some(value) => env.insert(key, value),
        None => env.remove(key),
    }
}

/// Law: setting a variable and then restoring the state captured just before
/// the set puts the whole environment table back exactly as it was, whether
/// or not the variable was set before.
pub proof fn lemma_set_then_restore_is_identity(env: EnvTable, key: Seq<char>, value: Seq<char>)
    ensures
        with_var_restored(with_var_set(env, key, value), key, env_var(env, key)) == env,
{
    assert(with_var_restored(with_var_set(env, key, value), key, env_var(env, key)) =~= env);
}

/// Law: removing a variable and then restoring the state captured just before
/// the removal puts the whole environment table back exactly as it was.
pub proof fn lemma_remove_then_restore_is_identity(env: EnvTable, key: Seq<char>)
    ensures
        with_var_restored(with_var_removed(env, key), key, env_var(env, key)) == env,
{
    assert(with_var_restored(with_var_removed(env, key), key, env_var(env, key)) =~= env);
}

/// Law: for a key that was not set, once a set-variable guard has restored
/// its captured state the key is unset again — not set to an empty string.
pub proof fn lemma_set_var_released_key_unset(env: EnvTable, key: Seq<char>, value: Seq<char>)
    requires
        env_var(env, key) is None,
    ensures
        env_var(with_var_restored(with_var_set(env, key, value), key, env_var(env, key)), key)
            is None,
{
}

/// Law: for a key with a prior value, once a set-variable guard has restored
/// its captured state, reading the key yields that prior value exactly —
/// including when the prior value is the empty string.
pub proof fn lemma_set_var_released_prior_read(
    env: EnvTable,
    key: Seq<char>,
    value: Seq<char>,
    prior: Seq<char>,
)
    requires
        env_var(env, key) == Some(prior),
    ensures
        env_var(with_var_restored(with_var_set(env, key, value), key, env_var(env, key)), key)
            == Some(prior),
{
}

/// Law: while a remove-variable guard is live — after the removal and before
/// the restore — the key reads as unset.
pub proof fn lemma_remove_var_live_key_unset(env: EnvTable, key: Seq<char>)
    ensures
        env_var(with_var_removed(env, key), key) is None,
{
}

/// Law: for a key with a prior value, once a remove-variable guard has
/// restored its captured state, reading the key yields that prior value.
pub proof fn lemma_remove_var_released_prior_read(env: EnvTable, key: Seq<char>, prior: Seq<char>)
    requires
        env_var(env, key) == Some(prior),
    ensures
        env_var(with_var_restored(with_var_removed(env, key), key, env_var(env, key)), key)
            == Some(prior),
{
}

/// Law: for a key that was not set, a remove-variable guard's removal and
/// restoration are both no-ops — after release the key remains unset.
pub proof fn lemma_remove_var_released_key_unset(env: EnvTable, key: Seq<char>)
    requires
        env_var(env, key) is None,
    ensures
        env_var(with_var_restored(with_var_removed(env, key), key, env_var(env, key)), key)
            is None,
{
}

} // verus!
