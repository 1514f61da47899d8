//! The environment-variable guard: it captures a variable's prior state and,
//! on release, hands back the exact instruction that restores it.

use vstd::prelude::*;
use crate::env_model::{
    EnvTable, env_var, lemma_remove_then_restore_is_identity, lemma_set_then_restore_is_identity,
    with_var_removed, with_var_restored, with_var_set,
};

verus! {

/// The view of an optional prior value: the captured string's characters,
/// or `None` for a variable that was unset.
pub open spec fn prior_view(prior: Option<String>) -> Option<Seq<char>> {
    match prior {
        Some(p) => Some(p@),
        None => None,
    }
}

/// The spec-level content of an environment-variable guard: the variable's
/// name and the state captured before the mutation (`None`: it was unset).
pub struct EnvGuardView {
    pub key: Seq<char>,
    pub prior: Option<Seq<char>>,
}

/// A guard holding exactly what is needed to put one environment variable
/// back: its name, and the value it held before the mutation — or the fact
/// that it held none. Both the set and the remove factory capture into this
/// same shape; only the mutation they then apply differs.
pub struct CurrentEnv {
    key: String,
    prior: Option<String>,
}

/// The instruction a released guard hands back: set the variable to its
/// captured prior value, or unset it because it had none.
pub enum RestoreAction {
    SetValue { key: String, value: String },
    Unset { key: String },
}

impl View for CurrentEnv {
    type V = EnvGuardView;

    closed spec fn view(&self) -> EnvGuardView {
        EnvGuardView { key: self.key@, prior: prior_view(self.prior) }
    }
}

impl RestoreAction {
    /// The variable this instruction acts on.
    pub open spec fn target_key(self) -> Seq<char> {
        match self {
            RestoreAction::SetValue { key, value: _ } => key@,
            RestoreAction::Unset { key } => key@,
        }
    }

    /// The environment table that performing this instruction leaves behind.
    pub open spec fn applied_to(self, env: EnvTable) -> EnvTable {
        match self {
            RestoreAction::SetValue { key, value } => env.insert(key@, value@),
            RestoreAction::Unset { key } => env.remove(key@),
        }
    }
}

impl CurrentEnv {
    /// Build the guard for one variable. `prior` is what reading the
    /// variable yielded immediately before the mutation: `None` if it was
    /// unset, `Some(p)` if it was set to `p` — a present empty string stays
    /// distinct from absence.
    pub fn capture(key: String, prior: Option<String>) -> (g: CurrentEnv)
        ensures
            g@.key == key@,
            g@.prior == prior_view(prior),
    {
        CurrentEnv { key, prior }
    }

    /// The name of the guarded variable.
    pub fn key(&self) -> (k: &String)
        ensures
            k@ == self@.key,
    {
        &self.key
    }

    /// The captured prior state, readable while the guard is live.
    pub fn prior_value(&self) -> (p: &Option<String>)
        ensures
            prior_view(*p) == self@.prior,
    {
        &self.prior
    }

    /// Release: consume the guard and return the restore instruction. The
    /// instruction targets the guard's own key, sets exactly when a prior
    /// value was captured, and — applied to any environment — restores the
    /// captured state of that key.
    pub fn release(self) -> (a: RestoreAction)
        ensures
            a.target_key() == self@.key,
            a is SetValue <==> self@.prior is Some,
            forall|env: EnvTable| #[trigger]
                a.applied_to(env) == with_var_restored(env, self@.key, self@.prior),
    {
        let CurrentEnv { key, prior } = self;
        match prior {
            Some(value) => RestoreAction::SetValue { key, value },
            None => RestoreAction::Unset { key },
        }
    }
}

/// Law: a released guard undoes its factory's mutation. If a guard's
/// captured prior state is what `env` held for its key — which `capture`'s
/// caller reads immediately before mutating — then the restore instruction
/// the guard releases, applied after the key has been set to any value or
/// removed, yields `env` back exactly.
pub proof fn lemma_release_undoes_mutation(
    a: RestoreAction,
    g: EnvGuardView,
    env: EnvTable,
    value: Seq<char>,
)
    requires
        g.prior == env_var(env, g.key),
        forall|e: EnvTable| #[trigger] a.applied_to(e) == with_var_restored(e, g.key, g.prior),
    ensures
        a.applied_to(with_var_set(env, g.key, value)) == env,
        a.applied_to(with_var_removed(env, g.key)) == env,
{
    lemma_set_then_restore_is_identity(env, g.key, value);
    lemma_remove_then_restore_is_identity(env, g.key);
}

} // verus!
