//! Publication of a built package to several registries: every registry is
//! tried independently, and every failure is reported by registry name.
use vstd::prelude::*;
use crate::config::FrozenConfig;
use crate::pipeline::BuildContext;
use crate::registry::{auth_message, AuthError, Session};

verus! {

/// What happened when publishing to one registry.
pub enum RegistryOutcome {
    /// The package was pushed to the registry.
    Published,
    /// The registry name resolved to no known target.
    UnknownRegistry,
    /// No authenticated session could be had, for the given reason.
    AuthFailed(String),
    /// The push was refused or failed, for the given reason.
    PushFailed(String),
}

/// A registry that could not be published to, and why.
pub struct RegistryFailure {
    pub registry: String,
    pub reason: RegistryOutcome,
}

pub enum PublishError {
    /// The build context holds no frozen config.
    NotBuilt,
    /// One entry for each requested registry that failed, in request order.
    PerRegistryFailures(Vec<RegistryFailure>),
}

pub open spec fn names(registries: Seq<String>) -> Seq<Seq<char>> {
    registries.map_values(|s: String| s@)
}

/// The failures among the first `n` outcomes, each paired with the name of
/// its registry, in request order.
pub open spec fn failures(
    regs: Seq<Seq<char>>,
    outs: Seq<RegistryOutcome>,
    n: nat,
) -> Seq<(Seq<char>, RegistryOutcome)>
    decreases n,
{
    if n == 0 {
        Seq::empty()
    } else {
        let prev = failures(regs, outs, (n - 1) as nat);
        if outs[n - 1] is Published {
            prev
        } else {
            prev.push((regs[n - 1], outs[n - 1]))
        }
    }
}

pub open spec fn failure_view(f: RegistryFailure) -> (Seq<char>, RegistryOutcome) {
    (f.registry@, f.reason)
}

fn duplicate_outcome(o: &RegistryOutcome) -> (r: RegistryOutcome)
    ensures
        r == *o,
{
    match o {
        RegistryOutcome::Published => RegistryOutcome::Published,
        RegistryOutcome::UnknownRegistry => RegistryOutcome::UnknownRegistry,
        RegistryOutcome::AuthFailed(why) => RegistryOutcome::AuthFailed(why.clone()),
        RegistryOutcome::PushFailed(why) => RegistryOutcome::PushFailed(why.clone()),
    }
}

/// The outcome for one registry from the steps taken for it, in order:
/// whether its name resolved to a target, then (if it did) the login, then
/// (if the login gave a session) the push.
pub fn registry_outcome(
    resolved: bool,
    auth: Option<Result<Session, AuthError>>,
    pushed: Option<Result<(), String>>,
) -> (r: RegistryOutcome)
    requires
        resolved ==> auth is Some,
        resolved ==> ((auth matches Some(Ok(_))) ==> pushed is Some),
    ensures
        if !resolved {
            r is UnknownRegistry
        } else {
            match auth {
                Some(Err(e)) => r matches RegistryOutcome::AuthFailed(why) && why@ == auth_message(e),
                Some(Ok(_)) => match pushed {
                    Some(Ok(_)) => r is Published,
                    Some(Err(w)) => r == RegistryOutcome::PushFailed(w),
                    None => true,
                },
                None => true,
            }
        },
{
    if !resolved {
        return RegistryOutcome::UnknownRegistry;
    }
    match auth {
        Some(Err(e)) => RegistryOutcome::AuthFailed(e.message()),
        _ => match pushed {
            Some(Err(w)) => RegistryOutcome::PushFailed(w),
            _ => RegistryOutcome::Published,
        },
    }
}

/// The frozen config to push, or `NotBuilt` when the build context holds none.
pub fn publishable(ctx: &BuildContext) -> (r: Result<&FrozenConfig, PublishError>)
    ensures
        match ctx {
            BuildContext::Unbuilt => r matches Err(PublishError::NotBuilt),
            BuildContext::Built { config, .. } => r == Ok::<&FrozenConfig, PublishError>(config),
        },
{
    match ctx {
        BuildContext::Unbuilt => Err(PublishError::NotBuilt),
        BuildContext::Built { config, .. } => Ok(config),
    }
}

/// Gathers the per-registry outcomes of a publication, `outcomes[i]` being
/// that of `registries[i]`. A context without a frozen config fails with
/// `NotBuilt` whatever the registries. Otherwise the result is `Ok` exactly
/// when every registry succeeded, and else lists every failed registry.
pub fn publish(
    ctx: &BuildContext,
    registries: &Vec<String>,
    outcomes: &Vec<RegistryOutcome>,
) -> (r: Result<(), PublishError>)
    requires
        registries@.len() == outcomes@.len(),
    ensures
        ctx is Unbuilt ==> r matches Err(PublishError::NotBuilt),
        ctx is Built ==> {
            let fs = failures(names(registries@), outcomes@, outcomes@.len());
            if fs.len() == 0 {
                r is Ok
            } else {
                r matches Err(PublishError::PerRegistryFailures(v)) && v@.len() == fs.len() && (
                forall|k: int| 0 <= k < fs.len() ==> failure_view(#[trigger] v@[k]) == fs[k])
            }
        },
{
    if let Err(e) = publishable(ctx) {
        return Err(e);
    }
    let ghost regs = names(registries@);
    let n = outcomes.len();
    let mut v: Vec<RegistryFailure> = Vec::new();
    let mut i: usize = 0;
    while i < n
        invariant
            n == outcomes@.len(),
            n == registries@.len(),
            regs == names(registries@),
            0 <= i <= n,
            v@.len() == failures(regs, outcomes@, i as nat).len(),
            forall|k: int|
                0 <= k < v@.len() ==> failure_view(#[trigger] v@[k]) == failures(
                    regs,
                    outcomes@,
                    i as nat,
                )[k],
        decreases n - i,
    {
        match &outcomes[i] {
            RegistryOutcome::Published => {},
            o => {
                let f = RegistryFailure {
                    registry: registries[i].clone(),
                    reason: duplicate_outcome(o),
                };
                v.push(f);
            },
        }
        i += 1;
    }
    if v.len() == 0 {
        Ok(())
    } else {
        Err(PublishError::PerRegistryFailures(v))
    }
}

/// The failure list names exactly the registries whose outcome failed:
/// each failed registry appears with its outcome, each entry comes from a
/// failed registry, and the list is empty exactly when all succeeded.
pub proof fn lemma_failures_exact(regs: Seq<Seq<char>>, outs: Seq<RegistryOutcome>, n: nat)
    requires
        n <= regs.len(),
        n <= outs.len(),
    ensures
        forall|i: int|
            0 <= i < n && !(outs[i] is Published) ==> exists|k: int|
                0 <= k < failures(regs, outs, n).len() && #[trigger] failures(regs, outs, n)[k]
                    == (regs[i], outs[i]),
        forall|k: int|
            0 <= k < failures(regs, outs, n).len() ==> exists|i: int|
                0 <= i < n && !(outs[i] is Published) && #[trigger] failures(regs, outs, n)[k]
                    == (regs[i], outs[i]),
        failures(regs, outs, n).len() == 0 <==> forall|i: int|
            0 <= i < n ==> #[trigger] outs[i] is Published,
    decreases n,
{
    if n > 0 {
        lemma_failures_exact(regs, outs, (n - 1) as nat);
        let prev = failures(regs, outs, (n - 1) as nat);
        let cur = failures(regs, outs, n);
        assert forall|i: int| 0 <= i < n && !(outs[i] is Published) implies exists|k: int|
            0 <= k < cur.len() && #[trigger] cur[k] == (regs[i], outs[i]) by {
            if i == n - 1 {
                assert(cur[prev.len() as int] == (regs[i], outs[i]));
            } else {
                let k = choose|k: int| 0 <= k < prev.len() && #[trigger] prev[k] == (regs[i], outs[i]);
                assert(cur[k] == prev[k]);
            }
        }
        assert forall|k: int| 0 <= k < cur.len() implies exists|i: int|
            0 <= i < n && !(outs[i] is Published) && #[trigger] cur[k] == (regs[i], outs[i]) by {
            if k < prev.len() {
                assert(cur[k] == prev[k]);
                let i = choose|i: int|
                    0 <= i < n - 1 && !(outs[i] is Published) && #[trigger] prev[k] == (
                        regs[i],
                        outs[i],
                    );
                assert(cur[k] == (regs[i], outs[i]));
            } else {
                assert(cur[k] == (regs[n - 1], outs[n - 1]));
            }
        }
        if cur.len() == 0 {
            assert forall|i: int| 0 <= i < n implies #[trigger] outs[i] is Published by {
                if i < n - 1 {
                    assert(outs[i] is Published);
                }
            }
        }
    }
}

} // verus!
