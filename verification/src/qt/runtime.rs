//! The configuration and session that the Qt front end shares, once set up.

use vstd::prelude::*;

verus! {

/// What the front end reads of its configuration.
pub trait HasCredentials {
    /// Whether credentials are stored.
    fn has_credentials(&self) -> bool;
}

/// A session that takes its settings from a configuration.
pub trait ConfigurableSession<C> {
    /// Applies the session settings of `config`.
    fn update_from(&self, config: &C);
}

/// The configuration and the session.
pub struct QtRuntime<C, S> {
    pub config: C,
    pub session: S,
}

/// The runtime, once set up.
pub struct RuntimeSlot<C, S> {
    pub runtime: Option<QtRuntime<C, S>>,
}

/// An empty slot.
pub fn empty<C, S>() -> (r: RuntimeSlot<C, S>)
    ensures
        r.runtime is None,
{
    RuntimeSlot { runtime: None }
}

/// Sets up the runtime, replacing any earlier one.
pub fn init<C, S>(slot: &mut RuntimeSlot<C, S>, config: C, session: S)
    ensures
        final(slot).runtime == Some(QtRuntime { config, session }),
{
    slot.runtime = Some(QtRuntime { config, session });
}

/// A copy of the runtime, if set up.
pub fn snapshot<C: Clone, S: Clone>(slot: &RuntimeSlot<C, S>) -> (r: Option<QtRuntime<C, S>>)
    ensures
        r is Some == slot.runtime is Some,
        r matches Some(rt) ==> cloned::<C>(slot.runtime->0.config, rt.config) && cloned::<S>(
            slot.runtime->0.session,
            rt.session,
        ),
{
    match &slot.runtime {
        Some(rt) => Some(QtRuntime { config: rt.config.clone(), session: rt.session.clone() }),
        None => None,
    }
}

/// The runtime to work on, if set up.
pub fn with_runtime<C, S>(slot: &mut RuntimeSlot<C, S>) -> (r: Option<&mut QtRuntime<C, S>>)
    ensures
        r is Some == old(slot).runtime is Some,
        r matches Some(rt) ==> *rt == old(slot).runtime->0 && final(slot).runtime == Some(*final(rt)),
        r is None ==> final(slot).runtime is None,
{
    match &mut slot.runtime {
        Some(rt) => Some(rt),
        None => None,
    }
}

/// Configures the session from stored credentials; gives whether there were
/// any, as the configuration's `has_credentials` answered. Without a runtime
/// there are none.
pub fn configure_session_from_config<C: HasCredentials, S: ConfigurableSession<C>>(
    slot: &RuntimeSlot<C, S>,
) -> (r: bool)
    ensures
        slot.runtime is None ==> !r,
        slot.runtime matches Some(rt) ==> call_ensures(C::has_credentials, (&rt.config,), r),
{
    match &slot.runtime {
        Some(rt) => {
            if rt.config.has_credentials() {
                rt.session.update_from(&rt.config);
                true
            } else {
                false
            }
        },
        None => false,
    }
}

/// Replaces the configuration, when the runtime is set up.
pub fn store_config<C, S>(slot: &mut RuntimeSlot<C, S>, config: C)
    ensures
        old(slot).runtime matches Some(rt) ==> final(slot).runtime == Some(QtRuntime { config, session: rt.session }),
        old(slot).runtime is None ==> final(slot).runtime is None,
{
    match &mut slot.runtime {
        Some(rt) => {
            rt.config = config;
        },
        None => {},
    }
}

} // verus!
