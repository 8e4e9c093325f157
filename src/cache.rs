use vstd::prelude::*;

verus! {

/// Whether a lookup must run the resolution: on a forced reload, or when the
/// slot is empty.
pub open spec fn must_resolve<T>(value: Option<T>, reload: bool) -> bool {
    reload || value is None
}

/// The single slot that holds the most recently resolved configuration.
pub struct ConfigCache<T> {
    slot: Option<T>,
}

impl<T> ConfigCache<T> {
    /// The configuration the slot holds, if any.
    pub closed spec fn value(&self) -> Option<T> {
        self.slot
    }

    /// An empty slot.
    pub fn new() -> (r: Self)
        ensures
            r.value() is None,
    {
        ConfigCache { slot: None }
    }

    /// Whether a lookup must run the resolution: on a forced reload, or when
    /// the slot is empty. Otherwise the held configuration is reused.
    pub fn needs_resolution(&self, reload: bool) -> (r: bool)
        ensures
            r == must_resolve(self.value(), reload),
    {
        reload || self.slot.is_none()
    }

    /// Replaces the held configuration, whole, with `config`.
    pub fn store(&mut self, config: T)
        ensures
            final(self).value() == Some(config),
    {
        self.slot = Some(config);
    }

    /// The held configuration, if any.
    pub fn current(&self) -> (r: Option<&T>)
        ensures
            r == match self.value() {
                Some(c) => Some(&c),
                None => None::<&T>,
            },
    {
        match &self.slot {
            Some(c) => Some(c),
            None => None,
        }
    }

    /// Takes the outcome of a resolution: a configuration is stored, an error
    /// leaves the slot as it was and is handed back.
    pub fn complete<E>(&mut self, outcome: Result<T, E>) -> (r: Result<(), E>)
        ensures
            outcome is Ok <==> r is Ok,
            outcome matches Ok(c) ==> final(self).value() == Some(c),
            outcome matches Err(e) ==> final(self).value() == old(self).value() && r == Err::<(), E>(e),
    {
        match outcome {
            Ok(c) => {
                self.store(c);
                Ok(())
            },
            Err(e) => Err(e),
        }
    }
}

/// Once a resolution has been stored, a lookup without reload reuses it and
/// resolves nothing again.
pub proof fn law_stored_is_reused<T>(cache: ConfigCache<T>, config: T)
    requires
        cache.value() == Some(config),
    ensures
        !must_resolve(cache.value(), false),
{
}

/// A forced reload resolves whatever the slot holds; once its result is
/// stored, lookups without reload reuse the new value.
pub proof fn law_reload_replaces<T>(before: ConfigCache<T>, after: ConfigCache<T>, fresh: T)
    requires
        after.value() == Some(fresh),
    ensures
        must_resolve(before.value(), true),
        !must_resolve(after.value(), false),
{
}

} // verus!
