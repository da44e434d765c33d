//! A value with a pair of callbacks: one that runs when the guard is made
//! and may refuse, one that runs when the guard is given up.

use vstd::prelude::*;

verus! {

/// The place of a callback that was not given yet.
#[derive(Debug)]
pub struct Unset;

/// Collects the value and the two callbacks of a [`ScopeGuard`].
pub struct ScopeGuardBuilder<T, I, D> {
    pub value: T,
    pub on_init: I,
    pub on_drop: D,
}

/// Owns a value and the callback that is to run on it, once, when the guard
/// is given up.
#[must_use]
pub struct ScopeGuard<T, D> {
    value: T,
    on_drop: D,
}

impl<T> ScopeGuardBuilder<T, Unset, Unset> {
    /// A builder for a guard of `value`.
    pub fn new(value: T) -> (builder: Self)
        ensures
            builder.value == value,
    {
        ScopeGuardBuilder { value, on_init: Unset, on_drop: Unset }
    }
}

impl<T, D> ScopeGuardBuilder<T, Unset, D> {
    /// The callback that runs when the guard is made. Where it fails there
    /// is no guard.
    pub fn on_init<E, I: FnOnce(&mut T) -> Result<(), E>>(self, on_init: I) -> (builder:
        ScopeGuardBuilder<T, I, D>)
        ensures
            builder.value == self.value,
            builder.on_init == on_init,
            builder.on_drop == self.on_drop,
    {
        ScopeGuardBuilder { value: self.value, on_init, on_drop: self.on_drop }
    }
}

impl<T, I> ScopeGuardBuilder<T, I, Unset> {
    /// The callback that runs when the guard is given up.
    pub fn on_drop<D: FnOnce(&mut T)>(self, on_drop: D) -> (builder: ScopeGuardBuilder<T, I, D>)
        ensures
            builder.value == self.value,
            builder.on_init == self.on_init,
            builder.on_drop == on_drop,
    {
        ScopeGuardBuilder { value: self.value, on_init: self.on_init, on_drop }
    }
}

impl<T, E, I: FnOnce(&mut T) -> Result<(), E>, D: FnOnce(&mut T)> ScopeGuardBuilder<T, I, D> {
    /// Runs the init callback on the value. Where the callback succeeds, the
    /// guard of the value as the callback left it is handed out; where it
    /// fails, its very error is, and there is no guard to give up.
    pub fn create(self) -> (result: Result<ScopeGuard<T, D>, E>)
        requires
            forall|value: &mut T| *value == self.value ==> call_requires(self.on_init, (value,)),
        ensures
            match result {
                Ok(guard) => guard.callback() == self.on_drop && exists|
                    value: &mut T,
                    outcome: Result<(), E>,
                |
                    *value == self.value && *final(value) == guard.value() && outcome is Ok
                        && call_ensures(self.on_init, (value,), outcome),
                Err(error) => exists|value: &mut T|
                    *value == self.value && call_ensures(
                        self.on_init,
                        (value,),
                        Err::<(), E>(error),
                    ),
            },
    {
        let mut value = self.value;
        let on_init = self.on_init;
        let outcome = on_init(&mut value);
        assert(exists|changed: &mut T|
            *changed == self.value && *final(changed) == value && call_ensures(
                self.on_init,
                (changed,),
                outcome,
            ));
        match outcome {
            Ok(()) => Ok(ScopeGuard { value, on_drop: self.on_drop }),
            Err(error) => Err(error),
        }
    }
}

impl<T, D: FnOnce(&mut T)> ScopeGuard<T, D> {
    /// The guarded value.
    pub closed spec fn value(self) -> T {
        self.value
    }

    /// The callback that is to run when the guard is given up.
    pub closed spec fn callback(self) -> D {
        self.on_drop
    }

    /// The guarded value.
    pub fn get(&self) -> (value: &T)
        ensures
            *value == self.value(),
    {
        &self.value
    }

    /// The guarded value, for changing it. The callback stays as it is.
    pub fn get_mut(&mut self) -> (value: &mut T)
        ensures
            *value == old(self).value(),
            final(self).value() == *final(value),
            final(self).callback() == old(self).callback(),
    {
        &mut self.value
    }

    /// Gives the guard up: the drop callback runs on the value, once, and
    /// the value is handed out as the callback left it.
    pub fn release(self) -> (released: T)
        requires
            forall|value: &mut T| *value == self.value() ==> call_requires(self.callback(), (value,)),
        ensures
            exists|value: &mut T|
                *value == self.value() && *final(value) == released && call_ensures(
                    self.callback(),
                    (value,),
                    (),
                ),
    {
        let mut value = self.value;
        let on_drop = self.on_drop;
        on_drop(&mut value);
        value
    }
}

} // verus!
