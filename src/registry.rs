//! The registrations a selector holds, one per descriptor.
use vstd::prelude::*;
use std::collections::HashMap;

use crate::interest::{EventSet, PollOpt, Token};

verus! {

broadcast use vstd::std_specs::hash::group_hash_axioms;

/// What a descriptor is registered with.
#[derive(Clone, Copy, Debug, PartialEq, Eq, Structural)]
pub struct Registration {
    pub token: Token,
    pub interest: EventSet,
    pub opts: PollOpt,
}

/// Why a registration call was refused.
#[derive(Clone, Copy, Debug, PartialEq, Eq, Structural)]
pub enum RegistrationError {
    /// `register` on a descriptor that is registered already.
    AlreadyRegistered,
    /// `reregister` or `deregister` on a descriptor that is not registered.
    NotRegistered,
}

/// The outcome of `register` on registrations `m`.
pub open spec fn register_result(m: Map<i32, Registration>, fd: i32) -> Result<(), RegistrationError> {
    if m.contains_key(fd) {
        Err(RegistrationError::AlreadyRegistered)
    } else {
        Ok(())
    }
}

/// The registrations after `register`.
pub open spec fn register_effect(m: Map<i32, Registration>, fd: i32, reg: Registration) -> Map<i32, Registration> {
    if m.contains_key(fd) {
        m
    } else {
        m.insert(fd, reg)
    }
}

/// The outcome of `reregister` or `deregister` on registrations `m`.
pub open spec fn update_result(m: Map<i32, Registration>, fd: i32) -> Result<(), RegistrationError> {
    if m.contains_key(fd) {
        Ok(())
    } else {
        Err(RegistrationError::NotRegistered)
    }
}

/// The registrations after `reregister`.
pub open spec fn reregister_effect(m: Map<i32, Registration>, fd: i32, reg: Registration) -> Map<i32, Registration> {
    if m.contains_key(fd) {
        m.insert(fd, reg)
    } else {
        m
    }
}

/// The registrations after `deregister`.
pub open spec fn deregister_effect(m: Map<i32, Registration>, fd: i32) -> Map<i32, Registration> {
    m.remove(fd)
}

/// The descriptors registered with one selector, each with its registration.
pub struct Registry {
    entries: HashMap<i32, Registration>,
}

impl View for Registry {
    type V = Map<i32, Registration>;

    closed spec fn view(&self) -> Map<i32, Registration> {
        self.entries@
    }
}

impl Registry {
    /// A registry with nothing registered.
    pub fn new() -> (r: Registry)
        ensures
            r@ == Map::<i32, Registration>::empty(),
    {
        Registry { entries: HashMap::new() }
    }

    /// Whether `fd` is registered.
    pub fn is_registered(&self, fd: i32) -> (r: bool)
        ensures
            r == self@.contains_key(fd),
    {
        self.entries.contains_key(&fd)
    }

    /// The registration of `fd`, if it has one.
    pub fn get(&self, fd: i32) -> (r: Option<Registration>)
        ensures
            r == (if self@.contains_key(fd) {
                Some(self@[fd])
            } else {
                None
            }),
    {
        match self.entries.get(&fd) {
            Some(reg) => Some(*reg),
            None => None,
        }
    }

    /// Registers `fd`; refused when it is registered already.
    pub fn register(&mut self, fd: i32, token: Token, interest: EventSet, opts: PollOpt) -> (r: Result<
        (),
        RegistrationError,
    >)
        ensures
            r == register_result(old(self)@, fd),
            final(self)@ == register_effect(
                old(self)@,
                fd,
                Registration { token, interest, opts },
            ),
    {
        if self.entries.contains_key(&fd) {
            Err(RegistrationError::AlreadyRegistered)
        } else {
            self.entries.insert(fd, Registration { token, interest, opts });
            Ok(())
        }
    }

    /// Replaces the registration of `fd`; refused when it has none.
    pub fn reregister(&mut self, fd: i32, token: Token, interest: EventSet, opts: PollOpt) -> (r:
        Result<(), RegistrationError>)
        ensures
            r == update_result(old(self)@, fd),
            final(self)@ == reregister_effect(
                old(self)@,
                fd,
                Registration { token, interest, opts },
            ),
    {
        if self.entries.contains_key(&fd) {
            self.entries.insert(fd, Registration { token, interest, opts });
            Ok(())
        } else {
            Err(RegistrationError::NotRegistered)
        }
    }

    /// Removes the registration of `fd`; refused when it has none.
    pub fn deregister(&mut self, fd: i32) -> (r: Result<(), RegistrationError>)
        ensures
            r == update_result(old(self)@, fd),
            final(self)@ == deregister_effect(old(self)@, fd),
    {
        match self.entries.remove(&fd) {
            Some(_) => Ok(()),
            None => Err(RegistrationError::NotRegistered),
        }
    }
}

/// Registering a descriptor a second time fails while it stays registered,
/// whatever replacements happened in between.
pub proof fn register_twice_fails(
    m: Map<i32, Registration>,
    fd: i32,
    first: Registration,
    replacement: Registration,
)
    ensures
        register_result(register_effect(m, fd, first), fd) == Err::<(), RegistrationError>(
            RegistrationError::AlreadyRegistered,
        ),
        register_result(reregister_effect(register_effect(m, fd, first), fd, replacement), fd)
            == Err::<(), RegistrationError>(RegistrationError::AlreadyRegistered),
{
}

/// Before any registration, both `reregister` and `deregister` fail and
/// leave the registrations as they were.
pub proof fn update_before_register_fails(m: Map<i32, Registration>, fd: i32, reg: Registration)
    requires
        !m.contains_key(fd),
    ensures
        update_result(m, fd) == Err::<(), RegistrationError>(RegistrationError::NotRegistered),
        reregister_effect(m, fd, reg) == m,
        deregister_effect(m, fd) == m,
{
    assert(m.remove(fd) =~= m);
}

/// After `deregister`, the descriptor can be registered again.
pub proof fn register_after_deregister_succeeds(
    m: Map<i32, Registration>,
    fd: i32,
    first: Registration,
    second: Registration,
)
    ensures
        register_result(deregister_effect(register_effect(m, fd, first), fd), fd) == Ok::<
            (),
            RegistrationError,
        >(()),
        register_effect(deregister_effect(register_effect(m, fd, first), fd), fd, second)[fd]
            == second,
{
}

} // verus!
