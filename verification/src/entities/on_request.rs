//! The three states of a field that the server only sends on request.

use vstd::prelude::*;
use vstd::std_specs::cmp::{PartialEqSpec, PartialEqSpecImpl};

verus! {

/// The value of a field that is only fetched when its option is switched on.
///
/// `NotAvailable` means the field was asked for and the server had nothing
/// to send. `NotRequested` means the field was not asked for.
#[derive(Clone, Copy, Debug)]
pub enum OnRequest<T> {
    Present(T),
    NotAvailable,
    NotRequested,
}

/// An optional value, seen through a reference.
pub open spec fn as_ref_spec<T>(option: &Option<T>) -> Option<&T> {
    match option {
        Some(value) => Some(value),
        None => None,
    }
}

impl<T> OnRequest<T> {
    /// The marker for an optional payload, given whether it was asked for.
    /// Nothing is ever shown for a field that was not asked for.
    pub open spec fn from_option_spec(option: Option<T>, requested: bool) -> OnRequest<T> {
        if !requested {
            OnRequest::NotRequested
        } else {
            match option {
                Some(value) => OnRequest::Present(value),
                None => OnRequest::NotAvailable,
            }
        }
    }

    /// The marker for a payload that is always there once it was asked for.
    pub open spec fn from_value_spec(value: T, requested: bool) -> OnRequest<T> {
        if requested {
            OnRequest::Present(value)
        } else {
            OnRequest::NotRequested
        }
    }

    /// Wraps an optional payload.
    pub fn from_option(option: Option<T>, requested: bool) -> (r: OnRequest<T>)
        ensures
            r == Self::from_option_spec(option, requested),
            r is NotRequested <==> !requested,
    {
        if !requested {
            OnRequest::NotRequested
        } else {
            match option {
                Some(value) => OnRequest::Present(value),
                None => OnRequest::NotAvailable,
            }
        }
    }

    /// Wraps a payload that cannot be absent.
    pub fn from_value(value: T, requested: bool) -> (r: OnRequest<T>)
        ensures
            r == Self::from_value_spec(value, requested),
            r is NotRequested <==> !requested,
    {
        if requested {
            OnRequest::Present(value)
        } else {
            OnRequest::NotRequested
        }
    }

    /// The payload of a marker that holds one.
    pub fn unwrap(self) -> (value: T)
        requires
            self is Present,
        ensures
            self == OnRequest::Present(value),
    {
        match self {
            OnRequest::Present(value) => value,
            OnRequest::NotAvailable => unreached(),
            OnRequest::NotRequested => unreached(),
        }
    }

    /// Whether the marker holds a payload.
    pub fn is_some(&self) -> (b: bool)
        ensures
            b == (self is Present),
    {
        match self {
            OnRequest::Present(_) => true,
            _ => false,
        }
    }
}

impl<T: PartialEq> PartialEq for OnRequest<T> {
    fn eq(&self, other: &Self) -> (r: bool)
    {
        match self {
            OnRequest::Present(a) => match other {
                OnRequest::Present(b) => a.eq(b),
                OnRequest::NotRequested | OnRequest::NotAvailable => false,
            },
            OnRequest::NotRequested => match other {
                OnRequest::NotRequested => true,
                _ => false,
            },
            OnRequest::NotAvailable => match other {
                OnRequest::NotAvailable => true,
                _ => false,
            },
        }
    }
}

impl<T: PartialEq> PartialEqSpecImpl for OnRequest<T> {
    open spec fn obeys_eq_spec() -> bool {
        T::obeys_eq_spec()
    }

    /// Two markers are equal when they are in the same state and, where they
    /// hold payloads, the payloads are equal.
    open spec fn eq_spec(&self, other: &OnRequest<T>) -> bool {
        match (self, other) {
            (OnRequest::Present(a), OnRequest::Present(b)) => a.eq_spec(b),
            (OnRequest::NotRequested, OnRequest::NotRequested) => true,
            (OnRequest::NotAvailable, OnRequest::NotAvailable) => true,
            _ => false,
        }
    }
}

impl<T: Eq> Eq for OnRequest<T> {

}

/// The three cases of a requested-on-demand field: not asked for, asked for
/// and absent, asked for and present.
pub proof fn lemma_marker_cases<T>(option: Option<T>, requested: bool)
    ensures
        !requested ==> OnRequest::from_option_spec(option, requested) == OnRequest::<
            T,
        >::NotRequested,
        requested && option is None ==> OnRequest::from_option_spec(option, requested)
            == OnRequest::<T>::NotAvailable,
        requested && option is Some ==> OnRequest::from_option_spec(option, requested)
            == OnRequest::Present(option->Some_0),
        OnRequest::from_option_spec(option, requested) is Present ==> requested,
{
}

/// The two absent states differ from each other and from every present
/// value, also under `==`.
pub proof fn lemma_absent_states_differ<T: PartialEq>(value: T)
    ensures
        OnRequest::<T>::NotAvailable != OnRequest::<T>::NotRequested,
        OnRequest::Present(value) != OnRequest::<T>::NotAvailable,
        OnRequest::Present(value) != OnRequest::<T>::NotRequested,
        !PartialEqSpec::eq_spec(&OnRequest::<T>::NotAvailable, &OnRequest::<T>::NotRequested),
        !PartialEqSpec::eq_spec(&OnRequest::<T>::NotRequested, &OnRequest::<T>::NotAvailable),
        !PartialEqSpec::eq_spec(&OnRequest::Present(value), &OnRequest::<T>::NotAvailable),
        !PartialEqSpec::eq_spec(&OnRequest::Present(value), &OnRequest::<T>::NotRequested),
        !PartialEqSpec::eq_spec(&OnRequest::<T>::NotAvailable, &OnRequest::Present(value)),
        !PartialEqSpec::eq_spec(&OnRequest::<T>::NotRequested, &OnRequest::Present(value)),
{
}

} // verus!
