//! The capabilities that the derive gives a tagged union, and the decisions
//! that its generated impls delegate to this library.
use vstd::prelude::*;

verus! {

/// A sink that accepts values of type `T`.
pub trait Publishable<T> {
    fn publish_typed(&mut self, event: T);
}

/// An untyped event holder that may hold a value of type `T`.
pub trait AsTypedEvent<T> {
    fn as_typed_event(&self) -> Option<&T>;
}

/// A value that names its variant with a stable identifier.
pub trait Event {
    /// The identifier of this value's variant.
    spec fn spec_event_ident(&self) -> Seq<char>;

    fn event_ident(&self) -> (r: &'static str)
        ensures
            r@ == self.spec_event_ident(),
    ;
}

/// Whether two strings hold the same characters.
pub fn same_name(a: &str, b: &str) -> (r: bool)
    ensures
        r == (a@ == b@),
{
    a.to_owned() == b.to_owned()
}

/// The one call that publishing `event` makes on an untyped sink: its
/// identifier, and the value itself.
pub fn publish_call<T: Event>(event: T) -> (r: (&'static str, T))
    ensures
        r.0@ == event.spec_event_ident(),
        r.1 == event,
{
    let name = event.event_ident();
    (name, event)
}

/// What downcasting an untyped holder gives, from the name it recorded and
/// the payload it yields when asked for a `T`.
pub open spec fn downcast_result<'a, T: Event>(name: Seq<char>, data: Option<&'a T>) -> Option<&'a T> {
    match data {
        Some(d) => if d.spec_event_ident() == name {
            Some(d)
        } else {
            None
        },
        None => None,
    }
}

/// Downcasts a holder that recorded `name` and yields `data` when asked for a
/// `T`: the payload, only if it is there and its identifier is `name`.
pub fn typed_event_if_named<'a, T: Event>(name: &str, data: Option<&'a T>) -> (r: Option<&'a T>)
    ensures
        r == downcast_result(name@, data),
{
    match data {
        Some(d) => {
            if same_name(d.event_ident(), name) {
                Some(d)
            } else {
                None
            }
        },
        None => None,
    }
}

} // verus!
