//! An example tagged union with the `Event` capability as the derive writes
//! it for `prefix = "abc"` and a rename of its first variant.
use vstd::prelude::*;
use crate::naming::identifier_of;
use crate::traits::Event;

verus! {

#[derive(Clone, Debug, PartialEq, Eq)]
pub enum MyEvents {
    EventA(String),
    EventB,
    EventC { foo: usize },
}

impl Event for MyEvents {
    open spec fn spec_event_ident(&self) -> Seq<char> {
        match self {
            MyEvents::EventA(_) => "event_a"@,
            MyEvents::EventB => "abcEventB"@,
            MyEvents::EventC { .. } => "abcEventC"@,
        }
    }

    fn event_ident(&self) -> (r: &'static str) {
        match self {
            MyEvents::EventA(..) => "event_a",
            MyEvents::EventB { .. } => "abcEventB",
            MyEvents::EventC { .. } => "abcEventC",
        }
    }
}

/// Each variant's identifier is the one that the naming rule gives under the
/// prefix `abc`, with `EventA` renamed to `event_a`.
pub proof fn lemma_my_events_follow_naming(e: MyEvents)
    ensures
        e.spec_event_ident() == match e {
            MyEvents::EventA(_) => identifier_of(Some("abc"@), "EventA"@, Some("event_a"@)),
            MyEvents::EventB => identifier_of(Some("abc"@), "EventB"@, None),
            MyEvents::EventC { .. } => identifier_of(Some("abc"@), "EventC"@, None),
        },
{
    reveal_strlit("abc");
    reveal_strlit("EventB");
    reveal_strlit("EventC");
    reveal_strlit("abcEventB");
    reveal_strlit("abcEventC");
    assert("abc"@ + "EventB"@ =~= "abcEventB"@);
    assert("abc"@ + "EventC"@ =~= "abcEventC"@);
}

} // verus!
