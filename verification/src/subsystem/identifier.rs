//! Identifiers that tell subsystems apart.
use vstd::prelude::*;

verus! {

/// The identity of a started subsystem.
#[derive(PartialEq, Eq, Debug, Clone, Copy, Structural)]
pub struct SubsystemIdentifier {
    id: usize,
}

/// The source from which identifiers are drawn; it never hands out the same
/// identifier twice. Identifiers are told apart only among those drawn
/// from one source, so a program draws all of them from a single source.
pub struct IdSource {
    next: usize,
}

impl SubsystemIdentifier {
    /// The number behind the identifier.
    pub closed spec fn spec_id(&self) -> usize {
        self.id
    }

    /// Draws a fresh identifier from `source`.
    pub fn create(source: &mut IdSource) -> (identifier: Self)
        requires
            old(source).spec_next() < usize::MAX,
        ensures
            identifier.spec_id() == old(source).spec_next(),
            final(source).spec_next() == old(source).spec_next() + 1,
    {
        let id = source.next;
        source.next = source.next + 1;
        SubsystemIdentifier { id }
    }
}

impl IdSource {
    /// The identifier number that is handed out next.
    pub closed spec fn spec_next(&self) -> usize {
        self.next
    }

    /// Creates a source whose first identifier is 1.
    pub fn new() -> (source: Self)
        ensures
            source.spec_next() == 1,
    {
        IdSource { next: 1 }
    }

    /// Whether another identifier can be drawn.
    pub fn has_next(&self) -> (available: bool)
        ensures
            available == (self.spec_next() < usize::MAX),
    {
        self.next < usize::MAX
    }
}

/// Identifiers drawn one after the other from the same source are distinct:
/// every later identifier differs from every earlier one.
pub proof fn law_identifiers_are_distinct(first: SubsystemIdentifier, second: SubsystemIdentifier, source_then: IdSource, source_later: IdSource)
    requires
        first.spec_id() < source_then.spec_next(),
        source_then.spec_next() <= source_later.spec_next(),
        second.spec_id() == source_later.spec_next(),
    ensures
        first != second,
{
}

} // verus!
