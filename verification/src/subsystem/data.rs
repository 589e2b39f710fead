//! The registry of the nested subsystems of one subsystem.
use vstd::prelude::*;

use super::identifier::{IdSource, SubsystemIdentifier};
use crate::errors::{PartialShutdownError, SubsystemError};
use crate::exit_state::SubprocessExitState;
use crate::ErrTypeTraits;

verus! {

/// A registered nested subsystem: its identifier and what is kept of it.
pub struct SubsystemDescriptor<T> {
    /// The identifier of the nested subsystem.
    pub id: SubsystemIdentifier,
    /// What the parent keeps of the nested subsystem (its runner and data).
    pub item: T,
}

/// The nested subsystems of a subsystem.
///
/// While the subsystem runs, new children are accepted. Once its shutdown
/// begins, the registered children move to the shutdown list and further
/// children are refused.
pub struct SubsystemRegistry<T> {
    subsystems: Option<Vec<SubsystemDescriptor<T>>>,
    shutdown_subsystems: Vec<SubsystemDescriptor<T>>,
}

/// The position of the first descriptor with identifier `id`.
pub open spec fn first_position<T>(descriptors: Seq<SubsystemDescriptor<T>>, id: SubsystemIdentifier) -> Option<int>
    decreases descriptors.len(),
{
    if descriptors.len() == 0 {
        None
    } else if descriptors[0].id == id {
        Some(0)
    } else {
        match first_position(descriptors.drop_first(), id) {
            Some(p) => Some(p + 1),
            None => None,
        }
    }
}

/// The position found by `first_position` holds the identifier, and no
/// earlier position does.
proof fn lemma_first_position<T>(descriptors: Seq<SubsystemDescriptor<T>>, id: SubsystemIdentifier)
    ensures
        first_position(descriptors, id) matches Some(p) ==> 0 <= p < descriptors.len()
            && descriptors[p].id == id && forall|j: int| 0 <= j < p ==> #[trigger] descriptors[j].id != id,
        first_position(descriptors, id) is None ==> forall|j: int|
            0 <= j < descriptors.len() ==> #[trigger] descriptors[j].id != id,
    decreases descriptors.len(),
{
    if descriptors.len() > 0 {
        lemma_first_position(descriptors.drop_first(), id);
        assert forall|j: int| 1 <= j < descriptors.len() implies descriptors[j] == descriptors.drop_first()[j - 1] by {}
    }
}

/// No two descriptors share an identifier.
pub open spec fn distinct_ids<T>(descriptors: Seq<SubsystemDescriptor<T>>) -> bool {
    forall|i: int, j: int|
        0 <= i < descriptors.len() && 0 <= j < descriptors.len() && i != j ==> #[trigger] descriptors[i].id
            != #[trigger] descriptors[j].id
}

/// Every identifier among the descriptors is smaller than `bound`.
pub open spec fn ids_below<T>(descriptors: Seq<SubsystemDescriptor<T>>, bound: usize) -> bool {
    forall|i: int| 0 <= i < descriptors.len() ==> (#[trigger] descriptors[i]).id.spec_id() < bound
}

/// Law: once the child with identifier `id` was taken out of a list of
/// children with distinct identifiers, no child with that identifier is
/// left, so looking it up again finds nothing.
pub proof fn law_taken_child_is_gone<T>(descriptors: Seq<SubsystemDescriptor<T>>, id: SubsystemIdentifier)
    requires
        distinct_ids(descriptors),
        first_position(descriptors, id) is Some,
    ensures
        first_position(
            descriptors.update(first_position(descriptors, id)->0, descriptors.last()).drop_last(),
            id,
        ) is None,
{
    let p = first_position(descriptors, id)->0;
    let rest = descriptors.update(p, descriptors.last()).drop_last();
    lemma_first_position(descriptors, id);
    lemma_first_position(rest, id);
    if let Some(q) = first_position(rest, id) {
        if q == p {
            assert(rest[q] == descriptors[descriptors.len() - 1]);
            assert(descriptors[descriptors.len() - 1].id != descriptors[p].id);
        } else {
            assert(rest[q] == descriptors[q]);
            assert(descriptors[q].id != descriptors[p].id);
        }
    }
}

/// Taking the child at position `p` out of `s`, the last child taking its
/// place, keeps the identifiers of `head + s` distinct and below any bound
/// they were below.
proof fn lemma_removal_keeps_ids<T>(head: Seq<SubsystemDescriptor<T>>, s: Seq<SubsystemDescriptor<T>>, p: int)
    requires
        0 <= p < s.len(),
    ensures
        distinct_ids(head + s) ==> distinct_ids(head + s.update(p, s.last()).drop_last()),
        forall|bound: usize|
            ids_below(head + s, bound) ==> #[trigger] ids_below(head + s.update(p, s.last()).drop_last(), bound),
{
    let before = head + s;
    let after = head + s.update(p, s.last()).drop_last();
    let k = head.len() as int;
    let origin = |i: int| if i == k + p { before.len() - 1 } else { i };
    assert forall|i: int| 0 <= i < after.len() implies #[trigger] after[i] == before[origin(i)]
        && 0 <= origin(i) < before.len() by {
        if i >= k {
            assert(after[i] == s.update(p, s.last()).drop_last()[i - k]);
        }
    }
    assert forall|bound: usize| ids_below(before, bound) implies #[trigger] ids_below(after, bound) by {
        assert forall|i: int| 0 <= i < after.len() implies (#[trigger] after[i]).id.spec_id() < bound by {
            assert(after[i] == before[origin(i)]);
        }
    }
    if distinct_ids(before) {
        assert forall|i: int, j: int|
            0 <= i < after.len() && 0 <= j < after.len() && i != j implies #[trigger] after[i].id
            != #[trigger] after[j].id by {
            assert(after[i] == before[origin(i)]);
            assert(after[j] == before[origin(j)]);
        }
    }
}

impl<T> SubsystemRegistry<T> {
    /// Every registered child: those on the shutdown list, then those still
    /// accepted.
    pub open spec fn spec_registered(&self) -> Seq<SubsystemDescriptor<T>> {
        prepared(self.spec_shutdown_subsystems(), self.spec_subsystems())
    }

    /// The registered children, or `None` once the shutdown began.
    pub closed spec fn spec_subsystems(&self) -> Option<Seq<SubsystemDescriptor<T>>> {
        match &self.subsystems {
            Some(v) => Some(v@),
            None => None,
        }
    }

    /// The children that were moved to the shutdown list.
    pub closed spec fn spec_shutdown_subsystems(&self) -> Seq<SubsystemDescriptor<T>> {
        self.shutdown_subsystems@
    }

    /// Creates a registry that accepts children and has none.
    pub fn new() -> (registry: Self)
        ensures
            registry.spec_subsystems() == Some(Seq::<SubsystemDescriptor<T>>::empty()),
            registry.spec_shutdown_subsystems() == Seq::<SubsystemDescriptor<T>>::empty(),
    {
        SubsystemRegistry { subsystems: Some(Vec::new()), shutdown_subsystems: Vec::new() }
    }

    /// Whether children are still accepted.
    pub fn is_accepting(&self) -> (accepting: bool)
        ensures
            accepting == self.spec_subsystems() is Some,
    {
        self.subsystems.is_some()
    }

    /// Registers a new child under a fresh identifier drawn from `source`.
    ///
    /// Returns the identifier. If the shutdown already began, the child is
    /// refused and handed back as well, so that the caller can cancel it.
    /// When every identifier registered so far was drawn from `source`, the
    /// new one differs from all of them.
    pub fn add_subsystem(&mut self, source: &mut IdSource, item: T) -> (added: (SubsystemIdentifier, Option<T>))
        requires
            old(source).spec_next() < usize::MAX,
        ensures
            added.0.spec_id() == old(source).spec_next(),
            final(source).spec_next() == old(source).spec_next() + 1,
            final(self).spec_shutdown_subsystems() == old(self).spec_shutdown_subsystems(),
            match old(self).spec_subsystems() {
                Some(s) => {
                    &&& added.1 is None
                    &&& final(self).spec_subsystems() == Some(
                        s.push(SubsystemDescriptor { id: added.0, item }),
                    )
                },
                None => {
                    &&& added.1 == Some(item)
                    &&& final(self).spec_subsystems() is None
                },
            },
            ids_below(old(self).spec_registered(), old(source).spec_next()) ==> {
                &&& ids_below(final(self).spec_registered(), final(source).spec_next())
                &&& forall|i: int|
                    0 <= i < old(self).spec_registered().len() ==> (#[trigger] old(
                        self,
                    ).spec_registered()[i]).id != added.0
                &&& distinct_ids(old(self).spec_registered()) ==> distinct_ids(
                    final(self).spec_registered(),
                )
            },
    {
        let ghost before = self.spec_registered();
        let ghost bound = source.spec_next();
        let id = SubsystemIdentifier::create(source);
        match self.subsystems.as_mut() {
            Some(subsystems) => {
                subsystems.push(SubsystemDescriptor { id, item });
                proof {
                    let after = self.spec_registered();
                    let d = SubsystemDescriptor { id, item };
                    assert(after =~= before.push(d));
                    if ids_below(before, bound) {
                        assert forall|i: int| 0 <= i < before.len() implies (#[trigger] before[i]).id
                            != id by {
                            assert(before[i].id.spec_id() < bound);
                        }
                        assert forall|i: int| 0 <= i < after.len() implies (#[trigger] after[i]).id.spec_id()
                            < bound + 1 by {
                            if i < before.len() {
                                assert(after[i] == before[i]);
                            }
                        }
                        if distinct_ids(before) {
                            assert forall|i: int, j: int|
                                0 <= i < after.len() && 0 <= j < after.len() && i != j implies #[trigger] after[i].id
                                != #[trigger] after[j].id by {
                                if i < before.len() {
                                    assert(after[i] == before[i]);
                                    assert(before[i].id.spec_id() < bound);
                                }
                                if j < before.len() {
                                    assert(after[j] == before[j]);
                                    assert(before[j].id.spec_id() < bound);
                                }
                            }
                        }
                    }
                }
                (id, None)
            },
            None => {
                proof {
                    if ids_below(before, bound) {
                        assert forall|i: int| 0 <= i < before.len() implies (#[trigger] before[i]).id
                            != id by {
                            assert(before[i].id.spec_id() < bound);
                        }
                    }
                }
                (id, Some(item))
            },
        }
    }

    /// Stops accepting children and moves the registered ones to the
    /// shutdown list. Calling it again changes nothing.
    pub fn prepare_shutdown(&mut self)
        ensures
            final(self).spec_subsystems() is None,
            final(self).spec_shutdown_subsystems() == prepared(
                old(self).spec_shutdown_subsystems(),
                old(self).spec_subsystems(),
            ),
            final(self).spec_registered() == old(self).spec_registered(),
    {
        if let Some(mut subsystems) = self.subsystems.take() {
            self.shutdown_subsystems.append(&mut subsystems);
        } else {
            assert(self.shutdown_subsystems@ =~= self.shutdown_subsystems@ + Seq::<SubsystemDescriptor<T>>::empty());
        }
        assert(self.spec_registered() =~= self.spec_shutdown_subsystems());
    }

    /// Takes the children out of the shutdown list.
    pub fn take_shutdown_subsystems(&mut self) -> (taken: Vec<SubsystemDescriptor<T>>)
        ensures
            taken@ == old(self).spec_shutdown_subsystems(),
            final(self).spec_shutdown_subsystems() == Seq::<SubsystemDescriptor<T>>::empty(),
            final(self).spec_subsystems() == old(self).spec_subsystems(),
            distinct_ids(old(self).spec_registered()) ==> distinct_ids(final(self).spec_registered()),
            forall|bound: usize|
                ids_below(old(self).spec_registered(), bound) ==> #[trigger] ids_below(
                    final(self).spec_registered(),
                    bound,
                ),
    {
        let ghost before = self.spec_registered();
        let ghost k = self.shutdown_subsystems@.len();
        let mut taken = Vec::new();
        std::mem::swap(&mut taken, &mut self.shutdown_subsystems);
        proof {
            let after = self.spec_registered();
            assert(after.len() + k == before.len());
            assert forall|i: int| 0 <= i < after.len() implies #[trigger] after[i] == before[i + k] by {}
            assert forall|bound: usize| ids_below(before, bound) implies #[trigger] ids_below(after, bound) by {
                assert forall|i: int| 0 <= i < after.len() implies (#[trigger] after[i]).id.spec_id() < bound by {
                    assert(after[i] == before[i + k]);
                }
            }
            if distinct_ids(before) {
                assert forall|i: int, j: int|
                    0 <= i < after.len() && 0 <= j < after.len() && i != j implies #[trigger] after[i].id
                    != #[trigger] after[j].id by {
                    assert(after[i] == before[i + k]);
                    assert(after[j] == before[j + k]);
                }
            }
        }
        taken
    }

    /// Takes the child `id` out of the registry for a partial shutdown.
    ///
    /// Fails with `AlreadyShuttingDown` once the shutdown began, and with
    /// `SubsystemNotFound` if no registered child has that identifier.
    /// The last registered child takes the place of the removed one.
    pub fn take_for_partial_shutdown<ErrType: ErrTypeTraits>(&mut self, id: SubsystemIdentifier) -> (taken: Result<T, PartialShutdownError<ErrType>>)
        ensures
            final(self).spec_shutdown_subsystems() == old(self).spec_shutdown_subsystems(),
            match old(self).spec_subsystems() {
                None => {
                    &&& taken matches Err(PartialShutdownError::AlreadyShuttingDown)
                    &&& final(self).spec_subsystems() is None
                },
                Some(s) => match first_position(s, id) {
                    None => {
                        &&& taken matches Err(PartialShutdownError::SubsystemNotFound)
                        &&& final(self).spec_subsystems() == Some(s)
                    },
                    Some(p) => {
                        &&& taken == Ok::<T, PartialShutdownError<ErrType>>(s[p].item)
                        &&& final(self).spec_subsystems() == Some(s.update(p, s.last()).drop_last())
                    },
                },
            },
            distinct_ids(old(self).spec_registered()) ==> distinct_ids(final(self).spec_registered()),
            forall|bound: usize|
                ids_below(old(self).spec_registered(), bound) ==> #[trigger] ids_below(
                    final(self).spec_registered(),
                    bound,
                ),
    {
        let ghost before = self.spec_registered();
        let ghost k = self.shutdown_subsystems@.len();
        match self.subsystems.take() {
            None => Err(PartialShutdownError::AlreadyShuttingDown),
            Some(mut subsystems) => {
                let ghost s = subsystems@;
                proof {
                    lemma_first_position(s, id);
                }
                let mut i: usize = 0;
                while i < subsystems.len()
                    invariant
                        subsystems@ == s,
                        i <= s.len(),
                        forall|j: int| 0 <= j < i ==> #[trigger] s[j].id != id,
                        self.shutdown_subsystems@ == old(self).shutdown_subsystems@,
                        old(self).spec_subsystems() == Some(s),
                    decreases s.len() - i,
                {
                    if subsystems[i].id == id {
                        proof {
                            lemma_first_position(s, id);
                            assert(s[i as int].id == id);
                            if let Some(p) = first_position(s, id) {
                                if p < i {
                                    assert(s[p].id != id);
                                }
                                assert(p == i);
                            }
                        }
                        let descriptor = subsystems.swap_remove(i);
                        self.subsystems = Some(subsystems);
                        proof {
                            lemma_removal_keeps_ids(self.shutdown_subsystems@, s, i as int);
                            assert(self.spec_registered() =~= self.shutdown_subsystems@ + s.update(
                                i as int,
                                s.last(),
                            ).drop_last());
                        }
                        return Ok(descriptor.item);
                    }
                    i = i + 1;
                }
                self.subsystems = Some(subsystems);
                Err(PartialShutdownError::SubsystemNotFound)
            },
        }
    }
}

/// The shutdown list after preparing the shutdown of a registry whose
/// shutdown list is `shutdown` and whose children are `subsystems`.
pub open spec fn prepared<T>(
    shutdown: Seq<SubsystemDescriptor<T>>,
    subsystems: Option<Seq<SubsystemDescriptor<T>>>,
) -> Seq<SubsystemDescriptor<T>> {
    shutdown + match subsystems {
        Some(s) => s,
        None => Seq::empty(),
    }
}

/// Law: preparing the shutdown twice has the same effect as preparing it
/// once; the second call neither loses nor duplicates children.
pub proof fn law_prepare_shutdown_is_idempotent<T>(
    shutdown: Seq<SubsystemDescriptor<T>>,
    subsystems: Option<Seq<SubsystemDescriptor<T>>>,
)
    ensures
        prepared(prepared(shutdown, subsystems), None) == prepared(shutdown, subsystems),
{
    assert(prepared(prepared(shutdown, subsystems), None) =~= prepared(shutdown, subsystems));
}

/// The errors among a sequence of exit states, in order.
pub open spec fn failures_of<ErrType: ErrTypeTraits>(states: Seq<SubprocessExitState<ErrType>>) -> Seq<SubsystemError<ErrType>>
    decreases states.len(),
{
    if states.len() == 0 {
        Seq::empty()
    } else {
        failures_of(states.drop_last()) + match states.last().raw_result {
            Ok(()) => Seq::empty(),
            Err(e) => seq![e],
        }
    }
}

/// The error a subsystem ended with, if any.
pub open spec fn error_of<ErrType: ErrTypeTraits>(state: SubprocessExitState<ErrType>) -> Option<SubsystemError<ErrType>> {
    match state.raw_result {
        Ok(()) => None,
        Err(e) => Some(e),
    }
}

/// Law: the failures of a sequence of exit states are exactly the errors
/// they ended with, whatever their kind, in order; there are none exactly
/// when every subsystem ended well.
pub proof fn law_failures_are_all_errors_in_order<ErrType: ErrTypeTraits>(states: Seq<SubprocessExitState<ErrType>>)
    ensures
        failures_of(states) == states.filter_map(|state: SubprocessExitState<ErrType>| error_of(state)),
        failures_of(states).len() == 0 <==> forall|i: int|
            0 <= i < states.len() ==> (#[trigger] states[i]).raw_result is Ok,
    decreases states.len(),
{
    if states.len() > 0 {
        let rest = states.drop_last();
        law_failures_are_all_errors_in_order(rest);
        assert forall|i: int| 0 <= i < rest.len() implies #[trigger] rest[i] == states[i] by {}
        if failures_of(states).len() == 0 {
            assert forall|i: int| 0 <= i < states.len() implies (#[trigger] states[i]).raw_result is Ok by {
                if i < rest.len() {
                    assert(rest[i] == states[i]);
                }
            }
        } else {
            if failures_of(rest).len() > 0 {
                let j = choose|j: int| 0 <= j < rest.len() && !(#[trigger] rest[j].raw_result is Ok);
                assert(rest[j] == states[j]);
            } else {
                assert(!(states[states.len() - 1].raw_result is Ok));
            }
        }
    }
}

/// Collects the errors of the subsystems shut down by a partial shutdown:
/// `Ok` if none failed, else all errors in order.
pub fn partial_shutdown_result<ErrType: ErrTypeTraits>(
    exit_states: Vec<SubprocessExitState<ErrType>>,
) -> (result: Result<(), PartialShutdownError<ErrType>>)
    ensures
        failures_of(exit_states@).len() == 0 ==> result is Ok,
        failures_of(exit_states@).len() > 0 ==> (result matches Err(PartialShutdownError::SubsystemsFailed(errors)) && errors@ == failures_of(exit_states@)),
        result is Ok <==> forall|i: int| 0 <= i < exit_states@.len() ==> (#[trigger] exit_states@[i]).raw_result is Ok,
        result matches Err(e) ==> e matches PartialShutdownError::SubsystemsFailed(errors) && errors@
            == exit_states@.filter_map(|state: SubprocessExitState<ErrType>| error_of(state)),
{
    let ghost states = exit_states@;
    let mut failed: Vec<SubsystemError<ErrType>> = Vec::new();
    for exit_state in it: exit_states
        invariant
            states == it.seq(),
            failed@ == failures_of(states.take(it.index() as int)),
    {
        let ghost i = it.index();
        proof {
            assert(states.take(i + 1).drop_last() =~= states.take(i as int));
        }
        match exit_state.raw_result {
            Ok(()) => {},
            Err(e) => failed.push(e),
        }
    }
    proof {
        assert(states.take(states.len() as int) =~= states);
    }
    proof {
        law_failures_are_all_errors_in_order(states);
    }
    if failed.len() == 0 {
        Ok(())
    } else {
        Err(PartialShutdownError::SubsystemsFailed(failed))
    }
}

} // verus!
