//! The exit states of subsystems after a shutdown.
use vstd::prelude::*;

use crate::errors::SubsystemError;
use crate::ErrTypeTraits;

verus! {

/// How one subsystem ended during a shutdown.
pub struct SubprocessExitState<ErrType: ErrTypeTraits = crate::BoxedError> {
    /// The name of the subsystem.
    pub name: String,
    /// A short description of how it ended.
    pub exit_state: String,
    /// The raw result of the subsystem.
    pub raw_result: Result<(), SubsystemError<ErrType>>,
}

impl<ErrType: ErrTypeTraits> SubprocessExitState<ErrType> {
    /// Creates an exit state from its parts.
    pub fn new(name: &str, exit_state: &str, raw_result: Result<(), SubsystemError<ErrType>>) -> (state: Self)
        ensures
            state.name@ == name@,
            state.exit_state@ == exit_state@,
            state.raw_result == raw_result,
    {
        SubprocessExitState { name: name.to_string(), exit_state: exit_state.to_string(), raw_result }
    }
}

/// The exit states of a group of subsystems.
pub type ShutdownResults<ErrType> = Vec<SubprocessExitState<ErrType>>;

/// The short description of a subsystem result.
pub open spec fn spec_exit_label<ErrType: ErrTypeTraits>(result: Result<(), SubsystemError<ErrType>>) -> Seq<char> {
    match result {
        Ok(()) => "OK"@,
        Err(SubsystemError::Cancelled(_)) => "Cancelled"@,
        Err(SubsystemError::Failed(_, _)) => "Failed"@,
        Err(SubsystemError::Panicked(_)) => "Panicked"@,
    }
}

/// Describes a subsystem result in one word.
pub fn exit_label<ErrType: ErrTypeTraits>(result: &Result<(), SubsystemError<ErrType>>) -> (label: &'static str)
    ensures
        label@ == spec_exit_label(*result),
{
    match result {
        Ok(()) => "OK",
        Err(SubsystemError::Cancelled(_)) => "Cancelled",
        Err(SubsystemError::Failed(_, _)) => "Failed",
        Err(SubsystemError::Panicked(_)) => "Panicked",
    }
}

/// Creates the exit state of the subsystem `name` from its result.
pub fn exit_state_of<ErrType: ErrTypeTraits>(
    name: &str,
    result: Result<(), SubsystemError<ErrType>>,
) -> (state: SubprocessExitState<ErrType>)
    ensures
        state.name@ == name@,
        state.exit_state@ == spec_exit_label(result),
        state.raw_result == result,
{
    let label = exit_label(&result);
    SubprocessExitState::new(name, label, result)
}

/// The concatenation of all sequences in `groups`, in order.
pub open spec fn concat_all<A>(groups: Seq<Seq<A>>) -> Seq<A>
    decreases groups.len(),
{
    if groups.len() == 0 {
        Seq::empty()
    } else {
        concat_all(groups.drop_last()) + groups.last()
    }
}

/// The contents of each vector.
pub open spec fn views_of<A>(groups: Seq<Vec<A>>) -> Seq<Seq<A>> {
    groups.map_values(|v: Vec<A>| v@)
}

/// Law: concatenating groups keeps every group, whole and in order: it
/// is the flattening of the groups, front to back, so it is as long as all
/// groups together and each group starts right after the ones before it.
pub proof fn law_groups_are_concatenated_in_order<A>(groups: Seq<Seq<A>>)
    ensures
        concat_all(groups) == groups.flatten(),
    decreases groups.len(),
{
    if groups.len() > 0 {
        law_groups_are_concatenated_in_order(groups.drop_last());
        groups.drop_last().lemma_flatten_push(groups.last());
        assert(groups.drop_last().push(groups.last()) =~= groups);
    }
}

/// Law: concatenating two runs of groups one after the other gives the
/// two concatenations one after the other, and a single group stays as it
/// is.
pub proof fn law_concatenation_splits<A>(first: Seq<Seq<A>>, second: Seq<Seq<A>>, group: Seq<A>)
    ensures
        concat_all(first + second) == concat_all(first) + concat_all(second),
        concat_all(seq![group]) == group,
{
    law_groups_are_concatenated_in_order(first + second);
    law_groups_are_concatenated_in_order(first);
    law_groups_are_concatenated_in_order(second);
    vstd::seq_lib::lemma_flatten_concat(first, second);
    law_groups_are_concatenated_in_order(seq![group]);
    seq![group].lemma_flatten_one_element();
}

/// Appends all groups of exit states in `right`, in order, to `left`.
pub fn join_shutdown_results<ErrType: ErrTypeTraits>(
    left: ShutdownResults<ErrType>,
    right: Vec<ShutdownResults<ErrType>>,
) -> (joined: ShutdownResults<ErrType>)
    ensures
        joined@ == left@ + concat_all(views_of(right@)),
        joined@ == left@ + views_of(right@).flatten(),
{
    let mut left = left;
    let ghost left0 = left@;
    let ghost groups = views_of(right@);
    for right_element in it: right
        invariant
            groups == views_of(it.seq()),
            left@ == left0 + concat_all(groups.take(it.index() as int)),
    {
        let mut right_element = right_element;
        let ghost i = it.index();
        let ghost before = left@;
        left.append(&mut right_element);
        proof {
            assert(groups.take(i + 1).drop_last() =~= groups.take(i as int));
            assert(groups.take(i + 1).last() == groups[i as int]);
            assert(left@ =~= left0 + concat_all(groups.take(i + 1)));
        }
    }
    proof {
        assert(groups.take(groups.len() as int) =~= groups);
        law_groups_are_concatenated_in_order(groups);
    }
    left
}

/// The exit states of a subtree after its shutdown: first one state for
/// each direct child, from its name and result, then the states collected
/// from the children's own subtrees, group after group.
pub fn shutdown_exit_states<ErrType: ErrTypeTraits>(
    direct: Vec<(String, Result<(), SubsystemError<ErrType>>)>,
    recursive: Vec<ShutdownResults<ErrType>>,
) -> (states: ShutdownResults<ErrType>)
    ensures
        states@.len() == direct@.len() + concat_all(views_of(recursive@)).len(),
        forall|i: int|
            0 <= i < direct@.len() ==> {
                &&& (#[trigger] states@[i]).name@ == direct@[i].0@
                &&& states@[i].exit_state@ == spec_exit_label(direct@[i].1)
                &&& states@[i].raw_result == direct@[i].1
            },
        states@.subrange(direct@.len() as int, states@.len() as int) == concat_all(views_of(recursive@)),
{
    let ghost entries = direct@;
    let mut labelled: ShutdownResults<ErrType> = Vec::new();
    for entry in it: direct
        invariant
            entries == it.seq(),
            labelled@.len() == it.index(),
            forall|i: int|
                0 <= i < it.index() ==> {
                    &&& (#[trigger] labelled@[i]).name@ == entries[i].0@
                    &&& labelled@[i].exit_state@ == spec_exit_label(entries[i].1)
                    &&& labelled@[i].raw_result == entries[i].1
                },
    {
        let (name, result) = entry;
        let state = exit_state_of(name.as_str(), result);
        labelled.push(state);
    }
    let ghost head = labelled@;
    let states = join_shutdown_results(labelled, recursive);
    proof {
        assert(states@.subrange(entries.len() as int, states@.len() as int) =~= concat_all(views_of(recursive@)));
        assert forall|i: int| 0 <= i < entries.len() implies #[trigger] states@[i] == head[i] by {}
    }
    states
}

} // verus!
