//! The joiner tokens of a subsystem tree.
//!
//! Every subsystem holds a joiner token. A token knows its parent, whether it
//! is still alive, and how many live tokens exist below it. A subsystem tree
//! is finished once its token is dropped and no live token remains below it.
//! Errors raised at a token travel upwards until a token catches them.
use vstd::prelude::*;

use crate::errors::SubsystemErrorKind;
use crate::subsystem::ErrorActions;
use crate::ErrorAction;
use crate::utils::{bool_string, decimal, decimal_string, push_str};

verus! {

/// How a joiner token reacts to an error that reaches it.
#[derive(Clone, Copy, Debug, PartialEq, Eq, Structural)]
pub enum ErrorPolicy {
    /// Every error is caught here.
    CatchAll,
    /// Errors are caught or forwarded according to the given actions.
    Actions(ErrorActions),
}

/// Whether a token with the given policy catches an error of the given kind.
pub open spec fn policy_catches(policy: ErrorPolicy, kind: SubsystemErrorKind) -> bool {
    match policy {
        ErrorPolicy::CatchAll => true,
        ErrorPolicy::Actions(actions) => actions.spec_action_for(kind)
            == ErrorAction::CatchAndLocalShutdown,
    }
}

impl ErrorPolicy {
    /// Decides whether an error of the given kind is caught by this policy.
    pub fn catches(&self, kind: SubsystemErrorKind) -> (caught: bool)
        ensures
            caught == policy_catches(*self, kind),
            *self is CatchAll ==> caught,
            *self matches ErrorPolicy::Actions(a) ==> caught == (if kind is Panicked {
                a.on_panic
            } else {
                a.on_failure
            } == ErrorAction::CatchAndLocalShutdown),
    {
        match self {
            ErrorPolicy::CatchAll => true,
            ErrorPolicy::Actions(actions) => {
                let action = actions.action_for(kind);
                action == ErrorAction::CatchAndLocalShutdown
            },
        }
    }
}

/// Law: a token with error actions catches a panic exactly when its action
/// for panics is a local shutdown, and catches a returned error or a
/// cancellation exactly when its action for failures is; the other action
/// plays no part. A forwarding action passes the error on to the parent.
pub proof fn law_policy_follows_the_action_for_the_kind(actions: ErrorActions, kind: SubsystemErrorKind)
    ensures
        kind is Panicked ==> (policy_catches(ErrorPolicy::Actions(actions), kind) <==> actions.on_panic
            == ErrorAction::CatchAndLocalShutdown),
        !(kind is Panicked) ==> (policy_catches(ErrorPolicy::Actions(actions), kind) <==> actions.on_failure
            == ErrorAction::CatchAndLocalShutdown),
        actions.on_failure == ErrorAction::Forward && !(kind is Panicked) ==> !policy_catches(
            ErrorPolicy::Actions(actions),
            kind,
        ),
        actions.on_panic == ErrorAction::Forward && kind is Panicked ==> !policy_catches(
            ErrorPolicy::Actions(actions),
            kind,
        ),
        policy_catches(ErrorPolicy::CatchAll, kind),
{
}

/// Token `m` lies strictly below token `n`: following parents from `m`
/// reaches `n`.
pub open spec fn is_below(parents: Seq<Option<usize>>, m: int, n: int) -> bool
    decreases m,
{
    if 0 <= m < parents.len() {
        match parents[m] {
            Some(p) => p < m && (p == n || is_below(parents, p as int, n)),
            None => false,
        }
    } else {
        false
    }
}

/// Token `m` is `n` itself or lies below it.
pub open spec fn is_at_or_below(parents: Seq<Option<usize>>, m: int, n: int) -> bool {
    m == n || is_below(parents, m, n)
}

/// The number of live tokens among the first `k` tokens that lie below `n`.
pub open spec fn live_below_upto(parents: Seq<Option<usize>>, alive: Seq<bool>, n: int, k: int) -> nat
    decreases k,
{
    if k <= 0 {
        0
    } else {
        live_below_upto(parents, alive, n, k - 1) + if alive[k - 1] && is_below(parents, k - 1, n) {
            1nat
        } else {
            0nat
        }
    }
}

/// The token that catches an error of kind `kind` raised at token `n`:
/// `n` itself if it catches it, otherwise the catcher of its parent.
pub open spec fn catcher(
    parents: Seq<Option<usize>>,
    policies: Seq<ErrorPolicy>,
    n: int,
    kind: SubsystemErrorKind,
) -> Option<int>
    decreases n,
{
    if 0 <= n < parents.len() && n < policies.len() {
        if policy_catches(policies[n], kind) {
            Some(n)
        } else {
            match parents[n] {
                Some(p) => if p < n {
                    catcher(parents, policies, p as int, kind)
                } else {
                    None
                },
                None => None,
            }
        }
    } else {
        None
    }
}

/// Every parent has a smaller index than its child.
pub open spec fn parents_precede(parents: Seq<Option<usize>>) -> bool {
    forall|i: int| 0 <= i < parents.len() ==> (#[trigger] parents[i] matches Some(p) ==> p < i)
}

/// A token lies below another only if its index is larger.
pub proof fn lemma_below_is_later(parents: Seq<Option<usize>>, m: int, n: int)
    requires
        is_below(parents, m, n),
    ensures
        n < m,
    decreases m,
{
    let p = parents[m]->0;
    if p != n {
        lemma_below_is_later(parents, p as int, n);
    }
}

/// Below-ness extends along a parent edge.
proof fn lemma_below_parent(parents: Seq<Option<usize>>, m: int, n: int)
    requires
        is_below(parents, m, n),
        parents_precede(parents),
        0 <= n < parents.len(),
        parents[n] is Some,
    ensures
        is_below(parents, m, parents[n]->0 as int),
    decreases m,
{
    let p = parents[m]->0;
    let q = parents[n]->0;
    assert(parents[n] matches Some(r) ==> r < n);
    assert(is_below(parents, n, q as int));
    if p != n {
        lemma_below_parent(parents, p as int, n);
    }
}

/// Below-ness of the existing tokens does not change when a token is appended.
proof fn lemma_below_push(parents: Seq<Option<usize>>, x: Option<usize>, m: int, n: int)
    requires
        0 <= m < parents.len(),
    ensures
        is_below(parents.push(x), m, n) == is_below(parents, m, n),
    decreases m,
{
    let q = parents.push(x);
    assert(q[m] == parents[m]);
    match parents[m] {
        Some(p) => {
            if p < m {
                lemma_below_push(parents, x, p as int, n);
            }
        },
        None => {},
    }
}

/// Counting the first `k` tokens does not change when a token is appended.
proof fn lemma_live_push(
    parents: Seq<Option<usize>>,
    alive: Seq<bool>,
    x: Option<usize>,
    b: bool,
    n: int,
    k: int,
)
    requires
        k <= parents.len(),
        parents.len() == alive.len(),
    ensures
        live_below_upto(parents.push(x), alive.push(b), n, k) == live_below_upto(parents, alive, n, k),
    decreases k,
{
    if k > 0 {
        lemma_live_push(parents, alive, x, b, n, k - 1);
        lemma_below_push(parents, x, k - 1, n);
        assert(alive.push(b)[k - 1] == alive[k - 1]);
    }
}

/// At most `k` tokens are counted among the first `k`.
proof fn lemma_live_bound(parents: Seq<Option<usize>>, alive: Seq<bool>, n: int, k: int)
    ensures
        live_below_upto(parents, alive, n, k) <= if k < 0 { 0 } else { k },
    decreases k,
{
    if k > 0 {
        lemma_live_bound(parents, alive, n, k - 1);
    }
}

/// Only tokens created after `n` can lie below it, so at most `k - n - 1`
/// of the first `k` tokens are counted.
proof fn lemma_live_bound_after(parents: Seq<Option<usize>>, alive: Seq<bool>, n: int, k: int)
    requires
        0 <= n,
    ensures
        live_below_upto(parents, alive, n, k) <= if k <= n + 1 { 0 } else { k - n - 1 },
    decreases k,
{
    if k > 0 {
        if k <= n + 1 {
            lemma_live_none_before(parents, alive, n, k);
        } else {
            lemma_live_bound_after(parents, alive, n, k - 1);
        }
    }
}

/// No token up to `n` lies below `n`.
proof fn lemma_live_none_before(parents: Seq<Option<usize>>, alive: Seq<bool>, n: int, k: int)
    requires
        k <= n + 1,
    ensures
        live_below_upto(parents, alive, n, k) == 0,
    decreases k,
{
    if k > 0 {
        lemma_live_none_before(parents, alive, n, k - 1);
        if is_below(parents, k - 1, n) {
            lemma_below_is_later(parents, k - 1, n);
        }
    }
}

/// A live token below `n` among the first `k` makes the count positive.
proof fn lemma_live_positive(parents: Seq<Option<usize>>, alive: Seq<bool>, n: int, k: int, j: int)
    requires
        0 <= j < k,
        alive[j],
        is_below(parents, j, n),
    ensures
        live_below_upto(parents, alive, n, k) >= 1,
    decreases k,
{
    if j < k - 1 {
        lemma_live_positive(parents, alive, n, k - 1, j);
    }
}

/// Marking the live token `t` as dropped lowers every count above it by one.
proof fn lemma_live_drop(parents: Seq<Option<usize>>, alive: Seq<bool>, t: int, n: int, k: int)
    requires
        0 <= t < alive.len(),
        alive[t],
        k <= alive.len(),
    ensures
        live_below_upto(parents, alive.update(t, false), n, k) == live_below_upto(parents, alive, n, k)
            - if t < k && is_below(parents, t, n) { 1int } else { 0int },
    decreases k,
{
    if k > 0 {
        lemma_live_drop(parents, alive, t, n, k - 1);
        if k - 1 != t {
            assert(alive.update(t, false)[k - 1] == alive[k - 1]);
        }
    }
}

/// Unfolding below-ness by one parent edge.
proof fn lemma_at_or_below_step(parents: Seq<Option<usize>>, c: int, i: int)
    requires
        parents_precede(parents),
        0 <= c < parents.len(),
    ensures
        is_at_or_below(parents, c, i) == (i == c || (parents[c] matches Some(q) && is_at_or_below(
            parents,
            q as int,
            i,
        ))),
{
    assert(parents[c] matches Some(q) ==> q < c);
}

/// Law: the catcher of an error lies on the path from the raising token upwards,
/// catches errors of that kind, and every token passed on the way forwards them.
pub proof fn law_error_reaches_first_catcher(
    parents: Seq<Option<usize>>,
    policies: Seq<ErrorPolicy>,
    n: int,
    kind: SubsystemErrorKind,
)
    requires
        parents_precede(parents),
        policies.len() == parents.len(),
    ensures
        catcher(parents, policies, n, kind) matches Some(c) ==> {
            &&& is_at_or_below(parents, n, c)
            &&& 0 <= c < parents.len()
            &&& policy_catches(policies[c], kind)
            &&& forall|a: int|
                is_at_or_below(parents, n, a) && !is_at_or_below(parents, c, a) ==> !policy_catches(
                    #[trigger] policies[a],
                    kind,
                )
        },
        catcher(parents, policies, n, kind) is None && 0 <= n < parents.len() ==> forall|a: int|
            is_at_or_below(parents, n, a) ==> !policy_catches(#[trigger] policies[a], kind),
    decreases n,
{
    if 0 <= n < parents.len() {
        assert(parents[n] matches Some(p) ==> p < n);
        if !policy_catches(policies[n], kind) {
            match parents[n] {
                Some(p) => {
                    law_error_reaches_first_catcher(parents, policies, p as int, kind);
                    assert forall|a: int| is_at_or_below(parents, n, a) implies (a == n
                        || is_at_or_below(parents, p as int, a)) by {
                        lemma_at_or_below_step(parents, n, a);
                    }
                    if let Some(c) = catcher(parents, policies, n, kind) {
                        assert forall|a: int|
                            is_at_or_below(parents, n, a) && !is_at_or_below(
                                parents,
                                c,
                                a,
                            ) implies !policy_catches(#[trigger] policies[a], kind) by {
                            lemma_at_or_below_step(parents, n, a);
                        }
                    }
                },
                None => {
                    assert forall|a: int| is_at_or_below(parents, n, a) implies a == n by {}
                },
            }
        }
    }
}

/// Law: an error raised at or below a token that catches everything is
/// always caught by some token.
pub proof fn law_caught_below_catch_all(
    parents: Seq<Option<usize>>,
    policies: Seq<ErrorPolicy>,
    n: int,
    root: int,
    kind: SubsystemErrorKind,
)
    requires
        parents_precede(parents),
        policies.len() == parents.len(),
        0 <= n < parents.len(),
        is_at_or_below(parents, n, root),
        policies[root] == ErrorPolicy::CatchAll,
    ensures
        catcher(parents, policies, n, kind) is Some,
{
    law_error_reaches_first_catcher(parents, policies, n, kind);
    if catcher(parents, policies, n, kind) is None {
        assert(!policy_catches(policies[root], kind));
    }
}

/// Law: a token whose actions both forward never catches an error, so a
/// freshly built subsystem passes every error on to its parent.
pub proof fn law_forwarding_never_catches(kind: SubsystemErrorKind)
    ensures
        !policy_catches(
            ErrorPolicy::Actions(ErrorActions { on_failure: ErrorAction::Forward, on_panic: ErrorAction::Forward }),
            kind,
        ),
{
}

/// Law: creating a child token below `parent` and dropping it again leaves
/// the live count of every earlier token as it was.
pub proof fn law_child_then_drop_restores_counts(
    parents: Seq<Option<usize>>,
    alive: Seq<bool>,
    parent: usize,
    n: int,
)
    requires
        parents_precede(parents),
        alive.len() == parents.len(),
        parent < parents.len(),
        0 <= n < parents.len(),
    ensures
        live_below_upto(
            parents.push(Some(parent)),
            alive.push(true).update(parents.len() as int, false),
            n,
            parents.len() + 1int,
        ) == live_below_upto(parents, alive, n, parents.len() as int),
{
    let l = parents.len() as int;
    let new_parents = parents.push(Some(parent));
    let new_alive = alive.push(true);
    lemma_live_drop(new_parents, new_alive, l, n, l + 1);
    lemma_live_push(parents, alive, Some(parent), true, n, l);
    if parent as int != n {
        lemma_below_push(parents, Some(parent), parent as int, n);
    }
}

/// Law: the live count of a token is zero exactly when no live token lies
/// below it.
pub proof fn law_count_zero_iff_no_live_below(parents: Seq<Option<usize>>, alive: Seq<bool>, n: int, k: int)
    ensures
        live_below_upto(parents, alive, n, k) == 0 <==> forall|j: int|
            0 <= j < k ==> !(#[trigger] alive[j] && is_below(parents, j, n)),
    decreases k,
{
    if k > 0 {
        law_count_zero_iff_no_live_below(parents, alive, n, k - 1);
    }
}

/// Law: the live count of a token never exceeds the number of tokens.
pub proof fn law_count_bounded(parents: Seq<Option<usize>>, alive: Seq<bool>, n: int, k: int)
    requires
        0 <= k,
    ensures
        live_below_upto(parents, alive, n, k) <= k,
{
    lemma_live_bound(parents, alive, n, k);
}

/// Law: a parent counts its child, if alive, and every live token below the
/// child.
pub proof fn law_parent_counts_child_subtree(
    parents: Seq<Option<usize>>,
    alive: Seq<bool>,
    child: int,
    k: int,
)
    requires
        parents_precede(parents),
        alive.len() == parents.len(),
        0 <= child < parents.len(),
        parents[child] is Some,
        k <= parents.len(),
    ensures
        live_below_upto(parents, alive, parents[child]->0 as int, k) >= live_below_upto(
            parents,
            alive,
            child,
            k,
        ) + if child < k && alive[child] {
            1int
        } else {
            0int
        },
    decreases k,
{
    let parent = parents[child]->0 as int;
    assert(parents[child] matches Some(q) ==> q < child);
    if k > 0 {
        law_parent_counts_child_subtree(parents, alive, child, k - 1);
        let j = k - 1;
        if is_below(parents, j, child) {
            lemma_below_is_later(parents, j, child);
            lemma_below_parent(parents, j, child);
        }
        if j == child {
            assert(is_below(parents, child, parent));
        }
        assert(live_below_upto(parents, alive, parent, k) == live_below_upto(parents, alive, parent, k - 1)
            + if alive[j] && is_below(parents, j, parent) { 1nat } else { 0nat });
        assert(live_below_upto(parents, alive, child, k) == live_below_upto(parents, alive, child, k - 1)
            + if alive[j] && is_below(parents, j, child) { 1nat } else { 0nat });
    }
}

/// Law: once a subtree is joined, so is the subtree of each of its children:
/// a parent is never finished before its children.
pub proof fn law_joined_parent_has_joined_children(parents: Seq<Option<usize>>, alive: Seq<bool>, child: int)
    requires
        parents_precede(parents),
        alive.len() == parents.len(),
        0 <= child < parents.len(),
        parents[child] is Some,
        live_below_upto(parents, alive, parents[child]->0 as int, parents.len() as int) == 0,
    ensures
        !alive[child],
        live_below_upto(parents, alive, child, parents.len() as int) == 0,
{
    law_parent_counts_child_subtree(parents, alive, child, parents.len() as int);
}

/// The joiner tokens of one or more subsystem trees.
///
/// Tokens are numbered in the order of their creation; a child token is
/// always created after its parent.
pub struct JoinerTree {
    parents: Vec<Option<usize>>,
    alive: Vec<bool>,
    counts: Vec<usize>,
    policies: Vec<ErrorPolicy>,
}

impl JoinerTree {
    /// The number of tokens ever created.
    pub open spec fn spec_len(&self) -> nat {
        self.spec_parents().len()
    }

    /// The parent of each token.
    pub closed spec fn spec_parents(&self) -> Seq<Option<usize>> {
        self.parents@
    }

    /// Whether each token is still alive.
    pub closed spec fn spec_alive(&self) -> Seq<bool> {
        self.alive@
    }

    /// The error policy of each token.
    pub closed spec fn spec_policies(&self) -> Seq<ErrorPolicy> {
        self.policies@
    }

    /// The number of live tokens below token `n`.
    pub open spec fn spec_count(&self, n: int) -> nat {
        live_below_upto(self.spec_parents(), self.spec_alive(), n, self.spec_len() as int)
    }

    /// Token `n` or a token below it is alive.
    pub open spec fn spec_recursive_alive(&self, n: int) -> bool {
        self.spec_alive()[n] || self.spec_count(n) > 0
    }

    /// The internal consistency of the tree: the stored counters are the
    /// numbers of live tokens below each token.
    pub closed spec fn wf(&self) -> bool {
        &&& self.alive@.len() == self.parents@.len()
        &&& self.counts@.len() == self.parents@.len()
        &&& self.policies@.len() == self.parents@.len()
        &&& parents_precede(self.parents@)
        &&& forall|i: int|
            0 <= i < self.parents@.len() ==> #[trigger] self.counts@[i] == live_below_upto(
                self.parents@,
                self.alive@,
                i,
                self.parents@.len() as int,
            )
    }

    /// In a consistent tree every token has a liveness flag and a policy, and
    /// every parent was created before its children.
    pub proof fn lemma_shape(&self)
        requires
            self.wf(),
        ensures
            self.spec_alive().len() == self.spec_len(),
            self.spec_policies().len() == self.spec_len(),
            parents_precede(self.spec_parents()),
    {
    }

    /// Creates a tree without tokens.
    pub fn new() -> (tree: Self)
        ensures
            tree.wf(),
            tree.spec_parents() == Seq::<Option<usize>>::empty(),
            tree.spec_alive() == Seq::<bool>::empty(),
            tree.spec_policies() == Seq::<ErrorPolicy>::empty(),
    {
        JoinerTree { parents: Vec::new(), alive: Vec::new(), counts: Vec::new(), policies: Vec::new() }
    }

    /// The number of tokens ever created.
    pub fn len(&self) -> (n: usize)
        requires
            self.wf(),
        ensures
            n == self.spec_len(),
    {
        self.parents.len()
    }

    /// Creates a new root token.
    ///
    /// The `policy` decides which errors raised at or below the token
    /// are caught here.
    pub fn new_token(&mut self, policy: ErrorPolicy) -> (token: usize)
        requires
            old(self).wf(),
        ensures
            final(self).wf(),
            token == old(self).spec_len(),
            final(self).spec_parents() == old(self).spec_parents().push(None),
            final(self).spec_alive() == old(self).spec_alive().push(true),
            final(self).spec_policies() == old(self).spec_policies().push(policy),
            final(self).spec_count(token as int) == 0,
            forall|i: int|
                0 <= i < old(self).spec_len() ==> #[trigger] final(self).spec_count(i) == old(
                    self,
                ).spec_count(i),
    {
        let ghost old_parents = self.parents@;
        let ghost old_alive = self.alive@;
        let len = self.parents.len();
        self.parents.push(None);
        self.alive.push(true);
        self.counts.push(0);
        self.policies.push(policy);
        proof {
            let len = len as int;
            assert forall|i: int| 0 <= i < len + 1 implies #[trigger] self.counts@[i]
                == live_below_upto(self.parents@, self.alive@, i, len + 1) by {
                lemma_live_push(old_parents, old_alive, None, true, i, len);
                if i == len {
                    lemma_live_none_before(self.parents@, self.alive@, i, len + 1);
                }
            }
            assert(self.spec_count(len) == self.counts@[len]);
            assert forall|i: int| 0 <= i < len implies #[trigger] self.spec_count(i) == live_below_upto(
                old_parents,
                old_alive,
                i,
                len,
            ) by {
                assert(self.counts@[i] == live_below_upto(self.parents@, self.alive@, i, len + 1));
                lemma_live_push(old_parents, old_alive, None, true, i, len);
            }
            assert(parents_precede(self.parents@)) by {
                assert forall|i: int| 0 <= i < len + 1 implies (#[trigger] self.parents@[i] matches Some(
                    p,
                ) ==> p < i) by {
                    if i < len {
                        assert(old_parents[i] == self.parents@[i]);
                    }
                }
            }
        }
        len
    }

    /// Creates a token below `parent`.
    ///
    /// Every token at or above `parent` counts one more live token below it.
    pub fn child_token(&mut self, parent: usize, policy: ErrorPolicy) -> (token: usize)
        requires
            old(self).wf(),
            parent < old(self).spec_len(),
        ensures
            final(self).wf(),
            token == old(self).spec_len(),
            final(self).spec_parents() == old(self).spec_parents().push(Some(parent)),
            final(self).spec_alive() == old(self).spec_alive().push(true),
            final(self).spec_policies() == old(self).spec_policies().push(policy),
            final(self).spec_count(token as int) == 0,
            forall|i: int|
                0 <= i < old(self).spec_len() ==> #[trigger] final(self).spec_count(i) == old(
                    self,
                ).spec_count(i) + if is_at_or_below(old(self).spec_parents(), parent as int, i) {
                    1int
                } else {
                    0int
                },
    {
        let ghost old_parents = self.parents@;
        let ghost old_alive = self.alive@;
        let ghost old_counts = self.counts@;
        let ghost old_policies = self.policies@;
        let len = self.parents.len();
        let mut cur: Option<usize> = Some(parent);
        while cur.is_some()
            invariant
                self.parents@ == old_parents,
                self.alive@ == old_alive,
                self.policies@ == old_policies,
                old_policies.len() == len,
                old_parents.len() == len,
                old_alive.len() == len,
                self.counts@.len() == len,
                parent < len,
                parents_precede(old_parents),
                forall|i: int|
                    0 <= i < len ==> #[trigger] old_counts[i] == live_below_upto(
                        old_parents,
                        old_alive,
                        i,
                        len as int,
                    ),
                cur matches Some(c) ==> c < len && is_at_or_below(old_parents, parent as int, c as int),
                forall|i: int|
                    0 <= i < len ==> #[trigger] self.counts@[i] == old_counts[i] + if is_at_or_below(
                        old_parents,
                        parent as int,
                        i,
                    ) && !(cur matches Some(c) && is_at_or_below(old_parents, c as int, i)) {
                        1int
                    } else {
                        0int
                    },
            decreases
                match cur {
                    Some(c) => c + 1,
                    None => 0,
                },
        {
            let c = cur.unwrap();
            proof {
                lemma_live_bound_after(old_parents, old_alive, c as int, len as int);
            }
            let v = self.counts[c];
            self.counts.set(c, v + 1);
            let next = self.parents[c];
            proof {
                assert(old_parents[c as int] matches Some(q) ==> q < c);
                if let Some(q) = next {
                    if is_at_or_below(old_parents, q as int, c as int) {
                        lemma_below_is_later(old_parents, q as int, c as int);
                    }
                    if c != parent {
                        lemma_below_parent(old_parents, parent as int, c as int);
                    }
                }
                assert forall|i: int| 0 <= i < len implies #[trigger] self.counts@[i] == old_counts[i]
                    + if is_at_or_below(old_parents, parent as int, i) && !(next matches Some(q)
                    && is_at_or_below(old_parents, q as int, i)) {
                    1int
                } else {
                    0int
                } by {
                    lemma_at_or_below_step(old_parents, c as int, i);
                }
            }
            cur = next;
        }
        self.parents.push(Some(parent));
        self.alive.push(true);
        self.counts.push(0);
        self.policies.push(policy);
        proof {
            let l = len as int;
            let x = Some(parent);
            assert forall|i: int| 0 <= i < l + 1 implies #[trigger] self.counts@[i]
                == live_below_upto(self.parents@, self.alive@, i, l + 1) by {
                lemma_live_push(old_parents, old_alive, x, true, i, l);
                if i == l {
                    lemma_live_none_before(self.parents@, self.alive@, i, l + 1);
                } else {
                    if parent as int != i {
                        lemma_below_push(old_parents, x, parent as int, i);
                    }
                    assert(self.parents@[l] == x);
                }
            }
            assert(self.spec_count(l) == self.counts@[l]);
            assert(parents_precede(self.parents@)) by {
                assert forall|i: int| 0 <= i < l + 1 implies (#[trigger] self.parents@[i] matches Some(
                    p,
                ) ==> p < i) by {
                    if i < l {
                        assert(old_parents[i] == self.parents@[i]);
                    }
                }
            }
            assert forall|i: int| 0 <= i < l implies #[trigger] self.spec_count(i) == live_below_upto(
                old_parents,
                old_alive,
                i,
                l,
            ) + if is_at_or_below(old_parents, parent as int, i) {
                1int
            } else {
                0int
            } by {
                assert(self.counts@[i] == live_below_upto(self.parents@, self.alive@, i, l + 1));
            }
        }
        len
    }

    /// Drops the live token `token`.
    ///
    /// Every token above it counts one live token less below it; the
    /// token's own count is unchanged.
    pub fn drop_token(&mut self, token: usize)
        requires
            old(self).wf(),
            token < old(self).spec_len(),
            old(self).spec_alive()[token as int],
        ensures
            final(self).wf(),
            final(self).spec_parents() == old(self).spec_parents(),
            final(self).spec_alive() == old(self).spec_alive().update(token as int, false),
            final(self).spec_policies() == old(self).spec_policies(),
            forall|i: int|
                0 <= i < old(self).spec_len() ==> #[trigger] final(self).spec_count(i) == old(
                    self,
                ).spec_count(i) - if is_below(old(self).spec_parents(), token as int, i) {
                    1int
                } else {
                    0int
                },
    {
        let ghost old_parents = self.parents@;
        let ghost old_alive = self.alive@;
        let ghost old_counts = self.counts@;
        let ghost old_policies = self.policies@;
        let len = self.parents.len();
        self.alive.set(token, false);
        let mut cur: Option<usize> = self.parents[token];
        proof {
            assert(old_parents[token as int] matches Some(q) ==> q < token);
            assert forall|i: int| 0 <= i < len implies !(is_below(old_parents, token as int, i) && !(
            cur matches Some(c) && is_at_or_below(old_parents, c as int, i))) by {}
        }
        while cur.is_some()
            invariant
                self.parents@ == old_parents,
                self.alive@ == old_alive.update(token as int, false),
                self.policies@ == old_policies,
                old_policies.len() == len,
                old_parents.len() == len,
                old_alive.len() == len,
                self.counts@.len() == len,
                token < len,
                old_alive[token as int],
                parents_precede(old_parents),
                forall|i: int|
                    0 <= i < len ==> #[trigger] old_counts[i] == live_below_upto(
                        old_parents,
                        old_alive,
                        i,
                        len as int,
                    ),
                cur matches Some(c) ==> c < len && is_below(old_parents, token as int, c as int),
                forall|i: int|
                    0 <= i < len ==> #[trigger] self.counts@[i] == old_counts[i] - if is_below(
                        old_parents,
                        token as int,
                        i,
                    ) && !(cur matches Some(c) && is_at_or_below(old_parents, c as int, i)) {
                        1int
                    } else {
                        0int
                    },
            decreases
                match cur {
                    Some(c) => c + 1,
                    None => 0,
                },
        {
            let c = cur.unwrap();
            proof {
                lemma_live_positive(old_parents, old_alive, c as int, len as int, token as int);
            }
            let v = self.counts[c];
            self.counts.set(c, v - 1);
            let next = self.parents[c];
            proof {
                assert(old_parents[c as int] matches Some(q) ==> q < c);
                if let Some(q) = next {
                    if is_at_or_below(old_parents, q as int, c as int) {
                        lemma_below_is_later(old_parents, q as int, c as int);
                    }
                    lemma_below_parent(old_parents, token as int, c as int);
                }
                assert forall|i: int| 0 <= i < len implies #[trigger] self.counts@[i] == old_counts[i]
                    - if is_below(old_parents, token as int, i) && !(next matches Some(q)
                    && is_at_or_below(old_parents, q as int, i)) {
                    1int
                } else {
                    0int
                } by {
                    lemma_at_or_below_step(old_parents, c as int, i);
                }
            }
            cur = next;
        }
        proof {
            assert forall|i: int| 0 <= i < len implies #[trigger] self.counts@[i] == live_below_upto(
                self.parents@,
                self.alive@,
                i,
                len as int,
            ) by {
                lemma_live_drop(old_parents, old_alive, token as int, i, len as int);
            }
            assert forall|i: int| 0 <= i < len implies #[trigger] self.spec_count(i) == old_counts[i]
                - if is_below(old_parents, token as int, i) {
                1int
            } else {
                0int
            } by {
                assert(self.counts@[i] == live_below_upto(self.parents@, self.alive@, i, len as int));
            }
        }
    }

    /// The number of live tokens below `token`.
    pub fn count(&self, token: usize) -> (n: usize)
        requires
            self.wf(),
            token < self.spec_len(),
        ensures
            n == self.spec_count(token as int),
    {
        self.counts[token]
    }

    /// Whether `token` itself is still alive.
    pub fn alive(&self, token: usize) -> (a: bool)
        requires
            self.wf(),
            token < self.spec_len(),
        ensures
            a == self.spec_alive()[token as int],
    {
        self.alive[token]
    }

    /// Whether `token` or any token below it is still alive.
    pub fn recursive_alive(&self, token: usize) -> (a: bool)
        requires
            self.wf(),
            token < self.spec_len(),
        ensures
            a == self.spec_recursive_alive(token as int),
    {
        self.alive[token] || self.counts[token] > 0
    }

    /// Whether the subtree of `token` is finished: the token was dropped and
    /// no live token remains below it.
    pub fn is_joined(&self, token: usize) -> (joined: bool)
        requires
            self.wf(),
            token < self.spec_len(),
        ensures
            joined == !self.spec_recursive_alive(token as int),
    {
        !self.recursive_alive(token)
    }

    /// Whether all tokens below `token` were dropped.
    pub fn children_joined(&self, token: usize) -> (joined: bool)
        requires
            self.wf(),
            token < self.spec_len(),
        ensures
            joined == (self.spec_count(token as int) == 0),
    {
        self.counts[token] == 0
    }

    /// Finds the token that catches an error of kind `kind` raised at `token`.
    ///
    /// The error is offered to `token` first, then to each token above it in
    /// turn. `None` means that no token catches it.
    pub fn raise_failure(&self, token: usize, kind: SubsystemErrorKind) -> (caught_by: Option<usize>)
        requires
            self.wf(),
            token < self.spec_len(),
        ensures
            caught_by matches Some(c) ==> catcher(
                self.spec_parents(),
                self.spec_policies(),
                token as int,
                kind,
            ) == Some(c as int),
            caught_by is None ==> catcher(self.spec_parents(), self.spec_policies(), token as int, kind)
                is None,
    {
        let mut cur: Option<usize> = Some(token);
        while cur.is_some()
            invariant
                self.wf(),
                cur matches Some(c) ==> c < self.spec_len(),
                catcher(self.spec_parents(), self.spec_policies(), token as int, kind) == match cur {
                    Some(c) => catcher(self.spec_parents(), self.spec_policies(), c as int, kind),
                    None => None,
                },
            decreases
                match cur {
                    Some(c) => c + 1,
                    None => 0,
                },
        {
            let c = cur.unwrap();
            if self.policies[c].catches(kind) {
                return Some(c);
            }
            proof {
                assert(self.parents@[c as int] matches Some(q) ==> q < c);
            }
            cur = self.parents[c];
        }
        None
    }

    /// The parent of `token`, or `None` for a root token.
    pub fn parent(&self, token: usize) -> (parent: Option<usize>)
        requires
            self.wf(),
            token < self.spec_len(),
        ensures
            parent == self.spec_parents()[token as int],
    {
        self.parents[token]
    }

    /// The error policy of `token`.
    pub fn policy(&self, token: usize) -> (policy: ErrorPolicy)
        requires
            self.wf(),
            token < self.spec_len(),
        ensures
            policy == self.spec_policies()[token as int],
    {
        self.policies[token]
    }

    /// Describes `token` by its count of live tokens below it.
    pub fn debug_token(&self, token: usize) -> (text: String)
        requires
            self.wf(),
            token < self.spec_len(),
        ensures
            text@ == "JoinerToken(children = "@ + decimal(self.spec_count(token as int)) + ")"@,
    {
        let mut text = "JoinerToken(children = ".to_string();
        let count = decimal_string(self.counts[token]);
        push_str(&mut text, count.as_str());
        push_str(&mut text, ")");
        text
    }

    /// Describes the weak reference to `token` by whether the token is alive
    /// and its count of live tokens below it.
    pub fn debug_token_ref(&self, token: usize) -> (text: String)
        requires
            self.wf(),
            token < self.spec_len(),
        ensures
            text@ == "JoinerTokenRef(alive = "@ + (if self.spec_alive()[token as int] { "true"@ } else { "false"@ })
                + ", children = "@ + decimal(self.spec_count(token as int)) + ")"@,
    {
        let mut text = "JoinerTokenRef(alive = ".to_string();
        push_str(&mut text, bool_string(self.alive[token]));
        push_str(&mut text, ", children = ");
        let count = decimal_string(self.counts[token]);
        push_str(&mut text, count.as_str());
        push_str(&mut text, ")");
        text
    }

    /// Replaces the error policy of `token`.
    pub fn set_policy(&mut self, token: usize, policy: ErrorPolicy)
        requires
            old(self).wf(),
            token < old(self).spec_len(),
        ensures
            final(self).wf(),
            final(self).spec_parents() == old(self).spec_parents(),
            final(self).spec_alive() == old(self).spec_alive(),
            final(self).spec_policies() == old(self).spec_policies().update(token as int, policy),
    {
        self.policies.set(token, policy);
    }
}

} // verus!
