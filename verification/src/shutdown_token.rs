//! A token through which a shutdown is requested and observed.
use vstd::prelude::*;

use tokio_util::sync::CancellationToken;

verus! {

/// The cancellation token of `tokio-util`, carried through as an opaque value.
#[verifier::external_type_specification]
#[verifier::external_body]
pub struct ExCancellationToken(CancellationToken);

/// `CancellationToken::new` creates a token in the non-cancelled state.
/// Nothing is stated of the token, whose state is shared and changes over time.
pub assume_specification[ CancellationToken::new ]() -> CancellationToken;

/// `CancellationToken::child_token` creates a new token, a new node of the
/// cancellation tree below the given one: it gets cancelled whenever the
/// given one gets cancelled, but cancelling it leaves the given one alone.
/// Stated: the child is a token other than the given one. Nothing is stated
/// of its cancellation state, which is shared and changes over time.
pub assume_specification[ CancellationToken::child_token ](token: &CancellationToken) -> (child: CancellationToken)
    ensures
        child != *token,
;

/// `CancellationToken::cancel` cancels the token and all tokens derived from
/// it. Its effect on the shared state is not stated.
pub assume_specification[ CancellationToken::cancel ](token: &CancellationToken);

/// `CancellationToken::is_cancelled` reports whether the token was
/// cancelled. The answer depends on the shared state; nothing is stated of it.
pub assume_specification[ CancellationToken::is_cancelled ](token: &CancellationToken) -> bool;

/// Cloning a `CancellationToken` yields another handle to the same node of
/// the cancellation tree: the two get cancelled together, either way.
/// Stated: the clone is the same token as the given one.
pub assume_specification[ <CancellationToken as Clone>::clone ](token: &CancellationToken) -> (clone: CancellationToken)
    ensures
        clone == *token,
;

/// A token through which a shutdown is requested and observed.
///
/// A toplevel token stands for the whole program; its child tokens stand
/// for partial shutdowns of a subtree.
#[derive(Clone)]
pub struct ShutdownToken {
    token: CancellationToken,
    is_toplevel: bool,
}

/// Creates the toplevel shutdown token.
pub fn create_shutdown_token() -> (token: ShutdownToken)
    ensures
        token.spec_is_toplevel(),
{
    ShutdownToken { token: CancellationToken::new(), is_toplevel: true }
}

/// The log line of a shutdown initiated through a token: a program
/// shutdown for a toplevel token, a partial shutdown otherwise.
pub fn shutdown_message(is_toplevel: bool) -> (message: &'static str)
    ensures
        is_toplevel ==> message@ == "Initiating shutdown ..."@,
        !is_toplevel ==> message@ == "Initiating partial shutdown ..."@,
{
    if is_toplevel {
        "Initiating shutdown ..."
    } else {
        "Initiating partial shutdown ..."
    }
}

/// Whether a shutdown request initiates the shutdown: only when no shutdown
/// was requested before. A later request changes nothing.
pub fn initiates_shutdown(already_requested: bool) -> (initiate: bool)
    ensures
        initiate == !already_requested,
{
    !already_requested
}

impl ShutdownToken {
    /// Whether this token stands for the whole program.
    pub closed spec fn spec_is_toplevel(&self) -> bool {
        self.is_toplevel
    }

    /// The underlying cancellation token.
    pub closed spec fn spec_token(&self) -> CancellationToken {
        self.token
    }

    /// Requests the shutdown, unless it was requested before.
    ///
    /// Reads whether the token is already cancelled, lets
    /// [`initiates_shutdown`] decide, and cancels the token exactly when it
    /// decided to initiate. Returns that decision. Whether the token was
    /// cancelled before is shared state that other holders change at any
    /// time, so the contract does not state it.
    pub fn shutdown(&self) -> (initiated: bool) {
        let already_requested = self.token.is_cancelled();
        let initiate = initiates_shutdown(already_requested);
        if initiate {
            self.token.cancel();
        }
        initiate
    }

    /// Whether a shutdown was requested.
    pub fn is_shutting_down(&self) -> (shutting_down: bool) {
        self.token.is_cancelled()
    }

    /// Creates a token for a partial shutdown that also gets triggered by
    /// this one.
    ///
    /// The child is a token of its own, not a handle to this one, so that
    /// shutting the child down leaves this token and its other children
    /// running.
    pub fn child_token(&self) -> (child: ShutdownToken)
        ensures
            !child.spec_is_toplevel(),
            child.spec_token() != self.spec_token(),
    {
        ShutdownToken { token: self.token.child_token(), is_toplevel: false }
    }

    /// Whether this token stands for the whole program.
    pub fn is_toplevel(&self) -> (toplevel: bool)
        ensures
            toplevel == self.spec_is_toplevel(),
    {
        self.is_toplevel
    }

    /// The underlying cancellation token.
    pub fn cancellation_token(&self) -> (token: &CancellationToken)
        ensures
            *token == self.spec_token(),
    {
        &self.token
    }
}

} // verus!
