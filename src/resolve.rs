//! Resolution of address specifications, and the ordered fallback over the
//! resolved addresses that every bind and connect operation shares.

use vstd::prelude::*;
use crate::addr::{IpAddr, Ipv4Addr, Ipv6Addr, SocketAddr, SocketAddrV4, SocketAddrV6, socket_addr_of};
use crate::error::{ErrorKind, IoError, IoErrorView, no_address_error};

verus! {

/// A value that denotes zero, one or more socket addresses.
///
/// `R` is the runtime handle through which a resolution may be carried out.
pub trait ToSocketAddrs<R> {
    /// The addresses that this value denotes, in the order they are to be tried.
    fn to_socket_addrs(&self, runtime: &R) -> Result<Vec<SocketAddr>, IoError>;
}

impl<R> ToSocketAddrs<R> for SocketAddr {
    fn to_socket_addrs(&self, runtime: &R) -> (r: Result<Vec<SocketAddr>, IoError>)
        ensures
            r matches Ok(v) && v@ == seq![*self],
    {
        let mut v: Vec<SocketAddr> = Vec::new();
        v.push(*self);
        Ok(v)
    }
}

impl<R> ToSocketAddrs<R> for SocketAddrV4 {
    fn to_socket_addrs(&self, runtime: &R) -> (r: Result<Vec<SocketAddr>, IoError>)
        ensures
            r matches Ok(v) && v@ == seq![SocketAddr::V4(*self)],
    {
        <SocketAddr as ToSocketAddrs<R>>::to_socket_addrs(&SocketAddr::V4(*self), runtime)
    }
}

impl<R> ToSocketAddrs<R> for SocketAddrV6 {
    fn to_socket_addrs(&self, runtime: &R) -> (r: Result<Vec<SocketAddr>, IoError>)
        ensures
            r matches Ok(v) && v@ == seq![SocketAddr::V6(*self)],
    {
        <SocketAddr as ToSocketAddrs<R>>::to_socket_addrs(&SocketAddr::V6(*self), runtime)
    }
}

impl<R> ToSocketAddrs<R> for (IpAddr, u16) {
    fn to_socket_addrs(&self, runtime: &R) -> (r: Result<Vec<SocketAddr>, IoError>)
        ensures
            r matches Ok(v) && v@ == seq![socket_addr_of(self.0, self.1)],
    {
        <SocketAddr as ToSocketAddrs<R>>::to_socket_addrs(&SocketAddr::new(self.0, self.1), runtime)
    }
}

impl<R> ToSocketAddrs<R> for (Ipv4Addr, u16) {
    fn to_socket_addrs(&self, runtime: &R) -> (r: Result<Vec<SocketAddr>, IoError>)
        ensures
            r matches Ok(v) && v@ == seq![socket_addr_of(IpAddr::V4(self.0), self.1)],
    {
        <(IpAddr, u16) as ToSocketAddrs<R>>::to_socket_addrs(&(IpAddr::V4(self.0), self.1), runtime)
    }
}

impl<R> ToSocketAddrs<R> for (Ipv6Addr, u16) {
    fn to_socket_addrs(&self, runtime: &R) -> (r: Result<Vec<SocketAddr>, IoError>)
        ensures
            r matches Ok(v) && v@ == seq![socket_addr_of(IpAddr::V6(self.0), self.1)],
    {
        <(IpAddr, u16) as ToSocketAddrs<R>>::to_socket_addrs(&(IpAddr::V6(self.0), self.1), runtime)
    }
}

impl<'a, R> ToSocketAddrs<R> for &'a [SocketAddr] {
    fn to_socket_addrs(&self, runtime: &R) -> (r: Result<Vec<SocketAddr>, IoError>)
        ensures
            r matches Ok(v) && v@ == self@,
    {
        let mut v: Vec<SocketAddr> = Vec::new();
        let mut i: usize = 0;
        while i < self.len()
            invariant
                i <= self@.len(),
                v@ == self@.subrange(0, i as int),
            decreases self@.len() - i,
        {
            v.push(self[i]);
            i = i + 1;
        }
        assert(v@ == self@);
        Ok(v)
    }
}

/// What the driver of a bind or connect operation is to do next.
pub enum RetryAction {
    /// Try the operation on this address.
    Attempt(SocketAddr),
    /// Stop: the operation succeeded on the address at this index, and its
    /// result is the operation's result.
    Finish(usize),
    /// Stop: the operation fails with this error.
    Fail(IoError),
}

/// [`RetryAction`] as plain values.
pub enum RetryStep {
    Attempt(SocketAddr),
    Finish(nat),
    Fail(IoErrorView),
}

impl View for RetryAction {
    type V = RetryStep;

    open spec fn view(&self) -> RetryStep {
        match self {
            RetryAction::Attempt(a) => RetryStep::Attempt(*a),
            RetryAction::Finish(i) => RetryStep::Finish(*i as nat),
            RetryAction::Fail(e) => RetryStep::Fail(e@),
        }
    }
}

/// What one attempt of the operation came to.
pub enum AttemptOutcome {
    Succeeded,
    Failed(IoErrorView),
}

/// The state of an ordered fallback over resolved addresses.
pub struct RetryState {
    /// The resolved addresses, in order.
    pub addrs: Seq<SocketAddr>,
    /// How many of them have failed.
    pub failed: nat,
    /// The failure of the latest attempt, if one failed.
    pub last_error: Option<IoErrorView>,
    /// Whether the latest attempt succeeded.
    pub succeeded: bool,
}

/// The state before any attempt.
pub open spec fn retry_start(addrs: Seq<SocketAddr>) -> RetryState {
    RetryState { addrs, failed: 0, last_error: None, succeeded: false }
}

/// Whether the state asks for an attempt.
pub open spec fn is_attempting(s: RetryState) -> bool {
    !s.succeeded && s.failed < s.addrs.len()
}

/// What the driver is to do in state `s`: try the addresses in order, stop at
/// the first success, and once all have failed report the latest failure, or
/// the no-address failure when there was no address at all.
pub open spec fn retry_step(s: RetryState) -> RetryStep {
    if s.succeeded {
        RetryStep::Finish(s.failed)
    } else if s.failed < s.addrs.len() {
        RetryStep::Attempt(s.addrs[s.failed as int])
    } else {
        match s.last_error {
            Some(e) => RetryStep::Fail(e),
            None => RetryStep::Fail(no_address_error()),
        }
    }
}

/// The state after an attempt came to `o`; an outcome that no attempt was
/// asked for leaves the state as it was.
pub open spec fn retry_after(s: RetryState, o: AttemptOutcome) -> RetryState {
    if !is_attempting(s) {
        s
    } else {
        match o {
            AttemptOutcome::Succeeded => RetryState { succeeded: true, ..s },
            AttemptOutcome::Failed(e) => RetryState { failed: s.failed + 1, last_error: Some(e), ..s },
        }
    }
}

/// The actions that a driver is handed from state `s` when its attempts come
/// to `outcomes` in turn, up to and including the first action that stops.
pub open spec fn retry_run(s: RetryState, outcomes: Seq<AttemptOutcome>) -> Seq<RetryStep>
    decreases outcomes.len(),
{
    if outcomes.len() == 0 || !is_attempting(s) {
        seq![retry_step(s)]
    } else {
        seq![retry_step(s)] + retry_run(retry_after(s, outcomes[0]), outcomes.drop_first())
    }
}

/// The ordered fallback over resolved addresses.
///
/// The driver asks [`AddrRetry::next_action`] what to do, performs each
/// attempt, and reports it with [`AddrRetry::record_success`] or
/// [`AddrRetry::record_failure`].
pub struct AddrRetry {
    addrs: Vec<SocketAddr>,
    failed: usize,
    last_error: Option<IoError>,
    succeeded: bool,
}

impl View for AddrRetry {
    type V = RetryState;

    closed spec fn view(&self) -> RetryState {
        RetryState {
            addrs: self.addrs@,
            failed: self.failed as nat,
            last_error: match self.last_error {
                Some(e) => Some(e@),
                None => None,
            },
            succeeded: self.succeeded,
        }
    }
}

impl AddrRetry {
    /// The fallback is well formed when no more addresses have failed than
    /// there are.
    pub closed spec fn wf(&self) -> bool {
        self.failed <= self.addrs@.len()
    }

    /// A fallback over `addrs`, before any attempt.
    pub fn new(addrs: Vec<SocketAddr>) -> (r: AddrRetry)
        ensures
            r.wf(),
            r@ == retry_start(addrs@),
    {
        AddrRetry { addrs, failed: 0, last_error: None, succeeded: false }
    }

    /// Resolves `spec` through `runtime` and starts a fallback over what it
    /// denotes; a failure to resolve is returned as it came.
    pub fn resolve<A: ToSocketAddrs<R>, R>(spec: &A, runtime: &R) -> (r: Result<AddrRetry, IoError>)
        ensures
            r matches Ok(m) ==> m.wf() && m@.failed == 0 && m@.last_error is None && !m@.succeeded,
    {
        match spec.to_socket_addrs(runtime) {
            Ok(addrs) => Ok(AddrRetry::new(addrs)),
            Err(e) => Err(e),
        }
    }

    /// What the driver is to do next.
    pub fn next_action(&self) -> (r: RetryAction)
        requires
            self.wf(),
        ensures
            r@ == retry_step(self@),
    {
        if self.succeeded {
            RetryAction::Finish(self.failed)
        } else if self.failed < self.addrs.len() {
            RetryAction::Attempt(self.addrs[self.failed])
        } else {
            match &self.last_error {
                Some(e) => RetryAction::Fail(e.clone()),
                None => {
                    let e = IoError::no_address_resolved();
                    RetryAction::Fail(e)
                },
            }
        }
    }

    /// Records that the attempt asked for succeeded.
    pub fn record_success(&mut self)
        requires
            old(self).wf(),
        ensures
            final(self).wf(),
            final(self)@ == retry_after(old(self)@, AttemptOutcome::Succeeded),
    {
        if !self.succeeded && self.failed < self.addrs.len() {
            self.succeeded = true;
        }
    }

    /// Records that the attempt asked for failed with `err`.
    pub fn record_failure(&mut self, err: IoError)
        requires
            old(self).wf(),
        ensures
            final(self).wf(),
            final(self)@ == retry_after(old(self)@, AttemptOutcome::Failed(err@)),
    {
        if !self.succeeded && self.failed < self.addrs.len() {
            self.failed = self.failed + 1;
            self.last_error = Some(err);
        }
    }
}

/// The state after the first `m` attempts from `s` failed as `outcomes` says.
pub open spec fn retry_after_failures(s: RetryState, outcomes: Seq<AttemptOutcome>, m: nat) -> RetryState {
    RetryState {
        failed: s.failed + m,
        last_error: if m == 0 {
            s.last_error
        } else {
            Some(outcomes[m - 1]->Failed_0)
        },
        ..s
    }
}

/// The attempts, in order, on the addresses from index `from` on, `m` of them.
pub open spec fn attempts_from(addrs: Seq<SocketAddr>, from: nat, m: nat) -> Seq<RetryStep> {
    Seq::new(m, |i: int| RetryStep::Attempt(addrs[from + i]))
}

proof fn lemma_failures(s: RetryState, outcomes: Seq<AttemptOutcome>, m: nat)
    requires
        !s.succeeded,
        s.failed + m <= s.addrs.len(),
        m <= outcomes.len(),
        forall|i: int| 0 <= i < m ==> #[trigger] outcomes[i] is Failed,
    ensures
        retry_run(s, outcomes) == attempts_from(s.addrs, s.failed, m) + retry_run(
            retry_after_failures(s, outcomes, m),
            outcomes.skip(m as int),
        ),
    decreases m,
{
    if m == 0 {
        assert(outcomes.skip(0) =~= outcomes);
        assert(retry_after_failures(s, outcomes, 0) == s);
        assert(attempts_from(s.addrs, s.failed, 0) =~= Seq::<RetryStep>::empty());
        assert(attempts_from(s.addrs, s.failed, m) + retry_run(s, outcomes) =~= retry_run(s, outcomes));
    } else {
        let next = retry_after(s, outcomes[0]);
        let rest = outcomes.drop_first();
        assert(outcomes[0] is Failed);
        assert(next == RetryState { failed: s.failed + 1, last_error: Some(outcomes[0]->Failed_0), ..s });
        assert forall|i: int| 0 <= i < (m - 1) as nat implies #[trigger] rest[i] is Failed by {
            assert(rest[i] == outcomes[i + 1]);
        }
        lemma_failures(next, rest, (m - 1) as nat);
        assert(rest.skip((m - 1) as int) =~= outcomes.skip(m as int));
        if m - 1 == 0 {
            assert(retry_after_failures(next, rest, 0) == retry_after_failures(s, outcomes, m));
        } else {
            assert(rest[m - 2] == outcomes[m - 1]);
            assert(retry_after_failures(next, rest, (m - 1) as nat) == retry_after_failures(s, outcomes, m));
        }
        assert(seq![RetryStep::Attempt(s.addrs[s.failed as int])] + attempts_from(next.addrs, next.failed, (m - 1) as nat)
            =~= attempts_from(s.addrs, s.failed, m));
        assert(retry_run(s, outcomes) == seq![retry_step(s)] + retry_run(next, rest));
        assert(retry_run(s, outcomes) =~= attempts_from(s.addrs, s.failed, m) + retry_run(
            retry_after_failures(s, outcomes, m),
            outcomes.skip(m as int),
        ));
    }
}

/// When the attempts on the first `k` resolved addresses fail and the one on
/// the next succeeds, the addresses are tried in their order up to and
/// including that one, none after it, and the operation finishes with the
/// result of that attempt.
pub proof fn lemma_first_success_wins(addrs: Seq<SocketAddr>, outcomes: Seq<AttemptOutcome>, k: nat)
    requires
        k < addrs.len(),
        k < outcomes.len(),
        forall|i: int| 0 <= i < k ==> #[trigger] outcomes[i] is Failed,
        outcomes[k as int] is Succeeded,
    ensures
        retry_run(retry_start(addrs), outcomes) == attempts_from(addrs, 0, k + 1).push(RetryStep::Finish(k)),
{
    let s = retry_start(addrs);
    lemma_failures(s, outcomes, k);
    let sk = retry_after_failures(s, outcomes, k);
    let rest = outcomes.skip(k as int);
    assert(rest[0] == outcomes[k as int]);
    let done = retry_after(sk, rest[0]);
    assert(done.succeeded && done.failed == k);
    assert(retry_run(done, rest.drop_first()) == seq![RetryStep::Finish(k)]);
    assert(retry_run(sk, rest) == seq![RetryStep::Attempt(addrs[k as int])] + seq![RetryStep::Finish(k)]);
    assert(attempts_from(addrs, 0, k) + (seq![RetryStep::Attempt(addrs[k as int])] + seq![RetryStep::Finish(k)])
        =~= attempts_from(addrs, 0, k + 1).push(RetryStep::Finish(k)));
}

/// When the attempts on all resolved addresses fail, every address is tried in
/// order and the operation fails with the failure of the last attempt.
pub proof fn lemma_all_fail_reports_last(addrs: Seq<SocketAddr>, outcomes: Seq<AttemptOutcome>)
    requires
        addrs.len() > 0,
        outcomes.len() >= addrs.len(),
        forall|i: int| 0 <= i < addrs.len() ==> #[trigger] outcomes[i] is Failed,
    ensures
        retry_run(retry_start(addrs), outcomes) == attempts_from(addrs, 0, addrs.len()).push(
            RetryStep::Fail(outcomes[addrs.len() - 1]->Failed_0),
        ),
{
    let s = retry_start(addrs);
    let n = addrs.len();
    lemma_failures(s, outcomes, n);
    let sn = retry_after_failures(s, outcomes, n);
    assert(!is_attempting(sn));
    assert(retry_run(sn, outcomes.skip(n as int)) == seq![RetryStep::Fail(outcomes[n - 1]->Failed_0)]);
    assert(attempts_from(addrs, 0, n) + seq![RetryStep::Fail(outcomes[n - 1]->Failed_0)]
        =~= attempts_from(addrs, 0, n).push(RetryStep::Fail(outcomes[n - 1]->Failed_0)));
}

/// An address specification that resolves to no address makes the operation
/// fail at once, without any attempt, with the no-address input failure.
pub proof fn lemma_no_address_fails(outcomes: Seq<AttemptOutcome>)
    ensures
        retry_run(retry_start(Seq::empty()), outcomes) == seq![RetryStep::Fail(no_address_error())],
        no_address_error().kind == ErrorKind::InvalidInput,
{
}

/// The address that a datagram goes to, given the addresses that its
/// destination resolved to: the first of them. With no address at all the
/// send fails with the no-address input failure.
pub fn send_target(addrs: &Vec<SocketAddr>) -> (r: Result<SocketAddr, IoError>)
    ensures
        addrs@.len() > 0 ==> r == Ok::<SocketAddr, IoError>(addrs@[0]),
        addrs@.len() == 0 ==> (r matches Err(e) && e@ == no_address_error()),
{
    if addrs.len() > 0 {
        Ok(addrs[0])
    } else {
        Err(IoError::no_address_resolved())
    }
}

} // verus!
