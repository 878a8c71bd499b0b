//! The retry policy: one logical request, repeated only while the service
//! says that it is overloaded, with a wait that doubles each time.

use vstd::prelude::*;

use super::classify::{classify, status_class, StatusClass};
use super::error::{MbError, MbErrorView};

verus! {

/// How often an overloaded request is tried again by default.
pub const MAX_RETRIES: u32 = 3;

/// The default wait before the first retry, in nanoseconds: one second.
pub const INITIAL_BACKOFF: u64 = 1_000_000_000;

/// The status code by which the service says that it is overloaded.
pub const OVERLOADED: u16 = 503;

/// Two to the power of `e`.
pub open spec fn pow2(e: nat) -> nat
    decreases e,
{
    if e == 0 {
        1
    } else {
        2 * pow2((e - 1) as nat)
    }
}

/// The sum of the powers of two below `2^e`: `2^0 + 2^1 + ... + 2^(e-1)`.
pub open spec fn sum_pow2(e: nat) -> nat
    decreases e,
{
    if e == 0 {
        0
    } else {
        sum_pow2((e - 1) as nat) + pow2((e - 1) as nat)
    }
}

/// A retry policy, mathematically.
pub struct PolicyModel {
    pub max_retries: nat,
    pub initial_backoff: nat,
}

impl PolicyModel {
    /// The wait before the retry that follows `retries` earlier ones: the
    /// initial wait, doubled once for each earlier retry.
    pub open spec fn backoff(self, retries: nat) -> nat
        decreases retries,
    {
        if retries == 0 {
            self.initial_backoff
        } else {
            2 * self.backoff((retries - 1) as nat)
        }
    }

    /// The sum of the waits before the first `retries` retries.
    pub open spec fn total_backoff(self, retries: nat) -> nat
        decreases retries,
    {
        if retries == 0 {
            0
        } else {
            self.total_backoff((retries - 1) as nat) + self.backoff((retries - 1) as nat)
        }
    }

    /// Every wait of the policy, and the one after the last, fits in 64
    /// bits.
    pub open spec fn fits(self) -> bool {
        self.backoff(self.max_retries) <= u64::MAX
    }

    /// Waits grow with the number of retries.
    pub proof fn lemma_backoff_grows(self, earlier: nat, later: nat)
        requires
            earlier <= later,
        ensures
            self.backoff(earlier) <= self.backoff(later),
        decreases later,
    {
        if earlier < later {
            self.lemma_backoff_grows(earlier, (later - 1) as nat);
        }
    }

    /// The sum of the waits grows with the number of retries.
    pub proof fn lemma_total_grows(self, earlier: nat, later: nat)
        requires
            earlier <= later,
        ensures
            self.total_backoff(earlier) <= self.total_backoff(later),
        decreases later,
    {
        if earlier < later {
            self.lemma_total_grows(earlier, (later - 1) as nat);
        }
    }

    /// The backoff law. The wait before retry number `retries + 1` is the
    /// initial wait times `2^retries`, and the waits before the first
    /// `retries` retries add up to the initial wait times
    /// `2^0 + 2^1 + ... + 2^(retries-1)`.
    pub proof fn lemma_backoff_is_exponential(self, retries: nat)
        ensures
            self.backoff(retries) == self.initial_backoff * pow2(retries),
            self.total_backoff(retries) == self.initial_backoff * sum_pow2(retries),
        decreases retries,
    {
        if retries > 0 {
            let r = (retries - 1) as nat;
            self.lemma_backoff_is_exponential(r);
            assert(2 * (self.initial_backoff * pow2(r)) == self.initial_backoff * (2 * pow2(r)))
                by (nonlinear_arith);
            assert(self.initial_backoff * sum_pow2(r) + self.initial_backoff * pow2(r)
                == self.initial_backoff * (sum_pow2(r) + pow2(r))) by (nonlinear_arith);
        } else {
            assert(self.initial_backoff * 1 == self.initial_backoff);
            assert(self.initial_backoff * 0 == 0);
        }
    }
}

/// A retry policy: how often an overloaded request is tried again, and how
/// long the first wait is. Its waits fit in 64 bits.
#[derive(Debug, Clone, Copy)]
pub struct RetryPolicy {
    max_retries: u32,
    initial_backoff: u64,
}

impl View for RetryPolicy {
    type V = PolicyModel;

    closed spec fn view(&self) -> PolicyModel {
        PolicyModel {
            max_retries: self.max_retries as nat,
            initial_backoff: self.initial_backoff as nat,
        }
    }
}

impl RetryPolicy {
    #[verifier::type_invariant]
    spec fn well_formed(self) -> bool {
        self@.fits()
    }

    /// The policy with `max_retries` retries and a first wait of
    /// `initial_backoff` nanoseconds; none where a wait of it would not fit
    /// in 64 bits.
    pub fn new(max_retries: u32, initial_backoff: u64) -> (policy: Option<RetryPolicy>)
        ensures
            match policy {
                Some(p) => p@ == (PolicyModel {
                    max_retries: max_retries as nat,
                    initial_backoff: initial_backoff as nat,
                }) && p@.fits(),
                None => !(PolicyModel {
                    max_retries: max_retries as nat,
                    initial_backoff: initial_backoff as nat,
                }).fits(),
            },
    {
        let ghost model = PolicyModel {
            max_retries: max_retries as nat,
            initial_backoff: initial_backoff as nat,
        };
        if initial_backoff > 0 {
            let mut backoff: u64 = initial_backoff;
            let mut retries: u32 = 0;
            while retries < max_retries
                invariant
                    retries <= max_retries,
                    backoff > 0,
                    backoff as nat == model.backoff(retries as nat),
                    model == (PolicyModel {
                        max_retries: max_retries as nat,
                        initial_backoff: initial_backoff as nat,
                    }),
                decreases max_retries - retries,
            {
                match backoff.checked_mul(2) {
                    Some(doubled) => {
                        backoff = doubled;
                        retries = retries + 1;
                    },
                    None => {
                        proof {
                            model.lemma_backoff_grows((retries + 1) as nat, max_retries as nat);
                        }
                        return None;
                    },
                }
            }
        } else {
            proof {
                model.lemma_backoff_is_exponential(max_retries as nat);
                assert(0 * pow2(max_retries as nat) == 0);
            }
        }
        Some(RetryPolicy { max_retries, initial_backoff })
    }

    /// How often an overloaded request is tried again.
    pub fn max_retries(&self) -> (max_retries: u32)
        ensures
            max_retries as nat == self@.max_retries,
    {
        self.max_retries
    }

    /// The wait before the first retry, in nanoseconds.
    pub fn initial_backoff(&self) -> (initial_backoff: u64)
        ensures
            initial_backoff as nat == self@.initial_backoff,
    {
        self.initial_backoff
    }
}

impl Default for RetryPolicy {
    /// Three retries, the first after one second.
    fn default() -> (policy: RetryPolicy)
        ensures
            policy@ == (PolicyModel {
                max_retries: MAX_RETRIES as nat,
                initial_backoff: INITIAL_BACKOFF as nat,
            }),
    {
        proof {
            let model = PolicyModel {
                max_retries: MAX_RETRIES as nat,
                initial_backoff: INITIAL_BACKOFF as nat,
            };
            reveal_with_fuel(PolicyModel::backoff, 5);
            assert(model.backoff(3) == 8 * INITIAL_BACKOFF);
        }
        RetryPolicy { max_retries: MAX_RETRIES, initial_backoff: INITIAL_BACKOFF }
    }
}

/// What the client does next with a response, told from its status.
#[derive(Debug)]
pub enum Directive {
    /// Decode the body: it holds the answer.
    Decode,
    /// Read the body as text: it is the message of the failure.
    ReadBody,
    /// Wait this many nanoseconds, pass the limiter and send the request again.
    Retry(u64),
    /// Give up with this failure.
    Fail(MbError),
}

/// A directive with its texts as sequences of characters.
pub enum DirectiveView {
    Decode,
    ReadBody,
    Retry(nat),
    Fail(MbErrorView),
}

impl View for Directive {
    type V = DirectiveView;

    open spec fn view(&self) -> DirectiveView {
        match self {
            Directive::Decode => DirectiveView::Decode,
            Directive::ReadBody => DirectiveView::ReadBody,
            Directive::Retry(wait) => DirectiveView::Retry(*wait as nat),
            Directive::Fail(failure) => DirectiveView::Fail(failure@),
        }
    }
}

/// What one attempt came to: a response with its status, or a failure of
/// the transport.
pub enum Reply {
    Status(u16),
    Failed(reqwest::Error),
}

/// What came of a run of attempts.
pub struct Trace {
    /// The attempts that were made.
    pub attempts: nat,
    /// The sum of the waits between them.
    pub waited: nat,
    /// The directive that ended the run; none where the run ended with the
    /// script, in the middle of retrying.
    pub end: Option<DirectiveView>,
}

/// The state of one logical request, mathematically: its policy and the
/// retries that it has used.
pub struct RetryModel {
    pub policy: PolicyModel,
    pub retries: nat,
}

impl RetryModel {
    /// The state of a request that has not been sent yet.
    pub open spec fn fresh(policy: PolicyModel) -> RetryModel {
        RetryModel { policy, retries: 0 }
    }

    /// The retries that were used are within the policy.
    pub open spec fn wf(self) -> bool {
        self.retries <= self.policy.max_retries
    }

    /// The wait before the next retry.
    pub open spec fn backoff(self) -> nat {
        self.policy.backoff(self.retries)
    }

    /// The state after one more retry.
    pub open spec fn retried(self) -> RetryModel {
        RetryModel { policy: self.policy, retries: self.retries + 1 }
    }

    /// What follows from a response with `status` to a request for `url`:
    /// the next state and the directive.
    pub open spec fn respond_to_status(self, status: u16, url: Seq<char>) -> (
        RetryModel,
        DirectiveView,
    ) {
        match status_class(status) {
            StatusClass::Success => (self, DirectiveView::Decode),
            StatusClass::NotFound => (self, DirectiveView::Fail(MbErrorView::NotFound(url))),
            StatusClass::Overloaded => if self.retries < self.policy.max_retries {
                (self.retried(), DirectiveView::Retry(self.backoff()))
            } else {
                (self, DirectiveView::Fail(MbErrorView::RateLimited))
            },
            StatusClass::Failure => (self, DirectiveView::ReadBody),
        }
    }

    /// What follows from one attempt of a request for `url`: the next state
    /// and the directive. A failure of the transport is final.
    pub open spec fn respond(self, reply: Reply, url: Seq<char>) -> (RetryModel, DirectiveView) {
        match reply {
            Reply::Status(status) => self.respond_to_status(status, url),
            Reply::Failed(e) => (self, DirectiveView::Fail(MbErrorView::Request(e))),
        }
    }

    /// The run of a request against a transport whose attempts come to
    /// `replies`, one after the other: it goes on while the directive is to
    /// retry, and ends with the first other directive.
    pub open spec fn replay(self, replies: Seq<Reply>, url: Seq<char>) -> Trace
        decreases replies.len(),
    {
        if replies.len() == 0 {
            Trace { attempts: 0, waited: 0, end: None }
        } else {
            let (next, directive) = self.respond(replies[0], url);
            match directive {
                DirectiveView::Retry(wait) => {
                    let rest = next.replay(replies.drop_first(), url);
                    Trace { attempts: rest.attempts + 1, waited: rest.waited + wait, end: rest.end }
                },
                _ => Trace { attempts: 1, waited: 0, end: Some(directive) },
            }
        }
    }
}

/// `count` answers that the service is overloaded.
pub open spec fn overloads(count: nat) -> Seq<Reply> {
    Seq::new(count, |i: int| Reply::Status(OVERLOADED))
}

impl RetryModel {
    /// A run that starts with `count` overloads, all within the policy, is
    /// the run on what follows them, with `count` attempts more and the
    /// waits of these retries added.
    pub proof fn lemma_replay_overloads(self, count: nat, then: Seq<Reply>, url: Seq<char>)
        requires
            self.retries + count <= self.policy.max_retries,
        ensures
            ({
                let after = RetryModel { policy: self.policy, retries: self.retries + count };
                let rest = after.replay(then, url);
                self.replay(overloads(count) + then, url) == (Trace {
                    attempts: rest.attempts + count,
                    waited: (rest.waited + self.policy.total_backoff(self.retries + count)
                        - self.policy.total_backoff(self.retries)) as nat,
                    end: rest.end,
                })
            }),
        decreases count,
    {
        let script = overloads(count) + then;
        if count == 0 {
            assert(script =~= then);
        } else {
            assert(script[0] == Reply::Status(OVERLOADED));
            assert(script.drop_first() =~= overloads((count - 1) as nat) + then);
            self.retried().lemma_replay_overloads((count - 1) as nat, then, url);
            assert(self.policy.total_backoff(self.retries + 1) == self.policy.total_backoff(
                self.retries,
            ) + self.policy.backoff(self.retries));
            self.policy.lemma_total_grows(self.retries + 1, self.retries + count);
        }
    }
}

impl RetryModel {
    /// Recovery. When the service answers `count` times that it is
    /// overloaded, `count` within the policy, and then with success, the
    /// request is sent `count + 1` times, is told to decode the last answer,
    /// and has waited the initial wait times `2^0 + ... + 2^(count-1)`.
    pub proof fn lemma_recovers_after_overloads(
        policy: PolicyModel,
        count: nat,
        success: u16,
        url: Seq<char>,
    )
        requires
            count <= policy.max_retries,
            200 <= success <= 299,
        ensures
            RetryModel::fresh(policy).replay(
                overloads(count).push(Reply::Status(success)),
                url,
            ) == (Trace {
                attempts: count + 1,
                waited: policy.initial_backoff * sum_pow2(count),
                end: Some(DirectiveView::Decode),
            }),
    {
        let then = seq![Reply::Status(success)];
        assert(overloads(count).push(Reply::Status(success)) =~= overloads(count) + then);
        RetryModel::fresh(policy).lemma_replay_overloads(count, then, url);
        policy.lemma_backoff_is_exponential(count);
        let after = RetryModel { policy, retries: count };
        assert(then.drop_first().len() == 0);
        assert(after.replay(then, url) == (Trace {
            attempts: 1,
            waited: 0,
            end: Some(DirectiveView::Decode),
        }));
    }

    /// Exhaustion. When the service never stops answering that it is
    /// overloaded, the request is sent once and retried as often as the
    /// policy allows, never more, and ends as rate limited.
    pub proof fn lemma_gives_up_when_overloaded(policy: PolicyModel, answers: nat, url: Seq<char>)
        requires
            answers > policy.max_retries,
        ensures
            RetryModel::fresh(policy).replay(overloads(answers), url) == (Trace {
                attempts: policy.max_retries + 1,
                waited: policy.initial_backoff * sum_pow2(policy.max_retries),
                end: Some(DirectiveView::Fail(MbErrorView::RateLimited)),
            }),
    {
        let then = overloads((answers - policy.max_retries) as nat);
        assert(overloads(answers) =~= overloads(policy.max_retries) + then);
        RetryModel::fresh(policy).lemma_replay_overloads(policy.max_retries, then, url);
        policy.lemma_backoff_is_exponential(policy.max_retries);
        let after = RetryModel { policy, retries: policy.max_retries };
        assert(then[0] == Reply::Status(OVERLOADED));
        assert(after.replay(then, url) == (Trace {
            attempts: 1,
            waited: 0,
            end: Some(DirectiveView::Fail(MbErrorView::RateLimited)),
        }));
    }

    /// Finality. An attempt that comes to anything but an overload ends the
    /// run at once, whatever the state: one attempt, no wait. A failure of
    /// the transport ends it as that failure, a missing entity as not
    /// found; a success hands the body to the decoder, and any other status
    /// has its body read.
    pub proof fn lemma_other_reply_is_final(self, replies: Seq<Reply>, url: Seq<char>)
        requires
            replies.len() > 0,
            replies[0] != Reply::Status(OVERLOADED),
        ensures
            self.replay(replies, url) == (Trace {
                attempts: 1,
                waited: 0,
                end: Some(
                    match replies[0] {
                        Reply::Failed(e) => DirectiveView::Fail(MbErrorView::Request(e)),
                        Reply::Status(status) => match status_class(status) {
                            StatusClass::Success => DirectiveView::Decode,
                            StatusClass::NotFound => DirectiveView::Fail(
                                MbErrorView::NotFound(url),
                            ),
                            _ => DirectiveView::ReadBody,
                        },
                    },
                ),
            }),
    {
    }

    /// The bound. Whatever the service answers, a request is sent at most
    /// once more than the policy has retries left.
    pub proof fn lemma_attempts_are_bounded(self, replies: Seq<Reply>, url: Seq<char>)
        requires
            self.wf(),
        ensures
            self.replay(replies, url).attempts <= self.policy.max_retries - self.retries + 1,
        decreases replies.len(),
    {
        if replies.len() > 0 {
            let (next, directive) = self.respond(replies[0], url);
            if directive is Retry {
                next.lemma_attempts_are_bounded(replies.drop_first(), url);
            }
        }
    }
}

/// The state of one logical request: its policy, the retries used so far
/// and the wait before the next.
#[derive(Debug)]
pub struct RetryState {
    policy: RetryPolicy,
    retries: u32,
    backoff: u64,
}

impl View for RetryState {
    type V = RetryModel;

    closed spec fn view(&self) -> RetryModel {
        RetryModel { policy: self.policy@, retries: self.retries as nat }
    }
}

impl RetryState {
    #[verifier::type_invariant]
    spec fn well_formed(self) -> bool {
        &&& self.policy@.fits()
        &&& self.retries <= self.policy.max_retries
        &&& self.backoff as nat == self.policy@.backoff(self.retries as nat)
    }

    /// The state of a request that has not been sent yet.
    pub fn new(policy: RetryPolicy) -> (state: RetryState)
        ensures
            state@ == RetryModel::fresh(policy@),
            state@.wf(),
    {
        proof {
            use_type_invariant(&policy);
        }
        RetryState { policy, retries: 0, backoff: policy.initial_backoff }
    }

    /// The retries used so far.
    pub fn retries(&self) -> (retries: u32)
        ensures
            retries as nat == self@.retries,
            self@.wf(),
    {
        proof {
            use_type_invariant(self);
        }
        self.retries
    }

    /// The wait before the next retry, in nanoseconds.
    pub fn backoff(&self) -> (backoff: u64)
        ensures
            backoff as nat == self@.backoff(),
    {
        proof {
            use_type_invariant(self);
        }
        self.backoff
    }

    /// Decides what follows from a response with `status` to the request for
    /// `url`. Only an overload within the policy changes the state: it uses
    /// one retry and doubles the wait.
    pub fn on_status(&mut self, status: u16, url: &str) -> (directive: Directive)
        ensures
            (final(self)@, directive@) == old(self)@.respond(Reply::Status(status), url@),
            final(self)@.wf(),
    {
        proof {
            use_type_invariant(&*self);
        }
        match classify(status) {
            StatusClass::Success => Directive::Decode,
            StatusClass::NotFound => Directive::Fail(MbError::NotFound(url.to_owned())),
            StatusClass::Overloaded => {
                if self.retries < self.policy.max_retries {
                    let wait = self.backoff;
                    proof {
                        self.policy@.lemma_backoff_grows(
                            (self.retries + 1) as nat,
                            self.policy.max_retries as nat,
                        );
                    }
                    *self = RetryState {
                        policy: self.policy,
                        retries: self.retries + 1,
                        backoff: self.backoff * 2,
                    };
                    Directive::Retry(wait)
                } else {
                    Directive::Fail(MbError::RateLimited)
                }
            },
            StatusClass::Failure => Directive::ReadBody,
        }
    }

    /// Ends the request with a failure of the transport: it is not tried
    /// again, and the state stays as it is.
    pub fn on_failure(&self, e: reqwest::Error) -> (failure: MbError)
        ensures
            failure@ == MbErrorView::Request(e),
            forall|url: Seq<char>|
                #[trigger] self@.respond(Reply::Failed(e), url) == (
                    self@,
                    DirectiveView::Fail(failure@),
                ),
    {
        MbError::from(e)
    }
}

} // verus!
