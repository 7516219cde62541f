//! Waiting for the API server of a machine monitor that was just started.

use vstd::prelude::*;
use vstd::string::*;

use crate::text::concat;

verus! {

/// The number of times that connecting is tried.
pub const MAX_ATTEMPTS: u32 = 20;

/// The delay after the first attempt, in microseconds.
pub const FIRST_DELAY_US: u64 = 500;

/// The longest delay between two attempts, in microseconds.
pub const MAX_DELAY_US: u64 = 10_000;

/// The Fibonacci numbers, starting with `0, 1`.
pub open spec fn fib(n: nat) -> nat
    decreases n,
{
    if n == 0 {
        0
    } else if n == 1 {
        1
    } else {
        fib((n - 1) as nat) + fib((n - 2) as nat)
    }
}

/// The delay after attempt `n`, where the first attempt is number 0: the first delay times a
/// Fibonacci number, up to the longest delay.
pub open spec fn delay_us(n: nat) -> nat {
    if FIRST_DELAY_US * fib(n + 1) <= MAX_DELAY_US {
        (FIRST_DELAY_US * fib(n + 1)) as nat
    } else {
        MAX_DELAY_US as nat
    }
}

/// The sum of the first `n` delays.
pub open spec fn total_delay_us(n: nat) -> nat
    decreases n,
{
    if n == 0 {
        0
    } else {
        total_delay_us((n - 1) as nat) + delay_us((n - 1) as nat)
    }
}

/// What is to be done next.
#[derive(Clone, Copy, Debug, PartialEq, Eq, Structural)]
pub enum ApiAction {
    /// See whether the child process has exited.
    PollChild,
    /// Connect to the API's socket.
    Connect,
    /// Wait for so many microseconds.
    Sleep(u64),
}

/// What came of it.
#[derive(Debug)]
pub enum ApiEvent {
    /// The child runs; the connection stands; the time is over.
    Done,
    /// The child has exited with the status given.
    Exited(String),
    /// It failed.
    Failed(String),
}

/// Why the API server cannot be reached.
#[derive(Debug)]
pub enum ApiError {
    /// The child has exited with the status given, as it is shown.
    ChildExited(String),
    /// Whether the child has exited could not be found out.
    Poll(String),
    /// The last attempt to connect failed.
    Connect(String),
}

impl ApiError {
    /// The error in words.
    pub open spec fn text(self) -> Seq<char> {
        match self {
            ApiError::ChildExited(status) =>
                "Firecracker exited before its API socket becomes ready: "@ + status@,
            ApiError::Poll(err) => err@,
            ApiError::Connect(err) => err@,
        }
    }

    /// The error in words.
    pub fn message(&self) -> (r: String)
        ensures
            r@ == self.text(),
    {
        match self {
            ApiError::ChildExited(status) => concat(
                "Firecracker exited before its API socket becomes ready: ",
                status.as_str(),
            ),
            ApiError::Poll(err) => err.clone(),
            ApiError::Connect(err) => err.clone(),
        }
    }
}

/// How far the waiting has come.
#[derive(Debug)]
pub enum ApiPhase {
    PollChild,
    Connect,
    Sleep,
    /// No attempt is left; the child is looked at once more.
    LastPoll(String),
    Over(Result<(), ApiError>),
}

/// The waiting for an API server.
#[derive(Debug)]
pub struct AwaitApi {
    /// The number of attempts made before the current one.
    pub attempt: u32,
    pub prev_delay_us: u64,
    pub curr_delay_us: u64,
    pub phase: ApiPhase,
}

proof fn lemma_fib_grows(n: nat)
    ensures
        fib(n) <= fib(n + 1),
        n > 0 ==> fib(n) > 0,
    decreases n,
{
    if n >= 2 {
        lemma_fib_grows((n - 1) as nat);
        lemma_fib_grows((n - 2) as nat);
    } else if n == 1 {
        assert(fib(2) == fib(1) + fib(0));
    }
}

/// Each delay is the sum of the two before it, up to the longest delay.
pub proof fn law_delays_add_up(n: nat)
    ensures
        delay_us(n + 2) == (if delay_us(n) + delay_us(n + 1) <= MAX_DELAY_US {
            delay_us(n) + delay_us(n + 1)
        } else {
            MAX_DELAY_US as nat
        }),
{
    assert(fib(n + 3) == fib(n + 2) + fib(n + 1));
    lemma_fib_grows(n + 1);
    lemma_fib_grows(n + 2);
}

/// The delays are half a millisecond, the same again, then 1, 1.5, 2.5, 4 and 6.5
/// milliseconds, and ten milliseconds from then on.
pub proof fn law_delay_values(n: nat)
    ensures
        delay_us(0) == 500,
        delay_us(1) == 500,
        delay_us(2) == 1_000,
        delay_us(3) == 1_500,
        delay_us(4) == 2_500,
        delay_us(5) == 4_000,
        delay_us(6) == 6_500,
        n >= 7 ==> delay_us(n) == 10_000,
    decreases n,
{
    reveal_with_fuel(fib, 10);
    if n >= 8 {
        law_delay_values((n - 1) as nat);
        lemma_fib_grows(n);
    }
}

/// The delays between the attempts take 136.5 milliseconds together; one more would make it
/// 146.5.
pub proof fn law_total_delay()
    ensures
        total_delay_us((MAX_ATTEMPTS - 1) as nat) == 136_500,
        total_delay_us(MAX_ATTEMPTS as nat) == 146_500,
{
    reveal_with_fuel(total_delay_us, 21);
    law_delay_values(0);
    assert forall|n: nat| 7 <= n < 20 implies #[trigger] delay_us(n) == 10_000 by {
        law_delay_values(n);
    }
}

impl AwaitApi {
    /// The delays are those of the attempt.
    pub open spec fn wf(self) -> bool {
        &&& self.attempt < MAX_ATTEMPTS
        &&& self.curr_delay_us == delay_us(self.attempt as nat)
        &&& self.prev_delay_us == (if self.attempt == 0 {
            0
        } else {
            delay_us((self.attempt - 1) as nat)
        })
        &&& self.phase is Sleep ==> self.attempt + 1 < MAX_ATTEMPTS
        &&& self.phase is LastPoll ==> self.attempt + 1 == MAX_ATTEMPTS
    }

    /// What is to be done next, if the waiting is not over.
    pub open spec fn pending(self) -> Option<ApiAction> {
        match self.phase {
            ApiPhase::PollChild => Some(ApiAction::PollChild),
            ApiPhase::Connect => Some(ApiAction::Connect),
            ApiPhase::Sleep => Some(ApiAction::Sleep(self.curr_delay_us)),
            ApiPhase::LastPoll(_) => Some(ApiAction::PollChild),
            ApiPhase::Over(_) => None,
        }
    }

    /// The event is one that can come of the pending action.
    pub open spec fn can_be(self, e: ApiEvent) -> bool {
        match self.phase {
            ApiPhase::PollChild | ApiPhase::LastPoll(_) => true,
            ApiPhase::Connect => !(e is Exited),
            ApiPhase::Sleep => e is Done,
            ApiPhase::Over(_) => false,
        }
    }

    /// How the waiting goes on after an event.
    pub open spec fn next(self, e: ApiEvent) -> ApiPhase {
        match (self.phase, e) {
            (ApiPhase::PollChild, ApiEvent::Done) => ApiPhase::Connect,
            (ApiPhase::Connect, ApiEvent::Done) => ApiPhase::Over(Ok(())),
            (ApiPhase::Connect, ApiEvent::Failed(err)) => if self.attempt + 1 < MAX_ATTEMPTS {
                ApiPhase::Sleep
            } else {
                ApiPhase::LastPoll(err)
            },
            (ApiPhase::Sleep, _) => ApiPhase::PollChild,
            (ApiPhase::LastPoll(last), ApiEvent::Done) => ApiPhase::Over(
                Err(ApiError::Connect(last)),
            ),
            (_, ApiEvent::Exited(status)) => ApiPhase::Over(Err(ApiError::ChildExited(status))),
            (_, ApiEvent::Failed(err)) => ApiPhase::Over(Err(ApiError::Poll(err))),
            _ => self.phase,
        }
    }

    /// Starts to wait.
    pub fn new() -> (r: AwaitApi)
        ensures
            r.attempt == 0,
            r.phase is PollChild,
            r.wf(),
    {
        proof {
            law_delay_values(0);
        }
        AwaitApi {
            attempt: 0,
            prev_delay_us: 0,
            curr_delay_us: FIRST_DELAY_US,
            phase: ApiPhase::PollChild,
        }
    }

    /// What is to be done next, if the waiting is not over.
    pub fn action(&self) -> (r: Option<ApiAction>)
        ensures
            r == self.pending(),
    {
        match &self.phase {
            ApiPhase::PollChild => Some(ApiAction::PollChild),
            ApiPhase::Connect => Some(ApiAction::Connect),
            ApiPhase::Sleep => Some(ApiAction::Sleep(self.curr_delay_us)),
            ApiPhase::LastPoll(_) => Some(ApiAction::PollChild),
            ApiPhase::Over(_) => None,
        }
    }

    /// Takes what came of the pending action.
    pub fn step(&mut self, e: ApiEvent)
        requires
            old(self).wf(),
            old(self).can_be(e),
        ensures
            final(self).phase == old(self).next(e),
            final(self).attempt == old(self).attempt + (if old(self).phase is Sleep {
                1int
            } else {
                0
            }),
            is_api_step(*old(self), e, *final(self)),
            final(self).wf(),
    {
        let mut phase = ApiPhase::PollChild;
        std::mem::swap(&mut phase, &mut self.phase);
        match (phase, e) {
            (ApiPhase::PollChild, ApiEvent::Done) => {
                self.phase = ApiPhase::Connect;
            },
            (ApiPhase::Connect, ApiEvent::Done) => {
                self.phase = ApiPhase::Over(Ok(()));
            },
            (ApiPhase::Connect, ApiEvent::Failed(err)) => {
                self.phase = if self.attempt + 1 < MAX_ATTEMPTS {
                    ApiPhase::Sleep
                } else {
                    ApiPhase::LastPoll(err)
                };
            },
            (ApiPhase::Sleep, _) => {
                proof {
                    if self.attempt == 0 {
                        law_delay_values(0);
                    } else {
                        law_delays_add_up((self.attempt - 1) as nat);
                    }
                }
                let sum: u64 = self.prev_delay_us + self.curr_delay_us;
                self.prev_delay_us = self.curr_delay_us;
                self.curr_delay_us = if sum <= MAX_DELAY_US {
                    sum
                } else {
                    MAX_DELAY_US
                };
                self.attempt = self.attempt + 1;
                self.phase = ApiPhase::PollChild;
            },
            (ApiPhase::LastPoll(last), ApiEvent::Done) => {
                self.phase = ApiPhase::Over(Err(ApiError::Connect(last)));
            },
            (_, ApiEvent::Exited(status)) => {
                self.phase = ApiPhase::Over(Err(ApiError::ChildExited(status)));
            },
            (_, ApiEvent::Failed(err)) => {
                self.phase = ApiPhase::Over(Err(ApiError::Poll(err)));
            },
            (phase, ApiEvent::Done) => {
                self.phase = phase;
            },
        }
    }
}

/// The child is looked at before every attempt to connect, and once more before the waiting
/// is given up for good.
pub proof fn law_child_is_polled(m: AwaitApi, e: ApiEvent)
    requires
        m.wf(),
        m.can_be(e),
    ensures
        m.next(e) is Connect ==> m.phase is PollChild && e is Done,
        m.next(e) matches ApiPhase::Over(Ok(_)) ==> m.phase is Connect && e is Done,
        m.next(e) matches ApiPhase::Over(Err(ApiError::Connect(_))) ==> m.phase is LastPoll && e
            is Done && m.attempt + 1 == MAX_ATTEMPTS,
{
}

/// How waiting goes on. A child that runs is connected to, and the waiting is over when that
/// works. Otherwise it is tried again after a delay, twenty times in all; after the last time
/// the child is looked at once more, and the last failure is told if it still runs. A child that
/// exited, or that cannot be looked at, ends the waiting with that.
pub proof fn law_how_the_api_is_awaited(m: AwaitApi, e: ApiEvent)
    requires
        m.wf(),
        m.can_be(e),
    ensures
        m.phase is PollChild && e is Done ==> m.next(e) is Connect,
        m.phase is Connect && e is Done ==> m.next(e) == ApiPhase::Over(Ok(())),
        m.phase is Connect && e is Failed && m.attempt < 19 ==> m.next(e) is Sleep,
        m.phase is Connect && e is Failed && m.attempt >= 19 ==> m.next(e) == ApiPhase::LastPoll(
            e->Failed_0,
        ),
        m.phase is Sleep ==> m.next(e) is PollChild,
        m.phase matches ApiPhase::LastPoll(last) ==> (e is Done ==> m.next(e) == ApiPhase::Over(
            Err::<(), _>(ApiError::Connect(last)),
        )),
        (m.phase is PollChild || m.phase is LastPoll) && e is Exited ==> m.next(e)
            == ApiPhase::Over(Err::<(), _>(ApiError::ChildExited(e->Exited_0))),
        (m.phase is PollChild || m.phase is LastPoll) && e is Failed ==> m.next(e)
            == ApiPhase::Over(Err::<(), _>(ApiError::Poll(e->Failed_0))),
        m.pending() == (match m.phase {
            ApiPhase::PollChild => Some(ApiAction::PollChild),
            ApiPhase::LastPoll(_) => Some(ApiAction::PollChild),
            ApiPhase::Connect => Some(ApiAction::Connect),
            ApiPhase::Sleep => Some(ApiAction::Sleep(delay_us(m.attempt as nat) as u64)),
            ApiPhase::Over(_) => None,
        }),
{
}

/// How many actions are left at most.
pub open spec fn actions_left(attempt: u32, phase: ApiPhase) -> int {
    3 * (MAX_ATTEMPTS - attempt) + match phase {
        ApiPhase::PollChild => 3int,
        ApiPhase::Connect => 2,
        ApiPhase::Sleep => 1,
        ApiPhase::LastPoll(_) => 1,
        ApiPhase::Over(_) => 0,
    }
}

/// The waiting ends, whatever comes.
pub proof fn law_waiting_ends(m: AwaitApi, e: ApiEvent)
    requires
        m.wf(),
        m.can_be(e),
    ensures
        ({
            let attempt = if m.phase is Sleep {
                (m.attempt + 1) as u32
            } else {
                m.attempt
            };
            0 <= actions_left(attempt, m.next(e)) < actions_left(m.attempt, m.phase)
        }),
{
}

/// `after` is what becomes of waiting by an event: an attempt is over once it was waited after it.
pub open spec fn is_api_step(m: AwaitApi, e: ApiEvent, after: AwaitApi) -> bool {
    &&& after.phase == m.next(e)
    &&& after.attempt == m.attempt + if m.phase is Sleep {
        1int
    } else {
        0
    }
}

/// Each attempt to connect that fails is one attempt less, and none is lost without one: from a
/// failed attempt to the next there is one wait and one look at the child.
pub proof fn law_attempts_are_counted(ms: Seq<AwaitApi>, es: Seq<ApiEvent>)
    requires
        ms.len() == 4,
        es.len() == 3,
        forall|i: int| 0 <= i < es.len() ==> is_api_step(ms[i], #[trigger] es[i], ms[i + 1]),
        forall|i: int| 0 <= i < es.len() ==> ms[i].wf() && ms[i].can_be(#[trigger] es[i]),
        ms[0].phase is Connect,
        es[0] is Failed,
        ms[0].attempt < 19,
        es[2] is Done,
    ensures
        ms[1].phase is Sleep && ms[1].attempt == ms[0].attempt,
        ms[2].phase is PollChild && ms[2].attempt == ms[0].attempt + 1,
        ms[3].phase is Connect && ms[3].attempt == ms[0].attempt + 1,
{
    assert(is_api_step(ms[0], es[0], ms[1]));
    assert(ms[0].wf() && ms[0].can_be(es[0]));
    assert(is_api_step(ms[1], es[1], ms[2]));
    assert(is_api_step(ms[2], es[2], ms[3]));
}

} // verus!
