//! Whole operations: the transactions that an operation asks for and what it
//! ends with, given the answers of the bus in the order they come.

use vstd::prelude::*;
use crate::driver::{Exchange, Outcome, Progress, Qmi8658a, Reply, Request};
use crate::registers::{AX_L, CTRL1, CTRL7, STATUSINT, TEMP_L, WHO_AM_I};
use crate::sample::{le_i16, sample_of, ImuData};
use crate::status::StatusFlags;

verus! {

/// The course of an operation: every transaction it asked for, in order,
/// and its result, if it came to one.
pub struct Run<E> {
    pub requests: Seq<Request>,
    pub result: Option<Result<Outcome, E>>,
}

/// The course of the operation that stands at `start`, for the device at
/// `address`, when the bus gives the answers `replies` one after the other.
/// The operation asks for its first transaction at once and for one more
/// after every answer that leaves it pending; with no answer left it stays
/// without a result. Answers past its end are never asked for.
pub open spec fn run<E>(address: u8, start: Exchange, replies: Seq<Reply<E>>) -> Run<E>
    decreases replies.len(),
{
    let first = seq![start.request_at(address)];
    if replies.len() == 0 {
        Run { requests: first, result: None }
    } else {
        match start.after(replies[0]) {
            Progress::Pending(next) => {
                let rest = run(address, next, replies.skip(1));
                Run { requests: first + rest.requests, result: rest.result }
            },
            Progress::Done(outcome) => Run { requests: first, result: Some(Ok(outcome)) },
            Progress::Failed(error) => Run { requests: first, result: Some(Err(error)) },
        }
    }
}

/// The bus address that a transaction goes to.
pub open spec fn address_of(request: Request) -> u8 {
    match request {
        Request::Write { address, register, value } => address,
        Request::Read { address, register, len } => address,
    }
}

/// The read of the status register.
pub open spec fn status_read(address: u8) -> Request {
    Request::Read { address, register: STATUSINT, len: 1 }
}

/// The burst read of the sample block.
pub open spec fn burst_read(address: u8) -> Request {
    Request::Read { address, register: AX_L, len: 12 }
}

/// The bus answered, and bit 0 of the first byte is set.
pub open spec fn shows_available<E>(reply: Reply<E>) -> bool {
    reply matches Ok(block) && (StatusFlags { bits: block@[0] }).available()
}

/// The bus answered, and bit 1 of the first byte is set.
pub open spec fn shows_locked<E>(reply: Reply<E>) -> bool {
    reply matches Ok(block) && (StatusFlags { bits: block@[0] }).locked()
}

/// What a sample read ends with once the burst is answered.
pub open spec fn burst_result<E>(reply: Reply<E>) -> Result<Outcome, E> {
    match reply {
        Ok(block) => Ok(Outcome::Sample(sample_of(block@))),
        Err(error) => Err(error),
    }
}

/// The course of an operation as a scripted bus produced it.
#[derive(Debug, PartialEq, Eq)]
pub struct Transcript<E> {
    /// Every transaction that was asked for, in order.
    pub requests: Vec<Request>,
    /// The operation's result, or `None` if the script ran out first.
    pub result: Option<Result<Outcome, E>>,
}

impl Qmi8658a {
    /// Runs the operation that stands at `start` against a scripted bus
    /// that gives the answers `replies` in order.
    pub fn replay<E: Copy>(&self, start: Exchange, replies: &[Reply<E>]) -> (transcript:
        Transcript<E>)
        ensures
            transcript.requests@ == run(self.address(), start, replies@).requests,
            transcript.result == run(self.address(), start, replies@).result,
    {
        let ghost address = self.address();
        let ghost whole = run(address, start, replies@);
        let mut requests: Vec<Request> = Vec::new();
        let mut current = start;
        let mut i: usize = 0;
        proof {
            assert(replies@.skip(0) =~= replies@);
            assert(requests@ + whole.requests =~= whole.requests);
        }
        while i < replies.len()
            invariant
                i <= replies.len(),
                address == self.address(),
                whole.requests == requests@ + run(address, current, replies@.skip(i as int)).requests,
                whole.result == run(address, current, replies@.skip(i as int)).result,
                whole == run(self.address(), start, replies@),
            decreases replies.len() - i,
        {
            let ghost rest = replies@.skip(i as int);
            let ghost sent = requests@;
            let ghost first = seq![current.request_at(address)];
            requests.push(self.request(&current));
            let reply = replies[i];
            proof {
                assert(rest[0] == reply);
                assert(rest.skip(1) =~= replies@.skip(i + 1));
                assert(requests@ =~= sent + first);
            }
            match current.resume(reply) {
                Progress::Pending(next) => {
                    proof {
                        let tail = run(address, next, rest.skip(1)).requests;
                        assert(sent + (first + tail) =~= (sent + first) + tail);
                    }
                    current = next;
                    i += 1;
                },
                Progress::Done(outcome) => {
                    return Transcript { requests, result: Some(Ok(outcome)) };
                },
                Progress::Failed(error) => {
                    return Transcript { requests, result: Some(Err(error)) };
                },
            }
        }
        proof {
            assert(replies@.skip(i as int).len() == 0);
        }
        let ghost sent = requests@;
        requests.push(self.request(&current));
        proof {
            assert(requests@ =~= sent + seq![current.request_at(address)]);
        }
        Transcript { requests, result: None }
    }
}

/// Identity: one read of one byte at WHO_AM_I, and the byte that came is the
/// result, whatever its value.
pub proof fn lemma_chip_id_is_raw<E>(address: u8, replies: Seq<Reply<E>>, block: [u8; 12])
    requires
        replies.len() > 0,
        replies[0] == Ok::<[u8; 12], E>(block),
    ensures
        run(address, Exchange::ChipId, replies).requests == seq![
            (Request::Read { address, register: WHO_AM_I, len: 1 }),
        ],
        run(address, Exchange::ChipId, replies).result == Some(
            Ok::<Outcome, E>(Outcome::ChipId(block@[0])),
        ),
{
}

/// Temperature: one read of two bytes at TEMP_L, joined low byte first.
pub proof fn lemma_temperature_is_little_endian<E>(
    address: u8,
    replies: Seq<Reply<E>>,
    block: [u8; 12],
)
    requires
        replies.len() > 0,
        replies[0] == Ok::<[u8; 12], E>(block),
    ensures
        run(address, Exchange::Temperature, replies).requests == seq![
            (Request::Read { address, register: TEMP_L, len: 2 }),
        ],
        run(address, Exchange::Temperature, replies).result == Some(
            Ok::<Outcome, E>(Outcome::Temperature(le_i16(block@[0], block@[1]))),
        ),
{
}

/// Initialization on a bus that does not fail: exactly two writes, CTRL1
/// with its byte and then CTRL7 with its byte.
pub proof fn lemma_initialize_writes_both<E>(
    address: u8,
    ctrl1: u8,
    ctrl7: u8,
    replies: Seq<Reply<E>>,
)
    requires
        replies.len() >= 2,
        replies[0] is Ok,
        replies[1] is Ok,
    ensures
        run(address, Exchange::Control1 { ctrl1, ctrl7 }, replies).requests == seq![
            (Request::Write { address, register: CTRL1, value: ctrl1 }),
            (Request::Write { address, register: CTRL7, value: ctrl7 }),
        ],
        run(address, Exchange::Control1 { ctrl1, ctrl7 }, replies).result == Some(
            Ok::<Outcome, E>(Outcome::Initialized),
        ),
{
    let start = Exchange::Control1 { ctrl1, ctrl7 };
    let second = Exchange::Control7 { ctrl7 };
    let rest = replies.skip(1);
    assert(rest[0] == replies[1]);
    assert(start.after(replies[0]) == Progress::<E>::Pending(second));
    assert(run(address, second, rest).requests == seq![second.request_at(address)]);
    assert(run(address, start, replies).requests =~= seq![
        (Request::Write { address, register: CTRL1, value: ctrl1 }),
        (Request::Write { address, register: CTRL7, value: ctrl7 }),
    ]);
}

/// Initialization when the write of CTRL1 fails: CTRL7 is never written,
/// and the error is the result.
pub proof fn lemma_initialize_stops_at_ctrl1<E>(
    address: u8,
    ctrl1: u8,
    ctrl7: u8,
    replies: Seq<Reply<E>>,
    error: E,
)
    requires
        replies.len() >= 1,
        replies[0] == Err::<[u8; 12], E>(error),
    ensures
        run(address, Exchange::Control1 { ctrl1, ctrl7 }, replies).requests == seq![
            (Request::Write { address, register: CTRL1, value: ctrl1 }),
        ],
        run(address, Exchange::Control1 { ctrl1, ctrl7 }, replies).result == Some(
            Err::<Outcome, E>(error),
        ),
{
}

/// Sample with the AVAILABLE bit clear: one status read, no burst, and the
/// result is "no sample", which is no error.
pub proof fn lemma_no_sample_without_available<E>(address: u8, replies: Seq<Reply<E>>)
    requires
        replies.len() >= 1,
        replies[0] is Ok,
        !shows_available(replies[0]),
    ensures
        run(address, Exchange::NotAvailable, replies).requests == seq![status_read(address)],
        run(address, Exchange::NotAvailable, replies).result == Some(
            Ok::<Outcome, E>(Outcome::NoSample),
        ),
{
}

/// Waiting for the latch: after `waits` status reads that do not show
/// LOCKED and one that does, exactly one burst read follows, and its answer
/// decides the result.
pub proof fn lemma_waits_until_locked<E>(address: u8, replies: Seq<Reply<E>>, waits: nat)
    requires
        replies.len() >= waits + 2,
        forall|j: int| 0 <= j < waits ==> (#[trigger] replies[j]) is Ok && !shows_locked(replies[j]),
        shows_locked(replies[waits as int]),
    ensures
        run(address, Exchange::WaitingForLock, replies).requests == Seq::new(
            waits + 1,
            |j: int| status_read(address),
        ).push(burst_read(address)),
        run(address, Exchange::WaitingForLock, replies).result == Some(
            burst_result(replies[waits as int + 1]),
        ),
    decreases waits,
{
    let rest = replies.skip(1);
    let whole = run(address, Exchange::WaitingForLock, replies);
    let expected = Seq::new(waits + 1, |j: int| status_read(address)).push(burst_read(address));
    if waits == 0 {
        assert(rest[0] == replies[1]);
        assert(Exchange::WaitingForLock.after(replies[0]) == Progress::<E>::Pending(
            Exchange::Ready,
        ));
        assert(run(address, Exchange::Ready, rest).requests == seq![burst_read(address)]);
        assert(whole.requests =~= expected);
    } else {
        assert(replies[0] is Ok && !shows_locked(replies[0]));
        assert(Exchange::WaitingForLock.after(replies[0]) == Progress::<E>::Pending(
            Exchange::WaitingForLock,
        ));
        let fewer = (waits - 1) as nat;
        assert forall|j: int| 0 <= j < fewer implies (#[trigger] rest[j]) is Ok && !shows_locked(
            rest[j],
        ) by {
            assert(rest[j] == replies[j + 1]);
        }
        assert(rest[fewer as int] == replies[waits as int]);
        assert(rest[fewer as int + 1] == replies[waits as int + 1]);
        lemma_waits_until_locked(address, rest, fewer);
        assert(whole.requests =~= expected);
    }
}

/// Sample with the AVAILABLE bit set: the status is read again until it
/// shows LOCKED, `waits` times in vain and once with success; then exactly
/// one burst read of twelve bytes follows, and the sample is the six words
/// of its answer.
pub proof fn lemma_sample_after_lock<E>(address: u8, replies: Seq<Reply<E>>, waits: nat)
    requires
        replies.len() >= waits + 3,
        shows_available(replies[0]),
        forall|j: int|
            1 <= j <= waits ==> (#[trigger] replies[j]) is Ok && !shows_locked(replies[j]),
        shows_locked(replies[waits as int + 1]),
    ensures
        run(address, Exchange::NotAvailable, replies).requests == Seq::new(
            waits + 2,
            |j: int| status_read(address),
        ).push(burst_read(address)),
        run(address, Exchange::NotAvailable, replies).result == Some(
            burst_result(replies[waits as int + 2]),
        ),
{
    let rest = replies.skip(1);
    assert forall|j: int| 0 <= j < waits implies (#[trigger] rest[j]) is Ok && !shows_locked(
        rest[j],
    ) by {
        assert(rest[j] == replies[j + 1]);
    }
    assert(rest[waits as int] == replies[waits as int + 1]);
    assert(rest[waits as int + 1] == replies[waits as int + 2]);
    lemma_waits_until_locked(address, rest, waits);
    assert(Exchange::NotAvailable.after(replies[0]) == Progress::<E>::Pending(
        Exchange::WaitingForLock,
    ));
    assert(run(address, Exchange::NotAvailable, replies).requests =~= Seq::new(
        waits + 2,
        |j: int| status_read(address),
    ).push(burst_read(address)));
}

/// The course of a sample read that ended with a sample, seen from the
/// state `WaitingForLock`: status reads that did not show LOCKED, one that
/// did, and one burst read whose answer holds the sample.
pub open spec fn latched_course<E>(
    address: u8,
    replies: Seq<Reply<E>>,
    requests: Seq<Request>,
    sample: ImuData,
) -> bool {
    let n = requests.len() as int;
    &&& 2 <= n <= replies.len()
    &&& forall|i: int| 0 <= i < n - 1 ==> #[trigger] requests[i] == status_read(address)
    &&& requests[n - 1] == burst_read(address)
    &&& forall|j: int|
        0 <= j < n - 2 ==> (#[trigger] replies[j]) is Ok && !shows_locked(replies[j])
    &&& shows_locked(replies[n - 2])
    &&& burst_result(replies[n - 1]) == Ok::<Outcome, E>(Outcome::Sample(sample))
}

/// A wait for the latch ends with a sample only in one way: every status
/// read but the last did not show LOCKED, the last did, and the one burst
/// read that followed was answered with the sample's twelve bytes.
pub proof fn lemma_wait_ended_with_sample<E>(
    address: u8,
    replies: Seq<Reply<E>>,
    sample: ImuData,
)
    requires
        run(address, Exchange::WaitingForLock, replies).result == Some(
            Ok::<Outcome, E>(Outcome::Sample(sample)),
        ),
    ensures
        latched_course(
            address,
            replies,
            run(address, Exchange::WaitingForLock, replies).requests,
            sample,
        ),
    decreases replies.len(),
{
    let whole = run(address, Exchange::WaitingForLock, replies);
    let rest = replies.skip(1);
    assert(replies.len() > 0);
    assert(replies[0] is Ok);
    if shows_locked(replies[0]) {
        let tail = run(address, Exchange::Ready, rest);
        assert(rest.len() > 0);
        assert(rest[0] == replies[1]);
        assert(whole.requests =~= seq![status_read(address), burst_read(address)]);
    } else {
        let tail = run(address, Exchange::WaitingForLock, rest);
        lemma_wait_ended_with_sample(address, rest, sample);
        let n = whole.requests.len() as int;
        assert(whole.requests =~= seq![status_read(address)] + tail.requests);
        assert forall|i: int| 0 <= i < n - 1 implies #[trigger] whole.requests[i] == status_read(
            address,
        ) by {
            if i > 0 {
                assert(whole.requests[i] == tail.requests[i - 1]);
            }
        }
        assert(whole.requests[n - 1] == tail.requests[n - 2]);
        assert forall|j: int| 0 <= j < n - 2 implies (#[trigger] replies[j]) is Ok
            && !shows_locked(replies[j]) by {
            if j > 0 {
                assert(replies[j] == rest[j - 1]);
            }
        }
        assert(replies[n - 2] == rest[n - 3]);
        assert(replies[n - 1] == rest[n - 2]);
    }
}

/// A sample comes from a burst read and from nothing else: if a sample read
/// ended with a sample, the first status showed AVAILABLE, the status was
/// read again until it showed LOCKED, the burst read was the last
/// transaction and the only one of its kind, and the sample is the six
/// words of its answer.
pub proof fn lemma_sample_comes_from_burst<E>(
    address: u8,
    replies: Seq<Reply<E>>,
    sample: ImuData,
)
    requires
        run(address, Exchange::NotAvailable, replies).result == Some(
            Ok::<Outcome, E>(Outcome::Sample(sample)),
        ),
    ensures
        replies.len() >= 3,
        shows_available(replies[0]),
        run(address, Exchange::NotAvailable, replies).requests == seq![status_read(address)]
            + run(address, Exchange::WaitingForLock, replies.skip(1)).requests,
        latched_course(
            address,
            replies.skip(1),
            run(address, Exchange::WaitingForLock, replies.skip(1)).requests,
            sample,
        ),
{
    assert(replies.len() > 0);
    assert(replies[0] is Ok);
    assert(shows_available(replies[0]));
    lemma_wait_ended_with_sample(address, replies.skip(1), sample);
}

/// A failure of the bus ends the operation: if the operation is still
/// without a result after `n` answers and the next answer is an error, that
/// error is the result, unchanged, and no transaction is asked for beyond
/// the one that failed, whatever the bus would have answered later.
pub proof fn lemma_failure_ends_run<E>(
    address: u8,
    start: Exchange,
    replies: Seq<Reply<E>>,
    n: nat,
    error: E,
)
    requires
        n < replies.len(),
        run(address, start, replies.take(n as int)).result is None,
        replies[n as int] == Err::<[u8; 12], E>(error),
    ensures
        run(address, start, replies).result == Some(Err::<Outcome, E>(error)),
        run(address, start, replies).requests == run(
            address,
            start,
            replies.take(n as int),
        ).requests,
        run(address, start, replies).requests.len() == n + 1,
    decreases n,
{
    let seen = replies.take(n as int);
    if n == 0 {
        assert(seen.len() == 0);
    } else {
        assert(seen[0] == replies[0]);
        match start.after(replies[0]) {
            Progress::Pending(next) => {
                assert(seen.skip(1) =~= replies.skip(1).take(n - 1));
                assert(replies.skip(1)[n - 1] == replies[n as int]);
                lemma_failure_ends_run(address, next, replies.skip(1), (n - 1) as nat, error);
            },
            Progress::Done(outcome) => {},
            Progress::Failed(other) => {},
        }
    }
}

/// Whether `outcome` is one that the operation standing at `exchange` can
/// end with.
pub open spec fn fits(exchange: Exchange, outcome: Outcome) -> bool {
    match exchange {
        Exchange::ChipId => outcome is ChipId,
        Exchange::Control1 { ctrl1, ctrl7 } => outcome is Initialized,
        Exchange::Control7 { ctrl7 } => outcome is Initialized,
        Exchange::Temperature => outcome is Temperature,
        Exchange::NotAvailable => outcome is NoSample || outcome is Sample,
        Exchange::WaitingForLock => outcome is Sample,
        Exchange::Ready => outcome is Sample,
    }
}

/// An operation ends with an outcome of its own kind, whatever the bus
/// answers: an identity read with the identity byte, an initialization with
/// `Initialized`, a temperature read with a temperature, a sample read with
/// a sample or with none.
pub proof fn lemma_outcome_fits<E>(address: u8, start: Exchange, replies: Seq<Reply<E>>)
    ensures
        run(address, start, replies).result matches Some(Ok(outcome)) ==> fits(start, outcome),
    decreases replies.len(),
{
    if replies.len() > 0 {
        match start.after(replies[0]) {
            Progress::Pending(next) => {
                lemma_outcome_fits(address, next, replies.skip(1));
            },
            Progress::Done(outcome) => {},
            Progress::Failed(error) => {},
        }
    }
}

/// Every transaction of an operation is addressed to the driver's device.
pub proof fn lemma_requests_keep_address<E>(
    address: u8,
    start: Exchange,
    replies: Seq<Reply<E>>,
    i: int,
)
    requires
        0 <= i < run(address, start, replies).requests.len(),
    ensures
        address_of(run(address, start, replies).requests[i]) == address,
    decreases replies.len(),
{
    if replies.len() > 0 && i > 0 {
        match start.after(replies[0]) {
            Progress::Pending(next) => {
                lemma_requests_keep_address(address, next, replies.skip(1), i - 1);
            },
            Progress::Done(outcome) => {},
            Progress::Failed(error) => {},
        }
    }
}

/// One transaction per answer: an operation asks for one transaction at
/// its start and for at most one more after each answer, and while it has no
/// result it has asked for exactly one more than it was answered.
pub proof fn lemma_one_request_per_answer<E>(address: u8, start: Exchange, replies: Seq<Reply<E>>)
    ensures
        1 <= run(address, start, replies).requests.len() <= replies.len() + 1,
        run(address, start, replies).result is None ==> run(
            address,
            start,
            replies,
        ).requests.len() == replies.len() + 1,
        run(address, start, replies).result is Some ==> run(
            address,
            start,
            replies,
        ).requests.len() <= replies.len(),
    decreases replies.len(),
{
    if replies.len() > 0 {
        match start.after(replies[0]) {
            Progress::Pending(next) => {
                lemma_one_request_per_answer(address, next, replies.skip(1));
            },
            Progress::Done(outcome) => {},
            Progress::Failed(error) => {},
        }
    }
}

/// An operation that is over stays over: once the answers `seen` have led
/// to a result, nothing that the bus might answer later changes the result
/// or adds a transaction.
pub proof fn lemma_nothing_follows_the_result<E>(
    address: u8,
    start: Exchange,
    seen: Seq<Reply<E>>,
    later: Seq<Reply<E>>,
)
    requires
        run(address, start, seen).result is Some,
    ensures
        run(address, start, seen + later).result == run(address, start, seen).result,
        run(address, start, seen + later).requests == run(address, start, seen).requests,
    decreases seen.len(),
{
    let all = seen + later;
    if seen.len() > 0 {
        assert(all[0] == seen[0]);
        match start.after(seen[0]) {
            Progress::Pending(next) => {
                assert(all.skip(1) =~= seen.skip(1) + later);
                lemma_nothing_follows_the_result(address, next, seen.skip(1), later);
            },
            Progress::Done(outcome) => {},
            Progress::Failed(error) => {},
        }
    }
}

} // verus!
