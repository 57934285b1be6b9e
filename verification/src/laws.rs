//! What holds of every send through an Alcatel gateway.
//!
//! A send is followed here as the list of the device's replies and the tally
//! of the actions that answered them. The laws are proved of the same
//! functions that `SendSession::advance` is proved to compute.

use vstd::prelude::*;
use crate::alcatel::{
    begin, classify, json_char, json_chars, json_items, json_plain, json_string, request_json,
    submit_path, unconfirmed, ActionView, Phase, ReplyView, SendSmsRequest, SessionView, SENT,
};
use crate::text::{decimal_text, signed_decimal_text, texts};
use crate::error::SmsErrorView;

verus! {

/// What a send has asked of the caller so far.
pub struct Tally {
    /// The number of submit calls.
    pub submits: nat,
    /// The number of poll calls.
    pub polls: nat,
    /// The number of delays.
    pub waits: nat,
    /// The outcome, once the send is over.
    pub outcome: Option<Result<(), SmsErrorView>>,
}

impl Tally {
    /// Nothing asked yet.
    pub open spec fn empty() -> Tally {
        Tally { submits: 0, polls: 0, waits: 0, outcome: None }
    }

    /// The tally after one more action, if there was one.
    pub open spec fn record(self, action: Option<ActionView>) -> Tally {
        match action {
            Some(ActionView::Submit { .. }) => Tally { submits: self.submits + 1, ..self },
            Some(ActionView::Poll { .. }) => Tally { polls: self.polls + 1, ..self },
            Some(ActionView::Wait { .. }) => Tally { waits: self.waits + 1, ..self },
            Some(ActionView::Done(outcome)) => Tally { outcome: Some(outcome), ..self },
            None => self,
        }
    }
}

/// The state and the tally after the replies were taken in their order.
pub open spec fn run(session: SessionView, tally: Tally, replies: Seq<ReplyView>) -> (
    SessionView,
    Tally,
)
    decreases replies.len(),
{
    if replies.len() == 0 {
        (session, tally)
    } else {
        let step = session.advance(replies[0]);
        run(step.0, tally.record(step.1), replies.skip(1))
    }
}

/// A whole send, from its first action through the replies given.
pub open spec fn whole_send(
    url: Seq<char>,
    retry_count: usize,
    retry_delay: u64,
    message: Seq<char>,
    numbers: Seq<Seq<char>>,
    replies: Seq<ReplyView>,
) -> (SessionView, Tally) {
    let start = begin(url, retry_count, retry_delay, message, numbers);
    run(start.0, Tally::empty().record(Some(start.1)), replies)
}

/// The replies of a device that answers every poll call with 200 and one of
/// `codes`, in their order, with the delay between two polls reported.
pub open spec fn poll_replies(codes: Seq<i8>) -> Seq<ReplyView>
    decreases codes.len(),
{
    if codes.len() == 0 {
        Seq::empty()
    } else if codes.len() == 1 {
        seq![ReplyView::Polled(200, Ok(codes[0]))]
    } else {
        seq![ReplyView::Polled(200, Ok(codes[0])), ReplyView::Waited] + poll_replies(codes.skip(1))
    }
}

/// A step keeps a well-formed send well-formed.
pub proof fn law_advance_keeps_well_formed(session: SessionView, reply: ReplyView)
    requires
        session.wf(),
    ensures
        session.advance(reply).0.wf(),
{
}

/// Once a send is over, no reply changes it or gets an action: whatever
/// replies follow, state and tally stay as they are.
pub proof fn law_finished_is_terminal(session: SessionView, tally: Tally, replies: Seq<ReplyView>)
    requires
        session.phase.is_terminal(),
    ensures
        run(session, tally, replies) == (session, tally),
    decreases replies.len(),
{
    if replies.len() > 0 {
        assert(session.advance(replies[0]) == (session, None::<ActionView>));
        law_finished_is_terminal(session, tally, replies.skip(1));
    }
}

/// A send ends exactly when its action is `Done`: every other action
/// leaves it unfinished, and a finished send was ended by a `Done` or had
/// ended before.
pub proof fn law_done_ends_the_send(session: SessionView, reply: ReplyView)
    ensures
        session.advance(reply).1 matches Some(ActionView::Done(_)) ==> session.advance(
            reply,
        ).0.phase.is_terminal(),
        !session.phase.is_terminal() && session.advance(reply).0.phase.is_terminal()
            ==> session.advance(reply).1 matches Some(ActionView::Done(_)),
        session.advance(reply).1 == Some(ActionView::Done(Ok(()))) <==> !session.phase.is_terminal()
            && session.advance(reply).0.phase == Phase::Confirmed,
{
}

/// Happy path: where the submit call is answered with 200 and the first
/// poll call with `SendStatus` 2, a send to one number succeeds after
/// exactly one submit call and one poll call, without any delay.
pub proof fn law_confirmed_at_once(
    url: Seq<char>,
    retry_count: usize,
    retry_delay: u64,
    message: Seq<char>,
    number: Seq<char>,
)
    requires
        retry_count >= 1,
    ensures
        ({
            let end = whole_send(
                url,
                retry_count,
                retry_delay,
                message,
                seq![number],
                seq![ReplyView::Submitted(200), ReplyView::Polled(200, Ok(SENT))],
            );
            &&& end.0.phase == Phase::Confirmed
            &&& end.1 == (Tally { submits: 1, polls: 1, waits: 0, outcome: Some(Ok(())) })
        }),
{
    let replies = seq![ReplyView::Submitted(200), ReplyView::Polled(200, Ok(SENT))];
    let start = begin(url, retry_count, retry_delay, message, seq![number]);
    let t0 = Tally::empty().record(Some(start.1));
    let first = start.0.advance(replies[0]);
    let t1 = t0.record(first.1);
    let rest = replies.skip(1);
    let second = first.0.advance(rest[0]);
    let t2 = t1.record(second.1);
    assert(rest.skip(1).len() == 0);
    assert(run(second.0, t2, rest.skip(1)) == (second.0, t2));
    assert(run(first.0, t1, rest) == (second.0, t2));
    assert(run(start.0, t0, replies) == (second.0, t2));
}

/// Bounded retry, from any attempt on: where every remaining poll call is
/// answered with 200 and a `SendStatus` other than 2, the send fails as
/// unconfirmed after exactly the attempts that were left, with a delay
/// between two of them and none after the last.
pub proof fn law_polling_is_bounded(session: SessionView, tally: Tally, codes: Seq<i8>)
    requires
        session.wf(),
        session.phase matches Phase::Polling { attempt } && attempt + codes.len()
            == session.retry_count,
        forall|i: int| 0 <= i < codes.len() ==> codes[i] != SENT,
    ensures
        run(session, tally, poll_replies(codes)) == (
            session.in_phase(Phase::Exhausted),
            Tally {
                polls: tally.polls + (codes.len() - 1) as nat,
                waits: tally.waits + (codes.len() - 1) as nat,
                outcome: Some(Err(unconfirmed())),
                ..tally
            },
        ),
    decreases codes.len(),
{
    let attempt = session.phase->Polling_attempt;
    let replies = poll_replies(codes);
    let polled = session.advance(replies[0]);
    let t1 = tally.record(polled.1);
    assert(codes[0] != SENT);
    if codes.len() == 1 {
        assert(replies.skip(1).len() == 0);
        assert(run(polled.0, t1, replies.skip(1)) == (polled.0, t1));
    } else {
        let after_poll = replies.skip(1);
        assert(after_poll[0] == ReplyView::Waited);
        let waited = polled.0.advance(after_poll[0]);
        let t2 = t1.record(waited.1);
        let rest = codes.skip(1);
        assert(after_poll.skip(1) =~= poll_replies(rest));
        assert(waited.0 == session.in_phase(Phase::Polling { attempt: (attempt + 1) as usize }));
        assert forall|i: int| 0 <= i < rest.len() implies rest[i] != SENT by {
            assert(rest[i] == codes[i + 1]);
        }
        law_polling_is_bounded(waited.0, t2, rest);
        assert(run(polled.0, t1, after_poll) == run(waited.0, t2, after_poll.skip(1)));
    }
}

/// Bounded retry: where the submit call is answered with 200 and every
/// poll call with 200 and a `SendStatus` other than 2, a send to one number
/// fails as unconfirmed after exactly one submit call and exactly
/// `retry_count` poll calls.
pub proof fn law_retry_exhaustion(
    url: Seq<char>,
    retry_count: usize,
    retry_delay: u64,
    message: Seq<char>,
    number: Seq<char>,
    codes: Seq<i8>,
)
    requires
        retry_count >= 1,
        codes.len() == retry_count,
        forall|i: int| 0 <= i < codes.len() ==> codes[i] != SENT,
    ensures
        ({
            let end = whole_send(
                url,
                retry_count,
                retry_delay,
                message,
                seq![number],
                seq![ReplyView::Submitted(200)] + poll_replies(codes),
            );
            &&& end.0.phase == Phase::Exhausted
            &&& end.1 == (Tally {
                submits: 1,
                polls: retry_count as nat,
                waits: (retry_count - 1) as nat,
                outcome: Some(Err(unconfirmed())),
            })
        }),
{
    let replies = seq![ReplyView::Submitted(200)] + poll_replies(codes);
    let start = begin(url, retry_count, retry_delay, message, seq![number]);
    let t0 = Tally::empty().record(Some(start.1));
    let first = start.0.advance(replies[0]);
    let t1 = t0.record(first.1);
    assert(replies.skip(1) =~= poll_replies(codes));
    law_polling_is_bounded(first.0, t1, codes);
    assert(run(start.0, t0, replies) == run(first.0, t1, replies.skip(1)));
}

/// With a limit of no poll call at all, a send whose submit call was
/// answered with 200 fails as unconfirmed without asking the device.
pub proof fn law_no_attempts_no_poll(session: SessionView)
    requires
        session.phase == Phase::Submitting,
        session.retry_count == 0,
    ensures
        session.advance(ReplyView::Submitted(200)) == session.exhaust(),
{
}

/// A submit call that fails ends the whole send: where the first submit
/// call is answered with a status other than 200, the outcome is the failure
/// that belongs to the status, and, whatever the list of recipients and
/// whatever replies follow, there was one submit call and no poll call.
pub proof fn law_submit_failure_is_final(
    url: Seq<char>,
    retry_count: usize,
    retry_delay: u64,
    message: Seq<char>,
    numbers: Seq<Seq<char>>,
    code: u16,
    later: Seq<ReplyView>,
)
    requires
        numbers.len() >= 1,
        code != 200,
    ensures
        classify(url, code) is Err,
        whole_send(
            url,
            retry_count,
            retry_delay,
            message,
            numbers,
            seq![ReplyView::Submitted(code)] + later,
        ).1 == (Tally { submits: 1, polls: 0, waits: 0, outcome: Some(classify(url, code)) }),
{
    let replies = seq![ReplyView::Submitted(code)] + later;
    let start = begin(url, retry_count, retry_delay, message, numbers);
    let t0 = Tally::empty().record(Some(start.1));
    let first = start.0.advance(replies[0]);
    let t1 = t0.record(first.1);
    assert(replies.skip(1) =~= later);
    law_finished_is_terminal(first.0, t1, later);
    assert(run(start.0, t0, replies) == run(first.0, t1, replies.skip(1)));
}

/// A submit call that gets no answer ends the whole send with a network
/// error: one submit call, no poll call, whatever follows.
pub proof fn law_unreachable_is_final(
    url: Seq<char>,
    retry_count: usize,
    retry_delay: u64,
    message: Seq<char>,
    numbers: Seq<Seq<char>>,
    reason: Seq<char>,
    later: Seq<ReplyView>,
)
    requires
        numbers.len() >= 1,
    ensures
        whole_send(
            url,
            retry_count,
            retry_delay,
            message,
            numbers,
            seq![ReplyView::Unreachable(reason)] + later,
        ).1 == (Tally {
            submits: 1,
            polls: 0,
            waits: 0,
            outcome: Some(Err(SmsErrorView::NetworkError(reason))),
        }),
{
    let replies = seq![ReplyView::Unreachable(reason)] + later;
    let start = begin(url, retry_count, retry_delay, message, numbers);
    let t0 = Tally::empty().record(Some(start.1));
    let first = start.0.advance(replies[0]);
    let t1 = t0.record(first.1);
    assert(replies.skip(1) =~= later);
    law_finished_is_terminal(first.0, t1, later);
    assert(run(start.0, t0, replies) == run(first.0, t1, replies.skip(1)));
}

/// 401 on the submit call is reported as unauthorized, and 404 with the
/// hint to check the modem.
pub proof fn law_known_statuses(url: Seq<char>)
    ensures
        classify(url, 401) == Err::<(), SmsErrorView>(
            SmsErrorView::InvalidResponse(401, "Unauthorized"@),
        ),
        classify(url, 404) == Err::<(), SmsErrorView>(
            SmsErrorView::InvalidResponse(
                404,
                "We could not find service under url "@ + url
                    + ", make sure usb modem is connected and service is running"@,
            ),
        ),
{
}

/// Only an unconfirmed poll is tried again. A call without an answer, an
/// answer with a status other than 200, and a poll answer whose body cannot
/// be read each end the send at once with their own failure; and a delay
/// is only ever the answer to a poll that came back with 200 and a
/// `SendStatus` other than 2.
pub proof fn law_failures_are_not_retried(
    session: SessionView,
    code: u16,
    decoded: Result<i8, Seq<char>>,
    reason: Seq<char>,
    detail: Seq<char>,
    reply: ReplyView,
)
    requires
        session.phase is Submitting || session.phase is Polling,
    ensures
        session.advance(ReplyView::Unreachable(reason)) == session.fail(
            SmsErrorView::NetworkError(reason),
        ),
        code != 200 ==> classify(session.url, code) is Err,
        code != 200 && session.phase is Submitting ==> session.advance(ReplyView::Submitted(code))
            == session.fail(classify(session.url, code)->Err_0),
        code != 200 && session.phase is Polling ==> session.advance(
            ReplyView::Polled(code, decoded),
        ) == session.fail(classify(session.url, code)->Err_0),
        session.phase is Polling ==> session.advance(ReplyView::Polled(200, Err(detail)))
            == session.fail(SmsErrorView::ResponseParseError(detail)),
        session.advance(reply).1 matches Some(ActionView::Wait { .. }) ==> {
            &&& reply is Polled
            &&& reply->Polled_0 == 200
            &&& reply->Polled_1 is Ok
            &&& reply->Polled_1->Ok_0 != SENT
        },
{
}

/// Recipients are served strictly in order: a submit call is only ever the
/// answer to the confirmation of the recipient before, and it is for the
/// next number in the list.
pub proof fn law_recipients_in_order(session: SessionView, reply: ReplyView)
    requires
        session.wf(),
    ensures
        session.advance(reply).1 matches Some(ActionView::Submit { endpoint, message, phone }) ==> {
            &&& session.phase is Polling
            &&& reply == ReplyView::Polled(200, Ok(SENT))
            &&& session.advance(reply).0.recipient == session.recipient + 1
            &&& session.advance(reply).0.phase == Phase::Submitting
            &&& phone == session.numbers[session.recipient + 1 as int]
            &&& message == session.message
        },
{
}

/// Nothing is kept from one send to the next. Every send to a number
/// begins with its own submit call, and its outcome follows from its own
/// replies alone: of two sends of the same message to the same number
/// through the same device, the one whose poll is confirmed succeeds after
/// one submit call and one poll call, and the one whose polls are never
/// confirmed fails after its own submit call and `retry_count` poll calls,
/// whichever of them came first.
pub proof fn law_no_result_is_reused(
    url: Seq<char>,
    retry_count: usize,
    retry_delay: u64,
    message: Seq<char>,
    number: Seq<char>,
    codes: Seq<i8>,
)
    requires
        retry_count >= 1,
        codes.len() == retry_count,
        forall|i: int| 0 <= i < codes.len() ==> codes[i] != SENT,
    ensures
        begin(url, retry_count, retry_delay, message, seq![number]).1 == (ActionView::Submit {
            endpoint: url + submit_path(),
            message,
            phone: number,
        }),
        whole_send(
            url,
            retry_count,
            retry_delay,
            message,
            seq![number],
            seq![ReplyView::Submitted(200), ReplyView::Polled(200, Ok(SENT))],
        ).1 == (Tally { submits: 1, polls: 1, waits: 0, outcome: Some(Ok(())) }),
        whole_send(
            url,
            retry_count,
            retry_delay,
            message,
            seq![number],
            seq![ReplyView::Submitted(200)] + poll_replies(codes),
        ).1 == (Tally {
            submits: 1,
            polls: retry_count as nat,
            waits: (retry_count - 1) as nat,
            outcome: Some(Err(unconfirmed())),
        }),
{
    law_confirmed_at_once(url, retry_count, retry_delay, message, number);
    law_retry_exhaustion(url, retry_count, retry_delay, message, number, codes);
}

/// The delay is honoured: but for the first, which follows the submit
/// call, a poll call is only ever the answer to a delay that has passed,
/// and every delay that is asked for is the configured one.
pub proof fn law_polls_are_spaced(session: SessionView, reply: ReplyView)
    ensures
        session.advance(reply).1 matches Some(ActionView::Poll { .. }) ==> {
            ||| session.phase is Submitting && reply is Submitted
            ||| session.phase is Waiting && reply is Waited
        },
        session.advance(reply).1 matches Some(ActionView::Wait { millis }) ==> {
            &&& millis == session.retry_delay
            &&& session.phase is Polling
            &&& session.advance(reply).0.phase is Waiting
        },
        session.phase is Waiting ==> (session.advance(reply).1 is Some <==> reply is Waited),
{
}

/// What the tally of a send must look like in each phase: one submit call
/// for every recipient up to the current one, at most `retry_count` poll
/// calls for each of them, a delay only between two poll calls of one
/// recipient, and an outcome exactly when the send is over, which is
/// success only where every recipient was submitted and confirmed.
pub open spec fn consistent(session: SessionView, tally: Tally) -> bool {
    let limit = session.retry_count as int;
    let served = session.recipient as int;
    match session.phase {
        Phase::Submitting => {
            &&& session.wf()
            &&& tally.submits == served + 1
            &&& served <= tally.polls <= served * limit
            &&& tally.polls > 0 ==> tally.waits < tally.polls
            &&& tally.polls == 0 ==> tally.waits == 0
            &&& tally.outcome is None
        },
        Phase::Polling { attempt } => {
            &&& session.wf()
            &&& tally.submits == served + 1
            &&& served + 1 <= tally.polls <= served * limit + attempt + 1
            &&& tally.waits < tally.polls
            &&& tally.outcome is None
        },
        Phase::Waiting { attempt } => {
            &&& session.wf()
            &&& tally.submits == served + 1
            &&& served + 1 <= tally.polls <= served * limit + attempt + 1
            &&& tally.waits <= tally.polls
            &&& tally.outcome is None
        },
        _ => {
            &&& tally.submits <= session.numbers.len()
            &&& tally.polls <= tally.submits * limit
            &&& tally.polls > 0 ==> tally.waits < tally.polls
            &&& tally.polls == 0 ==> tally.waits == 0
            &&& tally.outcome is Some
            &&& tally.outcome == Some(Ok::<(), SmsErrorView>(())) <==> session.phase
                == Phase::Confirmed
            &&& session.phase == Phase::Exhausted ==> tally.outcome == Some(
                Err::<(), SmsErrorView>(unconfirmed()),
            )
            &&& session.phase == Phase::Confirmed ==> {
                &&& tally.submits == session.numbers.len()
                &&& tally.polls >= session.numbers.len()
            }
        },
    }
}

/// Every step keeps state and tally consistent, whatever the reply.
pub proof fn law_step_keeps_consistent(session: SessionView, tally: Tally, reply: ReplyView)
    requires
        consistent(session, tally),
    ensures
        consistent(session.advance(reply).0, tally.record(session.advance(reply).1)),
{
    let limit = session.retry_count as int;
    let served = session.recipient as int;
    assert((served + 1) * limit == served * limit + limit) by (nonlinear_arith);
    assert(served >= 0 && limit >= 0 ==> served * limit >= 0) by (nonlinear_arith);
}

/// Every run keeps state and tally consistent, whatever the replies.
pub proof fn law_run_keeps_consistent(session: SessionView, tally: Tally, replies: Seq<ReplyView>)
    requires
        consistent(session, tally),
    ensures
        consistent(run(session, tally, replies).0, run(session, tally, replies).1),
    decreases replies.len(),
{
    if replies.len() > 0 {
        let step = session.advance(replies[0]);
        law_step_keeps_consistent(session, tally, replies[0]);
        law_run_keeps_consistent(step.0, tally.record(step.1), replies.skip(1));
    }
}

/// The calls of a send are bounded, whatever the device answers: at most
/// one submit call for each recipient; at most `retry_count` poll calls for
/// each recipient submitted; no more delays than poll calls, and fewer once
/// the send is over, so that none follows the last poll call; an outcome
/// exactly when the send is over; and success only where every recipient
/// was submitted and asked about.
pub proof fn law_calls_are_bounded(
    url: Seq<char>,
    retry_count: usize,
    retry_delay: u64,
    message: Seq<char>,
    numbers: Seq<Seq<char>>,
    replies: Seq<ReplyView>,
)
    ensures
        ({
            let end = whole_send(url, retry_count, retry_delay, message, numbers, replies);
            &&& end.1.submits <= numbers.len()
            &&& end.1.polls <= end.1.submits * retry_count
            &&& end.1.waits <= end.1.polls
            &&& end.0.phase.is_terminal() && end.1.polls > 0 ==> end.1.waits < end.1.polls
            &&& end.1.outcome is Some <==> end.0.phase.is_terminal()
            &&& end.1.outcome == Some(Ok::<(), SmsErrorView>(())) <==> end.0.phase
                == Phase::Confirmed
            &&& end.0.phase == Phase::Exhausted ==> end.1.outcome == Some(
                Err::<(), SmsErrorView>(unconfirmed()),
            )
            &&& end.1.outcome == Some(Ok::<(), SmsErrorView>(())) ==> {
                &&& end.1.submits == numbers.len()
                &&& end.1.polls >= numbers.len()
            }
        }),
{
    let start = begin(url, retry_count, retry_delay, message, numbers);
    let t0 = Tally::empty().record(Some(start.1));
    assert(consistent(start.0, t0));
    law_run_keeps_consistent(start.0, t0, replies);
    law_run_keeps_numbers(start.0, t0, replies);
    let end = run(start.0, t0, replies);
    let limit = retry_count as int;
    let served = end.0.recipient as int;
    let submits = end.1.submits as int;
    assert(submits == served + 1 ==> submits * limit == served * limit + limit)
        by (nonlinear_arith);
}

/// A run changes neither what is sent nor to whom nor the retry policy.
pub proof fn law_run_keeps_numbers(session: SessionView, tally: Tally, replies: Seq<ReplyView>)
    ensures
        ({
            let end = run(session, tally, replies).0;
            &&& end.url == session.url
            &&& end.retry_count == session.retry_count
            &&& end.retry_delay == session.retry_delay
            &&& end.message == session.message
            &&& end.numbers == session.numbers
        }),
    decreases replies.len(),
{
    if replies.len() > 0 {
        let step = session.advance(replies[0]);
        law_run_keeps_numbers(step.0, tally.record(step.1), replies.skip(1));
    }
}

/// A text of characters that need no escape is written as it is, between
/// quotation marks.
pub proof fn law_plain_text_is_quoted_verbatim(text: Seq<char>)
    requires
        forall|i: int| 0 <= i < text.len() ==> json_plain(#[trigger] text[i]),
    ensures
        json_chars(text) == text,
        json_string(text) == seq!['"'] + text + seq!['"'],
    decreases text.len(),
{
    if text.len() > 0 {
        law_plain_text_is_quoted_verbatim(text.drop_last());
        assert(json_plain(text.last()));
        assert(json_char(text.last()) == seq![text.last()]);
        assert(text.drop_last() + seq![text.last()] =~= text);
    }
}

/// Taking two lists of replies one after the other is taking them as one.
pub proof fn law_run_splits(
    session: SessionView,
    tally: Tally,
    first: Seq<ReplyView>,
    second: Seq<ReplyView>,
)
    ensures
        run(session, tally, first + second) == run(
            run(session, tally, first).0,
            run(session, tally, first).1,
            second,
        ),
    decreases first.len(),
{
    if first.len() == 0 {
        assert(first + second =~= second);
    } else {
        let step = session.advance(first[0]);
        assert((first + second)[0] == first[0]);
        assert((first + second).skip(1) =~= first.skip(1) + second);
        law_run_splits(step.0, tally.record(step.1), first.skip(1), second);
    }
}

/// The replies of a device that answers the poll calls with 200 and the
/// `codes` in their order, a delay reported after each, and then confirms
/// the send.
pub open spec fn confirming_replies(codes: Seq<i8>) -> Seq<ReplyView>
    decreases codes.len(),
{
    if codes.len() == 0 {
        seq![ReplyView::Polled(200, Ok(SENT))]
    } else {
        seq![ReplyView::Polled(200, Ok(codes[0])), ReplyView::Waited] + confirming_replies(
            codes.skip(1),
        )
    }
}

/// A poll that is confirmed within the attempts allowed ends the polling
/// with success for the recipient: where the device first answers with
/// `SendStatus` values other than 2, fewer of them than attempts are left,
/// and then with 2, the send goes on as confirmed after one poll call and
/// one delay for each of the earlier answers.
pub proof fn law_confirmed_on_attempt(session: SessionView, tally: Tally, codes: Seq<i8>)
    requires
        session.wf(),
        session.phase matches Phase::Polling { attempt } && attempt + codes.len()
            < session.retry_count,
        forall|i: int| 0 <= i < codes.len() ==> codes[i] != SENT,
    ensures
        ({
            let attempt = session.phase->Polling_attempt;
            let last = session.in_phase(
                Phase::Polling { attempt: (attempt + codes.len()) as usize },
            );
            let polled = Tally {
                polls: tally.polls + codes.len(),
                waits: tally.waits + codes.len(),
                ..tally
            };
            run(session, tally, confirming_replies(codes)) == (
                last.confirmed().0,
                polled.record(last.confirmed().1),
            )
        }),
    decreases codes.len(),
{
    let attempt = session.phase->Polling_attempt;
    let replies = confirming_replies(codes);
    let polled = session.advance(replies[0]);
    let t1 = tally.record(polled.1);
    if codes.len() == 0 {
        assert(session.in_phase(Phase::Polling { attempt: (attempt + 0) as usize }) == session);
        assert(replies.skip(1).len() == 0);
        assert(run(polled.0, t1, replies.skip(1)) == (polled.0, t1));
    } else {
        assert(codes[0] != SENT);
        let after_poll = replies.skip(1);
        assert(after_poll[0] == ReplyView::Waited);
        let waited = polled.0.advance(after_poll[0]);
        let t2 = t1.record(waited.1);
        let rest = codes.skip(1);
        assert(after_poll.skip(1) =~= confirming_replies(rest));
        assert(waited.0 == session.in_phase(Phase::Polling { attempt: (attempt + 1) as usize }));
        assert forall|i: int| 0 <= i < rest.len() implies rest[i] != SENT by {
            assert(rest[i] == codes[i + 1]);
        }
        law_confirmed_on_attempt(waited.0, t2, rest);
        assert(run(polled.0, t1, after_poll) == run(waited.0, t2, after_poll.skip(1)));
        assert(waited.0.in_phase(Phase::Polling { attempt: (attempt + 1 + rest.len()) as usize })
            == session.in_phase(Phase::Polling { attempt: (attempt + codes.len()) as usize }));
    }
}

/// The number of answers in all the lists.
pub open spec fn total_tries(tries: Seq<Seq<i8>>) -> nat
    decreases tries.len(),
{
    if tries.len() == 0 {
        0
    } else {
        tries[0].len() + total_tries(tries.skip(1))
    }
}

/// The replies of a device that accepts every recipient's message and
/// confirms it after the unconfirmed answers of the recipient's list.
pub open spec fn batch_replies(tries: Seq<Seq<i8>>) -> Seq<ReplyView>
    decreases tries.len(),
{
    if tries.len() == 0 {
        Seq::empty()
    } else {
        (seq![ReplyView::Submitted(200)] + confirming_replies(tries[0])) + batch_replies(
            tries.skip(1),
        )
    }
}

/// Whether each list holds fewer answers than polls are allowed, none of
/// them the confirmation.
pub open spec fn within_limit(tries: Seq<Seq<i8>>, retry_count: usize) -> bool {
    forall|i: int|
        0 <= i < tries.len() ==> (#[trigger] tries[i]).len() < retry_count && (forall|j: int|
            0 <= j < tries[i].len() ==> tries[i][j] != SENT)
}

/// From any recipient on: where the device accepts and, within the limit,
/// confirms the message for the current recipient and every later one, the
/// send ends confirmed, with one submit call for each of them.
pub proof fn law_rest_of_batch_is_confirmed(
    session: SessionView,
    tally: Tally,
    tries: Seq<Seq<i8>>,
)
    requires
        session.wf(),
        session.phase == Phase::Submitting,
        tries.len() >= 1,
        session.recipient + tries.len() == session.numbers.len(),
        within_limit(tries, session.retry_count),
    ensures
        run(session, tally, batch_replies(tries)) == (
            SessionView {
                recipient: (session.numbers.len() - 1) as nat,
                phase: Phase::Confirmed,
                ..session
            },
            Tally {
                submits: tally.submits + (tries.len() - 1) as nat,
                polls: tally.polls + tries.len() + total_tries(tries),
                waits: tally.waits + total_tries(tries),
                outcome: Some(Ok(())),
            },
        ),
    decreases tries.len(),
{
    let first = seq![ReplyView::Submitted(200)] + confirming_replies(tries[0]);
    let later = batch_replies(tries.skip(1));
    assert(tries[0].len() < session.retry_count);
    let submitted = session.advance(first[0]);
    let t1 = tally.record(submitted.1);
    assert(first.skip(1) =~= confirming_replies(tries[0]));
    law_confirmed_on_attempt(submitted.0, t1, tries[0]);
    let middle = run(session, tally, first);
    assert(middle == run(submitted.0, t1, first.skip(1)));
    law_run_splits(session, tally, first, later);
    if tries.len() == 1 {
        assert(tries.skip(1).len() == 0);
        assert(later.len() == 0);
        assert(total_tries(tries.skip(1)) == 0);
    } else {
        let rest = tries.skip(1);
        assert forall|i: int| 0 <= i < rest.len() implies (#[trigger] rest[i]).len()
            < session.retry_count && (forall|j: int|
            0 <= j < rest[i].len() ==> rest[i][j] != SENT) by {
            assert(rest[i] == tries[i + 1]);
        }
        law_rest_of_batch_is_confirmed(middle.0, middle.1, rest);
    }
}

/// A batch succeeds where every recipient is confirmed: where the device
/// accepts each recipient's message and confirms it within the limit, the
/// send ends with success after one submit call for each recipient, and
/// for each of them one poll call more than unconfirmed answers came.
pub proof fn law_all_confirmed_is_success(
    url: Seq<char>,
    retry_count: usize,
    retry_delay: u64,
    message: Seq<char>,
    numbers: Seq<Seq<char>>,
    tries: Seq<Seq<i8>>,
)
    requires
        numbers.len() >= 1,
        tries.len() == numbers.len(),
        within_limit(tries, retry_count),
    ensures
        ({
            let end = whole_send(
                url,
                retry_count,
                retry_delay,
                message,
                numbers,
                batch_replies(tries),
            );
            &&& end.0.phase == Phase::Confirmed
            &&& end.1 == (Tally {
                submits: numbers.len(),
                polls: numbers.len() + total_tries(tries),
                waits: total_tries(tries),
                outcome: Some(Ok(())),
            })
        }),
{
    let start = begin(url, retry_count, retry_delay, message, numbers);
    let t0 = Tally::empty().record(Some(start.1));
    law_rest_of_batch_is_confirmed(start.0, t0, tries);
}

/// Whether the reply confirms the send for the current recipient.
pub open spec fn is_confirmation(session: SessionView, reply: ReplyView) -> bool {
    session.phase is Polling && reply == ReplyView::Polled(200, Ok::<i8, Seq<char>>(SENT))
}

/// The number of confirmations among the replies, added to `count`.
pub open spec fn confirmations(session: SessionView, count: nat, replies: Seq<ReplyView>) -> nat
    decreases replies.len(),
{
    if replies.len() == 0 {
        count
    } else {
        confirmations(
            session.advance(replies[0]).0,
            if is_confirmation(session, replies[0]) {
                count + 1
            } else {
                count
            },
            replies.skip(1),
        )
    }
}

/// What the number of confirmations must be in each phase: one for every
/// recipient before the current one while the send goes on, one for every
/// recipient once it is confirmed, and fewer where it ended otherwise.
pub open spec fn counted(session: SessionView, count: nat) -> bool {
    match session.phase {
        Phase::Confirmed => count == session.numbers.len(),
        Phase::Exhausted => count < session.numbers.len(),
        Phase::Failed => count < session.numbers.len(),
        _ => session.wf() && count == session.recipient,
    }
}

/// Every run keeps the count of confirmations in step with the state.
pub proof fn law_run_keeps_count(session: SessionView, count: nat, replies: Seq<ReplyView>)
    requires
        counted(session, count),
    ensures
        counted(run(session, Tally::empty(), replies).0, confirmations(session, count, replies)),
    decreases replies.len(),
{
    if replies.len() > 0 {
        let step = session.advance(replies[0]);
        let next = if is_confirmation(session, replies[0]) {
            count + 1
        } else {
            count
        };
        law_run_keeps_count(step.0, next, replies.skip(1));
        law_run_ignores_tally(step.0, Tally::empty().record(step.1), Tally::empty(), replies.skip(1));
    }
}

/// Where a run ends does not depend on what was tallied before it.
pub proof fn law_run_ignores_tally(
    session: SessionView,
    one: Tally,
    other: Tally,
    replies: Seq<ReplyView>,
)
    ensures
        run(session, one, replies).0 == run(session, other, replies).0,
    decreases replies.len(),
{
    if replies.len() > 0 {
        let step = session.advance(replies[0]);
        law_run_ignores_tally(step.0, one.record(step.1), other.record(step.1), replies.skip(1));
    }
}

/// A send succeeds exactly where every recipient was confirmed: whatever
/// the device answers, the outcome is success if and only if the replies
/// hold one confirmation for each recipient.
pub proof fn law_success_is_every_confirmation(
    url: Seq<char>,
    retry_count: usize,
    retry_delay: u64,
    message: Seq<char>,
    numbers: Seq<Seq<char>>,
    replies: Seq<ReplyView>,
)
    ensures
        ({
            let start = begin(url, retry_count, retry_delay, message, numbers);
            let end = whole_send(url, retry_count, retry_delay, message, numbers, replies);
            &&& confirmations(start.0, 0, replies) <= numbers.len()
            &&& end.1.outcome == Some(Ok::<(), SmsErrorView>(())) <==> confirmations(
                start.0,
                0,
                replies,
            ) == numbers.len()
        }),
{
    let start = begin(url, retry_count, retry_delay, message, numbers);
    let t0 = Tally::empty().record(Some(start.1));
    law_run_keeps_count(start.0, 0, replies);
    law_run_ignores_tally(start.0, t0, Tally::empty(), replies);
    law_run_keeps_numbers(start.0, t0, replies);
    law_calls_are_bounded(url, retry_count, retry_delay, message, numbers, replies);
}

/// Whether every character of the text stands for itself in a JSON string.
pub open spec fn plain_text(text: Seq<char>) -> bool {
    forall|i: int| 0 <= i < text.len() ==> json_plain(#[trigger] text[i])
}

/// The submit body on the wire, for one recipient and texts that need no
/// escape: the fixed frame with message, number and time in their places.
pub proof fn law_plain_request_body(request: SendSmsRequest)
    requires
        request.id@ == "6.6"@,
        request.jsonrpc@ == "2.0"@,
        request.method@ == "SendSMS"@,
        request.params.sms_id == -1,
        request.params.phone_number@.len() == 1,
        plain_text(request.params.sms_content@),
        plain_text(request.params.phone_number@[0]@),
        plain_text(request.params.sms_time@),
    ensures
        request_json(request)
            == "{\"id\":\"6.6\",\"jsonrpc\":\"2.0\",\"method\":\"SendSMS\",\"params\":{\"SMSId\":-1,\"SMSContent\":\""@
            + request.params.sms_content@ + "\",\"PhoneNumber\":[\""@
            + request.params.phone_number@[0]@ + "\"],\"SMSTime\":\""@
            + request.params.sms_time@ + "\"}}"@,
{
    let content = request.params.sms_content@;
    let phone = request.params.phone_number@[0]@;
    let time = request.params.sms_time@;
    let quote = seq!['"'];
    reveal_strlit("6.6");
    reveal_strlit("2.0");
    reveal_strlit("SendSMS");
    reveal_strlit("-");
    reveal_strlit("{\"id\":");
    reveal_strlit(",\"jsonrpc\":");
    reveal_strlit(",\"method\":");
    reveal_strlit(",\"params\":{\"SMSId\":");
    reveal_strlit(",\"SMSContent\":");
    reveal_strlit(",\"PhoneNumber\":[");
    reveal_strlit("],\"SMSTime\":");
    reveal_strlit("}}");
    reveal_strlit(
        "{\"id\":\"6.6\",\"jsonrpc\":\"2.0\",\"method\":\"SendSMS\",\"params\":{\"SMSId\":-1,\"SMSContent\":\"",
    );
    reveal_strlit("\",\"PhoneNumber\":[\"");
    reveal_strlit("\"],\"SMSTime\":\"");
    reveal_strlit("\"}}");
    assert(plain_text("6.6"@) && plain_text("2.0"@) && plain_text("SendSMS"@));
    law_plain_text_is_quoted_verbatim("6.6"@);
    law_plain_text_is_quoted_verbatim("2.0"@);
    law_plain_text_is_quoted_verbatim("SendSMS"@);
    law_plain_text_is_quoted_verbatim(content);
    law_plain_text_is_quoted_verbatim(phone);
    law_plain_text_is_quoted_verbatim(time);
    assert(texts(request.params.phone_number@) =~= seq![phone]);
    assert(json_items(seq![phone]) == json_string(phone));
    assert(signed_decimal_text(-1) =~= seq!['-', '1']) by {
        assert(decimal_text(1) =~= seq!['1']);
    }
    let head = "{\"id\":"@ + (quote + "6.6"@ + quote) + ",\"jsonrpc\":"@ + (quote + "2.0"@ + quote)
        + ",\"method\":"@ + (quote + "SendSMS"@ + quote) + ",\"params\":{\"SMSId\":"@ + seq![
        '-',
        '1',
    ] + ",\"SMSContent\":"@;
    assert(head + quote
        =~= "{\"id\":\"6.6\",\"jsonrpc\":\"2.0\",\"method\":\"SendSMS\",\"params\":{\"SMSId\":-1,\"SMSContent\":\""@);
    assert(quote + ",\"PhoneNumber\":["@ + quote =~= "\",\"PhoneNumber\":[\""@);
    assert(quote + "],\"SMSTime\":"@ + quote =~= "\"],\"SMSTime\":\""@);
    assert(quote + "}}"@ =~= "\"}}"@);
    assert(request_json(request) =~= head + (quote + content + quote) + ",\"PhoneNumber\":["@ + (quote
        + phone + quote) + "],\"SMSTime\":"@ + (quote + time + quote) + "}}"@);
    assert(head + (quote + content + quote) + ",\"PhoneNumber\":["@ + (quote + phone + quote)
        + "],\"SMSTime\":"@ + (quote + time + quote) + "}}"@ =~= (head + quote) + content + (quote
        + ",\"PhoneNumber\":["@ + quote) + phone + (quote + "],\"SMSTime\":"@ + quote) + time + (quote
        + "}}"@));
}

} // verus!
