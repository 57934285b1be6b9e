//! The client for gateways of the Alcatel family.
//!
//! A send is two calls per recipient: one that submits the message, and one,
//! repeated up to a limit, that asks whether the device has sent it. The
//! client makes no call itself. It answers each reply of the device with the
//! next thing to do, until the send is done.

use vstd::prelude::*;
use vstd::string::*;
use crate::error::{outcome_view, SmsError, SmsErrorView};
use crate::status::{status_text, HttpStatus};
use crate::text::{digit_char, signed_decimal, signed_decimal_text, strs, texts};

verus! {

/// The number of seconds after which a call to the device is given up.
pub const REQUEST_TIMEOUT_SECS: u64 = 10;

/// The `SendStatus` with which the device confirms that a message was sent.
pub const SENT: i8 = 2;

/// The path and query of the call that submits a message.
pub open spec fn submit_path() -> Seq<char> {
    "/jrd/webapi?api=SendSMS"@
}

/// The path and query of the call that asks for the state of the last send.
pub open spec fn poll_path() -> Seq<char> {
    "/jrd/webapi?api=GetSendSMSResult"@
}

/// The body of the call that asks for the state of the last send.
pub open spec fn poll_body() -> Seq<char> {
    "{\"jsonrpc\":\"2.0\",\"method\":\"GetSendSMSResult\",\"params\":null,\"id\":\"6.7\"}"@
}

/// The value of the `Referer` header for a device at `url`.
pub open spec fn referer_of(url: Seq<char>) -> Seq<char> {
    url + "/default.html"@
}

/// The message of the failure when the device never confirmed the send.
pub open spec fn unconfirmed_text() -> Seq<char> {
    "Service didn't confirm successful send"@
}

/// The failure when the device never confirmed the send.
pub open spec fn unconfirmed() -> SmsErrorView {
    SmsErrorView::UnknownError(unconfirmed_text())
}

/// The message that tells the operator where no device was found.
pub open spec fn not_found_text(url: Seq<char>) -> Seq<char> {
    "We could not find service under url "@ + url
        + ", make sure usb modem is connected and service is running"@
}

/// What an HTTP status means for the call that got it. Only 200 lets the
/// send go on. Every other status ends it: none is tried again.
pub open spec fn classify(url: Seq<char>, code: u16) -> Result<(), SmsErrorView> {
    if code == 200 {
        Ok(())
    } else if code == 401 {
        Err(SmsErrorView::InvalidResponse(code, "Unauthorized"@))
    } else if code == 404 {
        Err(SmsErrorView::InvalidResponse(code, not_found_text(url)))
    } else {
        Err(SmsErrorView::UnknownError("Unexpected status code: "@ + status_text(code)))
    }
}

/// Turns the HTTP status of an answer from the device at `url` into the
/// decision to go on or the failure to report.
pub fn ensure_status_is_success(url: &str, status: HttpStatus) -> (verdict: Result<(), SmsError>)
    ensures
        outcome_view(verdict) == classify(url@, status@),
{
    let code = status.as_u16();
    if code == 200 {
        Ok(())
    } else if code == 401 {
        Err(SmsError::InvalidResponse(status, String::from_str("Unauthorized")))
    } else if code == 404 {
        let text = String::from_str("We could not find service under url ").concat(url).concat(
            ", make sure usb modem is connected and service is running",
        );
        Err(SmsError::InvalidResponse(status, text))
    } else {
        let shown = status.to_text();
        Err(SmsError::UnknownError(String::from_str("Unexpected status code: ").concat(shown.as_str())))
    }
}

/// Where a send stands.
#[derive(Clone, Copy, Debug, PartialEq, Eq)]
pub enum Phase {
    /// The message was handed to the device for the current recipient and
    /// the answer is awaited.
    Submitting,
    /// The device was asked for the state of the send, for the time with
    /// this number, counted from 0, and the answer is awaited.
    Polling { attempt: usize },
    /// The device had not sent the message at this attempt, and the delay
    /// before the next one runs.
    Waiting { attempt: usize },
    /// Over: the device confirmed the send for every recipient.
    Confirmed,
    /// Over: the device did not confirm a send within the attempts allowed.
    Exhausted,
    /// Over: a call failed, or the device answered what cannot be used.
    Failed,
}

impl Phase {
    /// Whether the send is over, so that nothing more is to be done.
    pub open spec fn is_terminal(self) -> bool {
        self is Confirmed || self is Exhausted || self is Failed
    }
}

/// What the caller has to do next.
#[derive(Debug, PartialEq, Eq)]
pub enum Action {
    /// POST a `SendSmsRequest` for this message and this one recipient to
    /// the endpoint, then report `Submitted` or `Unreachable`.
    Submit { endpoint: String, message: String, phone: String },
    /// POST the body to the endpoint, then report `Polled` or `Unreachable`.
    Poll { endpoint: String, body: String },
    /// Let so many milliseconds pass, then report `Waited`.
    Wait { millis: u64 },
    /// Nothing more: the send has this outcome.
    Done(Result<(), SmsError>),
}

/// An `Action` with its texts as sequences of characters.
pub enum ActionView {
    Submit { endpoint: Seq<char>, message: Seq<char>, phone: Seq<char> },
    Poll { endpoint: Seq<char>, body: Seq<char> },
    Wait { millis: u64 },
    Done(Result<(), SmsErrorView>),
}

impl View for Action {
    type V = ActionView;

    open spec fn view(&self) -> ActionView {
        match *self {
            Action::Submit { endpoint, message, phone } => ActionView::Submit {
                endpoint: endpoint@,
                message: message@,
                phone: phone@,
            },
            Action::Poll { endpoint, body } => ActionView::Poll { endpoint: endpoint@, body: body@ },
            Action::Wait { millis } => ActionView::Wait { millis },
            Action::Done(outcome) => ActionView::Done(outcome_view(outcome)),
        }
    }
}

/// The view of an action that may be absent.
pub open spec fn option_action_view(action: Option<Action>) -> Option<ActionView> {
    match action {
        Some(a) => Some(a@),
        None => None,
    }
}

/// What came of the action that the caller was given.
#[derive(Debug, PartialEq, Eq)]
pub enum DeviceReply {
    /// The submit call was answered with this HTTP status.
    Submitted(HttpStatus),
    /// The poll call was answered with this HTTP status, and decoding its
    /// body gave this `SendStatus`, or failed with this description.
    Polled(HttpStatus, Result<i8, String>),
    /// The call got no answer; holds the transport's description.
    Unreachable(String),
    /// The delay has passed.
    Waited,
}

/// A `DeviceReply` with its texts as sequences of characters.
pub enum ReplyView {
    Submitted(u16),
    Polled(u16, Result<i8, Seq<char>>),
    Unreachable(Seq<char>),
    Waited,
}

impl View for DeviceReply {
    type V = ReplyView;

    open spec fn view(&self) -> ReplyView {
        match *self {
            DeviceReply::Submitted(status) => ReplyView::Submitted(status@),
            DeviceReply::Polled(status, decoded) => ReplyView::Polled(
                status@,
                match decoded {
                    Ok(send_status) => Ok(send_status),
                    Err(detail) => Err(detail@),
                },
            ),
            DeviceReply::Unreachable(reason) => ReplyView::Unreachable(reason@),
            DeviceReply::Waited => ReplyView::Waited,
        }
    }
}

/// A send in progress, as the contracts speak of it.
pub struct SessionView {
    pub url: Seq<char>,
    pub retry_count: usize,
    pub retry_delay: u64,
    pub message: Seq<char>,
    pub numbers: Seq<Seq<char>>,
    pub recipient: nat,
    pub phase: Phase,
}

impl SessionView {
    /// A send that is not over has a current recipient, and its attempt
    /// number is below the limit; while it waits, another attempt is left.
    pub open spec fn wf(self) -> bool {
        match self.phase {
            Phase::Submitting => self.recipient < self.numbers.len(),
            Phase::Polling { attempt } => self.recipient < self.numbers.len() && attempt
                < self.retry_count,
            Phase::Waiting { attempt } => self.recipient < self.numbers.len() && attempt + 1
                < self.retry_count,
            Phase::Confirmed => true,
            Phase::Exhausted => true,
            Phase::Failed => true,
        }
    }

    /// The same send in another phase.
    pub open spec fn in_phase(self, phase: Phase) -> SessionView {
        SessionView { phase, ..self }
    }

    /// The call that submits the message for the recipient at `index`.
    pub open spec fn submit_action(self, index: int) -> ActionView {
        ActionView::Submit {
            endpoint: self.url + submit_path(),
            message: self.message,
            phone: self.numbers[index],
        }
    }

    /// The call that asks for the state of the last send.
    pub open spec fn poll_action(self) -> ActionView {
        ActionView::Poll { endpoint: self.url + poll_path(), body: poll_body() }
    }

    /// The send ends with this failure.
    pub open spec fn fail(self, error: SmsErrorView) -> (SessionView, Option<ActionView>) {
        (self.in_phase(Phase::Failed), Some(ActionView::Done(Err(error))))
    }

    /// The send ends because the device did not confirm it in time.
    pub open spec fn exhaust(self) -> (SessionView, Option<ActionView>) {
        (self.in_phase(Phase::Exhausted), Some(ActionView::Done(Err(unconfirmed()))))
    }

    /// The device confirmed the send for the current recipient: the next
    /// recipient's turn, or success when there is none.
    pub open spec fn confirmed(self) -> (SessionView, Option<ActionView>) {
        if self.recipient + 1 < self.numbers.len() {
            (
                SessionView {
                    recipient: self.recipient + 1,
                    phase: Phase::Submitting,
                    ..self
                },
                Some(self.submit_action(self.recipient + 1 as int)),
            )
        } else {
            (self.in_phase(Phase::Confirmed), Some(ActionView::Done(Ok(()))))
        }
    }

    /// The submit call was answered with this status.
    pub open spec fn after_submit(self, code: u16) -> (SessionView, Option<ActionView>) {
        match classify(self.url, code) {
            Err(error) => self.fail(error),
            Ok(_) => if self.retry_count == 0 {
                self.exhaust()
            } else {
                (self.in_phase(Phase::Polling { attempt: 0 }), Some(self.poll_action()))
            },
        }
    }

    /// The poll call number `attempt` was answered with this status and body.
    pub open spec fn after_poll(self, attempt: usize, code: u16, decoded: Result<i8, Seq<char>>) -> (
        SessionView,
        Option<ActionView>,
    ) {
        match classify(self.url, code) {
            Err(error) => self.fail(error),
            Ok(_) => match decoded {
                Err(detail) => self.fail(SmsErrorView::ResponseParseError(detail)),
                Ok(send_status) => if send_status == SENT {
                    self.confirmed()
                } else if attempt + 1 >= self.retry_count {
                    self.exhaust()
                } else {
                    (
                        self.in_phase(Phase::Waiting { attempt }),
                        Some(ActionView::Wait { millis: self.retry_delay }),
                    )
                },
            },
        }
    }

    /// The state after a reply and the action that answers it. A reply that
    /// does not belong to the phase changes nothing and gets no action.
    pub open spec fn advance(self, reply: ReplyView) -> (SessionView, Option<ActionView>) {
        match (self.phase, reply) {
            (Phase::Submitting, ReplyView::Submitted(code)) => self.after_submit(code),
            (Phase::Submitting, ReplyView::Unreachable(reason)) => self.fail(
                SmsErrorView::NetworkError(reason),
            ),
            (Phase::Polling { attempt }, ReplyView::Polled(code, decoded)) => self.after_poll(
                attempt,
                code,
                decoded,
            ),
            (Phase::Polling { attempt }, ReplyView::Unreachable(reason)) => self.fail(
                SmsErrorView::NetworkError(reason),
            ),
            (Phase::Waiting { attempt }, ReplyView::Waited) => (
                self.in_phase(Phase::Polling { attempt: (attempt + 1) as usize }),
                Some(self.poll_action()),
            ),
            _ => (self, None),
        }
    }
}

/// The state and first action of a send of `message` to `numbers` through
/// the device at `url`: the first recipient's submit call, or success at
/// once when there is no recipient.
pub open spec fn begin(
    url: Seq<char>,
    retry_count: usize,
    retry_delay: u64,
    message: Seq<char>,
    numbers: Seq<Seq<char>>,
) -> (SessionView, ActionView) {
    let session = SessionView {
        url,
        retry_count,
        retry_delay,
        message,
        numbers,
        recipient: 0,
        phase: Phase::Submitting,
    };
    if numbers.len() == 0 {
        (session.in_phase(Phase::Confirmed), ActionView::Done(Ok(())))
    } else {
        (session, session.submit_action(0))
    }
}

/// A send with no recipient and nothing left to do.
pub open spec fn idle_session() -> SessionView {
    SessionView {
        url: Seq::empty(),
        retry_count: 0,
        retry_delay: 0,
        message: Seq::empty(),
        numbers: Seq::empty(),
        recipient: 0,
        phase: Phase::Confirmed,
    }
}

/// A send in progress: the message, its recipients, the device's address
/// and retry policy as they were when the send began, and where it stands.
#[derive(Debug)]
pub struct SendSession {
    url: String,
    retry_count: usize,
    retry_delay: u64,
    message: String,
    numbers: Vec<String>,
    recipient: usize,
    phase: Phase,
}

impl View for SendSession {
    type V = SessionView;

    closed spec fn view(&self) -> SessionView {
        SessionView {
            url: self.url@,
            retry_count: self.retry_count,
            retry_delay: self.retry_delay,
            message: self.message@,
            numbers: texts(self.numbers@),
            recipient: self.recipient as nat,
            phase: self.phase,
        }
    }
}

impl SendSession {
    #[verifier::type_invariant]
    spec fn well_formed(self) -> bool {
        self@.wf()
    }

    /// Begins a send of `msg` to `phone_numbers` through the device at
    /// `url`, which is asked at most `retry_count` times whether it has sent
    /// a message, `retry_delay` milliseconds apart.
    pub fn start(
        url: &str,
        retry_count: usize,
        retry_delay: u64,
        msg: &str,
        phone_numbers: &[&str],
    ) -> (start: (SendSession, Action))
        ensures
            (start.0@, start.1@) == begin(
                url@,
                retry_count,
                retry_delay,
                msg@,
                strs(phone_numbers@),
            ),
    {
        let mut numbers: Vec<String> = Vec::new();
        let mut i: usize = 0;
        while i < phone_numbers.len()
            invariant
                i <= phone_numbers@.len(),
                numbers@.len() == i,
                forall|j: int| 0 <= j < i ==> (#[trigger] numbers@[j])@ == phone_numbers@[j]@,
            decreases phone_numbers@.len() - i,
        {
            numbers.push(String::from_str(phone_numbers[i]));
            i += 1;
        }
        assert(texts(numbers@) =~= strs(phone_numbers@));
        if numbers.len() == 0 {
            let session = SendSession {
                url: String::from_str(url),
                retry_count,
                retry_delay,
                message: String::from_str(msg),
                numbers,
                recipient: 0,
                phase: Phase::Confirmed,
            };
            (session, Action::Done(Ok(())))
        } else {
            let session = SendSession {
                url: String::from_str(url),
                retry_count,
                retry_delay,
                message: String::from_str(msg),
                numbers,
                recipient: 0,
                phase: Phase::Submitting,
            };
            let action = session.submit_for(0);
            (session, action)
        }
    }

    /// A send with no recipient and nothing left to do.
    pub fn idle() -> (session: SendSession)
        ensures
            session@ == idle_session(),
    {
        let session = SendSession {
            url: String::new(),
            retry_count: 0,
            retry_delay: 0,
            message: String::new(),
            numbers: Vec::new(),
            recipient: 0,
            phase: Phase::Confirmed,
        };
        assert(texts(session.numbers@) =~= Seq::<Seq<char>>::empty());
        session
    }

    /// Where the send stands.
    pub fn phase(&self) -> (phase: Phase)
        ensures
            phase == self@.phase,
            self@.wf(),
    {
        proof {
            use_type_invariant(self);
        }
        self.phase
    }

    /// The position of the current recipient in the list.
    pub fn recipient(&self) -> (index: usize)
        ensures
            index == self@.recipient,
    {
        self.recipient
    }

    /// Whether the send is over.
    pub fn is_finished(&self) -> (finished: bool)
        ensures
            finished == self@.phase.is_terminal(),
    {
        match self.phase {
            Phase::Confirmed => true,
            Phase::Exhausted => true,
            Phase::Failed => true,
            _ => false,
        }
    }

    fn submit_for(&self, index: usize) -> (action: Action)
        requires
            index < self@.numbers.len(),
        ensures
            action@ == self@.submit_action(index as int),
    {
        Action::Submit {
            endpoint: self.url.clone().concat("/jrd/webapi?api=SendSMS"),
            message: self.message.clone(),
            phone: self.numbers[index].clone(),
        }
    }

    fn poll(&self) -> (action: Action)
        ensures
            action@ == self@.poll_action(),
    {
        Action::Poll {
            endpoint: self.url.clone().concat("/jrd/webapi?api=GetSendSMSResult"),
            body: String::from_str(
                "{\"jsonrpc\":\"2.0\",\"method\":\"GetSendSMSResult\",\"params\":null,\"id\":\"6.7\"}",
            ),
        }
    }

    fn fail(&mut self, error: SmsError) -> (action: Option<Action>)
        ensures
            (final(self)@, option_action_view(action)) == old(self)@.fail(error@),
    {
        self.phase = Phase::Failed;
        Some(Action::Done(Err(error)))
    }

    fn exhaust(&mut self) -> (action: Option<Action>)
        ensures
            (final(self)@, option_action_view(action)) == old(self)@.exhaust(),
    {
        self.phase = Phase::Exhausted;
        Some(
            Action::Done(
                Err(SmsError::UnknownError(String::from_str("Service didn't confirm successful send"))),
            ),
        )
    }

    /// Takes what came of the last action and says what to do next.
    ///
    /// A reply that does not belong to the phase, and any reply once the
    /// send is over, changes nothing and gets `None`.
    pub fn advance(&mut self, reply: DeviceReply) -> (action: Option<Action>)
        ensures
            (final(self)@, option_action_view(action)) == old(self)@.advance(reply@),
            final(self)@.wf(),
    {
        proof {
            use_type_invariant(&*self);
        }
        match self.phase {
            Phase::Submitting => match reply {
                DeviceReply::Submitted(status) => {
                    match ensure_status_is_success(self.url.as_str(), status) {
                        Err(error) => self.fail(error),
                        Ok(_) => {
                            if self.retry_count == 0 {
                                self.exhaust()
                            } else {
                                self.phase = Phase::Polling { attempt: 0 };
                                Some(self.poll())
                            }
                        },
                    }
                },
                DeviceReply::Unreachable(reason) => self.fail(SmsError::NetworkError(reason)),
                _ => None,
            },
            Phase::Polling { attempt } => match reply {
                DeviceReply::Polled(status, decoded) => {
                    match ensure_status_is_success(self.url.as_str(), status) {
                        Err(error) => self.fail(error),
                        Ok(_) => match decoded {
                            Err(detail) => self.fail(SmsError::ResponseParseError(detail)),
                            Ok(send_status) => {
                                if send_status == SENT {
                                    let count = self.numbers.len();
                                    assert(self.recipient < self@.numbers.len() == count);
                                    if self.recipient + 1 < count {
                                        let next = self.recipient + 1;
                                        let action = self.submit_for(next);
                                        self.recipient = next;
                                        self.phase = Phase::Submitting;
                                        Some(action)
                                    } else {
                                        self.phase = Phase::Confirmed;
                                        Some(Action::Done(Ok(())))
                                    }
                                } else if attempt + 1 >= self.retry_count {
                                    self.exhaust()
                                } else {
                                    self.phase = Phase::Waiting { attempt };
                                    Some(Action::Wait { millis: self.retry_delay })
                                }
                            },
                        },
                    }
                },
                DeviceReply::Unreachable(reason) => self.fail(SmsError::NetworkError(reason)),
                _ => None,
            },
            Phase::Waiting { attempt } => match reply {
                DeviceReply::Waited => {
                    self.phase = Phase::Polling { attempt: attempt + 1 };
                    Some(self.poll())
                },
                _ => None,
            },
            Phase::Confirmed => None,
            Phase::Exhausted => None,
            Phase::Failed => None,
        }
    }
}

/// The client for one device: its address and its retry policy.
#[derive(Debug)]
pub struct AlcatelSmsService {
    url: String,
    retry_count: usize,
    retry_delay: u64,
}

impl AlcatelSmsService {
    /// A client for the device at `url` that asks at most `retry_count`
    /// times whether a message was sent, `retry_delay` milliseconds apart.
    pub fn new(url: &str, retry_count: usize, retry_delay: u64) -> (service: Result<
        AlcatelSmsService,
        SmsError,
    >)
        ensures
            service matches Ok(s) && s.url() == url@ && s.retry_count() == retry_count
                && s.retry_delay() == retry_delay,
    {
        Ok(AlcatelSmsService { url: String::from_str(url), retry_count, retry_delay })
    }

    /// The device's base address.
    pub closed spec fn url(&self) -> Seq<char> {
        self.url@
    }

    /// The largest number of poll calls for one recipient.
    pub closed spec fn retry_count(&self) -> usize {
        self.retry_count
    }

    /// The milliseconds between two poll calls.
    pub closed spec fn retry_delay(&self) -> u64 {
        self.retry_delay
    }

    /// The value of the `Referer` header that every call carries.
    pub fn referer(&self) -> (value: String)
        ensures
            value@ == referer_of(self.url()),
    {
        self.url.clone().concat("/default.html")
    }

    /// Begins a send: the first recipient's submit call, or success at once
    /// when there is no recipient.
    pub fn send_all_sms(&self, msg: &str, phone_numbers: &[&str]) -> (start: (SendSession, Action))
        ensures
            (start.0@, start.1@) == begin(
                self.url(),
                self.retry_count(),
                self.retry_delay(),
                msg@,
                strs(phone_numbers@),
            ),
    {
        SendSession::start(self.url.as_str(), self.retry_count, self.retry_delay, msg, phone_numbers)
    }
}

/// The parameters of the submit call.
#[derive(Debug)]
pub struct SendSmsParams {
    pub sms_id: i8,
    pub sms_content: String,
    pub phone_number: Vec<String>,
    pub sms_time: String,
}

/// The body of the submit call, before it is written as JSON.
#[derive(Debug)]
pub struct SendSmsRequest {
    pub id: String,
    pub jsonrpc: String,
    pub method: String,
    pub params: SendSmsParams,
}

/// The lower-case hexadecimal digit of a value below 16.
pub open spec fn hex_digit(d: nat) -> char {
    if d < 10 {
        digit_char(d)
    } else if d == 10 {
        'a'
    } else if d == 11 {
        'b'
    } else if d == 12 {
        'c'
    } else if d == 13 {
        'd'
    } else if d == 14 {
        'e'
    } else {
        'f'
    }
}

/// How one character stands inside a JSON string: the quotation mark, the
/// backslash and the control characters below U+0020 are escaped, the
/// others stand for themselves.
pub open spec fn json_char(c: char) -> Seq<char> {
    if c == '"' {
        seq!['\\', '"']
    } else if c == '\\' {
        seq!['\\', '\\']
    } else if c == '\u{8}' {
        seq!['\\', 'b']
    } else if c == '\t' {
        seq!['\\', 't']
    } else if c == '\n' {
        seq!['\\', 'n']
    } else if c == '\u{c}' {
        seq!['\\', 'f']
    } else if c == '\r' {
        seq!['\\', 'r']
    } else if (c as u32) < 0x20 {
        seq!['\\', 'u', '0', '0', hex_digit((c as u32 / 16) as nat), hex_digit((c as u32 % 16) as nat)]
    } else {
        seq![c]
    }
}

/// The characters of a text as they stand inside a JSON string.
pub open spec fn json_chars(text: Seq<char>) -> Seq<char>
    decreases text.len(),
{
    if text.len() == 0 {
        Seq::empty()
    } else {
        json_chars(text.drop_last()) + json_char(text.last())
    }
}

/// The JSON string literal for a text: its characters, escaped where JSON
/// asks for it, between quotation marks.
pub open spec fn json_string(text: Seq<char>) -> Seq<char> {
    seq!['"'] + json_chars(text) + seq!['"']
}

/// Whether a character stands for itself inside a JSON string.
pub open spec fn json_plain(c: char) -> bool {
    c != '"' && c != '\\' && (c as u32) >= 0x20
}

/// Trusted: `serde_json::to_string`, called on a `str`. The contract is the
/// crate's table of escapes: a backslash before the quotation mark and
/// before the backslash, the short escapes for backspace, tab, line feed,
/// form feed and carriage return, `u00` and two lower-case hexadecimal
/// digits after a backslash for the other characters below U+0020, and
/// everything else unchanged. Writing a `str` cannot fail.
#[verifier::external_body]
fn json_quote(text: &str) -> (literal: String)
    ensures
        literal@ == json_string(text@),
{
    match serde_json::to_string(text) {
        Ok(literal) => literal,
        Err(_) => String::new(),
    }
}

/// The JSON string literals of the items, with commas between them.
pub open spec fn json_items(items: Seq<Seq<char>>) -> Seq<char>
    decreases items.len(),
{
    if items.len() == 0 {
        Seq::empty()
    } else if items.len() == 1 {
        json_string(items[0])
    } else {
        json_items(items.drop_last()) + ","@ + json_string(items.last())
    }
}

/// The submit call's body on the wire: one JSON object without white
/// space, its members in this order.
pub open spec fn request_json(request: SendSmsRequest) -> Seq<char> {
    "{\"id\":"@ + json_string(request.id@) + ",\"jsonrpc\":"@ + json_string(request.jsonrpc@)
        + ",\"method\":"@ + json_string(request.method@) + ",\"params\":{\"SMSId\":"@
        + signed_decimal_text(request.params.sms_id as int) + ",\"SMSContent\":"@ + json_string(
        request.params.sms_content@,
    ) + ",\"PhoneNumber\":["@ + json_items(texts(request.params.phone_number@))
        + "],\"SMSTime\":"@ + json_string(request.params.sms_time@) + "}}"@
}

/// Trusted: `chrono::Local::now` and `DateTime::format` with the pattern
/// `%Y-%m-%d %H:%M:%S`. The result depends on the clock and the time zone
/// of the machine, so the contract promises nothing of it.
#[verifier::external_body]
fn current_time() -> (stamp: String) {
    chrono::Local::now().format("%Y-%m-%d %H:%M:%S").to_string()
}

impl SendSmsRequest {
    /// Whether this is the submit request for the message, the recipients
    /// and the time given: the device has one outbound mailbox, so the
    /// message id is always -1, and the framing is fixed.
    pub open spec fn is_request(self, msg: String, phone_numbers: Vec<String>, time: String) -> bool {
        &&& self.id@ == "6.6"@
        &&& self.jsonrpc@ == "2.0"@
        &&& self.method@ == "SendSMS"@
        &&& self.params.sms_id == -1
        &&& self.params.sms_content == msg
        &&& self.params.phone_number == phone_numbers
        &&& self.params.sms_time == time
    }

    /// The submit request for `msg` and `phone_numbers`, stamped with `time`.
    pub fn at_time(msg: String, phone_numbers: Vec<String>, time: String) -> (request: SendSmsRequest)
        ensures
            request.is_request(msg, phone_numbers, time),
    {
        SendSmsRequest {
            id: String::from_str("6.6"),
            jsonrpc: String::from_str("2.0"),
            method: String::from_str("SendSMS"),
            params: SendSmsParams {
                sms_id: -1,
                sms_content: msg,
                phone_number: phone_numbers,
                sms_time: time,
            },
        }
    }

    /// The request as the body of the submit call.
    pub fn to_json(&self) -> (body: String)
        ensures
            body@ == request_json(*self),
    {
        let mut items = String::new();
        let mut i: usize = 0;
        while i < self.params.phone_number.len()
            invariant
                i <= self.params.phone_number@.len(),
                items@ == json_items(texts(self.params.phone_number@).take(i as int)),
            decreases self.params.phone_number@.len() - i,
        {
            let ghost numbers = texts(self.params.phone_number@);
            let literal = json_quote(self.params.phone_number[i].as_str());
            if i > 0 {
                items = items.concat(",");
            }
            items = items.concat(literal.as_str());
            proof {
                assert(numbers.take(i + 1).drop_last() =~= numbers.take(i as int));
                assert(numbers.take(i + 1).last() == numbers[i as int]);
                if i == 0 {
                    assert(items@ =~= json_string(numbers[0]));
                }
            }
            i += 1;
        }
        assert(texts(self.params.phone_number@).take(i as int) =~= texts(
            self.params.phone_number@,
        ));
        let id = json_quote(self.id.as_str());
        let jsonrpc = json_quote(self.jsonrpc.as_str());
        let method = json_quote(self.method.as_str());
        let sms_id = signed_decimal(self.params.sms_id);
        let content = json_quote(self.params.sms_content.as_str());
        let time = json_quote(self.params.sms_time.as_str());
        String::from_str("{\"id\":").concat(id.as_str()).concat(",\"jsonrpc\":").concat(
            jsonrpc.as_str(),
        ).concat(",\"method\":").concat(method.as_str()).concat(
            ",\"params\":{\"SMSId\":",
        ).concat(sms_id.as_str()).concat(",\"SMSContent\":").concat(content.as_str()).concat(
            ",\"PhoneNumber\":[",
        ).concat(items.as_str()).concat("],\"SMSTime\":").concat(time.as_str()).concat("}}")
    }

    /// The submit request for `msg` and `phone_numbers`, stamped with the
    /// local time of the call.
    pub fn new(msg: String, phone_numbers: Vec<String>) -> (request: SendSmsRequest)
        ensures
            request.is_request(msg, phone_numbers, request.params.sms_time),
    {
        let time = current_time();
        SendSmsRequest::at_time(msg, phone_numbers, time)
    }
}

} // verus!
