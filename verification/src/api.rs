//! The loopback backend: the bounded handshake on a fresh listener, the
//! payload exchange, and how the three kinds of failure are folded into one
//! exit code.

use vstd::prelude::*;
use vstd::string::*;
use crate::error::{CodexErr, CodexErrView, IoFailure};
use crate::exec::{
    decode_lossy, is_interpreter, is_interpreter_name, program_name, utf8_lossy, ExitOutcome,
    RawExecToolCallOutput,
};
use crate::text::{join, join_strings, replace_char, replace_char_in, str_eq, texts};
use crate::translation::{CommandTranslationResult, opt_translation};
use vstd::utf8::encode_utf8;

verus! {

/// The factor that a failed handshake contributes to the exit code.
pub const API_HANDSHAKE_FAILURE: i32 = 2;

/// The factor that a failed payload exchange contributes to the exit code.
pub const API_PAYLOAD_FAILURE: i32 = 3;

/// The factor that a failed spawn contributes to the exit code.
pub const API_SPAWN_FAILURE: i32 = 5;

/// How many timed accepts a handshake makes.
pub const HANDSHAKE_TRIES: usize = 3;

/// How long one timed accept waits, in milliseconds.
pub const HANDSHAKE_RETRY_MS: u64 = 1000;

/// The message of a handshake that nobody answered.
pub const NO_RESPONSE_MESSAGE: &'static str = "No response on the API";

/// The message of a handshake whose peer connected and sent nothing.
pub const EMPTY_HANDSHAKE_MESSAGE: &'static str = "No handshake could be completed";

/// Which of the three failures occurred in one call.
#[derive(Clone, Copy, Debug, PartialEq, Eq, Structural)]
pub struct ApiFailures {
    pub handshake: bool,
    pub payload: bool,
    pub spawn: bool,
}

/// The product of the factors of the failures that occurred; 1 for none.
pub open spec fn status_factor_of(failures: ApiFailures) -> int {
    (if failures.handshake {
        2int
    } else {
        1int
    }) * (if failures.payload {
        3int
    } else {
        1int
    }) * (if failures.spawn {
        5int
    } else {
        1int
    })
}

/// The exit code that reports a set of failures: their status factor, and 0
/// where nothing failed.
pub open spec fn api_exit_code_of(failures: ApiFailures) -> int {
    if status_factor_of(failures) == 1 {
        0
    } else {
        status_factor_of(failures)
    }
}

/// Folds the failures of one call into the status factor.
pub fn status_factor(failures: ApiFailures) -> (r: i32)
    ensures
        r == status_factor_of(failures),
        1 <= r <= 30,
{
    let mut factor: i32 = 1;
    if failures.handshake {
        factor = factor * API_HANDSHAKE_FAILURE;
    }
    if failures.payload {
        factor = factor * API_PAYLOAD_FAILURE;
    }
    if failures.spawn {
        factor = factor * API_SPAWN_FAILURE;
    }
    factor
}

/// The exit code that reports the failures of one call.
pub fn api_exit_code(failures: ApiFailures) -> (r: i32)
    ensures
        r == api_exit_code_of(failures),
        r == 0 <==> (!failures.handshake && !failures.payload && !failures.spawn),
{
    let factor = status_factor(failures);
    if factor == 1 {
        0
    } else {
        factor
    }
}

/// Recovers the failures from an exit code by its prime factors. Codes that
/// no set of failures produces give `None`.
pub fn failures_of_exit_code(code: i32) -> (r: Option<ApiFailures>)
    ensures
        match r {
            Some(failures) => api_exit_code_of(failures) == code,
            None => forall|failures: ApiFailures| api_exit_code_of(failures) != code,
        },
{
    let failures = if code == 0 {
        ApiFailures { handshake: false, payload: false, spawn: false }
    } else if code == 2 {
        ApiFailures { handshake: true, payload: false, spawn: false }
    } else if code == 3 {
        ApiFailures { handshake: false, payload: true, spawn: false }
    } else if code == 5 {
        ApiFailures { handshake: false, payload: false, spawn: true }
    } else if code == 6 {
        ApiFailures { handshake: true, payload: true, spawn: false }
    } else if code == 10 {
        ApiFailures { handshake: true, payload: false, spawn: true }
    } else if code == 15 {
        ApiFailures { handshake: false, payload: true, spawn: true }
    } else if code == 30 {
        ApiFailures { handshake: true, payload: true, spawn: true }
    } else {
        proof {
            assert forall|failures: ApiFailures| api_exit_code_of(failures) != code by {
                lemma_status_factor_decodes(failures);
            }
        }
        return None;
    };
    Some(failures)
}

/// The status factor is the product of the primes of exactly the failures
/// that occurred, so each failure can be read off the factor by divisibility
/// and no two sets of failures share a factor.
pub proof fn lemma_status_factor_decodes(failures: ApiFailures)
    ensures
        failures.handshake <==> status_factor_of(failures) % 2 == 0,
        failures.payload <==> status_factor_of(failures) % 3 == 0,
        failures.spawn <==> status_factor_of(failures) % 5 == 0,
        status_factor_of(failures) == 1 || status_factor_of(failures) == 2 || status_factor_of(
            failures,
        ) == 3 || status_factor_of(failures) == 5 || status_factor_of(failures) == 6
            || status_factor_of(failures) == 10 || status_factor_of(failures) == 15
            || status_factor_of(failures) == 30,
        api_exit_code_of(failures) != 1,
{
}

/// Failures that occur independently multiply: the factor of two disjoint
/// sets of failures together is the product of their factors.
pub proof fn lemma_status_factor_multiplies(a: ApiFailures, b: ApiFailures)
    requires
        !(a.handshake && b.handshake),
        !(a.payload && b.payload),
        !(a.spawn && b.spawn),
    ensures
        status_factor_of(
            ApiFailures {
                handshake: a.handshake || b.handshake,
                payload: a.payload || b.payload,
                spawn: a.spawn || b.spawn,
            },
        ) == status_factor_of(a) * status_factor_of(b),
{
    lemma_status_factor_decodes(a);
    lemma_status_factor_decodes(b);
    lemma_status_factor_decodes(
        ApiFailures {
            handshake: a.handshake || b.handshake,
            payload: a.payload || b.payload,
            spawn: a.spawn || b.spawn,
        },
    );
    let fa = status_factor_of(a);
    let fb = status_factor_of(b);
    assert(fa == 1 ==> fa * fb == fb) by (nonlinear_arith);
    assert(fa == 2 ==> fa * fb == 2 * fb) by (nonlinear_arith);
    assert(fa == 3 ==> fa * fb == 3 * fb) by (nonlinear_arith);
    assert(fa == 5 ==> fa * fb == 5 * fb) by (nonlinear_arith);
    assert(fa == 6 ==> fa * fb == 6 * fb) by (nonlinear_arith);
    assert(fa == 10 ==> fa * fb == 10 * fb) by (nonlinear_arith);
    assert(fa == 15 ==> fa * fb == 15 * fb) by (nonlinear_arith);
    assert(fa == 30 ==> fa * fb == 30 * fb) by (nonlinear_arith);
}

/// Two sets of failures with the same exit code are the same set.
pub proof fn lemma_exit_code_is_injective(a: ApiFailures, b: ApiFailures)
    requires
        api_exit_code_of(a) == api_exit_code_of(b),
    ensures
        a == b,
{
    lemma_status_factor_decodes(a);
    lemma_status_factor_decodes(b);
}

/// What a handshake ended in: a one-line message, and whether a peer is
/// connected (the connection itself stays with whoever accepted it).
#[derive(Clone, Debug, PartialEq, Eq)]
pub struct ApiHandshakeOutcome {
    pub message: String,
    pub connected: bool,
}

/// The mathematical content of an [`ApiHandshakeOutcome`].
pub struct ApiHandshakeOutcomeView {
    pub message: Seq<char>,
    pub connected: bool,
}

impl View for ApiHandshakeOutcome {
    type V = ApiHandshakeOutcomeView;

    open spec fn view(&self) -> ApiHandshakeOutcomeView {
        ApiHandshakeOutcomeView { message: self.message@, connected: self.connected }
    }
}

/// What one timed accept came back with.
#[derive(Clone, Debug, PartialEq, Eq)]
pub enum AcceptEvent {
    /// A peer connected; these are the bytes it sent first.
    Connected(Vec<u8>),
    /// Nobody connected within the interval.
    TimedOut,
    /// The listener failed.
    Failed(IoFailure),
}

/// What the handshake does next.
#[derive(Clone, Debug, PartialEq, Eq)]
pub enum HandshakeStep {
    /// Make one more timed accept.
    Accept,
    /// The handshake is over.
    Done(ApiHandshakeOutcome),
    /// The handshake failed for good.
    Failed(CodexErr),
}

/// The mathematical content of a [`HandshakeStep`].
pub enum HandshakeStepView {
    Accept,
    Done(ApiHandshakeOutcomeView),
    Failed(CodexErrView),
}

impl View for HandshakeStep {
    type V = HandshakeStepView;

    open spec fn view(&self) -> HandshakeStepView {
        match self {
            HandshakeStep::Accept => HandshakeStepView::Accept,
            HandshakeStep::Done(outcome) => HandshakeStepView::Done(outcome@),
            HandshakeStep::Failed(e) => HandshakeStepView::Failed(e@),
        }
    }
}

/// The one-line status message of the text a peer sent: newlines become
/// spaces, and a peer that sent nothing gets a fixed message.
pub open spec fn handshake_message_of(sent_nothing: bool, text: Seq<char>) -> Seq<char> {
    if sent_nothing {
        EMPTY_HANDSHAKE_MESSAGE@
    } else {
        replace_char(text, '\n', " "@)
    }
}

/// Forms the status message from the decoded text of a peer.
pub fn handshake_message(sent_nothing: bool, text: &str) -> (r: String)
    ensures
        r@ == handshake_message_of(sent_nothing, text@),
{
    if sent_nothing {
        EMPTY_HANDSHAKE_MESSAGE.to_owned()
    } else {
        replace_char_in(text, '\n', " ")
    }
}

/// The outcome of a handshake in which nobody answered.
pub open spec fn no_response() -> ApiHandshakeOutcomeView {
    ApiHandshakeOutcomeView { message: NO_RESPONSE_MESSAGE@, connected: false }
}

/// What follows a timed accept, `attempts` of `tries` accepts having been
/// made, the last of which came back with `event`.
pub open spec fn handshake_after(attempts: nat, tries: nat, event: AcceptEvent) -> HandshakeStepView {
    match event {
        AcceptEvent::Connected(bytes) => HandshakeStepView::Done(
            ApiHandshakeOutcomeView {
                message: handshake_message_of(bytes@.len() == 0, utf8_lossy(bytes@)),
                connected: true,
            },
        ),
        AcceptEvent::Failed(e) => HandshakeStepView::Failed(CodexErrView::Io(e@)),
        AcceptEvent::TimedOut => if attempts >= tries {
            HandshakeStepView::Done(no_response())
        } else {
            HandshakeStepView::Accept
        },
    }
}

/// The progress of one handshake: how many timed accepts were made, of how
/// many allowed.
#[derive(Clone, Copy, Debug, PartialEq, Eq, Structural)]
pub struct Handshake {
    pub attempts: usize,
    pub tries: usize,
}

impl Handshake {
    /// Starts a handshake of at most `tries` timed accepts. With no tries
    /// the handshake is over at once, unanswered.
    pub fn begin(tries: usize) -> (r: (Handshake, HandshakeStep))
        ensures
            r.0.tries == tries,
            tries == 0 ==> r.0.attempts == 0 && r.1@ == HandshakeStepView::Done(no_response()),
            tries > 0 ==> r.0.attempts == 1 && r.1@ == HandshakeStepView::Accept,
    {
        if tries == 0 {
            (
                Handshake { attempts: 0, tries },
                HandshakeStep::Done(
                    ApiHandshakeOutcome { message: NO_RESPONSE_MESSAGE.to_owned(), connected: false },
                ),
            )
        } else {
            (Handshake { attempts: 1, tries }, HandshakeStep::Accept)
        }
    }

    /// Takes what the last timed accept came back with. A connection ends
    /// the handshake with the peer's message; a listener failure ends it
    /// with that failure; a timeout leads to another accept until the tries
    /// are used up, and then to the fixed unanswered outcome.
    pub fn step(self, event: AcceptEvent) -> (r: (Handshake, HandshakeStep))
        requires
            1 <= self.attempts <= self.tries,
        ensures
            r.0.tries == self.tries,
            r.1@ == handshake_after(self.attempts as nat, self.tries as nat, event),
            r.1 is Accept ==> r.0.attempts == self.attempts + 1 && r.0.attempts <= r.0.tries,
            !(r.1 is Accept) ==> r.0.attempts == self.attempts,
    {
        match event {
            AcceptEvent::Connected(bytes) => {
                let text = decode_lossy(bytes.as_slice());
                let message = handshake_message(bytes.len() == 0, text.as_str());
                (self, HandshakeStep::Done(ApiHandshakeOutcome { message, connected: true }))
            },
            AcceptEvent::Failed(e) => (self, HandshakeStep::Failed(CodexErr::Io(e))),
            AcceptEvent::TimedOut => {
                if self.attempts >= self.tries {
                    (
                        self,
                        HandshakeStep::Done(
                            ApiHandshakeOutcome {
                                message: NO_RESPONSE_MESSAGE.to_owned(),
                                connected: false,
                            },
                        ),
                    )
                } else {
                    (
                        Handshake { attempts: self.attempts + 1, tries: self.tries },
                        HandshakeStep::Accept,
                    )
                }
            },
        }
    }
}

/// Whether the first read of a connection goes on after a read of `n`
/// bytes into a buffer of `capacity`: it ends at end of file and at the
/// first read that does not fill the buffer.
pub fn handshake_read_continues(n: usize, capacity: usize) -> (r: bool)
    ensures
        r == (n != 0 && n >= capacity),
{
    n != 0 && n >= capacity
}

/// Runs a handshake over the outcomes of its timed accepts, in the order
/// in which they came back: no more than `tries` of them are looked at.
pub fn accept_with_retries(tries: usize, events: Vec<AcceptEvent>) -> (r: Result<
    ApiHandshakeOutcome,
    CodexErr,
>)
    ensures
        match r {
            Ok(outcome) => outcome@ == handshake_outcome(tries as nat, events@, 0)->Ok_0,
            Err(e) => e@ == handshake_outcome(tries as nat, events@, 0)->Err_0,
        },
        r is Ok <==> handshake_outcome(tries as nat, events@, 0) is Ok,
{
    let mut pending = events;
    let ghost all = events@;
    let (mut state, mut step) = Handshake::begin(tries);
    let mut used: usize = 0;
    loop
        invariant
            state.tries == tries,
            all == events@,
            used <= all.len(),
            pending@.len() == all.len(),
            forall|k: int| used <= k < all.len() ==> pending@[k] == all[k],
            step is Accept ==> 1 <= state.attempts <= tries && state.attempts == used + 1,
            step is Accept ==> handshake_outcome(tries as nat, all, 0) == handshake_outcome(
                tries as nat,
                all,
                used as nat,
            ),
            step matches HandshakeStep::Done(o) ==> handshake_outcome(tries as nat, all, 0) == Ok::<
                ApiHandshakeOutcomeView,
                CodexErrView,
            >(o@),
            step matches HandshakeStep::Failed(e) ==> handshake_outcome(tries as nat, all, 0)
                == Err::<ApiHandshakeOutcomeView, CodexErrView>(e@),
        decreases all.len() - used + if step is Accept { 1int } else { 0int },
    {
        match step {
            HandshakeStep::Done(outcome) => {
                return Ok(outcome);
            },
            HandshakeStep::Failed(e) => {
                return Err(e);
            },
            HandshakeStep::Accept => {
                if used >= pending.len() {
                    return Ok(
                        ApiHandshakeOutcome {
                            message: NO_RESPONSE_MESSAGE.to_owned(),
                            connected: false,
                        },
                    );
                }
                let mut event = AcceptEvent::TimedOut;
                std::mem::swap(&mut event, &mut pending[used]);
                let next = state.step(event);
                state = next.0;
                step = next.1;
                used = used + 1;
            },
        }
    }
}

/// The outcome of a handshake of at most `tries` timed accepts whose
/// accepts come back with `events`, `used` of which are behind it: the
/// first connection or failure within the tries decides; if the tries or
/// the events run out before, nobody answered.
pub open spec fn handshake_outcome(tries: nat, events: Seq<AcceptEvent>, used: nat) -> Result<
    ApiHandshakeOutcomeView,
    CodexErrView,
>
    decreases events.len() - used,
{
    if used >= tries || used >= events.len() {
        Ok(no_response())
    } else {
        match handshake_after(used + 1, tries, events[used as int]) {
            HandshakeStepView::Done(outcome) => Ok(outcome),
            HandshakeStepView::Failed(e) => Err(e),
            HandshakeStepView::Accept => handshake_outcome(tries, events, used + 1),
        }
    }
}

/// A handshake whose accepts all time out ends unanswered, and so does one
/// without tries.
pub proof fn lemma_unanswered_handshake(tries: nat, events: Seq<AcceptEvent>, used: nat)
    requires
        forall|k: int| 0 <= k < events.len() ==> events[k] is TimedOut,
    ensures
        handshake_outcome(tries, events, used) == Ok::<ApiHandshakeOutcomeView, CodexErrView>(
            no_response(),
        ),
    decreases events.len() - used,
{
    if used >= tries || used >= events.len() {
    } else {
        lemma_unanswered_handshake(tries, events, used + 1);
    }
}


/// How the loopback backend treats a command.
#[derive(Clone, Copy, Debug, PartialEq, Eq, Structural)]
pub enum ApiMode {
    /// The command is data: it is sent to the peer and nothing is run.
    Exchange,
    /// The command names an interpreter: it is run, and the handshake goes
    /// on beside it.
    Spawn,
}

/// The first word of a command, empty for an empty command.
pub open spec fn leading_token(command: Seq<Seq<char>>) -> Seq<char> {
    if command.len() > 0 {
        command[0]
    } else {
        Seq::empty()
    }
}

/// Decides between running the command and exchanging it as data: only a
/// command whose first word names an interpreter is run.
pub fn api_mode(command: &Vec<String>) -> (r: ApiMode)
    ensures
        r == if is_interpreter_name(program_name(leading_token(texts(command@)))) {
            ApiMode::Spawn
        } else {
            ApiMode::Exchange
        },
{
    proof {
        reveal_strlit("");
        assert(""@ == Seq::<char>::empty());
        if command@.len() > 0 {
            assert(texts(command@)[0] == command@[0]@);
        }
    }
    let interpreter = if command.len() > 0 {
        is_interpreter(command[0].as_str())
    } else {
        is_interpreter("")
    };
    if interpreter {
        ApiMode::Spawn
    } else {
        ApiMode::Exchange
    }
}

/// The payload of an exchange: the words of the command with one space
/// between neighbours.
pub fn api_command_line(command: &Vec<String>) -> (r: String)
    ensures
        r@ == join(texts(command@), " "@),
{
    join_strings(command, " ")
}

/// What became of the payload of an exchange.
#[derive(Clone, Debug, PartialEq, Eq)]
pub enum PayloadOutcome {
    /// No payload was sent.
    NotSent,
    /// Sending the payload or reading the answer failed.
    Failed,
    /// The peer's answer, decoded.
    Received(String),
}

/// The failures of an exchange.
pub open spec fn exchange_failures(connected: bool, payload: PayloadOutcome) -> ApiFailures {
    ApiFailures { handshake: !connected, payload: payload is Failed, spawn: false }
}

/// The text that an exchange reports: the handshake message, and on the
/// next line the peer's answer, or the command line where no answer came.
pub open spec fn exchange_text(
    message: Seq<char>,
    payload: PayloadOutcome,
    command_line: Seq<char>,
) -> Seq<char> {
    message + "\n"@ + match payload {
        PayloadOutcome::Received(response) => if response@.len() > 0 {
            response@
        } else {
            command_line
        },
        _ => command_line,
    }
}

/// The result of an exchange, which ran no process: the exit code folds
/// the failures, stdout carries the exchange, stderr is empty.
pub fn api_exchange_output(
    handshake: ApiHandshakeOutcome,
    payload: PayloadOutcome,
    command_line: &str,
    translation_result: Option<CommandTranslationResult>,
) -> (r: RawExecToolCallOutput)
    ensures
        r.exit_status == ExitOutcome::Exited(
            api_exit_code_of(exchange_failures(handshake.connected, payload)) as i32,
        ),
        r.stdout@ == encode_utf8(exchange_text(handshake.message@, payload, command_line@)),
        r.stderr@ == Seq::<u8>::empty(),
        opt_translation(r.translation_result) == opt_translation(translation_result),
{
    let failures = ApiFailures {
        handshake: !handshake.connected,
        payload: match &payload {
            PayloadOutcome::Failed => true,
            _ => false,
        },
        spawn: false,
    };
    let mut output = handshake.message;
    output.append("\n");
    match &payload {
        PayloadOutcome::Received(response) => {
            if response.as_str().unicode_len() > 0 {
                output.append(response.as_str());
            } else {
                output.append(command_line);
            }
        },
        _ => {
            output.append(command_line);
        },
    }
    RawExecToolCallOutput {
        exit_status: ExitOutcome::Exited(api_exit_code(failures)),
        stdout: output.as_str().as_bytes_vec(),
        stderr: Vec::new(),
        translation_result,
    }
}

/// The outcome of the payload of an exchange, from what the exchange came
/// back with: the answer decoded, or the failure noted.
pub fn payload_outcome(response: Result<Vec<u8>, IoFailure>) -> (r: PayloadOutcome)
    ensures
        match response {
            Ok(bytes) => r matches PayloadOutcome::Received(text) && text@ == utf8_lossy(bytes@),
            Err(_) => r is Failed,
        },
{
    match response {
        Ok(bytes) => PayloadOutcome::Received(decode_lossy(bytes.as_slice())),
        Err(_) => PayloadOutcome::Failed,
    }
}

/// The result for an interpreter that could not be started: the exit code
/// of a spawn failure, nothing on stdout, the reason on stderr.
pub fn api_spawn_failure_output(
    command_line: &str,
    translation_result: Option<CommandTranslationResult>,
) -> (r: RawExecToolCallOutput)
    ensures
        r.exit_status == ExitOutcome::Exited(API_SPAWN_FAILURE),
        r.exit_status == ExitOutcome::Exited(
            api_exit_code_of(ApiFailures { handshake: false, payload: false, spawn: true }) as i32,
        ),
        r.stdout@ == Seq::<u8>::empty(),
        r.stderr@ == encode_utf8("Program not found: "@ + command_line@),
        opt_translation(r.translation_result) == opt_translation(translation_result),
{
    let mut reason = "Program not found: ".to_owned();
    reason.append(command_line);
    RawExecToolCallOutput {
        exit_status: ExitOutcome::Exited(
            api_exit_code(ApiFailures { handshake: false, payload: false, spawn: true }),
        ),
        stdout: Vec::new(),
        stderr: reason.as_str().as_bytes_vec(),
        translation_result,
    }
}

/// The stdout of an interpreter run with the handshake message before it
/// on a line of its own, if there is a message.
pub open spec fn merged_stdout(message: Seq<char>, stdout: Seq<u8>) -> Seq<u8> {
    if message.len() > 0 {
        encode_utf8(message) + seq![10u8] + stdout
    } else {
        stdout
    }
}

/// Merges the handshake into the output of the interpreter that ran beside
/// it: the message goes before stdout, and an unanswered handshake replaces
/// the exit status by the exit code of a handshake failure.
pub fn api_merge_output(
    handshake_message: &str,
    output: RawExecToolCallOutput,
    translation_result: Option<CommandTranslationResult>,
) -> (r: RawExecToolCallOutput)
    ensures
        r.exit_status == if handshake_message@ == NO_RESPONSE_MESSAGE@ {
            ExitOutcome::Exited(API_HANDSHAKE_FAILURE)
        } else {
            output.exit_status
        },
        r.stdout@ == merged_stdout(handshake_message@, output.stdout@),
        r.stderr@ == output.stderr@,
        opt_translation(r.translation_result) == opt_translation(translation_result),
{
    let unanswered = str_eq(handshake_message, NO_RESPONSE_MESSAGE);
    let exit_status = if unanswered {
        ExitOutcome::Exited(
            api_exit_code(ApiFailures { handshake: true, payload: false, spawn: false }),
        )
    } else {
        output.exit_status
    };
    let stdout = if handshake_message.unicode_len() > 0 {
        let mut combined = handshake_message.as_bytes_vec();
        combined.push(10u8);
        let mut rest = output.stdout;
        combined.append(&mut rest);
        combined
    } else {
        output.stdout
    };
    RawExecToolCallOutput { exit_status, stdout, stderr: output.stderr, translation_result }
}

} // verus!
