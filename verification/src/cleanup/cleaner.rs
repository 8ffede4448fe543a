//! The cleaner that hands transcriptions to a worker, and the worker's decisions.

use std::sync::mpsc::{Receiver, Sender};

use vstd::prelude::*;

use crate::cleanup::prompt::build_prompt;
use crate::cleanup::response::{parse_response, ParseResult};
use crate::settings::{CleanupLevel, WritingStyle};
use crate::wire::escape_newlines;

verus! {

/// The sending half of a channel, carried along and never looked into.
#[verifier::external_type_specification]
#[verifier::external_body]
#[verifier::reject_recursive_types(T)]
pub struct ExSender<T>(std::sync::mpsc::Sender<T>);

/// The receiving half of a channel, carried along and never looked into.
#[verifier::external_type_specification]
#[verifier::external_body]
#[verifier::reject_recursive_types(T)]
pub struct ExReceiver<T>(std::sync::mpsc::Receiver<T>);

/// What `mpsc::channel` returns: the two halves of a new channel. What goes
/// through it is up to the threads that hold them, so nothing is claimed.
pub assume_specification<T>[ std::sync::mpsc::channel::<T> ]() -> (halves: (
    std::sync::mpsc::Sender<T>,
    std::sync::mpsc::Receiver<T>,
))
;

/// Calls `Sender::send` and says whether the request was taken. Whether the
/// receiving half is still there is up to the worker's thread, so nothing is
/// claimed of the result.
#[verifier::external_body]
fn send_request(sender: &Sender<CleanupRequest>, request: CleanupRequest) -> (sent: bool) {
    sender.send(request).is_ok()
}

/// Calls `Receiver::recv_timeout` and hands on what came within `secs` seconds.
/// What comes, and when, is up to the worker's thread, so nothing is claimed of
/// the result. The receiver is used up, so that a reply is waited for once: what
/// comes first is what is handed on.
#[verifier::external_body]
fn await_reply(replies: Receiver<Result<String, String>>, secs: u64) -> (reply: Option<
    Result<String, String>,
>) {
    replies.recv_timeout(std::time::Duration::from_secs(secs)).ok()
}

/// Whether `reply` and `replies` may be the two halves of one new channel.
pub open spec fn halves_of_a_channel(
    reply: Sender<Result<String, String>>,
    replies: Receiver<Result<String, String>>,
) -> bool {
    call_ensures(std::sync::mpsc::channel::<Result<String, String>>, (), (reply, replies))
}

/// Whether `sent` may be what came of sending `request` through `sender`.
pub closed spec fn send_outcome(
    sender: Sender<CleanupRequest>,
    request: CleanupRequest,
    sent: bool,
) -> bool {
    call_ensures(send_request, (&sender, request), sent)
}

/// Whether `reply` may be what came first through `replies`, within `secs` seconds of
/// waiting for it once.
pub closed spec fn wait_outcome(
    replies: Receiver<Result<String, String>>,
    secs: u64,
    reply: Option<Result<String, String>>,
) -> bool {
    call_ensures(await_reply, (replies, secs), reply)
}

/// One transcription for the worker to clean.
pub struct CleanupRequest {
    pub raw_text: String,
    pub style: WritingStyle,
    pub level: CleanupLevel,
    pub custom_prompt: Option<String>,
    pub model_id: String,
    pub language: String,
    pub reply: Sender<Result<String, String>>,
}

/// The view of an optional string.
pub open spec fn optional_string(text: Option<String>) -> Option<Seq<char>> {
    match text {
        Some(t) => Some(t@),
        None => None,
    }
}

impl CleanupRequest {
    /// The prompt that the request stands for.
    pub open spec fn prompt_view(&self) -> Seq<char> {
        crate::cleanup::prompt::prompt(
            self.raw_text@,
            self.style,
            self.level,
            optional_string(self.custom_prompt),
            self.model_id@,
            self.language@,
        )
    }

    /// Whether the request asks to clean `raw_text` in this way.
    pub open spec fn asks_for(
        &self,
        raw_text: Seq<char>,
        style: WritingStyle,
        level: CleanupLevel,
        custom_prompt: Option<Seq<char>>,
        model_id: Seq<char>,
        language: Seq<char>,
    ) -> bool {
        &&& self.raw_text@ == raw_text
        &&& self.style == style
        &&& self.level == level
        &&& optional_string(self.custom_prompt) == custom_prompt
        &&& self.model_id@ == model_id
        &&& self.language@ == language
    }

    /// The request to clean `raw_text`, answered through `reply`.
    pub fn new(
        raw_text: &str,
        style: &WritingStyle,
        level: &CleanupLevel,
        custom_prompt: Option<&str>,
        model_id: &str,
        language: &str,
        reply: Sender<Result<String, String>>,
    ) -> (r: Self)
        ensures
            r.asks_for(
                raw_text@,
                *style,
                *level,
                crate::cleanup::prompt::optional_text(custom_prompt),
                model_id@,
                language@,
            ),
            r.reply == reply,
    {
        CleanupRequest {
            raw_text: raw_text.to_string(),
            style: *style,
            level: *level,
            custom_prompt: match custom_prompt {
                Some(p) => Some(p.to_string()),
                None => None,
            },
            model_id: model_id.to_string(),
            language: language.to_string(),
            reply,
        }
    }

    /// The line that puts the request to the worker, without the newline that
    /// ends it.
    pub fn line(&self) -> (r: String)
        ensures
            r@ == crate::wire::escaped(self.prompt_view()),
    {
        let custom_prompt = match &self.custom_prompt {
            Some(p) => Some(p.as_str()),
            None => None,
        };
        let prompt = build_prompt(
            self.raw_text.as_str(),
            &self.style,
            &self.level,
            custom_prompt,
            self.model_id.as_str(),
            self.language.as_str(),
        );
        escape_newlines(prompt.as_str())
    }
}

/// What the worker does after an attempt.
pub enum CleanupStep {
    /// Answer the request with this text.
    Reply(String),
    /// Put the same prompt again.
    Retry,
}

/// How often a prompt is put at most.
pub const MAX_ATTEMPTS: u32 = 2;

/// The reply to the request to clean `raw_text` after the attempt with the
/// number `attempts`, given the response that came back, if one did; none if
/// the prompt is put again. A usable text is the reply; leaked tags are tried
/// again while attempts are left; in every other case the transcription itself
/// is the reply.
pub open spec fn reply_after(
    raw_text: Seq<char>,
    response: Option<Seq<char>>,
    attempts: int,
) -> Option<Seq<char>> {
    match response {
        None => Some(raw_text),
        Some(s) => {
            let text = crate::cleanup::response::offered_text(s);
            if crate::cleanup::response::usable(text, raw_text) {
                Some(text)
            } else if crate::cleanup::response::leaks_tags(text) && attempts < MAX_ATTEMPTS {
                None
            } else {
                Some(raw_text)
            }
        },
    }
}

/// Decides what the worker does after an attempt.
pub fn next_step(raw_text: &str, response: Option<&str>, attempts: u32) -> (r: CleanupStep)
    requires
        response matches Some(s) ==> !crate::cleanup::response::lone_backtick(
            crate::cleanup::response::answer_part(s@),
        ),
    ensures
        match r {
            CleanupStep::Reply(text) => reply_after(
                raw_text@,
                crate::cleanup::prompt::optional_text(response),
                attempts as int,
            ) == Some(text@),
            CleanupStep::Retry => reply_after(
                raw_text@,
                crate::cleanup::prompt::optional_text(response),
                attempts as int,
            ) is None,
        },
{
    let response = match response {
        Some(s) => s,
        None => {
            return CleanupStep::Reply(raw_text.to_string());
        },
    };
    match parse_response(response, raw_text) {
        ParseResult::Clean(text) => CleanupStep::Reply(text),
        ParseResult::Retry => if attempts < MAX_ATTEMPTS {
            CleanupStep::Retry
        } else {
            CleanupStep::Reply(raw_text.to_string())
        },
        ParseResult::Fallback => CleanupStep::Reply(raw_text.to_string()),
    }
}

/// A request that the worker is at, with the attempts made so far.
pub struct CleanupJob {
    raw_text: String,
    attempts: u32,
}

impl CleanupJob {
    /// What is to be cleaned.
    pub closed spec fn raw_text(&self) -> Seq<char> {
        self.raw_text@
    }

    /// How often the prompt was put and answered, or not.
    pub closed spec fn attempts(&self) -> int {
        self.attempts as int
    }

    /// A job at which no attempt was made.
    pub fn start(raw_text: &str) -> (r: Self)
        ensures
            r.raw_text() == raw_text@,
            r.attempts() == 0,
    {
        CleanupJob { raw_text: raw_text.to_string(), attempts: 0 }
    }

    /// Takes in the response to another attempt, if one came, and decides what is
    /// done about it. While it says to retry, an attempt is left.
    pub fn take_response(&mut self, response: Option<&str>) -> (r: CleanupStep)
        requires
            0 <= old(self).attempts() < MAX_ATTEMPTS,
            response matches Some(s) ==> !crate::cleanup::response::lone_backtick(
                crate::cleanup::response::answer_part(s@),
            ),
        ensures
            final(self).raw_text() == old(self).raw_text(),
            final(self).attempts() == old(self).attempts() + 1,
            match r {
                CleanupStep::Reply(text) => reply_after(
                    old(self).raw_text(),
                    crate::cleanup::prompt::optional_text(response),
                    old(self).attempts() + 1,
                ) == Some(text@),
                CleanupStep::Retry => {
                    &&& reply_after(
                        old(self).raw_text(),
                        crate::cleanup::prompt::optional_text(response),
                        old(self).attempts() + 1,
                    ) is None
                    &&& final(self).attempts() < MAX_ATTEMPTS
                },
            },
    {
        self.attempts = self.attempts + 1;
        next_step(self.raw_text.as_str(), response, self.attempts)
    }
}

/// Whether `result` is the result of cleaning `raw_text`, given the reply that came
/// in time, if one did: that reply, or else the transcription itself.
pub open spec fn settles(
    raw_text: Seq<char>,
    reply: Option<Result<String, String>>,
    result: Result<String, String>,
) -> bool {
    match reply {
        Some(given) => result == given,
        None => result matches Ok(t) && t@ == raw_text,
    }
}

/// The result of cleaning `raw_text`, given the reply that came in time, if one
/// did: the transcription itself stands in for a reply that did not come.
pub fn settle_reply(raw_text: &str, reply: Option<Result<String, String>>) -> (r: Result<
    String,
    String,
>)
    ensures
        settles(raw_text@, reply, r),
{
    match reply {
        Some(result) => result,
        None => Ok(raw_text.to_string()),
    }
}

/// How many seconds a reply is waited for.
pub const REPLY_SECONDS: u64 = 30;

/// Cleans transcriptions through a worker, once there is one.
pub struct TextCleaner {
    sender: Option<Sender<CleanupRequest>>,
}

impl TextCleaner {
    /// The worker, by the half of the channel that sends to it.
    pub closed spec fn worker(&self) -> Option<Sender<CleanupRequest>> {
        self.sender
    }

    /// Whether there is a worker to send to.
    pub open spec fn ready(&self) -> bool {
        self.worker() is Some
    }

    /// Whether `result` may be what cleaning `raw_text` comes to. With cleanup off, or
    /// without a worker, that is the transcription itself. Otherwise a request for
    /// just this cleaning, with one half of a new channel, is sent to the worker. If
    /// it is sent, a reply is waited for at the other half, for `REPLY_SECONDS`, and
    /// settles the result; if it is not, the transcription is the result.
    pub open spec fn may_return(
        &self,
        raw_text: Seq<char>,
        style: WritingStyle,
        level: CleanupLevel,
        custom_prompt: Option<Seq<char>>,
        model_id: Seq<char>,
        language: Seq<char>,
        result: Result<String, String>,
    ) -> bool {
        if level == CleanupLevel::Off || !self.ready() {
            settles(raw_text, None, result)
        } else {
            exists|
                request: CleanupRequest,
                replies: Receiver<Result<String, String>>,
                sent: bool,
            |
                {
                    &&& request.asks_for(
                        raw_text,
                        style,
                        level,
                        custom_prompt,
                        model_id,
                        language,
                    )
                    &&& #[trigger] halves_of_a_channel(request.reply, replies)
                    &&& #[trigger] send_outcome(self.worker()->0, request, sent)
                    &&& if sent {
                        exists|reply: Option<Result<String, String>>|
                            {
                                &&& #[trigger] wait_outcome(replies, REPLY_SECONDS, reply)
                                &&& settles(raw_text, reply, result)
                            }
                    } else {
                        settles(raw_text, None, result)
                    }
                }
        }
    }

    /// A cleaner without a worker.
    pub fn new() -> (r: Self)
        ensures
            !r.ready(),
    {
        TextCleaner { sender: None }
    }

    /// Takes up the worker that receives through `sender`.
    pub fn start_worker(&mut self, sender: Sender<CleanupRequest>)
        ensures
            final(self).worker() == Some(sender),
    {
        self.sender = Some(sender);
    }

    /// Whether there is a worker to send to.
    pub fn is_ready(&self) -> (r: bool)
        ensures
            r == self.ready(),
    {
        self.sender.is_some()
    }

    /// The request that is sent to clean `raw_text`, with the half of a channel
    /// through which it is answered. None if nothing is sent: cleanup is off, or
    /// there is no worker.
    pub fn request_for(
        &self,
        raw_text: &str,
        style: &WritingStyle,
        level: &CleanupLevel,
        custom_prompt: Option<&str>,
        model_id: &str,
        language: &str,
    ) -> (r: Option<(CleanupRequest, Receiver<Result<String, String>>)>)
        ensures
            match r {
                None => *level == CleanupLevel::Off || !self.ready(),
                Some((request, replies)) => {
                    &&& *level != CleanupLevel::Off && self.ready()
                    &&& request.asks_for(
                        raw_text@,
                        *style,
                        *level,
                        crate::cleanup::prompt::optional_text(custom_prompt),
                        model_id@,
                        language@,
                    )
                    &&& halves_of_a_channel(request.reply, replies)
                },
            },
    {
        if *level == CleanupLevel::Off || !self.is_ready() {
            return None;
        }
        let (reply, replies) = std::sync::mpsc::channel();
        let request = CleanupRequest::new(
            raw_text,
            style,
            level,
            custom_prompt,
            model_id,
            language,
            reply,
        );
        Some((request, replies))
    }

    /// Cleans `raw_text`. With cleanup off, or without a worker, it is returned as
    /// it is. Otherwise the worker is sent a request for it, and a reply is waited
    /// for. What comes back is up to the worker: a reply that comes in time is the
    /// result, and the transcription stands in for a request that could not be sent
    /// and for a reply that did not come.
    pub fn clean(
        &self,
        raw_text: &str,
        style: &WritingStyle,
        level: &CleanupLevel,
        custom_prompt: Option<&str>,
        model_id: &str,
        language: &str,
    ) -> (r: Result<String, String>)
        ensures
            self.may_return(
                raw_text@,
                *style,
                *level,
                crate::cleanup::prompt::optional_text(custom_prompt),
                model_id@,
                language@,
                r,
            ),
    {
        let asked = self.request_for(raw_text, style, level, custom_prompt, model_id, language);
        match (&self.sender, asked) {
            (Some(sender), Some((request, replies))) => {
                let sent = send_request(sender, request);
                assert(send_outcome(*sender, request, sent));
                if !sent {
                    return settle_reply(raw_text, None);
                }
                let reply = await_reply(replies, REPLY_SECONDS);
                assert(wait_outcome(replies, REPLY_SECONDS, reply));
                settle_reply(raw_text, reply)
            },
            _ => Ok(raw_text.to_string()),
        }
    }
}

/// A request is answered after two attempts at the latest, whatever comes back.
pub proof fn law_attempts_end(raw_text: Seq<char>, response: Option<Seq<char>>, attempts: int)
    requires
        attempts >= MAX_ATTEMPTS,
    ensures
        reply_after(raw_text, response, attempts) is Some,
{
}

/// Whether `text` is fit to stand for `raw_text`: it is the transcription itself, or
/// it is not empty, at most twenty bytes over twice its size, and has no whitespace
/// at its ends and no leaked tags in it.
pub open spec fn is_fit(text: Seq<char>, raw_text: Seq<char>) -> bool {
    text == raw_text || {
        &&& text.len() > 0
        &&& crate::text::is_trimmed(text)
        &&& crate::text::utf8_len(text) <= crate::text::utf8_len(raw_text) * 2 + 20
        &&& !crate::cleanup::response::leaks_tags(text)
    }
}

/// The reply to a request is fit to stand for the transcription. In particular a
/// transcription that is not empty gets a reply that is not empty.
pub proof fn law_reply_is_fit(raw_text: Seq<char>, response: Option<Seq<char>>, attempts: int)
    ensures
        reply_after(raw_text, response, attempts) matches Some(text) ==> {
            &&& is_fit(text, raw_text)
            &&& raw_text.len() > 0 ==> text.len() > 0
        },
{
    if let Some(s) = response {
        let text = crate::cleanup::response::offered_text(s);
        if crate::cleanup::response::usable(text, raw_text) {
            crate::cleanup::response::law_accepted_text(s, raw_text);
        }
    }
}

/// Whether a worker that goes by `reply_after` may give this reply to the request to
/// clean `raw_text`: none that comes in time, or the text that it decides on after
/// some attempt, whatever the model answers.
pub open spec fn worker_may_reply(
    raw_text: Seq<char>,
    reply: Option<Result<String, String>>,
) -> bool {
    match reply {
        None => true,
        Some(Ok(text)) => exists|response: Option<Seq<char>>, attempts: int|
            #[trigger] reply_after(raw_text, response, attempts) == Some(text@),
        Some(Err(_)) => false,
    }
}

/// A reply of the worker, or that none came, is settled with a text that is fit to
/// stand for the transcription.
pub proof fn law_settled_text_is_fit(
    raw_text: Seq<char>,
    reply: Option<Result<String, String>>,
    result: Result<String, String>,
)
    requires
        worker_may_reply(raw_text, reply),
        settles(raw_text, reply, result),
    ensures
        result matches Ok(t) && is_fit(t@, raw_text),
{
    if let Some(Ok(text)) = reply {
        let (response, attempts) = choose|response: Option<Seq<char>>, attempts: int|
            #[trigger] reply_after(raw_text, response, attempts) == Some(text@);
        law_reply_is_fit(raw_text, response, attempts);
    }
}

/// Cleaning never fails: with cleanup off or on, with a worker or without one,
/// whatever the model answers and however long it takes, the result is a text that is
/// fit to stand for the transcription. All that is asked of the worker is that it
/// answers requests for this transcription as `reply_after` says, or not at all.
pub proof fn law_cleaning_is_fit(
    cleaner: TextCleaner,
    raw_text: Seq<char>,
    style: WritingStyle,
    level: CleanupLevel,
    custom_prompt: Option<Seq<char>>,
    model_id: Seq<char>,
    language: Seq<char>,
    result: Result<String, String>,
)
    requires
        cleaner.may_return(
            raw_text,
            style,
            level,
            custom_prompt,
            model_id,
            language,
            result,
        ),
        forall|
            request: CleanupRequest,
            replies: Receiver<Result<String, String>>,
            reply: Option<Result<String, String>>,
        |
            {
                &&& request.raw_text@ == raw_text
                &&& #[trigger] halves_of_a_channel(request.reply, replies)
                &&& #[trigger] wait_outcome(replies, REPLY_SECONDS, reply)
            } ==> worker_may_reply(raw_text, reply),
    ensures
        result matches Ok(t) && is_fit(t@, raw_text),
{
    assert forall|reply: Option<Result<String, String>>|
        worker_may_reply(raw_text, reply) && #[trigger] settles(
            raw_text,
            reply,
            result,
        ) implies (result matches Ok(t) && is_fit(t@, raw_text)) by {
        law_settled_text_is_fit(raw_text, reply, result);
    }
}

/// The worker's reply is the result, whatever it is, at every level that asks for one: if
/// requests for this cleaning are sent, and the first reply within thirty seconds is
/// `reply`, then cleaning comes to `reply`.
pub proof fn law_first_reply_is_the_result(
    cleaner: TextCleaner,
    raw_text: Seq<char>,
    style: WritingStyle,
    level: CleanupLevel,
    custom_prompt: Option<Seq<char>>,
    model_id: Seq<char>,
    language: Seq<char>,
    reply: Result<String, String>,
    result: Result<String, String>,
)
    requires
        cleaner.may_return(
            raw_text,
            style,
            level,
            custom_prompt,
            model_id,
            language,
            result,
        ),
        level == CleanupLevel::Light || level == CleanupLevel::Medium || level
            == CleanupLevel::High,
        cleaner.worker() is Some,
        forall|request: CleanupRequest, sent: bool| #[trigger]
            send_outcome(cleaner.worker()->0, request, sent) ==> sent,
        forall|
            request: CleanupRequest,
            replies: Receiver<Result<String, String>>,
            came: Option<Result<String, String>>,
        |
            {
                &&& request.raw_text@ == raw_text
                &&& request.style == style
                &&& request.level == level
                &&& optional_string(request.custom_prompt) == custom_prompt
                &&& request.model_id@ == model_id
                &&& request.language@ == language
                &&& #[trigger] halves_of_a_channel(request.reply, replies)
                &&& #[trigger] wait_outcome(replies, 30, came)
            } ==> came == Some(reply),
    ensures
        result == reply,
{
}

/// Whether no request can be sent through `sender`.
pub open spec fn cannot_send(sender: Sender<CleanupRequest>) -> bool {
    forall|request: CleanupRequest, sent: bool| #[trigger]
        send_outcome(sender, request, sent) ==> !sent
}

/// Whether no reply comes within `secs` seconds.
pub open spec fn no_reply_within(secs: u64) -> bool {
    forall|replies: Receiver<Result<String, String>>, came: Option<Result<String, String>>|
        #[trigger] wait_outcome(replies, secs, came) ==> came is None
}

/// The transcription itself is the result, unchanged, whenever nobody answers: with
/// cleanup off, without a worker, if the request cannot be sent, and if no reply comes
/// within thirty seconds.
pub proof fn law_no_reply_keeps_the_transcription(
    cleaner: TextCleaner,
    raw_text: Seq<char>,
    style: WritingStyle,
    level: CleanupLevel,
    custom_prompt: Option<Seq<char>>,
    model_id: Seq<char>,
    language: Seq<char>,
    result: Result<String, String>,
)
    requires
        cleaner.may_return(
            raw_text,
            style,
            level,
            custom_prompt,
            model_id,
            language,
            result,
        ),
        level == CleanupLevel::Off || cleaner.worker() is None || cannot_send(
            cleaner.worker()->0,
        ) || no_reply_within(30),
    ensures
        result matches Ok(text) && text@ == raw_text,
{
}

/// A request asks for a cleaning exactly if it carries each part of it, and the line that
/// puts it to the worker carries the prompt for that cleaning.
pub proof fn law_request_carries_everything(
    request: CleanupRequest,
    raw_text: Seq<char>,
    style: WritingStyle,
    level: CleanupLevel,
    custom_prompt: Option<Seq<char>>,
    model_id: Seq<char>,
    language: Seq<char>,
)
    ensures
        request.asks_for(raw_text, style, level, custom_prompt, model_id, language) <==> {
            &&& request.raw_text@ == raw_text
            &&& request.style == style
            &&& request.level == level
            &&& match request.custom_prompt {
                Some(p) => custom_prompt == Some(p@),
                None => custom_prompt is None,
            }
            &&& request.model_id@ == model_id
            &&& request.language@ == language
        },
        request.asks_for(raw_text, style, level, custom_prompt, model_id, language)
            ==> request.prompt_view() == crate::cleanup::prompt::prompt(
            raw_text,
            style,
            level,
            custom_prompt,
            model_id,
            language,
        ),
{
}

/// What the worker does about a response to its prompt: a text that may stand for the
/// transcription is the reply, after any attempt; leaked tags have the prompt put once
/// more after the first attempt, and after the second the transcription is the reply; so
/// it is for a text that is empty or too long, and where no response came.
pub proof fn law_worker_decides(raw_text: Seq<char>, response: Seq<char>, attempts: int)
    ensures
        ({
            let text = crate::cleanup::response::offered_text(response);
            let leaked = crate::cleanup::response::leaks_tags(text);
            let long = vstd::utf8::encode_utf8(text).len() > 2 * vstd::utf8::encode_utf8(
                raw_text,
            ).len() + 20;
            &&& !leaked && text.len() > 0 && !long ==> reply_after(
                raw_text,
                Some(response),
                attempts,
            ) == Some(text)
            &&& leaked && attempts <= 1 ==> reply_after(raw_text, Some(response), attempts) is None
            &&& leaked && attempts >= 2 ==> reply_after(raw_text, Some(response), attempts) == Some(
                raw_text,
            )
            &&& !leaked && (text.len() == 0 || long) ==> reply_after(
                raw_text,
                Some(response),
                attempts,
            ) == Some(raw_text)
        }),
        reply_after(raw_text, None, attempts) == Some(raw_text),
{
}

/// A reply that came is handed on as it is, an error too, and the transcription stands in
/// for one that did not.
pub proof fn law_settles(
    raw_text: Seq<char>,
    reply: Result<String, String>,
    result: Result<String, String>,
)
    ensures
        settles(raw_text, Some(reply), result) <==> result == reply,
        settles(raw_text, None, result) <==> (result matches Ok(text) && text@ == raw_text),
{
}

/// What `clean` comes to, at every level that asks for a reply: the first reply on the
/// request's own channel, if one comes within thirty seconds.
pub proof fn law_clean_gives_the_reply(
    cleaner: &TextCleaner,
    raw_text: &str,
    style: &WritingStyle,
    level: &CleanupLevel,
    custom_prompt: Option<&str>,
    model_id: &str,
    language: &str,
    reply: Result<String, String>,
    result: Result<String, String>,
)
    requires
        call_ensures(
            TextCleaner::clean,
            (cleaner, raw_text, style, level, custom_prompt, model_id, language),
            result,
        ),
        *level != CleanupLevel::Off,
        cleaner.worker() is Some,
        forall|request: CleanupRequest, sent: bool| #[trigger]
            send_outcome(cleaner.worker()->0, request, sent) ==> sent,
        forall|
            request: CleanupRequest,
            replies: Receiver<Result<String, String>>,
            came: Option<Result<String, String>>,
        |
            {
                &&& request.raw_text@ == raw_text@
                &&& request.style == *style
                &&& request.level == *level
                &&& request.model_id@ == model_id@
                &&& request.language@ == language@
                &&& #[trigger] halves_of_a_channel(request.reply, replies)
                &&& #[trigger] wait_outcome(replies, 30, came)
            } ==> came == Some(reply),
    ensures
        result == reply,
{
    law_first_reply_is_the_result(
        *cleaner,
        raw_text@,
        *style,
        *level,
        crate::cleanup::prompt::optional_text(custom_prompt),
        model_id@,
        language@,
        reply,
        result,
    );
}

} // verus!
