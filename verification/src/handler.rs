//! The message handler: what the bot does with one incoming room message.
//!
//! Handling a message needs outside work in between the decisions (looking
//! up the room's name, fetching a profile, sending a reply), so the handler
//! is a small machine. [`Handler::begin`] and [`Handler::step`] each return
//! what the caller has to do next; the caller performs it and hands the
//! outcome back as a [`HandlerEvent`].

use crate::message::{fool_sender, is_relevant, is_trigger, sent_by, RoomMessage, RoomMessageView};
use crate::quotes::{fool_quote_at, fool_quote_text, random_quote_index, FOOL_QUOTE_COUNT};
use crate::text::text_of;
use vstd::prelude::*;

verus! {

/// The two points on which deployments of the bot differ.
#[derive(Clone, Copy, Debug, PartialEq, Eq, Structural)]
pub struct HandlerConfig {
    /// Whether the bot's own messages are logged like everybody else's.
    pub log_own_messages: bool,
    /// Whether one particular account is answered with a quotation.
    pub fool_quote_enabled: bool,
}

/// Why the handling of one message was given up. Such a failure ends the
/// handling of that message only.
#[derive(Clone, Copy, Debug, PartialEq, Eq, Structural)]
pub enum HandlerError {
    /// The sender's profile could not be fetched.
    ProfileFetch,
    /// A reply could not be sent.
    Reply,
}

impl HandlerError {
    /// The error in words.
    pub open spec fn describe_text(self) -> Seq<char> {
        match self {
            HandlerError::ProfileFetch => "the sender's profile could not be fetched"@,
            HandlerError::Reply => "a reply could not be sent"@,
        }
    }

    /// The error in words.
    pub fn describe(&self) -> (text: &'static str)
        ensures
            text@ == self.describe_text(),
    {
        match self {
            HandlerError::ProfileFetch => "the sender's profile could not be fetched",
            HandlerError::Reply => "a reply could not be sent",
        }
    }
}

/// Where the handling of a message stands.
#[derive(Clone, Copy, Debug, PartialEq, Eq, Structural)]
pub enum Stage {
    /// Waiting for the room's display name.
    AwaitingRoomName,
    /// Waiting for the sender's profile.
    AwaitingProfile,
    /// Waiting for the greeting to be sent.
    AwaitingGreetingSent,
    /// Waiting for the quotation to be sent.
    AwaitingQuoteSent,
    /// Nothing is left to do.
    Done,
    /// Given up; nothing more is done for this message.
    Aborted(HandlerError),
}

/// The outcome of the outside work that the handler asked for.
#[derive(Clone, Debug, PartialEq, Eq)]
pub enum HandlerEvent {
    /// The room's display name, or `None` if it could not be resolved.
    RoomName(Option<String>),
    /// The sender's profile was fetched; its display name, if it has one.
    Profile(Option<String>),
    /// The profile could not be fetched.
    ProfileFailed,
    /// The reply was sent.
    Replied,
    /// The reply could not be sent.
    ReplyFailed,
}

/// The mathematical content of a [`HandlerEvent`].
pub enum HandlerEventView {
    RoomName(Option<Seq<char>>),
    Profile(Option<Seq<char>>),
    ProfileFailed,
    Replied,
    ReplyFailed,
}

impl View for HandlerEvent {
    type V = HandlerEventView;

    open spec fn view(&self) -> HandlerEventView {
        match *self {
            HandlerEvent::RoomName(name) => HandlerEventView::RoomName(text_of(name)),
            HandlerEvent::Profile(name) => HandlerEventView::Profile(text_of(name)),
            HandlerEvent::ProfileFailed => HandlerEventView::ProfileFailed,
            HandlerEvent::Replied => HandlerEventView::Replied,
            HandlerEvent::ReplyFailed => HandlerEventView::ReplyFailed,
        }
    }
}

/// What the handler asks the outside world to do next.
#[derive(Clone, Debug, PartialEq, Eq)]
pub enum Request {
    /// Nothing: the handling has ended, or the event was not expected.
    Nothing,
    /// Resolve the display name of the message's room.
    ResolveRoomName,
    /// Fetch the profile of the user with this id.
    FetchProfile(String),
    /// Send this text to the message's room.
    Reply(String),
}

/// The mathematical content of a [`Request`].
pub enum RequestView {
    Nothing,
    ResolveRoomName,
    FetchProfile(Seq<char>),
    Reply(Seq<char>),
}

impl View for Request {
    type V = RequestView;

    open spec fn view(&self) -> RequestView {
        match *self {
            Request::Nothing => RequestView::Nothing,
            Request::ResolveRoomName => RequestView::ResolveRoomName,
            Request::FetchProfile(user) => RequestView::FetchProfile(user@),
            Request::Reply(text) => RequestView::Reply(text@),
        }
    }
}

/// What one step of the handler produces: a line for the log, if any, and
/// the next request.
#[derive(Clone, Debug, PartialEq, Eq)]
pub struct Output {
    pub log: Option<String>,
    pub request: Request,
}

/// The mathematical content of an [`Output`].
pub struct OutputView {
    pub log: Option<Seq<char>>,
    pub request: RequestView,
}

impl View for Output {
    type V = OutputView;

    open spec fn view(&self) -> OutputView {
        OutputView { log: text_of(self.log), request: self.request@ }
    }
}

/// The handling of one message.
#[derive(Clone, Debug, PartialEq, Eq)]
pub struct Handler {
    pub config: HandlerConfig,
    /// The user id of the bot's own account.
    pub bot_id: String,
    pub message: RoomMessage,
    pub stage: Stage,
}

/// The mathematical content of a [`Handler`].
pub struct HandlerView {
    pub config: HandlerConfig,
    pub bot_id: Seq<char>,
    pub message: RoomMessageView,
    pub stage: Stage,
}

impl View for Handler {
    type V = HandlerView;

    open spec fn view(&self) -> HandlerView {
        HandlerView {
            config: self.config,
            bot_id: self.bot_id@,
            message: self.message@,
            stage: self.stage,
        }
    }
}

/// The name a room is logged under: its display name, or its id where the
/// display name could not be resolved.
pub open spec fn room_label_text(name: Option<Seq<char>>, room_id: Seq<char>) -> Seq<char> {
    match name {
        Some(n) => n,
        None => room_id,
    }
}

/// The log line for a message: `[room][sender]: body`.
pub open spec fn log_line_text(label: Seq<char>, sender: Seq<char>, body: Seq<char>) -> Seq<char> {
    "["@ + label + "]["@ + sender + "]: "@ + body
}

/// The name that a greeting is addressed to when the profile has none.
pub open spec fn fallback_name() -> Seq<char> {
    "Stranger"@
}

/// The greeting for a user with the given display name.
pub open spec fn greeting_text(display_name: Option<Seq<char>>) -> Seq<char> {
    "Well hello there "@ + match display_name {
        Some(n) => n,
        None => fallback_name(),
    }
}

/// The log line that the handler writes for its message once the room's
/// name is known, if it writes one.
pub open spec fn log_entry(handler: HandlerView, room_name: Option<Seq<char>>) -> Option<Seq<char>> {
    if !sent_by(handler.message, handler.bot_id) || handler.config.log_own_messages {
        Some(
            log_line_text(
                room_label_text(room_name, handler.message.room_id),
                handler.message.sender,
                handler.message.body,
            ),
        )
    } else {
        None
    }
}

/// A message is owed a quotation if quotations are switched on and it was
/// sent by the one account that gets them, unless that is the bot itself.
pub open spec fn owed_quote(
    config: HandlerConfig,
    bot_id: Seq<char>,
    message: RoomMessageView,
) -> bool {
    config.fool_quote_enabled && !sent_by(message, bot_id) && sent_by(message, fool_sender())
}

/// The handler's message is owed a quotation.
pub open spec fn quote_due(handler: HandlerView) -> bool {
    owed_quote(handler.config, handler.bot_id, handler.message)
}

/// The handler at another stage.
pub open spec fn at_stage(handler: HandlerView, stage: Stage) -> HandlerView {
    HandlerView { stage, ..handler }
}

/// An output that neither logs nor asks for anything.
pub open spec fn silence() -> OutputView {
    OutputView { log: None, request: RequestView::Nothing }
}

/// An output that asks for something without logging.
pub open spec fn ask(request: RequestView) -> OutputView {
    OutputView { log: None, request }
}

/// What comes after the greeting, or in its place where none is due: the
/// quotation if the message is owed one, else the end.
pub open spec fn after_greeting(handler: HandlerView, quote: int) -> (HandlerView, RequestView) {
    if quote_due(handler) {
        (at_stage(handler, Stage::AwaitingQuoteSent), RequestView::Reply(fool_quote_text(quote)))
    } else {
        (at_stage(handler, Stage::Done), RequestView::Nothing)
    }
}

/// How the handling of a message starts: a message that is not a text
/// message in a joined room is dropped at once; for any other the room's
/// name is asked for.
pub open spec fn begin_spec(
    config: HandlerConfig,
    bot_id: Seq<char>,
    message: RoomMessageView,
) -> (HandlerView, OutputView) {
    if is_relevant(message) {
        (
            HandlerView { config, bot_id, message, stage: Stage::AwaitingRoomName },
            ask(RequestView::ResolveRoomName),
        )
    } else {
        (HandlerView { config, bot_id, message, stage: Stage::Done }, silence())
    }
}

/// One step of the handler: the stage and the event decide the next stage
/// and the output. `quote` is the index of the quotation to use if this
/// step sends one. An event that the stage does not wait for changes
/// nothing and asks for nothing.
pub open spec fn step_spec(handler: HandlerView, event: HandlerEventView, quote: int) -> (
    HandlerView,
    OutputView,
) {
    match (handler.stage, event) {
        (Stage::AwaitingRoomName, HandlerEventView::RoomName(name)) => {
            let log = log_entry(handler, name);
            if sent_by(handler.message, handler.bot_id) {
                (at_stage(handler, Stage::Done), OutputView { log, request: RequestView::Nothing })
            } else if is_trigger(handler.message) {
                (
                    at_stage(handler, Stage::AwaitingProfile),
                    OutputView { log, request: RequestView::FetchProfile(handler.message.sender) },
                )
            } else {
                let (next, request) = after_greeting(handler, quote);
                (next, OutputView { log, request })
            }
        },
        (Stage::AwaitingProfile, HandlerEventView::Profile(name)) => (
            at_stage(handler, Stage::AwaitingGreetingSent),
            ask(RequestView::Reply(greeting_text(name))),
        ),
        (Stage::AwaitingProfile, HandlerEventView::ProfileFailed) => (
            at_stage(handler, Stage::Aborted(HandlerError::ProfileFetch)),
            silence(),
        ),
        (Stage::AwaitingGreetingSent, HandlerEventView::Replied) => {
            let (next, request) = after_greeting(handler, quote);
            (next, ask(request))
        },
        (Stage::AwaitingGreetingSent, HandlerEventView::ReplyFailed) => (
            at_stage(handler, Stage::Aborted(HandlerError::Reply)),
            silence(),
        ),
        (Stage::AwaitingQuoteSent, HandlerEventView::Replied) => (
            at_stage(handler, Stage::Done),
            silence(),
        ),
        (Stage::AwaitingQuoteSent, HandlerEventView::ReplyFailed) => (
            at_stage(handler, Stage::Aborted(HandlerError::Reply)),
            silence(),
        ),
        _ => (handler, silence()),
    }
}

/// Whether the step from this handler on this event sends a quotation, so
/// that one has to be chosen for it.
pub open spec fn quotes_next(handler: HandlerView, event: HandlerEventView) -> bool {
    match (handler.stage, event) {
        (Stage::AwaitingRoomName, HandlerEventView::RoomName(_)) => !is_trigger(handler.message)
            && quote_due(handler),
        (Stage::AwaitingGreetingSent, HandlerEventView::Replied) => quote_due(handler),
        _ => false,
    }
}

/// The name a room is logged under.
pub fn room_label(name: Option<String>, room_id: &str) -> (label: String)
    ensures
        label@ == room_label_text(text_of(name), room_id@),
{
    match name {
        Some(n) => n,
        None => room_id.to_owned(),
    }
}

/// The log line for a message.
pub fn log_line(label: &str, sender: &str, body: &str) -> (line: String)
    ensures
        line@ == log_line_text(label@, sender@, body@),
{
    let mut line = "[".to_owned();
    line.append(label);
    line.append("][");
    line.append(sender);
    line.append("]: ");
    line.append(body);
    line
}

/// The greeting for a user with the given display name.
pub fn greeting(display_name: Option<String>) -> (text: String)
    ensures
        text@ == greeting_text(text_of(display_name)),
{
    let mut text = "Well hello there ".to_owned();
    match display_name {
        Some(n) => {
            text.append(n.as_str());
        },
        None => {
            text.append("Stranger");
        },
    }
    text
}

impl Output {
    /// An output that neither logs nor asks for anything.
    pub fn silence() -> (output: Output)
        ensures
            output@ == silence(),
    {
        Output { log: None, request: Request::Nothing }
    }

    /// An output that asks for something without logging.
    pub fn ask(request: Request) -> (output: Output)
        ensures
            output@ == ask(request@),
    {
        Output { log: None, request }
    }
}

impl Handler {
    /// Takes up a message. The result is the handler and what it asks for
    /// first.
    pub fn begin(config: HandlerConfig, bot_id: String, message: RoomMessage) -> (started: (
        Handler,
        Output,
    ))
        ensures
            (started.0@, started.1@) == begin_spec(config, bot_id@, message@),
    {
        if message.is_relevant() {
            (
                Handler { config, bot_id, message, stage: Stage::AwaitingRoomName },
                Output::ask(Request::ResolveRoomName),
            )
        } else {
            (Handler { config, bot_id, message, stage: Stage::Done }, Output::silence())
        }
    }

    /// The handler at another stage.
    fn at(self, stage: Stage) -> (moved: Handler)
        ensures
            moved@ == at_stage(self@, stage),
    {
        Handler { config: self.config, bot_id: self.bot_id, message: self.message, stage }
    }

    /// Is the message answered with a quotation?
    pub fn quote_due(&self) -> (due: bool)
        ensures
            due == quote_due(self@),
    {
        self.config.fool_quote_enabled && !self.message.sent_by(self.bot_id.as_str())
            && self.message.from_fool_sender()
    }

    /// Has the handling ended, in success or failure?
    pub fn is_finished(&self) -> (finished: bool)
        ensures
            finished == (self.stage == Stage::Done || self.stage is Aborted),
    {
        match self.stage {
            Stage::Done => true,
            Stage::Aborted(_) => true,
            _ => false,
        }
    }

    /// The log line for the handler's message, if one is written.
    fn log_entry(&self, room_name: Option<String>) -> (log: Option<String>)
        ensures
            text_of(log) == log_entry(self@, text_of(room_name)),
    {
        if !self.message.sent_by(self.bot_id.as_str()) || self.config.log_own_messages {
            let label = room_label(room_name, self.message.room_id.as_str());
            Some(
                log_line(label.as_str(), self.message.sender.as_str(), self.message.body.as_str()),
            )
        } else {
            None
        }
    }

    /// What comes after the greeting, or in its place where none is due.
    fn after_greeting(self, quote_index: usize) -> (next: (Handler, Request))
        requires
            quote_index < FOOL_QUOTE_COUNT,
        ensures
            (next.0@, next.1@) == after_greeting(self@, quote_index as int),
    {
        if self.quote_due() {
            let quote = fool_quote_at(quote_index).to_owned();
            (self.at(Stage::AwaitingQuoteSent), Request::Reply(quote))
        } else {
            (self.at(Stage::Done), Request::Nothing)
        }
    }

    /// One step, with the index of the quotation to use given by the
    /// caller.
    pub fn step_with_quote(self, event: HandlerEvent, quote_index: usize) -> (next: (
        Handler,
        Output,
    ))
        requires
            quote_index < FOOL_QUOTE_COUNT,
        ensures
            (next.0@, next.1@) == step_spec(self@, event@, quote_index as int),
    {
        match self.stage {
            Stage::AwaitingRoomName => match event {
                HandlerEvent::RoomName(name) => {
                    let log = self.log_entry(name);
                    if self.message.sent_by(self.bot_id.as_str()) {
                        (self.at(Stage::Done), Output { log, request: Request::Nothing })
                    } else if self.message.is_trigger() {
                        let user = self.message.sender.clone();
                        (
                            self.at(Stage::AwaitingProfile),
                            Output { log, request: Request::FetchProfile(user) },
                        )
                    } else {
                        let (next, request) = self.after_greeting(quote_index);
                        (next, Output { log, request })
                    }
                },
                _ => (self, Output::silence()),
            },
            Stage::AwaitingProfile => match event {
                HandlerEvent::Profile(name) => (
                    self.at(Stage::AwaitingGreetingSent),
                    Output::ask(Request::Reply(greeting(name))),
                ),
                HandlerEvent::ProfileFailed => (
                    self.at(Stage::Aborted(HandlerError::ProfileFetch)),
                    Output::silence(),
                ),
                _ => (self, Output::silence()),
            },
            Stage::AwaitingGreetingSent => match event {
                HandlerEvent::Replied => {
                    let (next, request) = self.after_greeting(quote_index);
                    (next, Output::ask(request))
                },
                HandlerEvent::ReplyFailed => (
                    self.at(Stage::Aborted(HandlerError::Reply)),
                    Output::silence(),
                ),
                _ => (self, Output::silence()),
            },
            Stage::AwaitingQuoteSent => match event {
                HandlerEvent::Replied => (self.at(Stage::Done), Output::silence()),
                HandlerEvent::ReplyFailed => (
                    self.at(Stage::Aborted(HandlerError::Reply)),
                    Output::silence(),
                ),
                _ => (self, Output::silence()),
            },
            _ => (self, Output::silence()),
        }
    }

    /// Does the step on this event send a quotation?
    pub fn quotes_next(&self, event: &HandlerEvent) -> (quotes: bool)
        ensures
            quotes == quotes_next(self@, event@),
    {
        match self.stage {
            Stage::AwaitingRoomName => match event {
                HandlerEvent::RoomName(_) => !self.message.is_trigger() && self.quote_due(),
                _ => false,
            },
            Stage::AwaitingGreetingSent => match event {
                HandlerEvent::Replied => self.quote_due(),
                _ => false,
            },
            _ => false,
        }
    }

    /// One step. Where the step sends a quotation, which of them is chosen
    /// at random, and only then is a random number drawn; everything else
    /// is decided by the stage and the event.
    pub fn step(self, event: HandlerEvent) -> (next: (Handler, Output))
        ensures
            exists|quote: int|
                0 <= quote < FOOL_QUOTE_COUNT && (next.0@, next.1@) == #[trigger] step_spec(
                    self@,
                    event@,
                    quote,
                ),
            !quotes_next(self@, event@) ==> (next.0@, next.1@) == step_spec(self@, event@, 0),
    {
        let quote_index: usize = if self.quotes_next(&event) {
            random_quote_index()
        } else {
            0
        };
        self.step_with_quote(event, quote_index)
    }
}

} // verus!
