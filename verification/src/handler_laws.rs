//! What holds of every handling of a message, whatever the outside world
//! answers.

use crate::handler::{
    ask, begin_spec, greeting_text, log_entry, owed_quote, silence, step_spec, HandlerConfig,
    HandlerError, HandlerEventView, HandlerView, OutputView, RequestView, Stage,
};
use crate::message::{is_relevant, is_trigger, sent_by, RoomMessageView};
use crate::quotes::fool_quote_text;
use vstd::prelude::*;

verus! {

/// One turn of a handling: the event handed to the handler, and the index
/// of the quotation that is used if the step sends one.
pub struct Turn {
    pub event: HandlerEventView,
    pub quote: int,
}

/// The handler after the given turns, and the outputs of its steps in
/// order.
pub open spec fn run(handler: HandlerView, turns: Seq<Turn>) -> (HandlerView, Seq<OutputView>)
    decreases turns.len(),
{
    if turns.len() == 0 {
        (handler, Seq::empty())
    } else {
        let (next, output) = step_spec(handler, turns[0].event, turns[0].quote);
        let (last, rest) = run(next, turns.drop_first());
        (last, seq![output] + rest)
    }
}

/// The whole handling of a message: the output of the start, then those of
/// the steps over the given turns.
pub open spec fn handle(
    config: HandlerConfig,
    bot_id: Seq<char>,
    message: RoomMessageView,
    turns: Seq<Turn>,
) -> (HandlerView, Seq<OutputView>) {
    let (started, first) = begin_spec(config, bot_id, message);
    let (last, rest) = run(started, turns);
    (last, seq![first] + rest)
}

/// The output asks for work on the network: a profile fetch or a reply.
pub open spec fn touches_network(output: OutputView) -> bool {
    output.request is FetchProfile || output.request is Reply
}

/// The texts of the replies that the outputs ask for, in order.
pub open spec fn replies(outputs: Seq<OutputView>) -> Seq<Seq<char>>
    decreases outputs.len(),
{
    if outputs.len() == 0 {
        Seq::empty()
    } else {
        let earlier = replies(outputs.drop_last());
        match outputs.last().request {
            RequestView::Reply(text) => earlier.push(text),
            _ => earlier,
        }
    }
}

/// The handling has ended, in success or failure.
pub open spec fn finished(handler: HandlerView) -> bool {
    handler.stage == Stage::Done || handler.stage is Aborted
}

/// Running over a first turn and the rest is one step followed by the run
/// over the rest.
pub proof fn lemma_run_first(handler: HandlerView, turn: Turn, rest: Seq<Turn>)
    ensures
        run(handler, seq![turn] + rest) == ({
            let (next, output) = step_spec(handler, turn.event, turn.quote);
            let (last, outputs) = run(next, rest);
            (last, seq![output] + outputs)
        }),
{
    assert((seq![turn] + rest).drop_first() =~= rest);
}

/// A run produces one output per turn.
pub proof fn lemma_run_len(handler: HandlerView, turns: Seq<Turn>)
    ensures
        run(handler, turns).1.len() == turns.len(),
    decreases turns.len(),
{
    if turns.len() > 0 {
        let (next, _output) = step_spec(handler, turns[0].event, turns[0].quote);
        lemma_run_len(next, turns.drop_first());
    }
}

/// A handling that has ended stays as it is: whatever events still arrive,
/// each step is silent. In particular a failure while handling one message
/// leads to no further request for it.
pub proof fn law_finished_stays_silent(handler: HandlerView, turns: Seq<Turn>)
    requires
        finished(handler),
    ensures
        run(handler, turns).0 == handler,
        forall|i: int| 0 <= i < turns.len() ==> #[trigger] run(handler, turns).1[i] == silence(),
    decreases turns.len(),
{
    if turns.len() > 0 {
        lemma_run_len(handler, turns.drop_first());
        law_finished_stays_silent(handler, turns.drop_first());
    }
}

/// A message that is not a text message, or whose room is not joined,
/// causes nothing at all: whatever events arrive, the handler never asks
/// for a profile or a reply, asks for nothing else either, and writes no
/// log line.
pub proof fn law_irrelevant_message_is_ignored(
    config: HandlerConfig,
    bot_id: Seq<char>,
    message: RoomMessageView,
    turns: Seq<Turn>,
)
    requires
        !is_relevant(message),
    ensures
        handle(config, bot_id, message, turns).0.stage == Stage::Done,
        handle(config, bot_id, message, turns).1.len() == turns.len() + 1,
        forall|i: int|
            0 <= i <= turns.len() ==> #[trigger] handle(config, bot_id, message, turns).1[i]
                == silence(),
        forall|i: int|
            0 <= i <= turns.len() ==> !touches_network(
                #[trigger] handle(config, bot_id, message, turns).1[i],
            ),
{
    let (started, _first) = begin_spec(config, bot_id, message);
    lemma_run_len(started, turns);
    law_finished_stays_silent(started, turns);
}

/// A handler that still waits for the room's name, or has ended, and whose
/// message was sent by the bot itself never touches the network.
proof fn lemma_own_message_run(handler: HandlerView, turns: Seq<Turn>)
    requires
        sent_by(handler.message, handler.bot_id),
        handler.stage == Stage::AwaitingRoomName || handler.stage == Stage::Done,
    ensures
        forall|i: int|
            0 <= i < turns.len() ==> !touches_network(#[trigger] run(handler, turns).1[i]),
    decreases turns.len(),
{
    if turns.len() > 0 {
        let (next, _output) = step_spec(handler, turns[0].event, turns[0].quote);
        lemma_run_len(next, turns.drop_first());
        lemma_own_message_run(next, turns.drop_first());
    }
}

/// A message sent by the bot's own account is never answered: whatever its
/// body, whatever the configuration and whatever events arrive, the
/// handler asks neither for a profile nor for a reply.
pub proof fn law_own_message_is_never_answered(
    config: HandlerConfig,
    bot_id: Seq<char>,
    message: RoomMessageView,
    turns: Seq<Turn>,
)
    requires
        sent_by(message, bot_id),
    ensures
        forall|i: int|
            0 <= i <= turns.len() ==> !touches_network(
                #[trigger] handle(config, bot_id, message, turns).1[i],
            ),
        replies(handle(config, bot_id, message, turns).1) == Seq::<Seq<char>>::empty(),
{
    let (started, _first) = begin_spec(config, bot_id, message);
    lemma_run_len(started, turns);
    lemma_own_message_run(started, turns);
    lemma_no_network_no_replies(handle(config, bot_id, message, turns).1);
}

/// Outputs that do not touch the network hold no reply.
proof fn lemma_no_network_no_replies(outputs: Seq<OutputView>)
    requires
        forall|i: int| 0 <= i < outputs.len() ==> !touches_network(#[trigger] outputs[i]),
    ensures
        replies(outputs) == Seq::<Seq<char>>::empty(),
    decreases outputs.len(),
{
    if outputs.len() > 0 {
        lemma_no_network_no_replies(outputs.drop_last());
    }
}

/// The replies of outputs put one after the other.
proof fn lemma_replies_concat(first: Seq<OutputView>, second: Seq<OutputView>)
    ensures
        replies(first + second) == replies(first) + replies(second),
    decreases second.len(),
{
    if second.len() == 0 {
        assert(first + second =~= first);
        assert(replies(first) + replies(second) =~= replies(first));
    } else {
        lemma_replies_concat(first, second.drop_last());
        assert((first + second).drop_last() =~= first + second.drop_last());
        assert(replies(first + second) =~= replies(first) + replies(second));
    }
}

/// How many replies a handling at the given stage can still ask for.
pub open spec fn replies_left(stage: Stage) -> nat {
    match stage {
        Stage::AwaitingRoomName => 2,
        Stage::AwaitingProfile => 2,
        Stage::AwaitingGreetingSent => 1,
        _ => 0,
    }
}

/// From any stage on, a handler asks for no more replies than the stage
/// leaves room for.
proof fn lemma_replies_bounded(handler: HandlerView, turns: Seq<Turn>)
    ensures
        replies(run(handler, turns).1).len() <= replies_left(handler.stage),
    decreases turns.len(),
{
    if turns.len() > 0 {
        let (next, output) = step_spec(handler, turns[0].event, turns[0].quote);
        let rest = run(next, turns.drop_first()).1;
        lemma_replies_bounded(next, turns.drop_first());
        lemma_replies_concat(seq![output], rest);
        assert(seq![output].drop_last() =~= Seq::<OutputView>::empty());
        assert(replies(seq![output].drop_last()) =~= Seq::<Seq<char>>::empty());
    }
}

/// No message is answered more than twice, whatever it holds and whatever
/// events arrive: at most the greeting and the quotation are sent.
pub proof fn law_at_most_two_replies(
    config: HandlerConfig,
    bot_id: Seq<char>,
    message: RoomMessageView,
    turns: Seq<Turn>,
)
    ensures
        replies(handle(config, bot_id, message, turns).1).len() <= 2,
{
    let (started, first) = begin_spec(config, bot_id, message);
    let rest = run(started, turns).1;
    lemma_replies_bounded(started, turns);
    lemma_replies_concat(seq![first], rest);
    assert(seq![first].drop_last() =~= Seq::<OutputView>::empty());
    assert(replies(seq![first].drop_last()) =~= Seq::<Seq<char>>::empty());
}

/// The events of a handling in which the profile fetch and every reply
/// succeed, for a message that asks for a greeting.
pub open spec fn greeting_turns(
    room_name: Option<Seq<char>>,
    display_name: Option<Seq<char>>,
    quote: int,
) -> Seq<Turn> {
    seq![
        Turn { event: HandlerEventView::RoomName(room_name), quote },
        Turn { event: HandlerEventView::Profile(display_name), quote },
        Turn { event: HandlerEventView::Replied, quote },
    ]
}

/// A text message in a joined room whose body starts with the command
/// prefix, sent by somebody else than the bot, is answered with exactly
/// one reply, the greeting addressed to the sender's display name or to
/// the fallback name: the room's name is resolved, the message logged, the
/// sender's profile fetched, the greeting sent, and that is all. The one
/// exception is the account that is also owed a quotation, of which
/// [`law_trigger_from_fool_sender`] speaks.
pub proof fn law_trigger_gets_one_greeting(
    config: HandlerConfig,
    bot_id: Seq<char>,
    message: RoomMessageView,
    room_name: Option<Seq<char>>,
    display_name: Option<Seq<char>>,
    quote: int,
)
    requires
        is_relevant(message),
        is_trigger(message),
        !sent_by(message, bot_id),
        !owed_quote(config, bot_id, message),
    ensures
        handle(config, bot_id, message, greeting_turns(room_name, display_name, quote)) == (
            HandlerView { config, bot_id, message, stage: Stage::Done },
            seq![
                ask(RequestView::ResolveRoomName),
                OutputView {
                    log: log_entry(
                        HandlerView { config, bot_id, message, stage: Stage::AwaitingRoomName },
                        room_name,
                    ),
                    request: RequestView::FetchProfile(message.sender),
                },
                ask(RequestView::Reply(greeting_text(display_name))),
                silence(),
            ],
        ),
        replies(
            handle(config, bot_id, message, greeting_turns(room_name, display_name, quote)).1,
        ) == seq![greeting_text(display_name)],
{
    let turns = greeting_turns(room_name, display_name, quote);
    let h0 = HandlerView { config, bot_id, message, stage: Stage::AwaitingRoomName };
    let h1 = HandlerView { config, bot_id, message, stage: Stage::AwaitingProfile };
    let h2 = HandlerView { config, bot_id, message, stage: Stage::AwaitingGreetingSent };
    let h3 = HandlerView { config, bot_id, message, stage: Stage::Done };
    let empty = Seq::<Turn>::empty();
    assert(turns =~= seq![turns[0]] + (seq![turns[1]] + (seq![turns[2]] + empty)));
    lemma_run_first(h0, turns[0], seq![turns[1]] + (seq![turns[2]] + empty));
    lemma_run_first(h1, turns[1], seq![turns[2]] + empty);
    lemma_run_first(h2, turns[2], empty);
    assert(run(h3, empty).1 =~= Seq::<OutputView>::empty());
    let outputs = handle(config, bot_id, message, turns).1;
    let expected = seq![
        ask(RequestView::ResolveRoomName),
        OutputView { log: log_entry(h0, room_name), request: RequestView::FetchProfile(message.sender) },
        ask(RequestView::Reply(greeting_text(display_name))),
        silence(),
    ];
    assert(outputs =~= expected);
    lemma_replies_of_greeting(expected, greeting_text(display_name));
}

/// The replies of four outputs of which only the third asks for one.
proof fn lemma_replies_of_greeting(outputs: Seq<OutputView>, text: Seq<char>)
    requires
        outputs.len() == 4,
        !(outputs[0].request is Reply),
        !(outputs[1].request is Reply),
        outputs[2].request == RequestView::Reply(text),
        !(outputs[3].request is Reply),
    ensures
        replies(outputs) == seq![text],
{
    let a3 = outputs.drop_last();
    let a2 = a3.drop_last();
    let a1 = a2.drop_last();
    let a0 = a1.drop_last();
    assert(a0.len() == 0);
    assert(replies(a0) =~= Seq::<Seq<char>>::empty());
    assert(replies(a1) == replies(a0));
    assert(replies(a2) == replies(a1));
    assert(replies(a3) == replies(a2).push(text));
    assert(replies(outputs) == replies(a3));
    assert(replies(outputs) =~= seq![text]);
}

/// The events of a handling in which the profile fetch and both replies
/// succeed.
pub open spec fn greeting_and_quote_turns(
    room_name: Option<Seq<char>>,
    display_name: Option<Seq<char>>,
    quote: int,
) -> Seq<Turn> {
    greeting_turns(room_name, display_name, quote).push(
        Turn { event: HandlerEventView::Replied, quote },
    )
}

/// Where the quotation is switched on and the account that is owed one
/// sends a message that starts with the command prefix, it gets two
/// replies: first the greeting, then the quotation.
pub proof fn law_trigger_from_fool_sender(
    config: HandlerConfig,
    bot_id: Seq<char>,
    message: RoomMessageView,
    room_name: Option<Seq<char>>,
    display_name: Option<Seq<char>>,
    quote: int,
)
    requires
        is_relevant(message),
        is_trigger(message),
        !sent_by(message, bot_id),
        owed_quote(config, bot_id, message),
    ensures
        handle(
            config,
            bot_id,
            message,
            greeting_and_quote_turns(room_name, display_name, quote),
        ).0.stage == Stage::Done,
        replies(
            handle(
                config,
                bot_id,
                message,
                greeting_and_quote_turns(room_name, display_name, quote),
            ).1,
        ) == seq![greeting_text(display_name), fool_quote_text(quote)],
{
    let turns = greeting_and_quote_turns(room_name, display_name, quote);
    let h0 = HandlerView { config, bot_id, message, stage: Stage::AwaitingRoomName };
    let h1 = HandlerView { config, bot_id, message, stage: Stage::AwaitingProfile };
    let h2 = HandlerView { config, bot_id, message, stage: Stage::AwaitingGreetingSent };
    let h3 = HandlerView { config, bot_id, message, stage: Stage::AwaitingQuoteSent };
    let h4 = HandlerView { config, bot_id, message, stage: Stage::Done };
    let empty = Seq::<Turn>::empty();
    let t3 = seq![turns[3]] + empty;
    let t2 = seq![turns[2]] + t3;
    let t1 = seq![turns[1]] + t2;
    assert(turns =~= seq![turns[0]] + t1);
    lemma_run_first(h0, turns[0], t1);
    lemma_run_first(h1, turns[1], t2);
    lemma_run_first(h2, turns[2], t3);
    lemma_run_first(h3, turns[3], empty);
    assert(run(h4, empty).1 =~= Seq::<OutputView>::empty());
    let outputs = handle(config, bot_id, message, turns).1;
    let expected = seq![
        ask(RequestView::ResolveRoomName),
        OutputView { log: log_entry(h0, room_name), request: RequestView::FetchProfile(message.sender) },
        ask(RequestView::Reply(greeting_text(display_name))),
        ask(RequestView::Reply(fool_quote_text(quote))),
        silence(),
    ];
    assert(outputs =~= expected);
    let a4 = expected.drop_last();
    let a3 = a4.drop_last();
    let a2 = a3.drop_last();
    let a1 = a2.drop_last();
    let a0 = a1.drop_last();
    assert(replies(a0) =~= Seq::<Seq<char>>::empty());
    assert(replies(a1) == replies(a0));
    assert(replies(a2) == replies(a1));
    assert(replies(a3) == replies(a2).push(greeting_text(display_name)));
    assert(replies(a4) == replies(a3).push(fool_quote_text(quote)));
    assert(replies(expected) == replies(a4));
    assert(replies(expected) =~= seq![greeting_text(display_name), fool_quote_text(quote)]);
}

/// Where the sender's profile cannot be fetched, the handling of that
/// message ends there: no reply is sent for it.
pub proof fn law_profile_failure_is_contained(
    config: HandlerConfig,
    bot_id: Seq<char>,
    message: RoomMessageView,
    room_name: Option<Seq<char>>,
    quote: int,
    later: Seq<Turn>,
)
    requires
        is_relevant(message),
        is_trigger(message),
        !sent_by(message, bot_id),
    ensures
        ({
            let turns = seq![
                Turn { event: HandlerEventView::RoomName(room_name), quote },
                Turn { event: HandlerEventView::ProfileFailed, quote },
            ] + later;
            let (last, outputs) = handle(config, bot_id, message, turns);
            &&& last.stage == Stage::Aborted(HandlerError::ProfileFetch)
            &&& replies(outputs) == Seq::<Seq<char>>::empty()
        }),
{
    let first = Turn { event: HandlerEventView::RoomName(room_name), quote };
    let second = Turn { event: HandlerEventView::ProfileFailed, quote };
    let turns = seq![first, second] + later;
    let h0 = HandlerView { config, bot_id, message, stage: Stage::AwaitingRoomName };
    let h1 = HandlerView { config, bot_id, message, stage: Stage::AwaitingProfile };
    let h2 = HandlerView {
        config,
        bot_id,
        message,
        stage: Stage::Aborted(HandlerError::ProfileFetch),
    };
    assert(turns =~= seq![first] + (seq![second] + later));
    lemma_run_first(h0, first, seq![second] + later);
    lemma_run_first(h1, second, later);
    law_finished_stays_silent(h2, later);
    lemma_run_len(h2, later);
    let (_last, outputs) = handle(config, bot_id, message, turns);
    let tail = run(h2, later).1;
    let head = seq![
        ask(RequestView::ResolveRoomName),
        OutputView { log: log_entry(h0, room_name), request: RequestView::FetchProfile(message.sender) },
        silence(),
    ];
    assert(outputs =~= head + tail);
    assert forall|i: int| 0 <= i < outputs.len() implies !(#[trigger] outputs[i].request is Reply) by {
        if i >= 3 {
            assert(outputs[i] == tail[i - 3]);
        }
    }
    lemma_no_replies(outputs);
}

/// Outputs of which none asks for a reply hold no reply.
proof fn lemma_no_replies(outputs: Seq<OutputView>)
    requires
        forall|i: int| 0 <= i < outputs.len() ==> !(#[trigger] outputs[i].request is Reply),
    ensures
        replies(outputs) == Seq::<Seq<char>>::empty(),
    decreases outputs.len(),
{
    if outputs.len() > 0 {
        lemma_no_replies(outputs.drop_last());
    }
}

} // verus!
