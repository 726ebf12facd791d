//! What one event does: a command is routed, any other content of a working conversation
//! yields its media references.

use crate::command::Command;
use crate::event::Event;
use crate::media::{extract, extract_spec, reference_views, Content, ContentView, MediaReference, MediaReferenceView};
use crate::router::{is_owner_spec, next_state, route, route_spec, Reply};
use crate::state::State;
use crate::store::{applied, read, StateStore};
use vstd::prelude::*;
use vstd::utf8::encode_utf8;

verus! {

/// What is to be done for an event once the store is updated.
#[derive(Debug, PartialEq, Eq)]
pub struct Handled {
    /// The text to send back to the conversation, if any.
    pub reply: Option<String>,
    /// The files to resolve, each on its own.
    pub media: Vec<MediaReference>,
}

/// What is to be done, with its texts as sequences of characters.
pub struct HandledView {
    pub reply: Option<Seq<char>>,
    pub media: Seq<MediaReferenceView>,
}

impl View for Handled {
    type V = HandledView;

    open spec fn view(&self) -> HandledView {
        HandledView {
            reply: match self.reply {
                Some(text) => Some(text@),
                None => None,
            },
            media: reference_views(self.media@),
        }
    }
}

/// The command a content gives: only text can hold one.
pub open spec fn command_in(content: ContentView, bot_name: Seq<char>) -> Option<Command> {
    match content {
        ContentView::Text(text) => Command::parse_spec(encode_utf8(text), encode_utf8(bot_name)),
        _ => None,
    }
}

/// The text of a reply, if there is one.
pub open spec fn reply_text(reply: Option<Reply>) -> Option<Seq<char>> {
    match reply {
        Some(reply) => Some(reply.text_spec()),
        None => None,
    }
}

/// What handling an event does to the stored entries.
///
/// A command has the effect the transition table gives it in the conversation's state;
/// anything else leaves the entries alone.
pub open spec fn entries_after(entries: Map<i64, State>, owner: u64, bot_name: Seq<char>, event: Event) -> Map<
    i64,
    State,
> {
    match command_in(event.content@, bot_name) {
        Some(command) => applied(
            entries,
            event.conversation,
            route_spec(command, read(entries, event.conversation), event.sender, owner).effect,
        ),
        None => entries,
    }
}

/// What handling an event asks for: the reply of a command, or the media references of any
/// other content if the conversation is working.
pub open spec fn handled_spec(entries: Map<i64, State>, owner: u64, bot_name: Seq<char>, event: Event) -> HandledView {
    match command_in(event.content@, bot_name) {
        Some(command) => HandledView {
            reply: reply_text(route_spec(command, read(entries, event.conversation), event.sender, owner).reply),
            media: Seq::empty(),
        },
        None => HandledView {
            reply: None,
            media: if read(entries, event.conversation) == State::Working {
                extract_spec(event.content@)
            } else {
                Seq::empty()
            },
        },
    }
}

/// The command in a message's content, if it holds one.
pub fn command_of(content: &Content, bot_name: &str) -> (command: Option<Command>)
    ensures
        command == command_in(content@, bot_name@),
{
    match content {
        Content::Text(text) => Command::parse(text.as_str(), bot_name),
        _ => None,
    }
}

/// Handles one event: updates the store and says what to send and what to resolve.
///
/// `bot_name` is the bot's own user name, by which a command may address it.
pub fn handle(store: &mut StateStore, owner: u64, bot_name: &str, event: &Event) -> (handled: Handled)
    ensures
        final(store)@ == entries_after(old(store)@, owner, bot_name@, *event),
        handled@ == handled_spec(old(store)@, owner, bot_name@, *event),
{
    let current = store.get(event.conversation);
    match command_of(&event.content, bot_name) {
        Some(command) => {
            let outcome = route(command, current, event.sender, owner);
            store.apply(event.conversation, outcome.effect);
            let reply = match outcome.reply {
                Some(reply) => Some(reply.text()),
                None => None,
            };
            let media: Vec<MediaReference> = Vec::new();
            assert(reference_views(media@) =~= Seq::empty());
            Handled { reply, media }
        },
        None => {
            let media = match current {
                State::Working => extract(&event.content),
                State::Paused => {
                    let none: Vec<MediaReference> = Vec::new();
                    assert(reference_views(none@) =~= Seq::empty());
                    none
                },
            };
            Handled { reply: None, media }
        },
    }
}

/// After an event is handled, its conversation reads as the transition table says, and every
/// other conversation as before.
pub proof fn law_handle_moves_one_conversation(
    entries: Map<i64, State>,
    owner: u64,
    bot_name: Seq<char>,
    event: Event,
    other: i64,
)
    ensures
        read(entries_after(entries, owner, bot_name, event), event.conversation) == (match command_in(
            event.content@,
            bot_name,
        ) {
            Some(command) => next_state(command, read(entries, event.conversation), event.sender, owner),
            None => read(entries, event.conversation),
        }),
        other != event.conversation ==> read(entries_after(entries, owner, bot_name, event), other) == read(
            entries,
            other,
        ),
{
}

/// An event from anybody but the owner never sets a paused conversation working.
pub proof fn law_only_owner_unpauses(entries: Map<i64, State>, owner: u64, bot_name: Seq<char>, event: Event)
    requires
        !is_owner_spec(event.sender, owner),
        read(entries, event.conversation) == State::Paused,
    ensures
        read(entries_after(entries, owner, bot_name, event), event.conversation) == State::Paused,
{
}

/// Handling the same event twice in a row leaves the store as handling it once does.
pub proof fn law_handle_idempotent(entries: Map<i64, State>, owner: u64, bot_name: Seq<char>, event: Event)
    ensures
        entries_after(entries_after(entries, owner, bot_name, event), owner, bot_name, event) == entries_after(
            entries,
            owner,
            bot_name,
            event,
        ),
{
    let once = entries_after(entries, owner, bot_name, event);
    let twice = entries_after(once, owner, bot_name, event);
    assert(twice =~= once);
}

/// Media is looked at only in a working conversation, and never for a command.
pub proof fn law_media_needs_working(entries: Map<i64, State>, owner: u64, bot_name: Seq<char>, event: Event)
    ensures
        handled_spec(entries, owner, bot_name, event).media.len() > 0 ==> {
            &&& read(entries, event.conversation) == State::Working
            &&& command_in(event.content@, bot_name) is None
        },
{
}

} // verus!
