use bot::handler::command_of;
use bot::{handle, Category, Command, Completion, Content, Directive, DispatchLoop, Event, Handled, Pace};
use bot::{MediaKind, MediaReference, State, StateStore};

const OWNER: u64 = 1001;
const STRANGER: u64 = 2002;
const CHAT: i64 = -100_500;
const BOT: &str = "gate_bot";

fn message(sender: Option<u64>, text: &str) -> Event {
    Event { sequence: 0, sender, conversation: CHAT, content: Content::Text(text.to_string()) }
}

fn reply(text: &str) -> Handled {
    Handled { reply: Some(text.to_string()), media: vec![] }
}

fn nothing() -> Handled {
    Handled { reply: None, media: vec![] }
}

#[test]
fn owner_unpauses_then_pauses() {
    let mut store = StateStore::new();
    assert_eq!(store.get(CHAT), State::Paused);

    let handled = handle(&mut store, OWNER, BOT, &message(Some(OWNER), "/unpause"));
    assert_eq!(handled, reply("Working"));
    assert_eq!(store.get(CHAT), State::Working);

    let handled = handle(&mut store, OWNER, BOT, &message(Some(OWNER), "/pause"));
    assert_eq!(handled, reply("Paused"));
    assert_eq!(store.get(CHAT), State::Paused);
}

#[test]
fn stranger_is_denied_and_the_state_reads_paused() {
    let mut store = StateStore::new();
    let handled = handle(&mut store, OWNER, BOT, &message(Some(STRANGER), "/unpause"));
    assert_eq!(handled, reply("Permission denied: You are not owner"));
    assert!(handled.reply.unwrap().starts_with("Permission denied"));
    assert_eq!(store.get(CHAT), State::Paused);
}

#[test]
fn a_stranger_cannot_unpause_by_retrying() {
    let mut store = StateStore::new();
    for _ in 0..20 {
        let handled = handle(&mut store, OWNER, BOT, &message(Some(STRANGER), "/unpause"));
        assert_eq!(handled, reply("Permission denied: You are not owner"));
        assert_eq!(store.get(CHAT), State::Paused);
    }
    let handled = handle(&mut store, OWNER, BOT, &message(None, "/unpause"));
    assert_eq!(handled, reply("Permission denied: You are not owner"));
    assert_eq!(store.get(CHAT), State::Paused);
}

#[test]
fn duplicate_delivery_changes_nothing_more() {
    let mut store = StateStore::new();
    let unpause = message(Some(OWNER), "/unpause");
    assert_eq!(handle(&mut store, OWNER, BOT, &unpause), reply("Working"));
    assert_eq!(handle(&mut store, OWNER, BOT, &unpause), nothing());
    assert_eq!(store.get(CHAT), State::Working);

    let pause = message(Some(OWNER), "/pause");
    assert_eq!(handle(&mut store, OWNER, BOT, &pause), reply("Paused"));
    assert_eq!(handle(&mut store, OWNER, BOT, &pause), nothing());
    assert_eq!(store.get(CHAT), State::Paused);
}

#[test]
fn help_and_state_answer_whatever_the_state() {
    let mut store = StateStore::new();
    let help = handle(&mut store, OWNER, BOT, &message(Some(STRANGER), "/help"));
    assert_eq!(help, reply(&Command::descriptions()));
    assert_eq!(handle(&mut store, OWNER, BOT, &message(Some(STRANGER), "/state")), reply("Paused"));
    store.set(CHAT, State::Working);
    assert_eq!(handle(&mut store, OWNER, BOT, &message(Some(STRANGER), "/state")), reply("Working"));
    assert_eq!(handle(&mut store, OWNER, BOT, &message(None, "/help")), help);
    assert_eq!(store.get(CHAT), State::Working);
}

#[test]
fn media_is_extracted_only_while_working() {
    let photo = Event {
        sequence: 3,
        sender: Some(OWNER),
        conversation: CHAT,
        content: Content::Photo(vec!["s".to_string(), "l".to_string()]),
    };
    let mut store = StateStore::new();
    assert_eq!(handle(&mut store, OWNER, BOT, &photo), nothing());
    assert_eq!(store.get(CHAT), State::Paused);

    store.set(CHAT, State::Working);
    let handled = handle(&mut store, OWNER, BOT, &photo);
    assert_eq!(
        handled,
        Handled {
            reply: None,
            media: vec![
                MediaReference { file_id: "s".to_string(), kind: MediaKind::Photo },
                MediaReference { file_id: "l".to_string(), kind: MediaKind::Photo },
            ],
        }
    );
    assert_eq!(store.get(CHAT), State::Working);
}

#[test]
fn plain_text_and_unknown_content_do_nothing() {
    let mut store = StateStore::new();
    store.set(CHAT, State::Working);
    assert_eq!(handle(&mut store, OWNER, BOT, &message(Some(OWNER), "hello there")), nothing());
    let other = Event { sequence: 1, sender: Some(OWNER), conversation: CHAT, content: Content::Other };
    assert_eq!(handle(&mut store, OWNER, BOT, &other), nothing());
    assert_eq!(store.get(CHAT), State::Working);
}

#[test]
fn a_command_in_one_conversation_leaves_the_others() {
    let mut store = StateStore::new();
    store.set(1, State::Working);
    handle(&mut store, OWNER, BOT, &message(Some(OWNER), "/unpause"));
    assert_eq!(store.get(CHAT), State::Working);
    assert_eq!(store.get(1), State::Working);
    assert_eq!(store.get(2), State::Paused);
    handle(&mut store, OWNER, BOT, &message(Some(OWNER), "/pause"));
    assert_eq!(store.get(1), State::Working);
}

#[test]
fn only_text_holds_a_command() {
    assert_eq!(command_of(&Content::Text("/pause".to_string()), BOT), Some(Command::Pause));
    assert_eq!(command_of(&Content::Text("pause".to_string()), BOT), None);
    assert_eq!(command_of(&Content::Video("/pause".to_string()), BOT), None);
    assert_eq!(command_of(&Content::Photo(vec!["/pause".to_string()]), BOT), None);
    assert_eq!(command_of(&Content::Other, BOT), None);
}

#[test]
fn from_fetch_to_reply() {
    let mut state = DispatchLoop::new(OWNER, 0, Pace { max_wait_secs: 10, interval_millis: 500 });
    let mut store = StateStore::new();
    assert_eq!(state.start(), Directive::Fetch { after: 0, category: Category::Message, max_wait_secs: 10 });
    let batch = vec![
        Event { sequence: 40, sender: Some(STRANGER), conversation: CHAT, content: Content::Text("/unpause".to_string()) },
        Event { sequence: 41, sender: Some(OWNER), conversation: CHAT, content: Content::Text("/unpause".to_string()) },
        Event { sequence: 42, sender: Some(OWNER), conversation: CHAT, content: Content::Voice("note".to_string()) },
    ];
    let step = state.step(false, Completion::Fetched(batch));
    assert_eq!(step.next, Directive::Wait { millis: 500 });
    assert_eq!(state.cursor(), 43);
    assert_eq!(step.spawn.len(), 2);
    let first = handle(&mut store, OWNER, BOT, &step.spawn[0]);
    assert_eq!(first, reply("Working"));
    let second = handle(&mut store, OWNER, BOT, &step.spawn[1]);
    assert_eq!(
        second,
        Handled { reply: None, media: vec![MediaReference { file_id: "note".to_string(), kind: MediaKind::Voice }] }
    );
}
