use bot::{is_admitted, Category, Completion, Content, Directive, DispatchLoop, Event, Pace};

const OWNER: u64 = 1001;
const STRANGER: u64 = 2002;

const PACE: Pace = Pace { max_wait_secs: 10, interval_millis: 500 };

fn looping(cursor: u64) -> DispatchLoop {
    DispatchLoop::new(OWNER, cursor, PACE)
}

fn fetch(after: u64) -> Directive {
    Directive::Fetch { after, category: Category::Message, max_wait_secs: 10 }
}

const WAIT: Directive = Directive::Wait { millis: 500 };

fn event(sequence: u32, sender: Option<u64>) -> Event {
    Event { sequence, sender, conversation: 5, content: Content::Text(format!("message {}", sequence)) }
}

#[test]
fn the_filter_admits_the_owner_only() {
    assert!(is_admitted(&event(1, Some(OWNER)), OWNER));
    assert!(!is_admitted(&event(1, Some(STRANGER)), OWNER));
    assert!(!is_admitted(&event(1, None), OWNER));
    assert!(!is_admitted(&event(1, Some(0)), OWNER));
    assert!(!is_admitted(&event(1, None), 0));
}

#[test]
fn the_filter_leaves_the_event_alone() {
    let e = event(4, Some(STRANGER));
    let copy = e.clone();
    assert!(!is_admitted(&e, OWNER));
    assert_eq!(e, copy);
}

#[test]
fn a_new_loop_fetches_from_its_cursor() {
    let state = looping(17);
    assert_eq!(state.owner(), OWNER);
    assert_eq!(state.cursor(), 17);
    assert_eq!(state.pace(), PACE);
    assert!(!state.is_stopped());
    assert_eq!(state.start(), fetch(17));
}

#[test]
fn a_batch_moves_the_cursor_past_its_highest_event() {
    let mut state = looping(0);
    let batch = vec![event(3, Some(OWNER)), event(9, Some(OWNER)), event(4, Some(OWNER))];
    let step = state.step(false, Completion::Fetched(batch));
    assert_eq!(state.cursor(), 10);
    assert_eq!(step.next, WAIT);
    let step = state.step(false, Completion::Waited);
    assert_eq!(step.next, fetch(10));
    assert!(step.spawn.is_empty());
}

#[test]
fn the_cursor_never_moves_back() {
    let mut state = looping(10);
    state.step(false, Completion::Fetched(vec![event(2, Some(OWNER)), event(7, Some(OWNER))]));
    assert_eq!(state.cursor(), 10);
    state.step(false, Completion::Fetched(vec![event(9, Some(OWNER))]));
    assert_eq!(state.cursor(), 10);
    state.step(false, Completion::Fetched(vec![event(8, Some(OWNER)), event(10, Some(OWNER))]));
    assert_eq!(state.cursor(), 11);
    state.step(false, Completion::Fetched(vec![event(8, Some(OWNER)), event(10, Some(OWNER))]));
    assert_eq!(state.cursor(), 11);
}

#[test]
fn an_empty_batch_changes_nothing() {
    let mut state = looping(10);
    let step = state.step(false, Completion::Fetched(vec![]));
    assert_eq!(state.cursor(), 10);
    assert!(step.spawn.is_empty());
    assert_eq!(step.next, WAIT);
}

#[test]
fn the_cursor_passes_the_highest_sequence_number_there_is() {
    let mut state = looping(0);
    state.step(false, Completion::Fetched(vec![event(u32::MAX, Some(OWNER))]));
    assert_eq!(state.cursor(), 4_294_967_296);
    let mut far = looping(u64::MAX);
    far.step(false, Completion::Fetched(vec![event(u32::MAX, Some(OWNER))]));
    assert_eq!(far.cursor(), u64::MAX);
}

#[test]
fn a_failed_fetch_is_tried_again_from_the_same_cursor() {
    let mut state = looping(10);
    let step = state.step(false, Completion::FetchFailed);
    assert_eq!(step.next, WAIT);
    assert!(step.spawn.is_empty());
    assert_eq!(state.cursor(), 10);
    assert!(!state.is_stopped());
    let step = state.step(false, Completion::Waited);
    assert_eq!(step.next, fetch(10));
}

#[test]
fn only_admitted_events_are_spawned_in_order() {
    let mut state = looping(0);
    let batch = vec![
        event(1, Some(OWNER)),
        event(2, Some(STRANGER)),
        event(3, None),
        event(4, Some(OWNER)),
        event(5, Some(OWNER)),
    ];
    let step = state.step(false, Completion::Fetched(batch));
    assert_eq!(step.spawn, vec![event(1, Some(OWNER)), event(4, Some(OWNER)), event(5, Some(OWNER))]);
    assert_eq!(state.cursor(), 6);
}

#[test]
fn rejected_events_still_move_the_cursor() {
    let mut state = looping(0);
    let step = state.step(false, Completion::Fetched(vec![event(8, Some(STRANGER)), event(9, None)]));
    assert!(step.spawn.is_empty());
    assert_eq!(state.cursor(), 10);
}

#[test]
fn cancellation_during_a_fetch_stops_the_loop() {
    let mut state = looping(10);
    assert_eq!(state.start(), fetch(10));
    assert_eq!(state.cancel(), Directive::Stop);
    assert!(state.is_stopped());
    assert_eq!(state.cursor(), 10);
    assert_eq!(state.start(), Directive::Stop);
    for completion in [
        Completion::Fetched(vec![event(11, Some(OWNER))]),
        Completion::FetchFailed,
        Completion::Waited,
    ] {
        let step = state.step(false, completion);
        assert_eq!(step.next, Directive::Stop);
        assert!(step.spawn.is_empty());
        assert_eq!(state.cursor(), 10);
        assert!(state.is_stopped());
    }
}

#[test]
fn cancellation_wins_over_a_batch_that_is_ready() {
    let mut state = looping(10);
    let step = state.step(true, Completion::Fetched(vec![event(11, Some(OWNER))]));
    assert_eq!(step.next, Directive::Stop);
    assert!(step.spawn.is_empty());
    assert_eq!(state.cursor(), 10);
    assert!(state.is_stopped());
    let step = state.step(false, Completion::Waited);
    assert_eq!(step.next, Directive::Stop);
}

#[test]
fn cancellation_wins_over_the_interval() {
    let mut state = looping(10);
    let step = state.step(true, Completion::Waited);
    assert_eq!(step.next, Directive::Stop);
    let mut other = looping(10);
    let step = other.step(true, Completion::FetchFailed);
    assert_eq!(step.next, Directive::Stop);
    assert_eq!(state, other);
}

#[test]
fn the_loop_keeps_to_its_pace() {
    let pace = Pace { max_wait_secs: 3, interval_millis: 42 };
    let mut state = DispatchLoop::new(OWNER, 6, pace);
    let first = Directive::Fetch { after: 6, category: Category::Message, max_wait_secs: 3 };
    assert_eq!(state.start(), first);
    assert_eq!(state.step(false, Completion::FetchFailed).next, Directive::Wait { millis: 42 });
    assert_eq!(state.step(false, Completion::Waited).next, first);
    assert_eq!(state.step(false, Completion::Fetched(vec![])).next, Directive::Wait { millis: 42 });
    assert_eq!(state.pace(), pace);
}
