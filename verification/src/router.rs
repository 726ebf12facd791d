//! The transition table: what a command does in a given state.

use crate::command::Command;
use crate::state::State;
use vstd::prelude::*;

verus! {

/// What the bot answers.
#[derive(Clone, Copy, Debug, PartialEq, Eq, Structural)]
pub enum Reply {
    /// The list of commands.
    CommandList,
    /// The name of a state: the current one, or the one just entered.
    StateName(State),
    /// The sender may not do this.
    PermissionDenied,
}

/// What happens to the conversation's stored state.
#[derive(Clone, Copy, Debug, PartialEq, Eq, Structural)]
pub enum Effect {
    /// It stays as it is.
    Keep,
    /// It becomes the given state.
    Enter(State),
    /// The conversation ends: its entry is dropped, so it reads as the default again.
    Exit,
}

/// The result of routing one command.
#[derive(Clone, Copy, Debug, PartialEq, Eq, Structural)]
pub struct Outcome {
    /// What to answer; `None` where the command is met with silence.
    pub reply: Option<Reply>,
    pub effect: Effect,
}

/// Whether `sender` is the owner. A message without a sender is nobody's.
pub open spec fn is_owner_spec(sender: Option<u64>, owner: u64) -> bool {
    sender == Some(owner)
}

/// Whether `sender` is known and is `owner`.
pub fn is_owner(sender: Option<u64>, owner: u64) -> (yes: bool)
    ensures
        yes == is_owner_spec(sender, owner),
{
    match sender {
        Some(id) => id == owner,
        None => false,
    }
}

impl Reply {
    /// The words of the reply.
    pub open spec fn text_spec(self) -> Seq<char> {
        match self {
            Reply::CommandList => Command::descriptions_spec(),
            Reply::StateName(state) => state.name_spec(),
            Reply::PermissionDenied => "Permission denied: You are not owner"@,
        }
    }

    /// The reply as the text to send.
    pub fn text(&self) -> (text: String)
        ensures
            text@ == self.text_spec(),
    {
        match self {
            Reply::CommandList => Command::descriptions(),
            Reply::StateName(state) => state.name(),
            Reply::PermissionDenied => "Permission denied: You are not owner".to_owned(),
        }
    }
}

impl Effect {
    /// The state a conversation reads as once the effect is applied.
    pub open spec fn apply_spec(self, current: State) -> State {
        match self {
            Effect::Keep => current,
            Effect::Enter(state) => state,
            Effect::Exit => State::Paused,
        }
    }

    /// The state that `current` becomes under the effect.
    pub fn apply(&self, current: State) -> (next: State)
        ensures
            next == self.apply_spec(current),
    {
        match self {
            Effect::Keep => current,
            Effect::Enter(state) => *state,
            Effect::Exit => State::Paused,
        }
    }
}

impl Outcome {
    /// The state the command moves the conversation to, if it sets one.
    pub open spec fn new_state_spec(self) -> Option<State> {
        match self.effect {
            Effect::Enter(state) => Some(state),
            _ => None,
        }
    }

    /// The state the command moves the conversation to, if it sets one.
    pub fn new_state(&self) -> (state: Option<State>)
        ensures
            state == self.new_state_spec(),
    {
        match self.effect {
            Effect::Enter(state) => Some(state),
            _ => None,
        }
    }
}

/// The transition table.
///
/// `Help` and `ShowState` answer in every state and change nothing. `Unpause` counts only
/// while paused: the owner's moves the conversation to `Working`, anybody else's is denied
/// and ends the conversation. `Pause` counts only while working. A command that does not
/// count is met with silence.
pub open spec fn route_spec(command: Command, current: State, sender: Option<u64>, owner: u64) -> Outcome {
    match (command, current) {
        (Command::Help, _) => Outcome { reply: Some(Reply::CommandList), effect: Effect::Keep },
        (Command::ShowState, _) => Outcome {
            reply: Some(Reply::StateName(current)),
            effect: Effect::Keep,
        },
        (Command::Unpause, State::Paused) => if is_owner_spec(sender, owner) {
            Outcome {
                reply: Some(Reply::StateName(State::Working)),
                effect: Effect::Enter(State::Working),
            }
        } else {
            Outcome { reply: Some(Reply::PermissionDenied), effect: Effect::Exit }
        },
        (Command::Pause, State::Working) => Outcome {
            reply: Some(Reply::StateName(State::Paused)),
            effect: Effect::Enter(State::Paused),
        },
        (Command::Pause, State::Paused) => Outcome { reply: None, effect: Effect::Keep },
        (Command::Unpause, State::Working) => Outcome { reply: None, effect: Effect::Keep },
    }
}

/// The state a conversation reads as after `command`.
pub open spec fn next_state(command: Command, current: State, sender: Option<u64>, owner: u64) -> State {
    route_spec(command, current, sender, owner).effect.apply_spec(current)
}

/// The state a conversation reads as after `command` was sent `times` times in a row.
pub open spec fn state_after(
    command: Command,
    current: State,
    sender: Option<u64>,
    owner: u64,
    times: nat,
) -> State
    decreases times,
{
    if times == 0 {
        current
    } else {
        next_state(command, state_after(command, current, sender, owner, (times - 1) as nat), sender, owner)
    }
}

/// Routes one command of `sender` in a conversation whose state is `current`.
pub fn route(command: Command, current: State, sender: Option<u64>, owner: u64) -> (outcome: Outcome)
    ensures
        outcome == route_spec(command, current, sender, owner),
{
    match command {
        Command::Help => Outcome { reply: Some(Reply::CommandList), effect: Effect::Keep },
        Command::ShowState => Outcome { reply: Some(Reply::StateName(current)), effect: Effect::Keep },
        Command::Unpause => match current {
            State::Paused => {
                if is_owner(sender, owner) {
                    Outcome {
                        reply: Some(Reply::StateName(State::Working)),
                        effect: Effect::Enter(State::Working),
                    }
                } else {
                    Outcome { reply: Some(Reply::PermissionDenied), effect: Effect::Exit }
                }
            },
            State::Working => Outcome { reply: None, effect: Effect::Keep },
        },
        Command::Pause => match current {
            State::Working => Outcome {
                reply: Some(Reply::StateName(State::Paused)),
                effect: Effect::Enter(State::Paused),
            },
            State::Paused => Outcome { reply: None, effect: Effect::Keep },
        },
    }
}

/// Only the owner's `Unpause` sets a conversation working: whoever else sends it to a paused
/// conversation, and however often, the conversation stays paused.
pub proof fn law_unpause_needs_owner(sender: Option<u64>, owner: u64, times: nat)
    requires
        !is_owner_spec(sender, owner),
    ensures
        state_after(Command::Unpause, State::Paused, sender, owner, times) == State::Paused,
    decreases times,
{
    if times > 0 {
        law_unpause_needs_owner(sender, owner, (times - 1) as nat);
    }
}

/// A command sent twice in a row leaves the conversation where sending it once does.
pub proof fn law_command_idempotent(command: Command, current: State, sender: Option<u64>, owner: u64)
    ensures
        next_state(command, next_state(command, current, sender, owner), sender, owner) == next_state(
            command,
            current,
            sender,
            owner,
        ),
        state_after(command, current, sender, owner, 2) == state_after(command, current, sender, owner, 1),
{
    reveal_with_fuel(state_after, 3);
}

/// A command changes the state only where the table has a transition for it: `Unpause`
/// while paused, `Pause` while working.
pub proof fn law_state_changes_only_by_transition(
    command: Command,
    current: State,
    sender: Option<u64>,
    owner: u64,
)
    ensures
        next_state(command, current, sender, owner) != current ==> {
            ||| (command == Command::Unpause && current == State::Paused && is_owner_spec(sender, owner))
            ||| (command == Command::Pause && current == State::Working)
        },
{
}

} // verus!
