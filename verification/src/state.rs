use vstd::prelude::*;

verus! {

/// The mode of one conversation.
///
/// A conversation that has never been seen is `Paused`.
#[derive(Clone, Copy, Debug, PartialEq, Eq, Structural)]
pub enum State {
    Paused,
    Working,
}

impl Default for State {
    fn default() -> (state: Self)
        ensures
            state == State::Paused,
    {
        State::Paused
    }
}

impl State {
    /// The name under which the state is shown to the user.
    pub open spec fn name_spec(self) -> Seq<char> {
        match self {
            State::Paused => "Paused"@,
            State::Working => "Working"@,
        }
    }

    /// The state's name as text.
    pub fn name(&self) -> (text: String)
        ensures
            text@ == self.name_spec(),
    {
        match self {
            State::Paused => "Paused".to_owned(),
            State::Working => "Working".to_owned(),
        }
    }
}

} // verus!
