//! The commands the bot understands, their grammar and their help text.

use crate::scan::{
    bytes_eq, eq_ignore_ascii_case, eq_ignore_ascii_case_spec, head, lemma_span_is_first, split_once, tail, AT,
    SLASH, SPACE,
};
use teloxide::utils::command::{CommandDescription, CommandDescriptions};
use vstd::prelude::*;
use vstd::slice::slice_subrange;
use vstd::utf8::{encode_utf8, encode_utf8_decode_utf8};

verus! {

/// A command, as given in the first word of a text message.
#[derive(Clone, Copy, Debug, PartialEq, Eq, Structural)]
pub enum Command {
    /// Show the list of commands.
    Help,
    /// Show the conversation's current state.
    ShowState,
    /// Stop handling media.
    Pause,
    /// Start handling media; only the owner may.
    Unpause,
}

/// The text `CommandDescriptions` displays for a heading and a list of commands, each given
/// by its prefix, its name and its description.
pub uninterp spec fn rendered_descriptions(
    heading: Seq<char>,
    prefix: Seq<char>,
    names: Seq<Seq<char>>,
    descriptions: Seq<Seq<char>>,
) -> Seq<char>;

/// Renders a command list with teloxide's `CommandDescriptions`, through its `Display` impl.
///
/// The list is built with `CommandDescriptions::new` from one `CommandDescription` per pair of
/// a name and a description, none with aliases, and given `heading` as its global description.
/// The contract only names the text that comes out: it depends on these arguments alone.
#[verifier::external_body]
fn render_descriptions(
    heading: &str,
    prefix: &str,
    names: &Vec<&'static str>,
    descriptions: &Vec<&'static str>,
) -> (text: String)
    ensures
        text@ == rendered_descriptions(
            heading@,
            prefix@,
            names.deep_view(),
            descriptions.deep_view(),
        ),
{
    let entries: Vec<CommandDescription<'_>> = names
        .iter()
        .zip(descriptions.iter())
        .map(|(&command, &description)| CommandDescription { prefix, command, aliases: &[], description })
        .collect();
    CommandDescriptions::new(&entries).global_description(heading).to_string()
}

impl Command {
    /// All commands, in the order in which the help text lists them.
    pub open spec fn all_spec() -> Seq<Command> {
        seq![Command::Help, Command::ShowState, Command::Pause, Command::Unpause]
    }

    /// The word that follows the slash.
    pub open spec fn name_spec(self) -> Seq<char> {
        match self {
            Command::Help => "help"@,
            Command::ShowState => "state"@,
            Command::Pause => "pause"@,
            Command::Unpause => "unpause"@,
        }
    }

    /// What the help text says of the command.
    pub open spec fn description_spec(self) -> Seq<char> {
        match self {
            Command::Help => "display this text."@,
            Command::ShowState => "show the current state."@,
            Command::Pause => "pause the bot."@,
            Command::Unpause => "unpause the bot."@,
        }
    }

    /// The line above the list of commands in the help text.
    pub open spec fn heading_spec() -> Seq<char> {
        "These commands are supported:"@
    }

    /// The bytes a message's command token must equal: a slash and the name.
    pub open spec fn token(self) -> Seq<u8> {
        seq![SLASH] + encode_utf8(self.name_spec())
    }

    /// The command a token stands for.
    pub open spec fn from_token(token: Seq<u8>) -> Option<Command> {
        if token == Command::Help.token() {
            Some(Command::Help)
        } else if token == Command::ShowState.token() {
            Some(Command::ShowState)
        } else if token == Command::Pause.token() {
            Some(Command::Pause)
        } else if token == Command::Unpause.token() {
            Some(Command::Unpause)
        } else {
            None
        }
    }

    /// The command a message's text gives, if any.
    ///
    /// Only the first word counts: the text up to its first space. Within it, the token is
    /// what stands before the first `@`. What stands between the first `@` and the next, or
    /// the end of the word, names the bot addressed; if there is such a name it must be the
    /// bot's own, whatever the case of its ASCII letters. The token must be a command's
    /// token, byte for byte.
    pub open spec fn parse_spec(text: Seq<u8>, bot_name: Seq<u8>) -> Option<Command> {
        let word = head(text, SPACE);
        let addressed_to_us = match tail(word, AT) {
            Some(rest) => eq_ignore_ascii_case_spec(head(rest, AT), bot_name),
            None => true,
        };
        if addressed_to_us {
            Command::from_token(head(word, AT))
        } else {
            None
        }
    }

    /// The help text.
    pub open spec fn descriptions_spec() -> Seq<char> {
        rendered_descriptions(
            Command::heading_spec(),
            "/"@,
            Command::all_spec().map_values(|c: Command| c.name_spec()),
            Command::all_spec().map_values(|c: Command| c.description_spec()),
        )
    }

    /// All commands, in the order in which the help text lists them.
    pub fn all() -> (commands: Vec<Command>)
        ensures
            commands@ == Command::all_spec(),
    {
        let mut commands: Vec<Command> = Vec::new();
        commands.push(Command::Help);
        commands.push(Command::ShowState);
        commands.push(Command::Pause);
        commands.push(Command::Unpause);
        assert(commands@ =~= Command::all_spec());
        commands
    }

    /// The word that follows the slash.
    pub fn name(&self) -> (name: &'static str)
        ensures
            name@ == self.name_spec(),
    {
        match self {
            Command::Help => "help",
            Command::ShowState => "state",
            Command::Pause => "pause",
            Command::Unpause => "unpause",
        }
    }

    /// What the help text says of the command.
    pub fn description(&self) -> (description: &'static str)
        ensures
            description@ == self.description_spec(),
    {
        match self {
            Command::Help => "display this text.",
            Command::ShowState => "show the current state.",
            Command::Pause => "pause the bot.",
            Command::Unpause => "unpause the bot.",
        }
    }

    /// The help text: the heading and one line for each command.
    pub fn descriptions() -> (text: String)
        ensures
            text@ == Command::descriptions_spec(),
    {
        let commands = Command::all();
        let mut names: Vec<&'static str> = Vec::new();
        let mut descriptions: Vec<&'static str> = Vec::new();
        let mut i: usize = 0;
        while i < commands.len()
            invariant
                0 <= i <= commands.len(),
                names.len() == i,
                descriptions.len() == i,
                forall|j: int| 0 <= j < i ==> names@[j]@ == commands@[j].name_spec(),
                forall|j: int| 0 <= j < i ==> descriptions@[j]@ == commands@[j].description_spec(),
            decreases commands.len() - i,
        {
            names.push(commands[i].name());
            descriptions.push(commands[i].description());
            i += 1;
        }
        assert(names.deep_view() =~= Command::all_spec().map_values(|c: Command| c.name_spec()));
        assert(descriptions.deep_view() =~= Command::all_spec().map_values(
            |c: Command| c.description_spec(),
        ));
        render_descriptions("These commands are supported:", "/", &names, &descriptions)
    }

    /// Whether `token` is this command's token.
    pub fn is_token(&self, token: &[u8]) -> (same: bool)
        ensures
            same == (token@ == self.token()),
    {
        let name = self.name().as_bytes();
        if token.len() == 0 || token[0] != SLASH {
            return false;
        }
        let same = bytes_eq(slice_subrange(token, 1, token.len()), name);
        proof {
            let name_bytes = encode_utf8(self.name_spec());
            if same {
                assert(token@ =~= seq![SLASH] + name_bytes);
            } else {
                assert((seq![SLASH] + name_bytes).subrange(1, 1 + name_bytes.len() as int) =~= name_bytes);
            }
        }
        same
    }

    /// Reads a command off the bytes of a message's text.
    pub fn parse_bytes(text: &[u8], bot_name: &[u8]) -> (command: Option<Command>)
        ensures
            command == Command::parse_spec(text@, bot_name@),
    {
        let (word, _) = split_once(text, SPACE);
        let (token, rest) = split_once(word, AT);
        if let Some(rest) = rest {
            let (addressee, _) = split_once(rest, AT);
            if !eq_ignore_ascii_case(addressee, bot_name) {
                return None;
            }
        }
        if Command::Help.is_token(token) {
            Some(Command::Help)
        } else if Command::ShowState.is_token(token) {
            Some(Command::ShowState)
        } else if Command::Pause.is_token(token) {
            Some(Command::Pause)
        } else if Command::Unpause.is_token(token) {
            Some(Command::Unpause)
        } else {
            None
        }
    }

    /// Reads a command off a message's text; `bot_name` is the bot's own user name.
    pub fn parse(text: &str, bot_name: &str) -> (command: Option<Command>)
        ensures
            command == Command::parse_spec(encode_utf8(text@), encode_utf8(bot_name@)),
    {
        Command::parse_bytes(text.as_bytes(), bot_name.as_bytes())
    }
}

/// No two commands have the same name.
proof fn lemma_names_differ(a: Command, b: Command)
    requires
        a != b,
    ensures
        a.name_spec() != b.name_spec(),
{
    reveal_strlit("help");
    reveal_strlit("state");
    reveal_strlit("pause");
    reveal_strlit("unpause");
    if a.name_spec().len() == b.name_spec().len() {
        assert("state"@[0] != "pause"@[0]);
    }
}

/// Each command is the one its token stands for: no two commands share a token.
pub proof fn law_token_names_one_command(command: Command, other: Command)
    ensures
        Command::from_token(command.token()) == Some(command),
        other != command ==> other.token() != command.token(),
{
    assert forall|a: Command, b: Command| a != b implies a.token() != b.token() by {
        lemma_names_differ(a, b);
        encode_utf8_decode_utf8(a.name_spec());
        encode_utf8_decode_utf8(b.name_spec());
        if a.token() == b.token() {
            assert(a.token().skip(1) =~= encode_utf8(a.name_spec()));
            assert(b.token().skip(1) =~= encode_utf8(b.name_spec()));
        }
    }
}

/// A text gives a command only if it begins with the whole of that command's token and the
/// token ends there: at the end of the text, at a space or at an `@`. Nothing shorter and
/// nothing longer is taken for the command.
pub proof fn law_parse_needs_whole_token(text: Seq<u8>, bot_name: Seq<u8>, command: Command)
    requires
        Command::parse_spec(text, bot_name) == Some(command),
    ensures
        command.token().len() <= text.len(),
        text.take(command.token().len() as int) == command.token(),
        text.len() == command.token().len() || text[command.token().len() as int] == SPACE
            || text[command.token().len() as int] == AT,
{
    let word = head(text, SPACE);
    let token = head(word, AT);
    lemma_span_is_first(text, SPACE);
    lemma_span_is_first(word, AT);
    law_token_names_one_command(command, command);
    assert(token == command.token());
    assert(text.take(token.len() as int) =~= token);
}

} // verus!
