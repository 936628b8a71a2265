//! What the bot does with an incoming message or slash command.
use vstd::prelude::*;
use crate::text::str_eq;

verus! {

/// What is done with a chat message.
#[derive(Clone, Copy, Debug, PartialEq, Eq, Structural)]
pub enum MessageAction {
    /// The bot's own messages and those of other bots are not answered.
    Ignore,
    /// `!help` is answered with the instructions.
    Help,
    /// Any other message is searched for card references.
    SearchReferences,
}

/// The action for a message by its author and its text.
pub fn message_action(from_self: bool, from_bot: bool, content: &str) -> (r: MessageAction)
    ensures
        r == (if from_self || from_bot {
            MessageAction::Ignore
        } else if content@ == "!help"@ {
            MessageAction::Help
        } else {
            MessageAction::SearchReferences
        }),
{
    if from_self || from_bot {
        MessageAction::Ignore
    } else if str_eq(content, "!help") {
        MessageAction::Help
    } else {
        MessageAction::SearchReferences
    }
}

/// The slash commands of the bot.
#[derive(Clone, Copy, Debug, PartialEq, Eq, Structural)]
pub enum SlashCommand {
    Help,
    Search,
    Play,
    Guess,
    GiveUp,
}

/// The name a command is registered and called by.
pub open spec fn command_name(c: SlashCommand) -> Seq<char> {
    match c {
        SlashCommand::Help => "help"@,
        SlashCommand::Search => "search"@,
        SlashCommand::Play => "play"@,
        SlashCommand::Guess => "guess"@,
        SlashCommand::GiveUp => "give_up"@,
    }
}

/// The command called by `name`; commands of other bots' users are not
/// answered, nor unknown names.
pub fn slash_command(from_bot: bool, name: &str) -> (r: Option<SlashCommand>)
    ensures
        from_bot ==> r is None,
        !from_bot ==> r == (if name@ == "help"@ {
            Some(SlashCommand::Help)
        } else if name@ == "search"@ {
            Some(SlashCommand::Search)
        } else if name@ == "play"@ {
            Some(SlashCommand::Play)
        } else if name@ == "guess"@ {
            Some(SlashCommand::Guess)
        } else if name@ == "give_up"@ {
            Some(SlashCommand::GiveUp)
        } else {
            None
        }),
{
    if from_bot {
        None
    } else if str_eq(name, "help") {
        Some(SlashCommand::Help)
    } else if str_eq(name, "search") {
        Some(SlashCommand::Search)
    } else if str_eq(name, "play") {
        Some(SlashCommand::Play)
    } else if str_eq(name, "guess") {
        Some(SlashCommand::Guess)
    } else if str_eq(name, "give_up") {
        Some(SlashCommand::GiveUp)
    } else {
        None
    }
}

/// The name of a command.
pub fn command_name_of(c: SlashCommand) -> (r: &'static str)
    ensures
        r@ == command_name(c),
{
    match c {
        SlashCommand::Help => "help",
        SlashCommand::Search => "search",
        SlashCommand::Play => "play",
        SlashCommand::Guess => "guess",
        SlashCommand::GiveUp => "give_up",
    }
}

/// Every command is found again by its own name.
pub proof fn lemma_command_round_trip(c: SlashCommand)
    ensures
        ({
            let n = command_name(c);
            (if n == "help"@ {
                Some(SlashCommand::Help)
            } else if n == "search"@ {
                Some(SlashCommand::Search)
            } else if n == "play"@ {
                Some(SlashCommand::Play)
            } else if n == "guess"@ {
                Some(SlashCommand::Guess)
            } else if n == "give_up"@ {
                Some(SlashCommand::GiveUp)
            } else {
                None
            }) == Some(c)
        }),
{
    reveal_strlit("help");
    reveal_strlit("search");
    reveal_strlit("play");
    reveal_strlit("guess");
    reveal_strlit("give_up");
    assert("help"@.len() == 4 && "search"@.len() == 6 && "play"@.len() == 4);
    assert("guess"@.len() == 5 && "give_up"@.len() == 7);
    assert("help"@[0] == 'h' && "play"@[0] == 'p');
}

} // verus!
