use rustcord::dispatch::{command_name_of, message_action, slash_command, MessageAction, SlashCommand};

#[test]
fn own_and_bot_messages_are_ignored() {
    assert_eq!(message_action(true, false, "!help"), MessageAction::Ignore);
    assert_eq!(message_action(false, true, "[[Lightning Bolt]]"), MessageAction::Ignore);
    assert_eq!(message_action(true, true, "hello"), MessageAction::Ignore);
}

#[test]
fn help_message_is_answered_with_help() {
    assert_eq!(message_action(false, false, "!help"), MessageAction::Help);
}

#[test]
fn other_messages_are_searched() {
    assert_eq!(message_action(false, false, "!help me"), MessageAction::SearchReferences);
    assert_eq!(message_action(false, false, "[[Lightning Bolt]]"), MessageAction::SearchReferences);
    assert_eq!(message_action(false, false, ""), MessageAction::SearchReferences);
}

#[test]
fn slash_commands_by_name() {
    assert_eq!(slash_command(false, "help"), Some(SlashCommand::Help));
    assert_eq!(slash_command(false, "search"), Some(SlashCommand::Search));
    assert_eq!(slash_command(false, "play"), Some(SlashCommand::Play));
    assert_eq!(slash_command(false, "guess"), Some(SlashCommand::Guess));
    assert_eq!(slash_command(false, "give_up"), Some(SlashCommand::GiveUp));
    assert_eq!(slash_command(false, "giveup"), None);
    assert_eq!(slash_command(false, "Play"), None);
}

#[test]
fn slash_commands_from_bots_are_ignored() {
    assert_eq!(slash_command(true, "help"), None);
    assert_eq!(slash_command(true, "play"), None);
}

#[test]
fn command_names_round_trip() {
    for c in [
        SlashCommand::Help,
        SlashCommand::Search,
        SlashCommand::Play,
        SlashCommand::Guess,
        SlashCommand::GiveUp,
    ] {
        assert_eq!(slash_command(false, command_name_of(c)), Some(c));
    }
}
