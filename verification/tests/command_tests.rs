use speech_relay::command::{
    command_names, dispatch, name_of, parse_command, Command, Dispatch, InteractionEvent,
};

#[test]
fn names_without_prefix() {
    assert_eq!(command_names(""), vec!["join", "leave", "skip", "speaker"]);
}

#[test]
fn names_carry_the_prefix() {
    assert_eq!(command_names("vv"), vec!["vvjoin", "vvleave", "vvskip", "vvspeaker"]);
    assert_eq!(name_of("dev-", Command::Speaker), "dev-speaker");
    assert_eq!(name_of("", Command::Join), "join");
}

#[test]
fn registered_names_are_found_again() {
    for prefix in ["", "vv", "s", "join", "スピーカー"] {
        for command in [Command::Join, Command::Leave, Command::Skip, Command::Speaker] {
            let name = name_of(prefix, command);
            assert_eq!(parse_command(prefix, &name), Some(command), "{:?}", name);
        }
    }
}

#[test]
fn other_names_are_unknown() {
    assert_eq!(parse_command("", "play"), None);
    assert_eq!(parse_command("", ""), None);
    assert_eq!(parse_command("", "Join"), None);
    assert_eq!(parse_command("", "join "), None);
    assert_eq!(parse_command("", "joi"), None);
}

#[test]
fn the_prefix_has_to_match() {
    assert_eq!(parse_command("vv", "join"), None);
    assert_eq!(parse_command("", "vvjoin"), None);
    assert_eq!(parse_command("vv", "vvjoin"), Some(Command::Join));
    assert_eq!(parse_command("vv", "vjoin"), None);
    assert_eq!(parse_command("vv", "vv"), None);
    assert_eq!(parse_command("s", "sskip"), Some(Command::Skip));
    assert_eq!(parse_command("s", "skip"), None);
}

#[test]
fn dispatch_runs_commands_by_name() {
    let event = InteractionEvent::Command { name: "xleave".to_string() };
    assert_eq!(dispatch("x", &event), Dispatch::Run(Command::Leave));
    let event = InteractionEvent::Command { name: "speaker".to_string() };
    assert_eq!(dispatch("", &event), Dispatch::Run(Command::Speaker));
}

#[test]
fn dispatch_reports_unknown_commands() {
    let event = InteractionEvent::Command { name: "leave".to_string() };
    assert_eq!(dispatch("x", &event), Dispatch::UnknownCommand);
}

#[test]
fn dispatch_of_a_menu_choice_updates_the_speaker() {
    assert_eq!(dispatch("x", &InteractionEvent::Component), Dispatch::UpdateSpeaker);
}

#[test]
fn dispatch_ignores_other_interactions() {
    assert_eq!(dispatch("x", &InteractionEvent::Other), Dispatch::Ignore);
}
