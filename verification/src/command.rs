use vstd::prelude::*;
use vstd::string::StringExecFns;

verus! {

broadcast use vstd::string::group_string_axioms;

/// The commands that the relay offers.
#[derive(Clone, Copy, Debug, PartialEq, Eq, Structural)]
pub enum Command {
    Join,
    Leave,
    Skip,
    Speaker,
}

/// What an inbound interaction is, as far as its handling depends on it.
#[derive(Clone, Debug, PartialEq, Eq)]
pub enum InteractionEvent {
    /// A command was invoked under the name `name`.
    Command { name: String },
    /// A choice was made in the menu that the `speaker` command shows.
    Component,
    /// Any other interaction.
    Other,
}

/// [`InteractionEvent`] as a mathematical value.
pub enum InteractionModel {
    Command { name: Seq<char> },
    Component,
    Other,
}

impl View for InteractionEvent {
    type V = InteractionModel;

    open spec fn view(&self) -> InteractionModel {
        match self {
            InteractionEvent::Command { name } => InteractionModel::Command { name: name@ },
            InteractionEvent::Component => InteractionModel::Component,
            InteractionEvent::Other => InteractionModel::Other,
        }
    }
}

/// What is to be done about an interaction.
#[derive(Clone, Copy, Debug, PartialEq, Eq, Structural)]
pub enum Dispatch {
    /// Run this command.
    Run(Command),
    /// Store the speaker that was picked in the menu.
    UpdateSpeaker,
    /// A command under a name that the relay did not register.
    UnknownCommand,
    /// Nothing to do.
    Ignore,
}

/// The word of a command, before the deployment's prefix is put in front.
pub open spec fn command_word(command: Command) -> Seq<char> {
    match command {
        Command::Join => "join"@,
        Command::Leave => "leave"@,
        Command::Skip => "skip"@,
        Command::Speaker => "speaker"@,
    }
}

/// The name under which a deployment with the prefix `prefix` registers
/// `command`.
pub open spec fn command_name(prefix: Seq<char>, command: Command) -> Seq<char> {
    prefix + command_word(command)
}

/// The command that a deployment with the prefix `prefix` registered under
/// `name`, if any.
pub open spec fn named_command(prefix: Seq<char>, name: Seq<char>) -> Option<Command> {
    if name == command_name(prefix, Command::Speaker) {
        Some(Command::Speaker)
    } else if name == command_name(prefix, Command::Join) {
        Some(Command::Join)
    } else if name == command_name(prefix, Command::Leave) {
        Some(Command::Leave)
    } else if name == command_name(prefix, Command::Skip) {
        Some(Command::Skip)
    } else {
        None
    }
}

/// What is to be done about `interaction` in a deployment with the prefix
/// `prefix`.
pub open spec fn dispatch_of(prefix: Seq<char>, interaction: InteractionModel) -> Dispatch {
    match interaction {
        InteractionModel::Command { name } => match named_command(prefix, name) {
            Some(command) => Dispatch::Run(command),
            None => Dispatch::UnknownCommand,
        },
        InteractionModel::Component => Dispatch::UpdateSpeaker,
        InteractionModel::Other => Dispatch::Ignore,
    }
}

fn word_of(command: Command) -> (word: &'static str)
    ensures
        word@ == command_word(command),
{
    match command {
        Command::Join => "join",
        Command::Leave => "leave",
        Command::Skip => "skip",
        Command::Speaker => "speaker",
    }
}

/// The name under which `command` is registered.
pub fn name_of(prefix: &str, command: Command) -> (name: String)
    ensures
        name@ == command_name(prefix@, command),
{
    let mut name = String::from_str(prefix);
    name.append(word_of(command));
    name
}

/// The names to register, in the order in which they are registered: join,
/// leave, skip, speaker.
pub fn command_names(prefix: &str) -> (names: Vec<String>)
    ensures
        names@.len() == 4,
        names@[0]@ == command_name(prefix@, Command::Join),
        names@[1]@ == command_name(prefix@, Command::Leave),
        names@[2]@ == command_name(prefix@, Command::Skip),
        names@[3]@ == command_name(prefix@, Command::Speaker),
{
    let mut names: Vec<String> = Vec::new();
    names.push(name_of(prefix, Command::Join));
    names.push(name_of(prefix, Command::Leave));
    names.push(name_of(prefix, Command::Skip));
    names.push(name_of(prefix, Command::Speaker));
    names
}

fn is_named(prefix: &str, name: &String, command: Command) -> (same: bool)
    ensures
        same == (name@ == command_name(prefix@, command)),
{
    let candidate = name_of(prefix, command);
    candidate == *name
}

/// The command that was registered under `name`, if any.
pub fn parse_command(prefix: &str, name: &str) -> (command: Option<Command>)
    ensures
        command == named_command(prefix@, name@),
{
    let name = String::from_str(name);
    if is_named(prefix, &name, Command::Speaker) {
        Some(Command::Speaker)
    } else if is_named(prefix, &name, Command::Join) {
        Some(Command::Join)
    } else if is_named(prefix, &name, Command::Leave) {
        Some(Command::Leave)
    } else if is_named(prefix, &name, Command::Skip) {
        Some(Command::Skip)
    } else {
        None
    }
}

/// Decides what is to be done about an interaction.
pub fn dispatch(prefix: &str, interaction: &InteractionEvent) -> (decision: Dispatch)
    ensures
        decision == dispatch_of(prefix@, interaction@),
{
    match interaction {
        InteractionEvent::Command { name } => match parse_command(prefix, name.as_str()) {
            Some(command) => Dispatch::Run(command),
            None => Dispatch::UnknownCommand,
        },
        InteractionEvent::Component => Dispatch::UpdateSpeaker,
        InteractionEvent::Other => Dispatch::Ignore,
    }
}

/// No two commands share a word.
pub proof fn lemma_words_differ(a: Command, b: Command)
    requires
        a != b,
    ensures
        command_word(a) != command_word(b),
{
    reveal_strlit("join");
    reveal_strlit("leave");
    reveal_strlit("skip");
    reveal_strlit("speaker");
    assert(command_word(Command::Join)[0] == 'j');
    assert(command_word(Command::Skip)[0] == 's');
    assert(command_word(a).len() != command_word(b).len() || command_word(a)[0] != command_word(
        b,
    )[0]);
}

/// Every command is found again under the name that it was registered
/// with, whatever the prefix, and no two commands share a name.
pub proof fn law_registered_name_dispatches(prefix: Seq<char>, command: Command)
    ensures
        named_command(prefix, command_name(prefix, command)) == Some(command),
        dispatch_of(prefix, InteractionModel::Command { name: command_name(prefix, command) })
            == Dispatch::Run(command),
{
    assert forall|other: Command| other != command implies command_name(prefix, other)
        != command_name(prefix, command) by {
        lemma_words_differ(other, command);
        let a = command_name(prefix, other);
        let b = command_name(prefix, command);
        if a == b {
            assert(command_word(other) =~= a.skip(prefix.len() as int));
            assert(command_word(command) =~= b.skip(prefix.len() as int));
        }
    }
}

} // verus!
