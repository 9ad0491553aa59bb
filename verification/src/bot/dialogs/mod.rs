//! The commands of the bot and the dialogs that they open.

use std::str::FromStr;
use vstd::prelude::*;

use crate::store::{DialogEntity, DialogView};
use crate::text::same_text;

pub use self::add::Add;
pub use self::feedback::Feedback;
pub use self::history::History;
pub use self::start::Start;

pub mod add;
pub mod feedback;
pub mod history;
pub mod start;

verus! {

/// A command of the bot.
#[derive(Debug, Clone, Copy, PartialEq, Eq, Structural)]
pub enum Command {
    Add,
    Start,
    Stop,
    Feedback,
    Help,
    History,
}

/// The literal that a user writes for `command`.
pub open spec fn command_text(command: Command) -> Seq<char> {
    match command {
        Command::Start => "/start"@,
        Command::Stop => "/stop"@,
        Command::Feedback => "/feedback"@,
        Command::Help => "/help"@,
        Command::Add => "/add"@,
        Command::History => "/history"@,
    }
}

/// The command that `input` is the literal of, if it is one. The match is
/// exact and case-sensitive.
pub open spec fn command_of(input: Seq<char>) -> Option<Command> {
    if input == "/start"@ {
        Some(Command::Start)
    } else if input == "/stop"@ {
        Some(Command::Stop)
    } else if input == "/feedback"@ {
        Some(Command::Feedback)
    } else if input == "/help"@ {
        Some(Command::Help)
    } else if input == "/add"@ {
        Some(Command::Add)
    } else if input == "/history"@ {
        Some(Command::History)
    } else {
        None
    }
}

/// Reading a command's literal gives the command back.
pub proof fn command_text_round_trip(command: Command)
    ensures
        command_of(command_text(command)) == Some(command),
{
    reveal_strlit("/start");
    reveal_strlit("/stop");
    reveal_strlit("/feedback");
    reveal_strlit("/help");
    reveal_strlit("/add");
    reveal_strlit("/history");
    assert("/start"@.len() == 6);
    assert("/stop"@.len() == 5);
    assert("/feedback"@.len() == 9);
    assert("/help"@.len() == 5);
    assert("/add"@.len() == 4);
    assert("/history"@.len() == 8);
    assert("/stop"@[1] == 's');
    assert("/help"@[1] == 'h');
}

impl Command {
    /// The literal of the command.
    pub fn to_string(&self) -> (r: String)
        ensures
            r@ == command_text(*self),
    {
        self.as_str().to_owned()
    }

    /// The literal of the command.
    pub fn as_str(&self) -> (r: &'static str)
        ensures
            r@ == command_text(*self),
    {
        match self {
            Command::Start => "/start",
            Command::Stop => "/stop",
            Command::Feedback => "/feedback",
            Command::Help => "/help",
            Command::Add => "/add",
            Command::History => "/history",
        }
    }

    /// Reads a command's literal.
    pub fn parse(input: &str) -> (r: Option<Command>)
        ensures
            r == command_of(input@),
    {
        if same_text(input, "/start") {
            Some(Command::Start)
        } else if same_text(input, "/stop") {
            Some(Command::Stop)
        } else if same_text(input, "/feedback") {
            Some(Command::Feedback)
        } else if same_text(input, "/help") {
            Some(Command::Help)
        } else if same_text(input, "/add") {
            Some(Command::Add)
        } else if same_text(input, "/history") {
            Some(Command::History)
        } else {
            None
        }
    }
}

impl FromStr for Command {
    type Err = ();

    fn from_str(input: &str) -> (r: Result<Command, Self::Err>)
        ensures
            r == match command_of(input@) {
                Some(command) => Ok::<Command, ()>(command),
                None => Err(()),
            },
    {
        match Command::parse(input) {
            Some(command) => Ok(command),
            None => Err(()),
        }
    }
}

/// A step of a dialog, as it is named in a persisted dialog.
pub trait Step: Sized + Copy {
    /// The name of the step.
    spec fn name(self) -> Seq<char>;

    /// The step that `name` names, if it names one.
    spec fn named(name: Seq<char>) -> Option<Self>;

    /// Reads the name of a step.
    fn parse(name: &str) -> (r: Option<Self>)
        ensures
            r == Self::named(name@),
    ;

    /// The name of the step.
    fn to_string(&self) -> (r: String)
        ensures
            r@ == self.name(),
    ;
}

/// A dialog of one command: the command and the step that the user is at.
/// No step stands for the dialog's first step.
#[derive(Debug, Clone, PartialEq)]
pub struct Dialog<T> {
    pub command: Command,
    pub current_step: Option<T>,
}

/// The step that an optional name stands for: no name stands for the
/// dialog's first step, and a name stands for the step that it names. There
/// is none for a name that names no step.
pub open spec fn step_of<T: Step>(name: Option<Seq<char>>) -> Option<Option<T>> {
    match name {
        None => Some(None),
        Some(n) => match T::named(n) {
            Some(step) => Some(Some(step)),
            None => None,
        },
    }
}

/// The dialog that a persisted dialog stands for. There is none where its
/// command is none, or where its step names no step.
pub open spec fn dialog_of_entity<T: Step>(dialog: DialogView) -> Option<Dialog<T>> {
    match (command_of(dialog.command), step_of::<T>(dialog.step)) {
        (Some(command), Some(step)) => Some(Dialog { command: command, current_step: step }),
        _ => None,
    }
}

/// The persisted form of the dialog of `command` at `step`.
pub open spec fn entity_of<T: Step>(command: Command, step: T) -> DialogView {
    DialogView { command: command_text(command), step: Some(step.name()) }
}

impl<T: Step> Dialog<T> {
    /// Reads a persisted dialog. A dialog without a step stands at its first
    /// step. A command that is none, or a step's name that names no step, is
    /// refused: the persisted dialog is corrupt.
    pub fn from_entity(dialog: &DialogEntity) -> (r: Option<Dialog<T>>)
        ensures
            r == dialog_of_entity::<T>(dialog@),
    {
        match Command::parse(dialog.command.as_str()) {
            Some(command) => match &dialog.step {
                Some(value) => match T::parse(value.as_str()) {
                    Some(step) => Some(Dialog { command, current_step: Some(step) }),
                    None => None,
                },
                None => Some(Dialog { command, current_step: None }),
            },
            None => None,
        }
    }

    /// The persisted form of `command` at `step`.
    pub fn entity(command: Command, step: T) -> (r: DialogEntity)
        ensures
            r@ == entity_of(command, step),
    {
        DialogEntity { command: command.to_string(), step: Some(step.to_string()) }
    }
}

} // verus!
