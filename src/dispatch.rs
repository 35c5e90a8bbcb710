//! Routing of interactions: who asked, in which community, and which handler
//! answers. Every shape the platform should not send is a named error.
use crate::error::Error;
use crate::text::str_eq;
use vstd::prelude::*;

verus! {

/// The kind of data an interaction carries.
#[derive(Clone, Copy, Debug, PartialEq, Eq, Structural)]
pub enum InteractionKind {
    ApplicationCommand,
    MessageComponent,
    ModalSubmit,
    Other,
}

/// The kind of an application command.
#[derive(Clone, Copy, Debug, PartialEq, Eq, Structural)]
pub enum CommandKind {
    /// Typed as a slash command.
    ChatInput,
    /// Picked from a user's context menu.
    User,
    /// Picked from a message's context menu.
    Message,
    Other,
}

/// The handler that answers an interaction.
#[derive(Clone, Copy, Debug, PartialEq, Eq, Structural)]
pub enum Route {
    /// Acknowledge and do nothing.
    Pong,
    /// An application command; see `process_app_cmd`.
    Command,
    /// A press of a leaderboard control.
    Component,
    /// A submitted jump dialog.
    Modal,
}

/// The handler of a slash command.
#[derive(Clone, Copy, Debug, PartialEq, Eq, Structural)]
pub enum SlashCommand {
    Rank,
    Leaderboard,
    Toy,
}

/// The handler of an application command.
#[derive(Clone, Copy, Debug, PartialEq, Eq, Structural)]
pub enum AppCommand {
    Slash(SlashCommand),
    /// A rank query about the user the menu was opened on.
    UserRank,
    /// A rank query about the author of the message the menu was opened on.
    MessageRank,
}

/// Who asked, where, and which handler answers.
#[derive(Clone, Copy, Debug, PartialEq, Eq, Structural)]
pub struct Dispatch {
    pub invoker: u64,
    pub guild: u64,
    pub route: Route,
}

/// The target of a context-menu command, once found.
#[derive(Clone, Copy, Debug, PartialEq, Eq, Structural)]
pub struct ResolvedTarget {
    /// The key of the target among the resolved entities.
    pub key: u64,
    pub guild: u64,
}

/// Routes an interaction, from the user that the platform names as its
/// invoker (as a member first, else as a user), its community and the kind of
/// data it carries.
pub fn process_interaction(invoker: Option<u64>, guild: Option<u64>, data: Option<InteractionKind>) -> (r: Result<Dispatch, Error>)
    ensures
        invoker is None ==> r == Err::<Dispatch, Error>(Error::NoInvoker),
        invoker is Some && guild is None ==> r == Err::<Dispatch, Error>(Error::NoGuildId),
        invoker is Some && guild is Some && data is None ==> r == Err::<Dispatch, Error>(
            Error::NoInteractionData,
        ),
        invoker is Some && guild is Some && data is Some ==> r == Ok::<Dispatch, Error>(
            Dispatch {
                invoker: invoker->0,
                guild: guild->0,
                route: match data->0 {
                    InteractionKind::ApplicationCommand => Route::Command,
                    InteractionKind::MessageComponent => Route::Component,
                    InteractionKind::ModalSubmit => Route::Modal,
                    InteractionKind::Other => Route::Pong,
                },
            },
        ),
{
    let invoker = match invoker {
        Some(i) => i,
        None => return Err(Error::NoInvoker),
    };
    let guild = match guild {
        Some(g) => g,
        None => return Err(Error::NoGuildId),
    };
    match data {
        None => Err(Error::NoInteractionData),
        Some(kind) => {
            let route = match kind {
                InteractionKind::ApplicationCommand => Route::Command,
                InteractionKind::MessageComponent => Route::Component,
                InteractionKind::ModalSubmit => Route::Modal,
                InteractionKind::Other => Route::Pong,
            };
            Ok(Dispatch { invoker, guild, route })
        },
    }
}

/// The slash command a name denotes, if any.
pub open spec fn slash_command_named(name: Seq<char>) -> Option<SlashCommand> {
    if name == "rank"@ {
        Some(SlashCommand::Rank)
    } else if name == "leaderboard"@ {
        Some(SlashCommand::Leaderboard)
    } else if name == "toy"@ {
        Some(SlashCommand::Toy)
    } else {
        None
    }
}

/// Routes a slash command by its name.
pub fn process_slash_cmd(name: &str) -> (r: Result<SlashCommand, Error>)
    ensures
        r == (match slash_command_named(name@) {
            Some(c) => Ok::<SlashCommand, Error>(c),
            None => Err(Error::UnrecognizedCommand),
        }),
{
    if str_eq(name, "rank") {
        Ok(SlashCommand::Rank)
    } else if str_eq(name, "leaderboard") {
        Ok(SlashCommand::Leaderboard)
    } else if str_eq(name, "toy") {
        Ok(SlashCommand::Toy)
    } else {
        Err(Error::UnrecognizedCommand)
    }
}

/// Routes an application command by its kind and name.
pub fn process_app_cmd(kind: CommandKind, name: &str) -> (r: Result<AppCommand, Error>)
    ensures
        kind == CommandKind::ChatInput ==> r == (match slash_command_named(name@) {
            Some(c) => Ok::<AppCommand, Error>(AppCommand::Slash(c)),
            None => Err(Error::UnrecognizedCommand),
        }),
        kind == CommandKind::User ==> r == Ok::<AppCommand, Error>(AppCommand::UserRank),
        kind == CommandKind::Message ==> r == Ok::<AppCommand, Error>(AppCommand::MessageRank),
        kind == CommandKind::Other ==> r == Err::<AppCommand, Error>(Error::WrongInteractionData),
{
    match kind {
        CommandKind::ChatInput => match process_slash_cmd(name) {
            Ok(c) => Ok(AppCommand::Slash(c)),
            Err(e) => Err(e),
        },
        CommandKind::User => Ok(AppCommand::UserRank),
        CommandKind::Message => Ok(AppCommand::MessageRank),
        CommandKind::Other => Err(Error::WrongInteractionData),
    }
}

/// The user a slash rank query is about: the one named, else the invoker.
pub fn rank_target(invoker: u64, named: Option<u64>) -> (r: u64)
    ensures
        r == (match named {
            Some(u) => u,
            None => invoker,
        }),
{
    match named {
        Some(u) => u,
        None => invoker,
    }
}

/// Finds the target of a context-menu command among the entities the
/// platform resolved for it, by the command's target identifier, and the
/// community the command was used in.
pub fn resolve_context_target(target_id: Option<u64>, resolved: Option<&Vec<u64>>, guild: Option<u64>) -> (r: Result<ResolvedTarget, Error>)
    ensures
        target_id is None ==> r == Err::<ResolvedTarget, Error>(Error::NoMessageTargetId),
        target_id is Some && resolved is None ==> r == Err::<ResolvedTarget, Error>(
            Error::NoResolvedData,
        ),
        target_id is Some ==> (resolved matches Some(keys) ==> (!keys@.contains(target_id->0)
            ==> r == Err::<ResolvedTarget, Error>(Error::NoTarget))),
        target_id is Some ==> (resolved matches Some(keys) ==> (keys@.contains(target_id->0)
            ==> r == (match guild {
            Some(g) => Ok::<ResolvedTarget, Error>(ResolvedTarget { key: target_id->0, guild: g }),
            None => Err(Error::NoGuildId),
        }))),
{
    let id = match target_id {
        Some(t) => t,
        None => return Err(Error::NoMessageTargetId),
    };
    let keys = match resolved {
        Some(k) => k,
        None => return Err(Error::NoResolvedData),
    };
    let mut i: usize = 0;
    let mut found = false;
    while i < keys.len()
        invariant
            i <= keys@.len(),
            found == (exists|j: int| 0 <= j < i && keys@[j] == id),
        decreases keys@.len() - i,
    {
        if keys[i] == id {
            found = true;
        }
        i = i + 1;
    }
    if !found {
        assert(!keys@.contains(id));
        return Err(Error::NoTarget);
    }
    assert(keys@.contains(id));
    match guild {
        Some(g) => Ok(ResolvedTarget { key: id, guild: g }),
        None => Err(Error::NoGuildId),
    }
}

} // verus!
