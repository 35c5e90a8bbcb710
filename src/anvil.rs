//! The `anvil` administration command: parsing its subcommand tree into a
//! role-reward change, and the replies to each change.
use crate::text::{decimal, push_decimal, signed_decimal, str_eq};
use vstd::prelude::*;

verus! {

/// The value of a command argument.
#[derive(Clone, Copy, Debug, PartialEq, Eq, Structural)]
pub enum ArgValue {
    Integer(i64),
    Role(u64),
    Other,
}

/// A named command argument.
pub struct Arg {
    pub name: String,
    pub value: ArgValue,
}

/// An option inside a subcommand group.
pub enum SubOption {
    SubCommand { name: String, args: Vec<Arg> },
    Other,
}

/// A top-level option of the command.
pub enum TopOption {
    Group { name: String, subs: Vec<SubOption> },
    Other,
}

/// The arguments the reward commands ask for.
#[derive(Clone, Copy, Debug, PartialEq, Eq, Structural)]
pub enum ArgName {
    Requirement,
    Role,
}

/// A malformed administration command.
#[derive(Clone, Copy, Debug, PartialEq, Eq, Structural)]
pub enum Error {
    InvalidSubcommand,
    UnknownSubcommand,
    MissingRequiredArgument(ArgName),
    WrongArgumentType(ArgName),
    MissingGuildId,
    WrongArgumentCount,
}

/// A role-reward change, or the listing of the community's rewards.
#[derive(Clone, Copy, Debug, PartialEq, Eq, Structural)]
pub enum RewardCommand {
    Add { guild: u64, requirement: i64, role: u64 },
    RemoveRole { guild: u64, role: u64 },
    RemoveLevel { guild: u64, level: i64 },
    List { guild: u64 },
}

/// The value of the last argument called `name`: later ones replace earlier.
pub open spec fn arg_named(args: Seq<(Seq<char>, ArgValue)>, name: Seq<char>) -> Option<ArgValue>
    decreases args.len(),
{
    if args.len() == 0 {
        None
    } else if args.last().0 == name {
        Some(args.last().1)
    } else {
        arg_named(args.drop_last(), name)
    }
}

/// The arguments as names and values.
pub open spec fn args_view(args: Seq<Arg>) -> Seq<(Seq<char>, ArgValue)> {
    args.map_values(|a: Arg| (a.name@, a.value))
}

pub open spec fn arg_name_text(n: ArgName) -> Seq<char> {
    match n {
        ArgName::Requirement => "requirement"@,
        ArgName::Role => "role"@,
    }
}

/// What the `add` subcommand asks for.
pub open spec fn add_command(guild: u64, args: Seq<(Seq<char>, ArgValue)>) -> Result<RewardCommand, Error> {
    match arg_named(args, "requirement"@) {
        None => Err(Error::MissingRequiredArgument(ArgName::Requirement)),
        Some(ArgValue::Integer(requirement)) => match arg_named(args, "role"@) {
            None => Err(Error::MissingRequiredArgument(ArgName::Role)),
            Some(ArgValue::Role(role)) => Ok(RewardCommand::Add { guild, requirement, role }),
            Some(_) => Err(Error::WrongArgumentType(ArgName::Role)),
        },
        Some(_) => Err(Error::WrongArgumentType(ArgName::Requirement)),
    }
}

/// What the `remove` subcommand asks for: a role, else a level.
pub open spec fn remove_command(guild: u64, args: Seq<(Seq<char>, ArgValue)>) -> Result<RewardCommand, Error> {
    match arg_named(args, "role"@) {
        Some(ArgValue::Role(role)) => Ok(RewardCommand::RemoveRole { guild, role }),
        _ => match arg_named(args, "level"@) {
            Some(ArgValue::Integer(level)) => Ok(RewardCommand::RemoveLevel { guild, level }),
            _ => Err(Error::WrongArgumentCount),
        },
    }
}

/// What a `rewards` subcommand asks for.
pub open spec fn rewards_command(guild: u64, name: Seq<char>, args: Seq<(Seq<char>, ArgValue)>) -> Result<RewardCommand, Error> {
    if name == "add"@ {
        add_command(guild, args)
    } else if name == "remove"@ {
        remove_command(guild, args)
    } else if name == "list"@ {
        Ok(RewardCommand::List { guild })
    } else {
        Err(Error::UnknownSubcommand)
    }
}

/// The index of the first subcommand among `subs`, if any.
pub open spec fn first_subcommand(subs: Seq<SubOption>) -> Option<int> {
    if exists|i: int| 0 <= i < subs.len() && subs[i] is SubCommand {
        Some(choose|i: int| 0 <= i < subs.len() && subs[i] is SubCommand && forall|j: int| 0 <= j < i ==> !(subs[j] is SubCommand))
    } else {
        None
    }
}

/// What the options of the `rewards` group ask for: the first subcommand
/// decides.
pub open spec fn rewards_group_command(guild: u64, subs: Seq<SubOption>) -> Result<RewardCommand, Error> {
    match first_subcommand(subs) {
        Some(i) => match subs[i] {
            SubOption::SubCommand { name, args } => rewards_command(guild, name@, args_view(args@)),
            SubOption::Other => Err(Error::InvalidSubcommand),
        },
        None => Err(Error::InvalidSubcommand),
    }
}

/// Looks up the last argument called `name`.
fn find_arg(args: &Vec<Arg>, name: &str) -> (r: Option<ArgValue>)
    ensures
        r == arg_named(args_view(args@), name@),
{
    let mut i: usize = args.len();
    assert(args@.subrange(0, i as int) == args@);
    while i > 0
        invariant
            i <= args@.len(),
            arg_named(args_view(args@), name@) == arg_named(args_view(args@.subrange(0, i as int)), name@),
        decreases i,
    {
        let a = &args[i - 1];
        proof {
            let pre = args@.subrange(0, i as int);
            assert(args_view(pre).drop_last() == args_view(args@.subrange(0, i - 1)));
            assert(args_view(pre).last() == (a.name@, a.value));
        }
        if str_eq(a.name.as_str(), name) {
            return Some(a.value);
        }
        i = i - 1;
    }
    proof {
        assert(args_view(args@.subrange(0, 0)).len() == 0);
    }
    None
}

/// Parses the `add` subcommand.
pub fn process_rewards_add(guild: u64, args: &Vec<Arg>) -> (r: Result<RewardCommand, Error>)
    ensures
        r == add_command(guild, args_view(args@)),
{
    let requirement = match find_arg(args, "requirement") {
        None => return Err(Error::MissingRequiredArgument(ArgName::Requirement)),
        Some(ArgValue::Integer(n)) => n,
        Some(_) => return Err(Error::WrongArgumentType(ArgName::Requirement)),
    };
    match find_arg(args, "role") {
        None => Err(Error::MissingRequiredArgument(ArgName::Role)),
        Some(ArgValue::Role(role)) => Ok(RewardCommand::Add { guild, requirement, role }),
        Some(_) => Err(Error::WrongArgumentType(ArgName::Role)),
    }
}

/// Parses the `remove` subcommand.
pub fn process_rewards_rm(guild: u64, args: &Vec<Arg>) -> (r: Result<RewardCommand, Error>)
    ensures
        r == remove_command(guild, args_view(args@)),
{
    if let Some(ArgValue::Role(role)) = find_arg(args, "role") {
        return Ok(RewardCommand::RemoveRole { guild, role });
    }
    match find_arg(args, "level") {
        Some(ArgValue::Integer(level)) => Ok(RewardCommand::RemoveLevel { guild, level }),
        _ => Err(Error::WrongArgumentCount),
    }
}

/// Parses the options of the `rewards` group: the first subcommand decides.
pub fn process_rewards(guild: u64, subs: &Vec<SubOption>) -> (r: Result<RewardCommand, Error>)
    ensures
        r == rewards_group_command(guild, subs@),
{
    let mut i: usize = 0;
    while i < subs.len()
        invariant
            i <= subs@.len(),
            forall|j: int| 0 <= j < i ==> !(subs@[j] is SubCommand),
        decreases subs@.len() - i,
    {
        if let SubOption::SubCommand { name, args } = &subs[i] {
            proof {
                let k = first_subcommand(subs@)->0;
                assert(subs@[i as int] is SubCommand);
                assert(k == i);
            }
            if str_eq(name.as_str(), "add") {
                return process_rewards_add(guild, args);
            } else if str_eq(name.as_str(), "remove") {
                return process_rewards_rm(guild, args);
            } else if str_eq(name.as_str(), "list") {
                return Ok(RewardCommand::List { guild });
            } else {
                return Err(Error::UnknownSubcommand);
            }
        }
        i = i + 1;
    }
    Err(Error::InvalidSubcommand)
}

/// The index of the first subcommand group among `options`, if any.
pub open spec fn first_group(options: Seq<TopOption>) -> Option<int> {
    if exists|i: int| 0 <= i < options.len() && options[i] is Group {
        Some(choose|i: int| 0 <= i < options.len() && options[i] is Group && forall|j: int| 0 <= j < i ==> !(options[j] is Group))
    } else {
        None
    }
}

/// What an `anvil` command used in `guild` asks for.
pub open spec fn anvil_command(guild: Option<u64>, options: Seq<TopOption>) -> Result<RewardCommand, Error> {
    match guild {
        None => Err(Error::MissingGuildId),
        Some(g) => match first_group(options) {
            Some(i) => match options[i] {
                TopOption::Group { name, subs } => if name@ == "rewards"@ {
                    rewards_group_command(g, subs@)
                } else {
                    Err(Error::UnknownSubcommand)
                },
                TopOption::Other => Err(Error::InvalidSubcommand),
            },
            None => Err(Error::InvalidSubcommand),
        },
    }
}

/// Parses an `anvil` command used in `guild`: the first subcommand group
/// decides, and only `rewards` is known.
pub fn process_anvil(guild: Option<u64>, options: &Vec<TopOption>) -> (r: Result<RewardCommand, Error>)
    ensures
        r == anvil_command(guild, options@),
{
    let g = match guild {
        Some(g) => g,
        None => return Err(Error::MissingGuildId),
    };
    let mut i: usize = 0;
    while i < options.len()
        invariant
            i <= options@.len(),
            forall|j: int| 0 <= j < i ==> !(options@[j] is Group),
            guild == Some(g),
        decreases options@.len() - i,
    {
        if let TopOption::Group { name, subs } = &options[i] {
            proof {
                let k = first_group(options@)->0;
                assert(options@[i as int] is Group);
                assert(k == i);
            }
            if str_eq(name.as_str(), "rewards") {
                return process_rewards(g, subs);
            } else {
                return Err(Error::UnknownSubcommand);
            }
        }
        i = i + 1;
    }
    Err(Error::InvalidSubcommand)
}

/// The reply to a reward change; a listing is answered by
/// `process_rewards_list`.
pub open spec fn change_reply_of(cmd: RewardCommand) -> Seq<char> {
    match cmd {
        RewardCommand::Add { requirement, role, .. } => "Added role reward <@"@ + decimal(
            role as nat,
        ) + "> at level "@ + signed_decimal(requirement as int) + "!"@,
        RewardCommand::RemoveRole { role, .. } => "Removed role reward <@"@ + decimal(role as nat)
            + ">!"@,
        RewardCommand::RemoveLevel { level, .. } => "Removed role reward for level "@
            + signed_decimal(level as int) + "!"@,
        RewardCommand::List { .. } => Seq::empty(),
    }
}

/// Appends the decimal notation of a signed number.
fn push_signed(s: &mut String, n: i64)
    ensures
        final(s)@ == old(s)@ + signed_decimal(n as int),
{
    let d = crate::text::i64_to_decimal(n);
    s.append(d.as_str());
}

/// The reply to a reward change.
pub fn change_reply(cmd: RewardCommand) -> (r: String)
    ensures
        r@ == change_reply_of(cmd),
{
    match cmd {
        RewardCommand::Add { requirement, role, .. } => {
            let mut m = String::from_str("Added role reward <@");
            push_decimal(&mut m, role);
            m.append("> at level ");
            push_signed(&mut m, requirement);
            m.append("!");
            m
        },
        RewardCommand::RemoveRole { role, .. } => {
            let mut m = String::from_str("Removed role reward <@");
            push_decimal(&mut m, role);
            m.append(">!");
            m
        },
        RewardCommand::RemoveLevel { level, .. } => {
            let mut m = String::from_str("Removed role reward for level ");
            push_signed(&mut m, level);
            m.append("!");
            m
        },
        RewardCommand::List { .. } => String::new(),
    }
}

/// One line per reward of the listing, as (role, level) pairs.
pub open spec fn reward_list_of(rows: Seq<(u64, i64)>) -> Seq<char>
    decreases rows.len(),
{
    if rows.len() == 0 {
        Seq::empty()
    } else {
        reward_list_of(rows.drop_last()) + "Role reward <@&"@ + decimal(rows.last().0 as nat)
            + "> at level "@ + signed_decimal(rows.last().1 as int) + "\n"@
    }
}

/// Lists the rewards of a community, given as (role, level) pairs.
pub fn process_rewards_list(rows: &Vec<(u64, i64)>) -> (r: String)
    ensures
        r@ == reward_list_of(rows@),
{
    let mut m = String::new();
    let mut i: usize = 0;
    while i < rows.len()
        invariant
            i <= rows@.len(),
            m@ == reward_list_of(rows@.subrange(0, i as int)),
        decreases rows@.len() - i,
    {
        let (role, level) = rows[i];
        m.append("Role reward <@&");
        push_decimal(&mut m, role);
        m.append("> at level ");
        push_signed(&mut m, level);
        m.append("\n");
        proof {
            let done = rows@.subrange(0, i + 1);
            assert(done.drop_last() == rows@.subrange(0, i as int));
            assert(done.last() == (role, level));
        }
        i = i + 1;
    }
    assert(rows@.subrange(0, rows@.len() as int) == rows@);
    m
}

/// The text shown to the administrator for an error.
pub open spec fn anvil_error_text(e: Error) -> Seq<char> {
    match e {
        Error::InvalidSubcommand => "Discord sent an invalid subcommand!"@,
        Error::UnknownSubcommand => "Discord sent an unknown subcommand!"@,
        Error::MissingRequiredArgument(ArgName::Requirement) => "Discord did not send required argument requirement!"@,
        Error::MissingRequiredArgument(ArgName::Role) => "Discord did not send required argument role!"@,
        Error::WrongArgumentType(ArgName::Requirement) => "Discord sent wrong type for required argument requirement!"@,
        Error::WrongArgumentType(ArgName::Role) => "Discord sent wrong type for required argument role!"@,
        Error::MissingGuildId => "Discord did not send a guild ID!"@,
        Error::WrongArgumentCount => "Command had wrong number of arguments: `/anvil rewards remove` requires either a level or a role!!"@,
    }
}

impl Error {
    /// The text shown to the administrator for this error.
    pub fn message(&self) -> (r: &'static str)
        ensures
            r@ == anvil_error_text(*self),
    {
        match self {
            Error::InvalidSubcommand => "Discord sent an invalid subcommand!",
            Error::UnknownSubcommand => "Discord sent an unknown subcommand!",
            Error::MissingRequiredArgument(ArgName::Requirement) => "Discord did not send required argument requirement!",
            Error::MissingRequiredArgument(ArgName::Role) => "Discord did not send required argument role!",
            Error::WrongArgumentType(ArgName::Requirement) => "Discord sent wrong type for required argument requirement!",
            Error::WrongArgumentType(ArgName::Role) => "Discord sent wrong type for required argument role!",
            Error::MissingGuildId => "Discord did not send a guild ID!",
            Error::WrongArgumentCount => "Command had wrong number of arguments: `/anvil rewards remove` requires either a level or a role!!",
        }
    }
}

} // verus!
