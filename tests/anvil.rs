use minixpd::anvil::{
    change_reply, process_anvil, process_rewards_list, Arg, ArgName, ArgValue, Error,
    RewardCommand, SubOption, TopOption,
};

fn arg(name: &str, value: ArgValue) -> Arg {
    Arg { name: name.to_string(), value }
}

fn rewards(sub: &str, args: Vec<Arg>) -> Vec<TopOption> {
    vec![TopOption::Group {
        name: "rewards".to_string(),
        subs: vec![SubOption::SubCommand { name: sub.to_string(), args }],
    }]
}

#[test]
fn add_reward_parses() {
    let opts = rewards("add", vec![arg("requirement", ArgValue::Integer(5)), arg("role", ArgValue::Role(77))]);
    let cmd = process_anvil(Some(1), &opts).unwrap();
    assert_eq!(cmd, RewardCommand::Add { guild: 1, requirement: 5, role: 77 });
    assert_eq!(change_reply(cmd), "Added role reward <@77> at level 5!");
}

#[test]
fn add_reward_argument_errors() {
    let missing = rewards("add", vec![arg("role", ArgValue::Role(77))]);
    assert_eq!(process_anvil(Some(1), &missing), Err(Error::MissingRequiredArgument(ArgName::Requirement)));
    let wrong = rewards("add", vec![arg("requirement", ArgValue::Integer(5)), arg("role", ArgValue::Integer(3))]);
    assert_eq!(process_anvil(Some(1), &wrong), Err(Error::WrongArgumentType(ArgName::Role)));
    let no_role = rewards("add", vec![arg("requirement", ArgValue::Integer(5))]);
    assert_eq!(process_anvil(Some(1), &no_role), Err(Error::MissingRequiredArgument(ArgName::Role)));
    let bad_req = rewards("add", vec![arg("requirement", ArgValue::Role(5))]);
    assert_eq!(process_anvil(Some(1), &bad_req), Err(Error::WrongArgumentType(ArgName::Requirement)));
}

#[test]
fn remove_and_list() {
    let by_role = rewards("remove", vec![arg("level", ArgValue::Integer(4)), arg("role", ArgValue::Role(9))]);
    let cmd = process_anvil(Some(2), &by_role).unwrap();
    assert_eq!(cmd, RewardCommand::RemoveRole { guild: 2, role: 9 });
    assert_eq!(change_reply(cmd), "Removed role reward <@9>!");
    let by_level = rewards("remove", vec![arg("level", ArgValue::Integer(4))]);
    let cmd = process_anvil(Some(2), &by_level).unwrap();
    assert_eq!(change_reply(cmd), "Removed role reward for level 4!");
    assert_eq!(process_anvil(Some(2), &rewards("remove", vec![])), Err(Error::WrongArgumentCount));
    assert_eq!(process_anvil(Some(2), &rewards("list", vec![])), Ok(RewardCommand::List { guild: 2 }));
    assert_eq!(
        process_rewards_list(&vec![(5, 1), (6, -2)]),
        "Role reward <@&5> at level 1\nRole reward <@&6> at level -2\n"
    );
}

#[test]
fn command_shape_errors() {
    assert_eq!(process_anvil(None, &rewards("list", vec![])), Err(Error::MissingGuildId));
    assert_eq!(process_anvil(Some(1), &vec![TopOption::Other]), Err(Error::InvalidSubcommand));
    let unknown = vec![TopOption::Group { name: "xp".to_string(), subs: vec![] }];
    assert_eq!(process_anvil(Some(1), &unknown), Err(Error::UnknownSubcommand));
    let empty = vec![TopOption::Group { name: "rewards".to_string(), subs: vec![SubOption::Other] }];
    assert_eq!(process_anvil(Some(1), &empty), Err(Error::InvalidSubcommand));
    assert_eq!(process_anvil(Some(1), &rewards("frobnicate", vec![])), Err(Error::UnknownSubcommand));
    assert_eq!(
        Error::WrongArgumentCount.message(),
        "Command had wrong number of arguments: `/anvil rewards remove` requires either a level or a role!!"
    );
    assert_eq!(
        Error::MissingRequiredArgument(ArgName::Role).message(),
        "Discord did not send required argument role!"
    );
}

#[test]
fn later_arguments_win() {
    let opts = rewards(
        "add",
        vec![
            arg("requirement", ArgValue::Integer(5)),
            arg("role", ArgValue::Role(1)),
            arg("requirement", ArgValue::Integer(8)),
        ],
    );
    assert_eq!(process_anvil(Some(1), &opts), Ok(RewardCommand::Add { guild: 1, requirement: 8, role: 1 }));
}
