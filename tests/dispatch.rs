use minixpd::dispatch::{
    process_app_cmd, process_interaction, process_slash_cmd, rank_target,
    resolve_context_target, AppCommand, CommandKind, Dispatch, InteractionKind, ResolvedTarget,
    Route, SlashCommand,
};
use minixpd::error::Error;
use minixpd::tokens::{ContinuationCache, TOKEN_TTL_SECS};

#[test]
fn interaction_shape_errors() {
    assert_eq!(process_interaction(None, Some(1), Some(InteractionKind::Other)), Err(Error::NoInvoker));
    assert_eq!(process_interaction(Some(2), None, None), Err(Error::NoGuildId));
    assert_eq!(process_interaction(Some(2), Some(1), None), Err(Error::NoInteractionData));
    assert_eq!(
        process_interaction(Some(2), Some(1), Some(InteractionKind::ModalSubmit)),
        Ok(Dispatch { invoker: 2, guild: 1, route: Route::Modal })
    );
    assert_eq!(
        process_interaction(Some(2), Some(1), Some(InteractionKind::Other)).unwrap().route,
        Route::Pong
    );
}

#[test]
fn commands_are_routed_by_name_and_kind() {
    assert_eq!(process_slash_cmd("rank"), Ok(SlashCommand::Rank));
    assert_eq!(process_slash_cmd("leaderboard"), Ok(SlashCommand::Leaderboard));
    assert_eq!(process_slash_cmd("toy"), Ok(SlashCommand::Toy));
    assert_eq!(process_slash_cmd("ranks"), Err(Error::UnrecognizedCommand));
    assert_eq!(process_app_cmd(CommandKind::User, "x"), Ok(AppCommand::UserRank));
    assert_eq!(process_app_cmd(CommandKind::Message, "x"), Ok(AppCommand::MessageRank));
    assert_eq!(process_app_cmd(CommandKind::Other, "rank"), Err(Error::WrongInteractionData));
    assert_eq!(process_app_cmd(CommandKind::ChatInput, "toy"), Ok(AppCommand::Slash(SlashCommand::Toy)));
    assert_eq!(rank_target(4, None), 4);
    assert_eq!(rank_target(4, Some(9)), 9);
}

#[test]
fn context_targets_are_resolved() {
    let keys = vec![10, 20];
    assert_eq!(resolve_context_target(None, Some(&keys), Some(1)), Err(Error::NoMessageTargetId));
    assert_eq!(resolve_context_target(Some(20), None, Some(1)), Err(Error::NoResolvedData));
    assert_eq!(resolve_context_target(Some(30), Some(&keys), Some(1)), Err(Error::NoTarget));
    assert_eq!(resolve_context_target(Some(20), Some(&keys), None), Err(Error::NoGuildId));
    assert_eq!(
        resolve_context_target(Some(20), Some(&keys), Some(1)),
        Ok(ResolvedTarget { key: 20, guild: 1 })
    );
}

#[test]
fn continuation_tokens_expire() {
    let mut cache = ContinuationCache::new();
    assert_eq!(TOKEN_TTL_SECS, 900);
    assert_eq!(cache.get(1), Err(Error::InteractionExpired));
    cache.set(1, "first-credential".to_string());
    assert_eq!(cache.get(1), Ok("first-credential".to_string()));
    cache.set(1, "other".to_string());
    assert_eq!(cache.get(1), Ok("other".to_string()));
    cache.expire(1);
    assert_eq!(cache.get(1), Err(Error::InteractionExpired));
    assert_eq!(Error::InteractionExpired.message(), "This interaction has expired!");
    assert_eq!(Error::NoUsersForPage.message(), "This page does not exist!");
}
