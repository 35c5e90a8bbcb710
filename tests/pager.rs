use minixpd::error::Error;
use minixpd::pager::{
    gen_leaderboard, initial_page, page_offset, parse_page, process_message_component,
    process_modal_submit, ComponentAction, RankedUser, MAX_PAGE, PAGE_SIZE,
};

fn ranked(n: u64) -> Vec<RankedUser> {
    (0..n).map(|i| RankedUser { user: 1000 + i, xp: 10_000 - i * 100 }).collect()
}

fn page_rows(all: &[RankedUser], zpage: u64) -> Vec<RankedUser> {
    let start = page_offset(zpage) as usize;
    all.iter().skip(start).take(PAGE_SIZE as usize).copied().collect()
}

#[test]
fn twenty_five_users_make_three_pages() {
    let all = ranked(25);
    let first = gen_leaderboard(&page_rows(&all, 0), 0).unwrap();
    assert_eq!(first.description.lines().count(), 10);
    assert!(!first.forward.disabled);
    assert!(first.back.disabled);
    assert!(!first.jump.disabled);
    assert_eq!(first.forward.custom_id, "1");
    assert_eq!(first.back.custom_id, "-1");
    assert_eq!(first.footer, "Page 1");

    let last = gen_leaderboard(&page_rows(&all, 2), 2).unwrap();
    assert_eq!(last.description.lines().count(), 5);
    assert!(last.forward.disabled);
    assert!(!last.back.disabled);
    assert_eq!(last.back.custom_id, "1");
    assert_eq!(last.forward.custom_id, "3");
    assert_eq!(last.footer, "Page 3");
    assert!(last.description.starts_with("**#21.** <@1020> - Level "));

    assert_eq!(gen_leaderboard(&page_rows(&all, 3), 3).err(), Some(Error::NoUsersForPage));
}

#[test]
fn negative_or_garbled_offset_is_invalid() {
    assert_eq!(parse_page("-1"), Err(Error::InvalidPageOffset));
    assert_eq!(parse_page("-12"), Err(Error::InvalidPageOffset));
    assert_eq!(parse_page("+5"), Ok(5));
    assert_eq!(parse_page("-0"), Ok(0));
    assert_eq!(parse_page("+"), Err(Error::InvalidPageOffset));
    assert_eq!(parse_page("-"), Err(Error::InvalidPageOffset));
    assert_eq!(parse_page("+-1"), Err(Error::InvalidPageOffset));
    assert_eq!(parse_page("5+"), Err(Error::InvalidPageOffset));
    assert_eq!(parse_page("abc"), Err(Error::InvalidPageOffset));
    assert_eq!(parse_page(""), Err(Error::InvalidPageOffset));
    assert_eq!(parse_page("1x"), Err(Error::InvalidPageOffset));
    assert_eq!(parse_page("99999999999999999999"), Err(Error::InvalidPageOffset));
    assert_eq!(parse_page("2"), Ok(2));
    assert_eq!(parse_page("007"), Ok(7));
    assert_eq!(parse_page(&MAX_PAGE.to_string()), Ok(MAX_PAGE));
    assert_eq!(parse_page(&(MAX_PAGE + 1).to_string()), Err(Error::InvalidPageOffset));
}

#[test]
fn page_lines_are_exact() {
    let rows = vec![RankedUser { user: 42, xp: 3255 }, RankedUser { user: 7, xp: 99 }];
    let page = gen_leaderboard(&rows, 1).unwrap();
    assert_eq!(page.description, "**#11.** <@42> - Level 8\n**#12.** <@7> - Level 0\n");
    assert!(page.forward.disabled);
    assert!(!page.jump.disabled);
    let only = gen_leaderboard(&rows, 0).unwrap();
    assert!(only.jump.disabled);
    assert_eq!(only.jump.custom_id, "jump_modal");
}

#[test]
fn controls_lead_where_they_say() {
    assert_eq!(process_message_component("jump_modal"), Ok(ComponentAction::OpenJumpModal));
    assert_eq!(process_message_component("4"), Ok(ComponentAction::ShowPage(4)));
    assert_eq!(process_message_component("-1"), Err(Error::InvalidPageOffset));
    let page = gen_leaderboard(&ranked(10), 3).unwrap();
    assert_eq!(parse_page(&page.forward.custom_id), Ok(4));
    assert_eq!(parse_page(&page.back.custom_id), Ok(2));
}

#[test]
fn jump_dialog_errors() {
    assert_eq!(process_modal_submit(&vec![]), Err(Error::NoModalActionRow));
    assert_eq!(process_modal_submit(&vec![vec![]]), Err(Error::NoFormField));
    assert_eq!(process_modal_submit(&vec![vec![None]]), Err(Error::NoDestinationInComponent));
    assert_eq!(process_modal_submit(&vec![vec![Some("x".to_string())]]), Err(Error::InvalidPageOffset));
    assert_eq!(process_modal_submit(&vec![vec![Some("5".to_string())]]), Ok(5));
    assert_eq!(process_modal_submit(&vec![vec![Some("+5".to_string())]]), Ok(5));
    assert_eq!(process_modal_submit(&vec![vec![Some("-0".to_string())]]), Ok(0));
    assert_eq!(process_modal_submit(&vec![vec![Some("-3".to_string())]]), Err(Error::InvalidPageOffset));
}

#[test]
fn initial_page_selection() {
    assert_eq!(initial_page(Some(3), Some(99)), Ok(2));
    assert_eq!(initial_page(Some(0), None), Err(Error::InvalidPageOffset));
    assert_eq!(initial_page(Some(-4), None), Err(Error::InvalidPageOffset));
    assert_eq!(initial_page(None, Some(24)), Ok(2));
    assert_eq!(initial_page(None, Some(9)), Ok(0));
    assert_eq!(initial_page(None, None), Ok(0));
    assert_eq!(page_offset(2), 20);
}
