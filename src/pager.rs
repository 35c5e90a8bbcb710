//! The leaderboard pager. Pages are numbered from zero inside the library and
//! shown from one. Every navigation control carries the page it leads to in
//! its own identifier, so a click can be answered without any stored session.
use crate::error::Error;
use crate::levels::{lemma_level_monotonic, level_for_xp, level_of};
use crate::text::{
    all_digits, decimal, digit_value, digits_value, i64_to_decimal, is_digit,
    lemma_decimal_digits, lemma_digits_value_prefix, push_decimal, signed_decimal, str_eq,
    u64_to_decimal,
};
use vstd::prelude::*;

verus! {

/// Rows on a full page.
pub const PAGE_SIZE: u64 = 10;

/// The last page that can be addressed; its offset still fits a signed
/// 64-bit storage parameter.
pub const MAX_PAGE: u64 = 900_000_000_000_000_000;

/// One row of a page, as the storage lists them: by experience, highest first.
#[derive(Clone, Copy, Debug, PartialEq, Eq, Structural)]
pub struct RankedUser {
    pub user: u64,
    pub xp: u64,
}

/// A navigation control: what it sends back when pressed, and whether it can
/// be pressed.
pub struct NavButton {
    pub custom_id: String,
    pub disabled: bool,
}

/// A rendered leaderboard page.
pub struct LeaderboardPage {
    pub description: String,
    pub footer: String,
    pub back: NavButton,
    pub jump: NavButton,
    pub forward: NavButton,
}

/// What pressing a leaderboard control asks for.
#[derive(Clone, Copy, Debug, PartialEq, Eq, Structural)]
pub enum ComponentAction {
    /// Ask the user which page to jump to.
    OpenJumpModal,
    /// Show the given zero-indexed page in place.
    ShowPage(u64),
}

/// The line of one ranked user.
pub open spec fn entry_line(rank: nat, user: u64, xp: u64) -> Seq<char> {
    "**#"@ + decimal(rank) + ".** <@"@ + decimal(user as nat) + "> - Level "@ + decimal(
        level_of(xp as nat),
    ) + "\n"@
}

/// The lines of consecutive rows, the first of them at `first_rank`.
pub open spec fn page_lines(rows: Seq<RankedUser>, first_rank: nat) -> Seq<char>
    decreases rows.len(),
{
    if rows.len() == 0 {
        Seq::empty()
    } else {
        page_lines(rows.drop_last(), first_rank) + entry_line(
            (first_rank + rows.len() - 1) as nat,
            rows.last().user,
            rows.last().xp,
        )
    }
}

/// The identifier that a control leading to `page` carries.
pub open spec fn page_token(page: int) -> Seq<char> {
    signed_decimal(page)
}

/// The identifier of the control that opens the jump dialog.
pub open spec fn jump_token() -> Seq<char> {
    "jump_modal"@
}

/// Whether an identifier starts with a sign.
pub open spec fn has_sign(token: Seq<char>) -> bool {
    token.len() > 0 && (token[0] == '+' || token[0] == '-')
}

/// The digits of an identifier, after its sign if it has one.
pub open spec fn token_digits(token: Seq<char>) -> Seq<char> {
    if has_sign(token) {
        token.drop_first()
    } else {
        token
    }
}

/// The page an identifier names, if it names one that can be addressed: a
/// decimal integer with an optional sign, as a signed integer is written;
/// a negative value names no page, while `-0` is page zero.
pub open spec fn token_page(token: Seq<char>) -> Option<u64> {
    let digits = token_digits(token);
    let negative = token.len() > 0 && token[0] == '-';
    if digits.len() > 0 && all_digits(digits) && digits_value(digits) <= MAX_PAGE && (negative
        ==> digits_value(digits) == 0) {
        Some(digits_value(digits) as u64)
    } else {
        None
    }
}

/// What `gen_leaderboard` shows for a non-empty page.
pub open spec fn is_page_view(p: LeaderboardPage, rows: Seq<RankedUser>, zpage: nat) -> bool {
    &&& p.description@ == page_lines(rows, (zpage * PAGE_SIZE + 1) as nat)
    &&& p.footer@ == "Page "@ + decimal(zpage + 1)
    &&& p.back.custom_id@ == page_token(zpage - 1)
    &&& p.back.disabled == (zpage == 0)
    &&& p.jump.custom_id@ == jump_token()
    &&& p.jump.disabled == (rows.len() < PAGE_SIZE && zpage == 0)
    &&& p.forward.custom_id@ == page_token(zpage + 1 as int)
    &&& p.forward.disabled == (rows.len() < PAGE_SIZE)
}

/// The storage offset of the first row of `zpage`.
pub fn page_offset(zpage: u64) -> (r: u64)
    requires
        zpage <= MAX_PAGE,
    ensures
        r == zpage * PAGE_SIZE,
{
    zpage * PAGE_SIZE
}

/// Renders page `zpage` from its rows. A page without rows does not exist:
/// it is an error, not an empty page.
pub fn gen_leaderboard(rows: &Vec<RankedUser>, zpage: u64) -> (r: Result<LeaderboardPage, Error>)
    requires
        rows@.len() <= PAGE_SIZE,
        zpage <= MAX_PAGE,
    ensures
        rows@.len() == 0 ==> r == Err::<LeaderboardPage, Error>(Error::NoUsersForPage),
        rows@.len() > 0 ==> (r matches Ok(p) && is_page_view(p, rows@, zpage as nat)),
{
    if rows.len() == 0 {
        return Err(Error::NoUsersForPage);
    }
    let first: u64 = zpage * PAGE_SIZE + 1;
    let mut description = String::new();
    let mut i: usize = 0;
    while i < rows.len()
        invariant
            i <= rows@.len(),
            rows@.len() <= PAGE_SIZE,
            zpage <= MAX_PAGE,
            first == zpage * PAGE_SIZE + 1,
            description@ == page_lines(rows@.subrange(0, i as int), first as nat),
        decreases rows@.len() - i,
    {
        let row = rows[i];
        let rank: u64 = first + i as u64;
        description.append("**#");
        push_decimal(&mut description, rank);
        description.append(".** <@");
        push_decimal(&mut description, row.user);
        description.append("> - Level ");
        push_decimal(&mut description, level_for_xp(row.xp));
        description.append("\n");
        proof {
            let done = rows@.subrange(0, i + 1);
            assert(done.drop_last() == rows@.subrange(0, i as int));
            assert(done.last() == row);
        }
        i = i + 1;
    }
    assert(rows@.subrange(0, rows@.len() as int) == rows@);
    let mut footer = String::new();
    footer.append("Page ");
    push_decimal(&mut footer, zpage + 1);
    let short = (rows.len() as u64) < PAGE_SIZE;
    let back = NavButton { custom_id: i64_to_decimal(zpage as i64 - 1), disabled: zpage == 0 };
    let jump = NavButton { custom_id: String::from_str("jump_modal"), disabled: short && zpage == 0 };
    let forward = NavButton { custom_id: u64_to_decimal(zpage + 1), disabled: short };
    Ok(LeaderboardPage { description, footer, back, jump, forward })
}

/// Reads the page that a control identifier names. Anything but a decimal
/// integer with an optional sign, naming a page that can be addressed, is
/// refused; so is any negative value.
pub fn parse_page(token: &str) -> (r: Result<u64, Error>)
    ensures
        r == (match token_page(token@) {
            Some(p) => Ok::<u64, Error>(p),
            None => Err(Error::InvalidPageOffset),
        }),
{
    let n = token.unicode_len();
    if n == 0 {
        return Err(Error::InvalidPageOffset);
    }
    let first = token.get_char(0);
    let negative = first == '-';
    let start: usize = if first == '+' || first == '-' { 1 } else { 0 };
    let ghost digits = token_digits(token@);
    assert(digits == token@.subrange(start as int, n as int));
    if start == n {
        return Err(Error::InvalidPageOffset);
    }
    let mut value: u64 = 0;
    let mut i: usize = start;
    while i < n
        invariant
            n == token@.len(),
            start <= i <= n,
            digits == token@.subrange(start as int, n as int),
            digits == token_digits(token@),
            all_digits(digits.subrange(0, i - start)),
            value == digits_value(digits.subrange(0, i - start)),
            value <= MAX_PAGE,
        decreases n - i,
    {
        let c = token.get_char(i);
        let k: usize = i - start;
        proof {
            let done = digits.subrange(0, k + 1);
            assert(done.drop_last() == digits.subrange(0, k as int));
            assert(done.last() == c);
        }
        if c < '0' || c > '9' {
            proof {
                assert(!is_digit(digits[k as int]));
            }
            return Err(Error::InvalidPageOffset);
        }
        let d = (c as u32 - '0' as u32) as u64;
        assert(d == digit_value(c));
        if value > (MAX_PAGE - d) / 10 {
            proof {
                lemma_digits_value_prefix(digits, k + 1);
            }
            return Err(Error::InvalidPageOffset);
        }
        value = value * 10 + d;
        proof {
            let done = digits.subrange(0, k + 1);
            assert forall|j: int| 0 <= j < done.len() implies #[trigger] is_digit(done[j]) by {
                if j < k {
                    assert(done[j] == digits.subrange(0, k as int)[j]);
                }
            }
        }
        i = i + 1;
    }
    assert(digits.subrange(0, n - start) == digits);
    if negative && value != 0 {
        return Err(Error::InvalidPageOffset);
    }
    Ok(value)
}

/// What a press of a leaderboard control asks for.
pub fn process_message_component(custom_id: &str) -> (r: Result<ComponentAction, Error>)
    ensures
        custom_id@ == jump_token() ==> r == Ok::<ComponentAction, Error>(
            ComponentAction::OpenJumpModal,
        ),
        custom_id@ != jump_token() ==> r == (match token_page(custom_id@) {
            Some(p) => Ok::<ComponentAction, Error>(ComponentAction::ShowPage(p)),
            None => Err(Error::InvalidPageOffset),
        }),
{
    if str_eq(custom_id, "jump_modal") {
        return Ok(ComponentAction::OpenJumpModal);
    }
    match parse_page(custom_id) {
        Ok(p) => Ok(ComponentAction::ShowPage(p)),
        Err(e) => Err(e),
    }
}

/// The page asked for in a submitted jump dialog: the value of the first
/// field of its first row.
pub fn process_modal_submit(rows: &Vec<Vec<Option<String>>>) -> (r: Result<u64, Error>)
    ensures
        rows@.len() == 0 ==> r == Err::<u64, Error>(Error::NoModalActionRow),
        rows@.len() > 0 && rows@[0]@.len() == 0 ==> r == Err::<u64, Error>(Error::NoFormField),
        rows@.len() > 0 && rows@[0]@.len() > 0 && rows@[0]@[0] is None ==> r == Err::<
            u64,
            Error,
        >(Error::NoDestinationInComponent),
        rows@.len() > 0 && rows@[0]@.len() > 0 ==> (rows@[0]@[0] matches Some(v) ==> r == (
        match token_page(v@) {
            Some(p) => Ok::<u64, Error>(p),
            None => Err(Error::InvalidPageOffset),
        })),
{
    if rows.len() == 0 {
        return Err(Error::NoModalActionRow);
    }
    let row = &rows[0];
    if row.len() == 0 {
        return Err(Error::NoFormField);
    }
    match &row[0] {
        None => Err(Error::NoDestinationInComponent),
        Some(v) => parse_page(v.as_str()),
    }
}

/// The page a leaderboard command opens on: the page asked for, shown from
/// one; else the page of the user asked for, from the number of users ranked
/// above them; else the first page.
pub fn initial_page(page: Option<i64>, users_ahead: Option<u64>) -> (r: Result<u64, Error>)
    ensures
        page matches Some(p) ==> r == (if 1 <= p && p - 1 <= MAX_PAGE {
            Ok::<u64, Error>((p - 1) as u64)
        } else {
            Err(Error::InvalidPageOffset)
        }),
        page is None ==> (users_ahead matches Some(c) ==> r == (if c / PAGE_SIZE <= MAX_PAGE {
            Ok::<u64, Error>(c / PAGE_SIZE)
        } else {
            Err(Error::InvalidPageOffset)
        })),
        page is None && users_ahead is None ==> r == Ok::<u64, Error>(0),
{
    match page {
        Some(p) => {
            if p >= 1 && p - 1 <= MAX_PAGE as i64 {
                Ok((p - 1) as u64)
            } else {
                Err(Error::InvalidPageOffset)
            }
        },
        None => match users_ahead {
            Some(c) => {
                if c / PAGE_SIZE <= MAX_PAGE {
                    Ok(c / PAGE_SIZE)
                } else {
                    Err(Error::InvalidPageOffset)
                }
            },
            None => Ok(0),
        },
    }
}

/// Whether rows are listed by experience, highest first, as storage lists them.
pub open spec fn by_experience(rows: Seq<RankedUser>) -> bool {
    forall|i: int, j: int| 0 <= i < j < rows.len() ==> rows[j].xp <= rows[i].xp
}

/// On a page listed by experience the levels shown never rise down the page.
pub proof fn lemma_page_levels_descend(rows: Seq<RankedUser>)
    requires
        by_experience(rows),
    ensures
        forall|i: int, j: int|
            0 <= i < j < rows.len() ==> level_of(rows[j].xp as nat) <= level_of(rows[i].xp as nat),
{
    assert forall|i: int, j: int| 0 <= i < j < rows.len() implies level_of(rows[j].xp as nat)
        <= level_of(rows[i].xp as nat) by {
        lemma_level_monotonic(rows[j].xp as nat, rows[i].xp as nat);
    }
}

/// The identifier of a control leading to a page that can be addressed reads
/// back as that page: navigation needs no stored state.
pub proof fn lemma_page_token_round_trip(page: u64)
    requires
        page <= MAX_PAGE,
    ensures
        token_page(page_token(page as int)) == Some(page),
{
    lemma_decimal_digits(page as nat);
    let s = decimal(page as nat);
    assert(is_digit(s[0]));
    assert(!has_sign(s));
}

} // verus!
