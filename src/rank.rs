//! Rank queries: who is ranked, the notice for those who are not, the
//! standing shown on a progress card, and the card's caption and avatar.
use crate::levels::{level_for_xp, level_of, progress_percent, progress_percent_of};
use crate::text::{decimal, push_decimal};
use base64::Engine;
use vstd::prelude::*;

verus! {

/// What the library needs to know of a platform user.
pub struct UserProfile {
    pub id: u64,
    pub name: String,
    /// The legacy four-digit tag; zero for users without one.
    pub discriminator: u16,
    pub bot: bool,
    /// The avatar's image hash, when the user has set one.
    pub avatar: Option<String>,
}

/// Where a ranked user stands.
#[derive(Clone, Copy, Debug, PartialEq, Eq, Structural)]
pub struct Standing {
    pub xp: u64,
    pub level: u64,
    /// One more than the number of users of the community with more experience.
    pub rank: u64,
    /// Whole percent of the way to the next level.
    pub percent: u64,
}

/// The answer to a rank query.
pub enum RankReply {
    /// A plain message, sent at once.
    Notice(String),
    /// A progress card, rendered after an immediate acknowledgment.
    Card(Standing),
}

/// The legacy tag as the platform shows it: four digits, zero-padded; a bare
/// zero for users without one.
pub open spec fn discriminator_tag(d: u16) -> Seq<char> {
    if d == 0 {
        "0"@
    } else if d < 10 {
        "000"@ + decimal(d as nat)
    } else if d < 100 {
        "00"@ + decimal(d as nat)
    } else if d < 1000 {
        "0"@ + decimal(d as nat)
    } else {
        decimal(d as nat)
    }
}

/// A user's name with their tag.
pub open spec fn user_tag(name: Seq<char>, d: u16) -> Seq<char> {
    name + "#"@ + discriminator_tag(d)
}

pub open spec fn bot_notice() -> Seq<char> {
    "Bots aren't ranked, that would be silly!"@
}

pub open spec fn self_unranked_notice() -> Seq<char> {
    "You aren't ranked yet, because you haven't sent any messages!"@
}

pub open spec fn other_unranked_notice(name: Seq<char>, d: u16) -> Seq<char> {
    user_tag(name, d) + " isn't ranked yet, because they haven't sent any messages!"@
}

/// The standing of a user with `xp` experience and `users_ahead` users above.
pub open spec fn standing_of(xp: u64, users_ahead: u64) -> Standing {
    Standing {
        xp,
        level: level_of(xp as nat) as u64,
        rank: (users_ahead + 1) as u64,
        percent: progress_percent_of(xp as nat) as u64,
    }
}

/// Appends the tag of `d`.
pub(crate) fn push_discriminator(s: &mut String, d: u16)
    ensures
        final(s)@ == old(s)@ + discriminator_tag(d),
{
    if d == 0 {
        s.append("0");
    } else {
        if d < 10 {
            s.append("000");
        } else if d < 100 {
            s.append("00");
        } else if d < 1000 {
            s.append("0");
        }
        push_decimal(s, d as u64);
    }
}

/// Answers a rank query about `target`, asked by the user `invoker`, from the
/// target's experience and the number of users of the community with strictly
/// more. Bots are never ranked; users without experience get a notice worded
/// for whether they asked about themselves.
pub fn get_level(target: &UserProfile, invoker: u64, xp: u64, users_ahead: u64) -> (r: RankReply)
    requires
        users_ahead < u64::MAX,
    ensures
        target.bot ==> (r matches RankReply::Notice(m) && m@ == bot_notice()),
        !target.bot && xp == 0 && target.id == invoker ==> (r matches RankReply::Notice(m) && m@
            == self_unranked_notice()),
        !target.bot && xp == 0 && target.id != invoker ==> (r matches RankReply::Notice(m) && m@
            == other_unranked_notice(target.name@, target.discriminator)),
        !target.bot && xp > 0 ==> r == RankReply::Card(standing_of(xp, users_ahead)),
{
    if target.bot {
        return RankReply::Notice(String::from_str("Bots aren't ranked, that would be silly!"));
    }
    if xp == 0 {
        if target.id == invoker {
            return RankReply::Notice(
                String::from_str("You aren't ranked yet, because you haven't sent any messages!"),
            );
        }
        let mut m = target.name.clone();
        m.append("#");
        push_discriminator(&mut m, target.discriminator);
        m.append(" isn't ranked yet, because they haven't sent any messages!");
        return RankReply::Notice(m);
    }
    let level = level_for_xp(xp);
    let percent = progress_percent(xp);
    RankReply::Card(Standing { xp, level, rank: users_ahead + 1, percent })
}

/// The caption of a progress card.
pub open spec fn card_caption_of(name: Seq<char>, d: u16, s: Standing) -> Seq<char> {
    user_tag(name, d) + " is level "@ + decimal(s.level as nat) + " (rank #"@ + decimal(
        s.rank as nat,
    ) + "), and is "@ + decimal(s.percent as nat) + "% of the way to level "@ + decimal(
        (s.level + 1) as nat,
    ) + "."@
}

/// The caption that describes a progress card in words.
pub fn card_caption(target: &UserProfile, s: Standing) -> (r: String)
    requires
        s.level < u64::MAX,
    ensures
        r@ == card_caption_of(target.name@, target.discriminator, s),
{
    let mut m = target.name.clone();
    m.append("#");
    push_discriminator(&mut m, target.discriminator);
    m.append(" is level ");
    push_decimal(&mut m, s.level);
    m.append(" (rank #");
    push_decimal(&mut m, s.rank);
    m.append("), and is ");
    push_decimal(&mut m, s.percent);
    m.append("% of the way to level ");
    push_decimal(&mut m, s.level + 1);
    m.append(".");
    m
}

/// Where a user's avatar is served: their own image when they have one, else
/// one of the platform's default images.
pub open spec fn avatar_url_of(id: u64, d: u16, avatar: Option<String>) -> Seq<char> {
    match avatar {
        Some(hash) => "https://cdn.discordapp.com/avatars/"@ + decimal(id as nat) + "/"@ + hash@
            + ".png"@,
        None => "https://cdn.discordapp.com/embed/avatars/"@ + decimal(id as nat) + "/"@ + decimal(
            (d % 5) as nat,
        ) + ".png"@,
    }
}

/// The address of a user's avatar.
pub fn avatar_url(user: &UserProfile) -> (r: String)
    ensures
        r@ == avatar_url_of(user.id, user.discriminator, user.avatar),
{
    match &user.avatar {
        Some(hash) => {
            let mut u = String::from_str("https://cdn.discordapp.com/avatars/");
            push_decimal(&mut u, user.id);
            u.append("/");
            u.append(hash.as_str());
            u.append(".png");
            u
        },
        None => {
            let mut u = String::from_str("https://cdn.discordapp.com/embed/avatars/");
            push_decimal(&mut u, user.id);
            u.append("/");
            push_decimal(&mut u, (user.discriminator % 5) as u64);
            u.append(".png");
            u
        },
    }
}

/// Standard base64, without padding, of some bytes.
pub uninterp spec fn base64_no_pad(b: Seq<u8>) -> Seq<char>;

/// Relies on `base64::Engine::encode` with the `STANDARD_NO_PAD` engine: the
/// standard alphabet, no padding; the text depends on the bytes alone.
#[verifier::external_body]
fn encode_base64_no_pad(b: &[u8]) -> (r: String)
    ensures
        r@ == base64_no_pad(b@),
{
    base64::engine::general_purpose::STANDARD_NO_PAD.encode(b)
}

/// A data URI for a PNG image whose base64 text is `encoded`.
pub fn png_data_uri(encoded: &str) -> (r: String)
    ensures
        r@ == "data:image/png;base64,"@ + encoded@,
{
    let mut u = String::from_str("data:image/png;base64,");
    u.append(encoded);
    u
}

/// A data URI that embeds a PNG avatar in the card.
pub fn avatar_data_uri(png: &Vec<u8>) -> (r: String)
    ensures
        r@ == "data:image/png;base64,"@ + base64_no_pad(png@),
{
    let encoded = encode_base64_no_pad(png.as_slice());
    png_data_uri(encoded.as_str())
}

} // verus!
