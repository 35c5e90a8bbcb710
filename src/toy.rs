//! Card toys: the small pictures a user can put on their progress card, some
//! of them reserved for higher levels or for an allow-list.
use crate::levels::{level_for_xp, level_of};
use crate::text::{decimal, push_decimal};
use vstd::prelude::*;

verus! {

#[derive(Clone, Copy, Debug, PartialEq, Eq, Structural)]
pub enum Toy {
    NoToy,
    Airplane,
    Bee,
    Biscuit,
    Chicken,
    Cow,
    Fox,
    GrassBlock,
    Parrot,
    Pickaxe,
    Pig,
    PotionBlue,
    PotionPurple,
    PotionRed,
    Sheep,
    SteveHeart,
    Tree,
}

/// The level a toy asks for, if any.
pub open spec fn toy_level_requirement(t: Toy) -> Option<u64> {
    match t {
        Toy::Pickaxe => Some(10u64),
        Toy::Fox | Toy::Parrot => Some(5u64),
        _ => None,
    }
}

/// The users a toy is reserved for, if it is reserved.
pub open spec fn toy_allow_list(t: Toy) -> Option<Seq<u64>> {
    match t {
        Toy::Airplane => Some(seq![788_222_689_126_776_832u64, 526_092_507_965_161_474u64]),
        _ => None,
    }
}

/// The name a toy is shown under.
pub open spec fn toy_name(t: Toy) -> Seq<char> {
    match t {
        Toy::NoToy => "None"@,
        Toy::Airplane => "Airplane"@,
        Toy::Bee => "Bee"@,
        Toy::Biscuit => "Biscuit"@,
        Toy::Chicken => "Chicken"@,
        Toy::Cow => "Cow"@,
        Toy::Fox => "Fox"@,
        Toy::GrassBlock => "Grass Block"@,
        Toy::Parrot => "Parrot"@,
        Toy::Pickaxe => "Pickaxe"@,
        Toy::Pig => "Pig"@,
        Toy::PotionBlue => "Blue Potion"@,
        Toy::PotionPurple => "Purple Potion"@,
        Toy::PotionRed => "Red Potion"@,
        Toy::Sheep => "Sheep"@,
        Toy::SteveHeart => "Steve Hug"@,
        Toy::Tree => "Tree"@,
    }
}

/// The value a toy is stored under: the file name of its picture.
pub open spec fn toy_value(t: Toy) -> Seq<char> {
    match t {
        Toy::NoToy => "None"@,
        Toy::Airplane => "airplane.png"@,
        Toy::Bee => "bee.png"@,
        Toy::Biscuit => "biscuit.png"@,
        Toy::Chicken => "chicken.png"@,
        Toy::Cow => "cow.png"@,
        Toy::Fox => "fox.png"@,
        Toy::GrassBlock => "grassblock.png"@,
        Toy::Parrot => "parrot.png"@,
        Toy::Pickaxe => "pickaxe.png"@,
        Toy::Pig => "pig.png"@,
        Toy::PotionBlue => "potion_blue.png"@,
        Toy::PotionPurple => "potion_purple.png"@,
        Toy::PotionRed => "potion_red.png"@,
        Toy::Sheep => "sheep.png"@,
        Toy::SteveHeart => "steveheart.png"@,
        Toy::Tree => "tree.png"@,
    }
}

impl Toy {
    /// The level this toy asks for, if any.
    pub fn level_requirement(self) -> (r: Option<u64>)
        ensures
            r == toy_level_requirement(self),
    {
        match self {
            Toy::Pickaxe => Some(10),
            Toy::Fox | Toy::Parrot => Some(5),
            _ => None,
        }
    }

    /// The users this toy is reserved for, if it is reserved.
    pub fn id_requirement(self) -> (r: Option<Vec<u64>>)
        ensures
            match toy_allow_list(self) {
                Some(ids) => r matches Some(v) && v@ == ids,
                None => r is None,
            },
    {
        match self {
            Toy::Airplane => {
                let v: Vec<u64> = vec![788_222_689_126_776_832, 526_092_507_965_161_474];
                Some(v)
            },
            _ => None,
        }
    }

    /// The name this toy is shown under.
    pub fn name(self) -> (r: &'static str)
        ensures
            r@ == toy_name(self),
    {
        match self {
            Toy::NoToy => "None",
            Toy::Airplane => "Airplane",
            Toy::Bee => "Bee",
            Toy::Biscuit => "Biscuit",
            Toy::Chicken => "Chicken",
            Toy::Cow => "Cow",
            Toy::Fox => "Fox",
            Toy::GrassBlock => "Grass Block",
            Toy::Parrot => "Parrot",
            Toy::Pickaxe => "Pickaxe",
            Toy::Pig => "Pig",
            Toy::PotionBlue => "Blue Potion",
            Toy::PotionPurple => "Purple Potion",
            Toy::PotionRed => "Red Potion",
            Toy::Sheep => "Sheep",
            Toy::SteveHeart => "Steve Hug",
            Toy::Tree => "Tree",
        }
    }

    /// The value this toy is stored under.
    pub fn value(self) -> (r: &'static str)
        ensures
            r@ == toy_value(self),
    {
        match self {
            Toy::NoToy => "None",
            Toy::Airplane => "airplane.png",
            Toy::Bee => "bee.png",
            Toy::Biscuit => "biscuit.png",
            Toy::Chicken => "chicken.png",
            Toy::Cow => "cow.png",
            Toy::Fox => "fox.png",
            Toy::GrassBlock => "grassblock.png",
            Toy::Parrot => "parrot.png",
            Toy::Pickaxe => "pickaxe.png",
            Toy::Pig => "pig.png",
            Toy::PotionBlue => "potion_blue.png",
            Toy::PotionPurple => "potion_purple.png",
            Toy::PotionRed => "potion_red.png",
            Toy::Sheep => "sheep.png",
            Toy::SteveHeart => "steveheart.png",
            Toy::Tree => "tree.png",
        }
    }
}

/// The outcome of a toy selection, with the message for the user.
pub enum ToyDecision {
    /// Store the selection, then tell the user.
    Save(String),
    /// Store nothing; tell the user why.
    Reject(String),
}

pub open spec fn level_refusal(t: Toy, needed: u64, level: nat) -> Seq<char> {
    "You need at least "@ + decimal(needed as nat) + " levels for "@ + toy_name(t) + " (you have "@
        + decimal(level) + ")"@
}

pub open spec fn allow_list_refusal() -> Seq<char> {
    "You need to be on the allow-list of the bot to use this icon!"@
}

pub open spec fn saved_notice(t: Toy) -> Seq<char> {
    "Set your toy to "@ + toy_name(t) + "!"@
}

/// Whether `x` is among `v`.
fn contains_id(v: &Vec<u64>, x: u64) -> (r: bool)
    ensures
        r == v@.contains(x),
{
    let mut i: usize = 0;
    while i < v.len()
        invariant
            i <= v@.len(),
            forall|j: int| 0 <= j < i ==> v@[j] != x,
        decreases v@.len() - i,
    {
        if v[i] == x {
            assert(v@[i as int] == x);
            return true;
        }
        i = i + 1;
    }
    false
}

/// Decides a toy selection by the user `invoker`, who has `xp` experience in
/// the community: the level asked for comes first, then the allow-list.
pub fn modify(toy: Toy, xp: u64, invoker: u64) -> (r: ToyDecision)
    ensures
        match toy_level_requirement(toy) {
            Some(needed) if level_of(xp as nat) < needed => r matches ToyDecision::Reject(m) && m@
                == level_refusal(toy, needed, level_of(xp as nat)),
            _ => match toy_allow_list(toy) {
                Some(ids) if !ids.contains(invoker) => r matches ToyDecision::Reject(m) && m@
                    == allow_list_refusal(),
                _ => r matches ToyDecision::Save(m) && m@ == saved_notice(toy),
            },
        },
{
    let level = level_for_xp(xp);
    if let Some(needed) = toy.level_requirement() {
        if level < needed {
            let mut m = String::from_str("You need at least ");
            push_decimal(&mut m, needed);
            m.append(" levels for ");
            m.append(toy.name());
            m.append(" (you have ");
            push_decimal(&mut m, level);
            m.append(")");
            return ToyDecision::Reject(m);
        }
    }
    if let Some(ids) = toy.id_requirement() {
        if !contains_id(&ids, invoker) {
            return ToyDecision::Reject(
                String::from_str("You need to be on the allow-list of the bot to use this icon!"),
            );
        }
    }
    let mut m = String::from_str("Set your toy to ");
    m.append(toy.name());
    m.append("!");
    ToyDecision::Save(m)
}

} // verus!
