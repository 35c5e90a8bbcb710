use minixpd::toy::{modify, Toy, ToyDecision};

fn saved(d: ToyDecision) -> Option<String> {
    match d {
        ToyDecision::Save(m) => Some(m),
        ToyDecision::Reject(_) => None,
    }
}

fn rejected(d: ToyDecision) -> Option<String> {
    match d {
        ToyDecision::Reject(m) => Some(m),
        ToyDecision::Save(_) => None,
    }
}

#[test]
fn unmet_level_is_rejected() {
    assert_eq!(
        rejected(modify(Toy::Pickaxe, 3255, 1)).unwrap(),
        "You need at least 10 levels for Pickaxe (you have 8)"
    );
    assert_eq!(
        rejected(modify(Toy::Fox, 0, 1)).unwrap(),
        "You need at least 5 levels for Fox (you have 0)"
    );
    assert_eq!(saved(modify(Toy::Fox, 3255, 1)).unwrap(), "Set your toy to Fox!");
}

#[test]
fn allow_list_is_enforced() {
    assert_eq!(
        rejected(modify(Toy::Airplane, 1_000_000, 1)).unwrap(),
        "You need to be on the allow-list of the bot to use this icon!"
    );
    assert_eq!(
        saved(modify(Toy::Airplane, 0, 788_222_689_126_776_832)).unwrap(),
        "Set your toy to Airplane!"
    );
}

#[test]
fn plain_toys_need_nothing() {
    assert_eq!(saved(modify(Toy::GrassBlock, 0, 1)).unwrap(), "Set your toy to Grass Block!");
    assert_eq!(saved(modify(Toy::NoToy, 0, 1)).unwrap(), "Set your toy to None!");
}

#[test]
fn toy_requirements_and_names() {
    assert_eq!(Toy::Pickaxe.level_requirement(), Some(10));
    assert_eq!(Toy::Parrot.level_requirement(), Some(5));
    assert_eq!(Toy::Bee.level_requirement(), None);
    assert_eq!(Toy::Airplane.id_requirement().unwrap().len(), 2);
    assert_eq!(Toy::Tree.id_requirement(), None);
    assert_eq!(Toy::PotionBlue.name(), "Blue Potion");
    assert_eq!(Toy::PotionBlue.value(), "potion_blue.png");
    assert_eq!(Toy::SteveHeart.name(), "Steve Hug");
}
