use chrono::NaiveDate;
use phyrexian_library::magic::card::{Card, CardSet};
use phyrexian_library::magic::colour::{Colour, ColourSet, GenericCost, Mana, ManaCost};
use phyrexian_library::magic::language::{Language, LocalisedString};
use phyrexian_library::magic::legality::Legality;
use phyrexian_library::magic::physical_card::PhysicalCard;
use phyrexian_library::magic::rarity::Rarity;
use phyrexian_library::utility::download::error::{DownloadError, IoErrorKind, IoFailure};
use phyrexian_library::utility::download::shared::SharedDownload;
use phyrexian_library::utility::download::state::{Download, DownloadUpdate, SpeedSample};
use phyrexian_library::utility::download::status::DownloadStatus;

fn card(uuid: u128, name: &str) -> Card {
    Card::new(
        "black".to_string(),
        ColourSet::from_colours(&[Colour::Red]),
        ColourSet::from_colours(&[Colour::Red, Colour::Green]),
        LocalisedString::new(name),
        "151".to_string(),
        Rarity::Rare,
        "M21".to_string(),
        uuid,
    )
}

#[test]
fn new_card_holds_what_it_was_given() {
    let card = card(7, "Lightning Bolt");
    assert_eq!(card.border_colour(), "black");
    assert!(card.colour().has(Colour::Red));
    assert_eq!(card.colour_identity().length(), 2);
    assert_eq!(card.name().get_default(), "Lightning Bolt");
    assert_eq!(card.number(), "151");
    assert_eq!(card.rarity(), Rarity::Rare);
    assert_eq!(card.set_code(), "M21");
    assert_eq!(card.uuid(), 7);
    assert_eq!(*card.artist(), None);
    assert!(card.availability().is_empty());
    assert!(card.faces().is_empty());
    assert!(card.flavor_text().is_none());
    assert_eq!(*card.loyalty(), None);
    assert!(card.mana_cost().is_none());
    assert_eq!(*card.power(), None);
    assert!(card.text().is_none());
    assert_eq!(*card.toughness(), None);
}

#[test]
fn card_fields_can_be_set() {
    let mut card = card(7, "Lightning Bolt");
    card.set_artist(Some("Christopher Rush".to_string()));
    card.set_availability(vec!["paper".to_string(), "mtgo".to_string()]);
    card.set_faces(vec![8, 9]);
    card.set_flavor_text(Some(LocalisedString::new("Boom.")));
    card.set_loyalty(Some("3".to_string()));
    card.set_mana_cost(Some(ManaCost::new(vec![Mana::Coloured(Colour::Red)])));
    card.set_power(Some("*".to_string()));
    card.set_text(Some(LocalisedString::new("Deals 3 damage.")));
    card.set_toughness(Some("1+*".to_string()));
    assert_eq!(*card.artist(), Some("Christopher Rush".to_string()));
    assert_eq!(*card.availability(), vec!["paper".to_string(), "mtgo".to_string()]);
    assert_eq!(*card.faces(), vec![8, 9]);
    assert_eq!(card.flavor_text().as_ref().unwrap().get_default(), "Boom.");
    assert_eq!(*card.loyalty(), Some("3".to_string()));
    assert_eq!(card.mana_cost().as_ref().unwrap().to_string(), "{R}");
    assert_eq!(*card.power(), Some("*".to_string()));
    assert_eq!(card.text().as_ref().unwrap().get_default(), "Deals 3 damage.");
    assert_eq!(*card.toughness(), Some("1+*".to_string()));
    // What was not set has stayed.
    assert_eq!(card.uuid(), 7);
    assert_eq!(card.number(), "151");
}

#[test]
fn legality_of_an_unknown_format_is_not_legal() {
    let mut card = card(1, "Black Lotus");
    assert_eq!(card.legality("vintage"), Legality::NotLegal);
    card.set_legality("vintage", Legality::Restricted);
    card.set_legality("legacy", Legality::Banned);
    assert_eq!(card.legality("vintage"), Legality::Restricted);
    assert_eq!(card.legality("legacy"), Legality::Banned);
    assert_eq!(card.legality("modern"), Legality::NotLegal);
    assert_eq!(card.legality("Vintage"), Legality::NotLegal);
    card.set_legality("vintage", Legality::Legal);
    assert_eq!(card.legality("vintage"), Legality::Legal);
    assert_eq!(card.legality("legacy"), Legality::Banned);
}

#[test]
fn card_set_keeps_one_card_per_identifier() {
    let date = NaiveDate::from_ymd_opt(2000, 1, 1).unwrap();
    let mut set = CardSet::new(
        "TEST".to_string(),
        LocalisedString::new("Test"),
        "".to_string(),
        date,
    );
    assert_eq!(set.code(), "TEST");
    assert_eq!(set.name().get_default(), "Test");
    assert_eq!(set.keyrune(), "");
    assert_eq!(*set.release_date(), date);
    assert!(set.block().is_none());
    assert_eq!(set.size(), 0);
    assert!(set.cards().is_empty());
    assert!(set.insert(card(1, "One")).is_none());
    assert!(set.insert(card(2, "Two")).is_none());
    assert_eq!(set.size(), 2);
    let previous = set.insert(card(1, "Uno")).expect("The card was there before.");
    assert_eq!(previous.name().get_default(), "One");
    assert_eq!(set.size(), 2);
    assert_eq!(set.card(1).unwrap().name().get_default(), "Uno");
    assert_eq!(set.card(2).unwrap().name().get_default(), "Two");
    assert!(set.card(3).is_none());
    let mut names: Vec<&str> = set.cards().iter().map(|card| card.name().get_default()).collect();
    names.sort();
    assert_eq!(names, vec!["Two", "Uno"]);
    set.set_block(Some(LocalisedString::new("Block")));
    assert_eq!(set.block().as_ref().unwrap().get_default(), "Block");
    let copy = set.clone();
    assert_eq!(*copy.release_date(), date);
    assert_eq!(copy.size(), 2);
}

#[test]
fn physical_card_starts_plain() {
    let mut card = PhysicalCard::new(11, 12);
    assert_eq!(card.template(), 11);
    assert_eq!(card.uuid(), 12);
    assert!(!card.foil());
    assert_eq!(card.language(), Language::EnglishAmerican);
    assert_eq!(*card.image_path_front(), None);
    assert_eq!(*card.image_path_back(), None);
    assert_eq!(*card.signed(), None);
    assert_eq!(*card.altered(), None);
    assert_eq!(*card.comment(), None);
    card.set_foil(true);
    card.set_language(Language::Japanese);
    card.set_image_path_front(Some("front.png".to_string()));
    card.set_image_path_back(Some("back.png".to_string()));
    card.set_signed(Some("by the artist".to_string()));
    card.set_altered(Some("borderless".to_string()));
    card.set_comment(Some("mint".to_string()));
    assert!(card.foil());
    assert_eq!(card.language(), Language::Japanese);
    assert_eq!(*card.image_path_front(), Some("front.png".to_string()));
    assert_eq!(*card.image_path_back(), Some("back.png".to_string()));
    assert_eq!(*card.signed(), Some("by the artist".to_string()));
    assert_eq!(*card.altered(), Some("borderless".to_string()));
    assert_eq!(*card.comment(), Some("mint".to_string()));
    assert_eq!(card.uuid(), 12);
}

#[test]
fn statuses_and_records_are_written_as_text() {
    assert_eq!(DownloadStatus::Pending.to_string(), "Pending");
    assert_eq!(DownloadStatus::Running.to_string(), "Running");
    assert_eq!(DownloadStatus::Successful.to_string(), "Successful");
    let failed = DownloadStatus::from(IoFailure::new(IoErrorKind::NotFound, "no such file"));
    assert_eq!(failed.to_string(), "Failed(no such file)");

    let mut download = Download::pending();
    assert_eq!(download.to_string(), "Pending: 0/None byte");
    download.apply(DownloadUpdate::Start);
    assert_eq!(download.to_string(), "Running (0 byte/sec): 0/None byte");
    download.apply(DownloadUpdate::TotalSize(2048));
    download.apply(DownloadUpdate::Progress(1024));
    download.apply(DownloadUpdate::Speed(SpeedSample::new(1024, 200_000_000).unwrap()));
    assert_eq!(download.to_string(), "Running (5120 byte/sec): 1024/Some(2048) byte");
    let shared = SharedDownload::new(download.duplicate());
    assert_eq!(shared.proxy().to_string(), "Running (5120 byte/sec): 1024/Some(2048) byte");
    download.apply(DownloadUpdate::Succeed);
    assert_eq!(download.to_string(), "Successful: 1024/Some(2048) byte");
    shared.update(DownloadUpdate::Fail(DownloadError::from(IoFailure::new(
        IoErrorKind::Other,
        "disk full",
    ))));
    assert_eq!(shared.proxy().to_string(), "Failed(disk full): 1024/Some(2048) byte");
}

#[test]
fn generic_mana_keeps_its_cost_in_a_mana_cost() {
    let cost = ManaCost::new(vec![
        Mana::Generic(GenericCost::Half),
        Mana::Generic(GenericCost::Integer(-1)),
    ]);
    assert_eq!(cost.to_string(), "{½}{-1}");
    assert_eq!(cost.doubled_mana_cost(), Some(-1));
}
