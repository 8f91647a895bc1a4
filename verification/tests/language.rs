use phyrexian_library::magic::language::{Language, LocalisedString};
use std::convert::TryInto;

#[test]
fn language_test_test_ordering() {
    let mut unordered = vec![
        Language::Japanese,
        Language::Arabic,
        Language::Russian,
        Language::German,
        Language::Latin,
    ];
    let ordered = vec![
        Language::Arabic,
        Language::German,
        Language::Japanese,
        Language::Latin,
        Language::Russian,
    ];
    assert_ne!(unordered, ordered);
    unordered.sort();
    assert_eq!(unordered, ordered);
}

#[test]
fn language_test_test_conversion_to_string() {
    assert_eq!(Into::<&str>::into(Language::AncientGreek), "Ancient Greek");
    assert_eq!(Into::<&str>::into(Language::Arabic), "Arabic");
    assert_eq!(Into::<&str>::into(Language::ChineseSimplified), "Chinese Simplified");
    assert_eq!(Into::<&str>::into(Language::ChineseTraditional), "Chinese Traditional");
    assert_eq!(Into::<&str>::into(Language::EnglishAmerican), "English American");
    assert_eq!(Into::<&str>::into(Language::French), "French");
    assert_eq!(Into::<&str>::into(Language::German), "German");
    assert_eq!(Into::<&str>::into(Language::Hebrew), "Hebrew");
    assert_eq!(Into::<&str>::into(Language::Italian), "Italian");
    assert_eq!(Into::<&str>::into(Language::Japanese), "Japanese");
    assert_eq!(Into::<&str>::into(Language::Korean), "Korean");
    assert_eq!(Into::<&str>::into(Language::Latin), "Latin");
    assert_eq!(Into::<&str>::into(Language::Phyrexian), "Phyrexian");
    assert_eq!(Into::<&str>::into(Language::PortugueseBrazil), "Portuguese (Brazil)");
    assert_eq!(Into::<&str>::into(Language::Russian), "Russian");
    assert_eq!(Into::<&str>::into(Language::Sanskrit), "Sanskrit");
    assert_eq!(Into::<&str>::into(Language::Spanish), "Spanish");
}

#[test]
fn language_test_test_conversion_from_string() {
    // Test reference.
    assert_eq!(TryInto::<Language>::try_into("Ancient Greek"), Ok(Language::AncientGreek));
    assert_eq!(TryInto::<Language>::try_into("Arabic"), Ok(Language::Arabic));
    assert_eq!(TryInto::<Language>::try_into("Chinese Simplified"), Ok(Language::ChineseSimplified));
    assert_eq!(TryInto::<Language>::try_into("Chinese Traditional"), Ok(Language::ChineseTraditional));
    assert_eq!(TryInto::<Language>::try_into("English American"), Ok(Language::EnglishAmerican));
    assert_eq!(TryInto::<Language>::try_into("French"), Ok(Language::French));
    assert_eq!(TryInto::<Language>::try_into("German"), Ok(Language::German));
    assert_eq!(TryInto::<Language>::try_into("Hebrew"), Ok(Language::Hebrew));
    assert_eq!(TryInto::<Language>::try_into("Italian"), Ok(Language::Italian));
    assert_eq!(TryInto::<Language>::try_into("Japanese"), Ok(Language::Japanese));
    assert_eq!(TryInto::<Language>::try_into("Korean"), Ok(Language::Korean));
    assert_eq!(TryInto::<Language>::try_into("Latin"), Ok(Language::Latin));
    assert_eq!(TryInto::<Language>::try_into("Phyrexian"), Ok(Language::Phyrexian));
    assert_eq!(TryInto::<Language>::try_into("Portuguese (Brazil)"), Ok(Language::PortugueseBrazil));
    assert_eq!(TryInto::<Language>::try_into("Russian"), Ok(Language::Russian));
    assert_eq!(TryInto::<Language>::try_into("Sanskrit"), Ok(Language::Sanskrit));
    assert_eq!(TryInto::<Language>::try_into("Spanish"), Ok(Language::Spanish));
    // Test owned.
    assert_eq!(TryInto::<Language>::try_into("Ancient Greek".to_string()), Ok(Language::AncientGreek));
    assert_eq!(TryInto::<Language>::try_into("Arabic".to_string()), Ok(Language::Arabic));
    assert_eq!(TryInto::<Language>::try_into("Chinese Simplified".to_string()), Ok(Language::ChineseSimplified));
    assert_eq!(TryInto::<Language>::try_into("Chinese Traditional".to_string()), Ok(Language::ChineseTraditional));
    assert_eq!(TryInto::<Language>::try_into("English American".to_string()), Ok(Language::EnglishAmerican));
    assert_eq!(TryInto::<Language>::try_into("French".to_string()), Ok(Language::French));
    assert_eq!(TryInto::<Language>::try_into("German".to_string()), Ok(Language::German));
    assert_eq!(TryInto::<Language>::try_into("Hebrew".to_string()), Ok(Language::Hebrew));
    assert_eq!(TryInto::<Language>::try_into("Italian".to_string()), Ok(Language::Italian));
    assert_eq!(TryInto::<Language>::try_into("Japanese".to_string()), Ok(Language::Japanese));
    assert_eq!(TryInto::<Language>::try_into("Korean".to_string()), Ok(Language::Korean));
    assert_eq!(TryInto::<Language>::try_into("Latin".to_string()), Ok(Language::Latin));
    assert_eq!(TryInto::<Language>::try_into("Phyrexian".to_string()), Ok(Language::Phyrexian));
    assert_eq!(TryInto::<Language>::try_into("Portuguese (Brazil)".to_string()), Ok(Language::PortugueseBrazil));
    assert_eq!(TryInto::<Language>::try_into("Russian".to_string()), Ok(Language::Russian));
    assert_eq!(TryInto::<Language>::try_into("Sanskrit".to_string()), Ok(Language::Sanskrit));
    assert_eq!(TryInto::<Language>::try_into("Spanish".to_string()), Ok(Language::Spanish));
}

#[test]
fn localised_string_test_test_ordering() {
    let mut non_default = LocalisedString::new("B");
    non_default.set(Language::Italian, "Y");
    let mut unordered = vec![
        LocalisedString::new("T"),
        LocalisedString::new("Ac"),
        non_default.clone(),
        LocalisedString::new("V"),
        LocalisedString::new("A"),
        LocalisedString::new("Ab"),
    ];
    let ordered = vec![
        LocalisedString::new("A"),
        LocalisedString::new("Ab"),
        LocalisedString::new("Ac"),
        non_default,
        LocalisedString::new("T"),
        LocalisedString::new("V"),
    ];
    assert_ne!(unordered, ordered);
    unordered.sort();
    assert_eq!(unordered, ordered);
}

#[test]
fn localised_string_test_test_conversion_from_string() {
    let test_string = "Test default";
    assert_eq!(test_string, Into::<LocalisedString>::into(test_string).get_default());
    assert_eq!(LocalisedString::new(test_string), Into::<LocalisedString>::into(test_string));
}

#[test]
fn test_get_default() {
    let test_default = "Test default";
    let test_italian = "Test italian";
    let mut test_localised_string = LocalisedString::new(test_default);
    assert_eq!(test_default, test_localised_string.get_default());
    test_localised_string.set(Language::Italian, test_italian);
    assert_eq!(test_default, test_localised_string.get_default());
    test_localised_string.set(Language::default(), test_italian);
    assert_eq!(test_italian, test_localised_string.get_default());
}

#[test]
fn test_set() {
    let test_default = "Test default";
    let test_italian = "Test italian";
    let mut test_localised_string = LocalisedString::new(test_default);
    assert_eq!(test_default, test_localised_string.get_default());
    assert_eq!(None, test_localised_string.set(Language::Italian, test_italian));
    assert_eq!(test_default, test_localised_string.get_default());
    assert_eq!(Some(test_italian), test_localised_string.get_localised(Language::Italian));
    assert_eq!(
        Some(test_default.to_string()),
        test_localised_string.set(Language::default(), test_italian)
    );
    assert_eq!(test_italian, test_localised_string.get_default());
}

#[test]
fn test_get_localised() {
    let test_default = "Test default";
    let test_russian = "Test russian";
    let mut test_localised_string = LocalisedString::new(test_default);
    assert_eq!(Some(test_default), test_localised_string.get_localised(Language::default()));
    assert_eq!(None, test_localised_string.get_localised(Language::Russian));
    test_localised_string.set(Language::Russian, test_russian);
    assert_eq!(Some(test_default), test_localised_string.get_localised(Language::default()));
    assert_eq!(Some(test_russian), test_localised_string.get_localised(Language::Russian));
}

#[test]
fn test_get_localised_or_default() {
    let test_default = "Test default";
    let test_russian = "Test russian";
    let mut test_localised_string = LocalisedString::new(test_default);
    assert_eq!(test_default, test_localised_string.get_localised_or_default(Language::default()));
    assert_eq!(test_default, test_localised_string.get_localised_or_default(Language::Russian));
    test_localised_string.set(Language::Russian, test_russian);
    assert_eq!(test_default, test_localised_string.get_localised_or_default(Language::default()));
    assert_eq!(test_russian, test_localised_string.get_localised_or_default(Language::Russian));
}

#[test]
fn language_codes_and_names() {
    assert_eq!(Language::AncientGreek.code(), "grc");
    assert_eq!(Language::ChineseSimplified.code(), "zhs");
    assert_eq!(Language::ChineseTraditional.code(), "zht");
    assert_eq!(Language::EnglishAmerican.code(), "en");
    assert_eq!(Language::PortugueseBrazil.code(), "pt");
    assert_eq!(Language::Spanish.code(), "es");
    assert_eq!(Language::default(), Language::EnglishAmerican);
    assert_eq!(Language::Hebrew.to_string(), "Hebrew");
    assert_eq!(Language::Hebrew.as_str(), "Hebrew");
    assert_eq!(Into::<&str>::into(&Language::Korean), "Korean");
    assert_eq!(Language::AncientGreek.index(), 0);
    assert_eq!(Language::Spanish.index(), 16);
    assert!(Language::Arabic < Language::French);
    assert!(Language::Spanish > Language::Sanskrit);
    assert_eq!(
        Language::parse("Klingon"),
        Err("Klingon is not a valid language.".to_string())
    );
    assert_eq!(
        TryInto::<Language>::try_into("english american"),
        Err("english american is not a valid language.".to_string())
    );
}

#[test]
fn setting_a_language_again_returns_the_old_text() {
    let mut text = LocalisedString::new("Island");
    assert_eq!(text.set(Language::German, "Insel"), None);
    assert_eq!(text.set(Language::German, "Eiland"), Some("Insel".to_string()));
    assert_eq!(text.get_localised(Language::German), Some("Eiland"));
    assert_eq!(text.get_localised(Language::French), None);
    assert_eq!(text.get_localised_or_default(Language::French), "Island");
    assert_eq!(LocalisedString::from("Island".to_string()).get_default(), "Island");
}

#[test]
fn localised_string_is_written_in_the_order_of_the_languages() {
    let mut text = LocalisedString::new("Island");
    assert_eq!(text.to_string(), "[English American: \"Island\"]");
    text.set(Language::Spanish, "Isla");
    text.set(Language::German, "Insel");
    text.set(Language::AncientGreek, "νῆσος");
    assert_eq!(
        text.to_string(),
        "[Ancient Greek: \"νῆσος\", English American: \"Island\", German: \"Insel\", Spanish: \"Isla\"]"
    );
    assert_eq!(LocalisedString::new("").to_string(), "[English American: \"\"]");
}

#[test]
fn languages_are_found_by_their_place() {
    assert_eq!(Language::from_index(0), Some(Language::AncientGreek));
    assert_eq!(Language::from_index(4), Some(Language::EnglishAmerican));
    assert_eq!(Language::from_index(16), Some(Language::Spanish));
    assert_eq!(Language::from_index(17), None);
    assert_eq!(Language::from_index(255), None);
    for index in 0..17u8 {
        assert_eq!(Language::from_index(index).unwrap().index(), index);
    }
}

#[test]
fn localised_strings_are_ordered_by_their_default() {
    let mut first = LocalisedString::new("Forest");
    first.set(Language::German, "Wald");
    let second = LocalisedString::new("Island");
    assert!(first.precedes(&second));
    assert!(!second.precedes(&first));
    assert!(!first.precedes(&first));
    assert!(LocalisedString::new("A").precedes(&LocalisedString::new("Ab")));
    assert!(!LocalisedString::new("Ab").precedes(&LocalisedString::new("A")));
    assert!(LocalisedString::new("").precedes(&LocalisedString::new("a")));
    assert!(LocalisedString::new("Z").precedes(&LocalisedString::new("a")));
}
