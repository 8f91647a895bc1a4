use phyrexian_library::magic::colour::{
    split_mana_string, Colour, ColourSet, GenericCost, Mana, ManaCost,
};
use phyrexian_library::utility::text::{
    decimal_string, parse_signed, parse_unsigned, same_text, split_once, strip_prefix,
    strip_suffix,
};
use std::cmp::Ordering;
use std::convert::TryFrom;

#[test]
fn test_split_mana_string() {
    {
        // Test a correct string.
        let correct_mana_string = "{2}{R}{U}";
        assert_eq!(split_mana_string(correct_mana_string), vec!("{2}", "{R}", "{U}"));
    }
    {
        // Test an incorrect string.
        let incorrect_mana_string = "test{2}{{R}}{U}fails";
        assert_eq!(
            split_mana_string(incorrect_mana_string),
            vec!("test{2}", "{{R}", "}", "{U}", "fails")
        );
    }
    {
        // Test an empty string.
        let empty_mana_string = "";
        assert_eq!(split_mana_string(empty_mana_string), vec!(""));
    }
}

#[test]
fn colours_have_their_letters() {
    assert_eq!(Into::<&str>::into(Colour::Black), "B");
    assert_eq!(Into::<&str>::into(Colour::Blue), "U");
    assert_eq!(Into::<&str>::into(Colour::Green), "G");
    assert_eq!(Into::<&str>::into(&Colour::Red), "R");
    assert_eq!(Colour::White.to_string(), "W");
    assert_eq!(Colour::try_from("B"), Ok(Colour::Black));
    assert_eq!(Colour::try_from("U"), Ok(Colour::Blue));
    assert_eq!(Colour::try_from("G"), Ok(Colour::Green));
    assert_eq!(Colour::try_from("R".to_string()), Ok(Colour::Red));
    assert_eq!(Colour::try_from("W"), Ok(Colour::White));
    assert_eq!(Colour::try_from("b"), Err("b is not a valid colour.".to_string()));
    assert_eq!(Colour::try_from("BU"), Err("BU is not a valid colour.".to_string()));
}

#[test]
fn colour_set_counts_its_colours() {
    let mut colours = ColourSet::new();
    assert_eq!(0, colours.length());
    assert!(colours.is_colourless());
    assert!(!colours.is_monocoloured());
    assert!(!colours.is_multicoloured());
    assert!(!colours.has(Colour::Blue));
    assert!(colours.add(Colour::Blue));
    assert!(colours.has(Colour::Blue));
    assert!(!colours.add(Colour::Blue));
    assert_eq!(1, colours.length());
    assert!(colours.is_monocoloured());
    assert!(!colours.is_colourless());
    colours.add(Colour::Black);
    assert_eq!(2, colours.length());
    assert!(colours.is_multicoloured());
    assert!(!colours.is_monocoloured());
    colours.add(Colour::Green);
    colours.add(Colour::Red);
    colours.add(Colour::White);
    assert_eq!(5, colours.length());
    assert_eq!(
        colours.colours(),
        vec![Colour::Black, Colour::Blue, Colour::Green, Colour::Red, Colour::White]
    );
    assert_eq!(ColourSet::default(), ColourSet::new());
}

#[test]
fn colour_set_knows_its_subsets() {
    let superset = ColourSet::from_colours(&[Colour::Black, Colour::Blue]);
    let subset = ColourSet::from_colours(&[Colour::Black]);
    let other = ColourSet::from_colours(&[Colour::Black, Colour::Red]);
    assert!(superset.is_subset(&subset));
    assert!(superset.is_subset(&superset));
    assert!(superset.is_subset(&ColourSet::new()));
    assert!(!subset.is_subset(&superset));
    assert!(!superset.is_subset(&other));
    assert_eq!(
        ColourSet::from_colours(&[Colour::Red, Colour::Black, Colour::Red]),
        other
    );
}

#[test]
fn colour_sets_have_their_names() {
    let name = |colours: &[Colour]| ColourSet::from_colours(colours).to_string();
    let black = Colour::Black;
    let blue = Colour::Blue;
    let green = Colour::Green;
    let red = Colour::Red;
    let white = Colour::White;
    assert_eq!(name(&[]), "Colorless");
    assert_eq!(name(&[black]), "Black");
    assert_eq!(name(&[blue]), "Blue");
    assert_eq!(name(&[green]), "Green");
    assert_eq!(name(&[red]), "Red");
    assert_eq!(name(&[white]), "White");
    assert_eq!(name(&[black, blue]), "House Dimir");
    assert_eq!(name(&[black, green]), "Golgari Swarm");
    assert_eq!(name(&[black, red]), "Cult of Rakdos");
    assert_eq!(name(&[black, white]), "Orzhov Syndicate");
    assert_eq!(name(&[blue, green]), "Simic Combine");
    assert_eq!(name(&[blue, red]), "Izzet League");
    assert_eq!(name(&[blue, white]), "Azorius Senate");
    assert_eq!(name(&[green, red]), "Gruul Clans");
    assert_eq!(name(&[green, white]), "Selesnya Conclave");
    assert_eq!(name(&[red, white]), "Boros Legion");
    assert_eq!(name(&[green, red, white]), "Naya");
    assert_eq!(name(&[blue, red, white]), "Jeskai");
    assert_eq!(name(&[blue, green, white]), "Bant");
    assert_eq!(name(&[blue, green, red]), "Temur");
    assert_eq!(name(&[black, red, white]), "Mardu");
    assert_eq!(name(&[black, green, white]), "Abzan");
    assert_eq!(name(&[black, green, red]), "Jund");
    assert_eq!(name(&[black, blue, white]), "Esper");
    assert_eq!(name(&[black, blue, red]), "Grixis");
    assert_eq!(name(&[black, blue, green]), "Sultai");
    assert_eq!(name(&[blue, green, red, white]), "Altruism");
    assert_eq!(name(&[black, green, red, white]), "Aggression");
    assert_eq!(name(&[black, blue, red, white]), "Artifice");
    assert_eq!(name(&[black, blue, green, white]), "Growth");
    assert_eq!(name(&[black, blue, green, red]), "Chaos");
    assert_eq!(name(&[black, blue, green, red, white]), "WUBRG");
}

#[test]
fn generic_costs_are_read_and_written() {
    assert_eq!(GenericCost::try_from("∞"), Ok(GenericCost::Infinity));
    assert_eq!(GenericCost::try_from("½"), Ok(GenericCost::Half));
    assert_eq!(GenericCost::try_from("2"), Ok(GenericCost::Integer(2)));
    assert_eq!(GenericCost::try_from("-3"), Ok(GenericCost::Integer(-3)));
    assert_eq!(GenericCost::try_from("+15"), Ok(GenericCost::Integer(15)));
    assert_eq!(GenericCost::try_from("2147483647".to_string()), Ok(GenericCost::Integer(i32::MAX)));
    assert_eq!(GenericCost::try_from("-2147483648"), Ok(GenericCost::Integer(i32::MIN)));
    assert_eq!(GenericCost::try_from("X"), Ok(GenericCost::Variable("X".to_string())));
    assert_eq!(GenericCost::try_from("Y"), Ok(GenericCost::Variable("Y".to_string())));
    assert_eq!(GenericCost::try_from("Z"), Ok(GenericCost::Variable("Z".to_string())));
    assert_eq!(
        GenericCost::try_from("W"),
        Err("W is not a valid generic cost.".to_string())
    );
    assert_eq!(
        GenericCost::try_from("2147483648"),
        Err("2147483648 is not a valid generic cost.".to_string())
    );
    assert_eq!(GenericCost::to_integer("12"), Ok(GenericCost::Integer(12)));
    assert_eq!(GenericCost::to_integer("X"), Err(()));
    assert_eq!(GenericCost::to_variable("X"), Ok(GenericCost::Variable("X".to_string())));
    assert_eq!(GenericCost::to_variable("x"), Err(()));
    assert_eq!(GenericCost::Infinity.to_string(), "∞");
    assert_eq!(GenericCost::Half.to_string(), "½");
    assert_eq!(GenericCost::Integer(12).to_string(), "12");
    assert_eq!(GenericCost::Integer(-7).to_string(), "-7");
    assert_eq!(GenericCost::Integer(0).to_string(), "0");
    assert_eq!(GenericCost::Integer(i32::MIN).to_string(), "-2147483648");
    assert_eq!(GenericCost::Variable("X".to_string()).to_string(), "X");
}

#[test]
fn generic_costs_are_ordered_by_their_amount() {
    assert_eq!(GenericCost::Infinity.doubled_mana_cost(), None);
    assert_eq!(GenericCost::Half.doubled_mana_cost(), Some(1));
    assert_eq!(GenericCost::Integer(3).doubled_mana_cost(), Some(6));
    assert_eq!(GenericCost::Integer(i32::MIN).doubled_mana_cost(), Some(-4294967296));
    assert_eq!(GenericCost::Variable("X".to_string()).doubled_mana_cost(), Some(0));
    assert_eq!(GenericCost::Half.partial_cmp(&GenericCost::Integer(1)), Some(Ordering::Less));
    assert_eq!(GenericCost::Integer(1).partial_cmp(&GenericCost::Half), Some(Ordering::Greater));
    assert_eq!(
        GenericCost::Variable("X".to_string()).partial_cmp(&GenericCost::Integer(0)),
        Some(Ordering::Equal)
    );
    assert_eq!(
        GenericCost::Infinity.partial_cmp(&GenericCost::Integer(i32::MAX)),
        Some(Ordering::Greater)
    );
    assert_eq!(
        GenericCost::Infinity.partial_cmp(&GenericCost::Infinity),
        Some(Ordering::Equal)
    );
    assert!(GenericCost::Integer(2) < GenericCost::Integer(3));
    assert!(GenericCost::Integer(2) < GenericCost::Infinity);
}

#[test]
fn mana_is_read_from_text() {
    assert_eq!(Mana::try_from("{R}"), Ok(Mana::Coloured(Colour::Red)));
    assert_eq!(Mana::try_from("{C}"), Ok(Mana::Colourless));
    assert_eq!(Mana::try_from("{2}"), Ok(Mana::Generic(GenericCost::Integer(2))));
    assert_eq!(Mana::try_from("{X}"), Ok(Mana::Generic(GenericCost::Variable("X".to_string()))));
    assert_eq!(Mana::try_from("{∞}"), Ok(Mana::Generic(GenericCost::Infinity)));
    assert_eq!(Mana::try_from("{½}".to_string()), Ok(Mana::Generic(GenericCost::Half)));
    assert_eq!(Mana::try_from("{2/W}"), Ok(Mana::MonoHybrid(Colour::White)));
    assert_eq!(Mana::try_from("{G/U}"), Ok(Mana::DualHybrid(Colour::Green, Colour::Blue)));
    assert_eq!(Mana::try_from("{B/P}"), Ok(Mana::Phyrexian(Colour::Black)));
    assert_eq!(Mana::try_from("{HW}"), Ok(Mana::Half(Colour::White)));
    // The snow sign is read as colourless mana.
    assert_eq!(Mana::try_from("{S}"), Ok(Mana::Colourless));
    for wrong in ["R", "{R", "R}", "{}", "{", "}", "", "{Q}", "{2/}", "{2/Q}", "{G/U/B}", "{/P}", "{H}", "{{R}}", "{R/}", "{/R}"] {
        assert_eq!(Mana::try_from(wrong), Err(format!("{} is not valid mana.", wrong)));
    }
    assert_eq!(Mana::into_coloured("G"), Some(Mana::Coloured(Colour::Green)));
    assert_eq!(Mana::into_coloured("C"), None);
    assert_eq!(Mana::into_colourless("C"), Some(Mana::Colourless));
    assert_eq!(Mana::into_colourless("G"), None);
    assert_eq!(Mana::into_generic("7"), Some(Mana::Generic(GenericCost::Integer(7))));
    assert_eq!(Mana::into_generic("G"), None);
    assert_eq!(Mana::into_mono_hybrid("2/B"), Some(Mana::MonoHybrid(Colour::Black)));
    assert_eq!(Mana::into_mono_hybrid("3/B"), None);
    assert_eq!(Mana::into_dual_hybrid("R/W"), Some(Mana::DualHybrid(Colour::Red, Colour::White)));
    assert_eq!(Mana::into_dual_hybrid("RW"), None);
    assert_eq!(Mana::into_dual_hybrid("R/P"), None);
    assert_eq!(Mana::into_phyrexian("R/P"), Some(Mana::Phyrexian(Colour::Red)));
    assert_eq!(Mana::into_phyrexian("R/W"), None);
    assert_eq!(Mana::into_half("HR"), Some(Mana::Half(Colour::Red)));
    assert_eq!(Mana::into_half("R"), None);
    assert_eq!(Mana::into_snow("S"), Some(Mana::Colourless));
    assert_eq!(Mana::into_snow("s"), None);
}

#[test]
fn mana_is_written_as_text() {
    assert_eq!(Mana::Coloured(Colour::Red).to_string(), "{R}");
    assert_eq!(Mana::Colourless.to_string(), "{C}");
    assert_eq!(Mana::Generic(GenericCost::Integer(10)).to_string(), "{10}");
    assert_eq!(Mana::Generic(GenericCost::Infinity).to_string(), "{∞}");
    assert_eq!(Mana::MonoHybrid(Colour::Blue).to_string(), "{2/U}");
    assert_eq!(Mana::DualHybrid(Colour::Green, Colour::White).to_string(), "{G/W}");
    assert_eq!(Mana::Snow.to_string(), "{S}");
    assert_eq!(Mana::Phyrexian(Colour::Black).to_string(), "{B/P}");
    assert_eq!(Mana::Half(Colour::Red).to_string(), "{HR}");
    let cost = ManaCost::new(vec![
        Mana::Generic(GenericCost::Integer(2)),
        Mana::Coloured(Colour::Red),
        Mana::Coloured(Colour::Blue),
    ]);
    assert_eq!(cost.to_string(), "{2}{R}{U}");
    assert_eq!(ManaCost::new(Vec::new()).to_string(), "");
}

#[test]
fn mana_costs_add_up() {
    assert_eq!(Mana::Coloured(Colour::Red).doubled_mana_cost(), Some(2));
    assert_eq!(Mana::Colourless.doubled_mana_cost(), Some(2));
    assert_eq!(Mana::MonoHybrid(Colour::Red).doubled_mana_cost(), Some(4));
    assert_eq!(Mana::DualHybrid(Colour::Red, Colour::Blue).doubled_mana_cost(), Some(2));
    assert_eq!(Mana::Snow.doubled_mana_cost(), Some(2));
    assert_eq!(Mana::Phyrexian(Colour::Red).doubled_mana_cost(), Some(2));
    assert_eq!(Mana::Half(Colour::Red).doubled_mana_cost(), Some(1));
    assert_eq!(Mana::Generic(GenericCost::Integer(3)).doubled_mana_cost(), Some(6));
    let cost = ManaCost::new(vec![
        Mana::Generic(GenericCost::Integer(2)),
        Mana::Coloured(Colour::Red),
        Mana::Half(Colour::Blue),
        Mana::Generic(GenericCost::Variable("X".to_string())),
    ]);
    assert_eq!(cost.doubled_mana_cost(), Some(7));
    assert_eq!(ManaCost::new(Vec::new()).doubled_mana_cost(), Some(0));
    let endless = ManaCost::new(vec![
        Mana::Coloured(Colour::Red),
        Mana::Generic(GenericCost::Infinity),
        Mana::Coloured(Colour::Red),
    ]);
    assert_eq!(endless.doubled_mana_cost(), None);
}

#[test]
fn texts_are_compared_and_cut() {
    assert!(same_text("", ""));
    assert!(same_text("Phyrexian", "Phyrexian"));
    assert!(!same_text("Phyrexian", "Phyrexia"));
    assert!(!same_text("a", "b"));
    assert!(same_text("∞½", "∞½"));
    assert_eq!(strip_prefix("2/R", "2/"), Some("R"));
    assert_eq!(strip_prefix("2/R", "3/"), None);
    assert_eq!(strip_prefix("2", "2/"), None);
    assert_eq!(strip_prefix("½x", "½"), Some("x"));
    assert_eq!(strip_prefix("abc", ""), Some("abc"));
    assert_eq!(strip_suffix("R/P", "/P"), Some("R"));
    assert_eq!(strip_suffix("R/P", "/Q"), None);
    assert_eq!(strip_suffix("P", "/P"), None);
    assert_eq!(strip_suffix("x∞", "∞"), Some("x"));
    assert_eq!(split_once("G/U", '/'), Some(("G", "U")));
    assert_eq!(split_once("G/U/B", '/'), Some(("G", "U/B")));
    assert_eq!(split_once("/", '/'), Some(("", "")));
    assert_eq!(split_once("GU", '/'), None);
}

#[test]
fn numbers_are_read_and_written() {
    assert_eq!(decimal_string(0), "0");
    assert_eq!(decimal_string(9), "9");
    assert_eq!(decimal_string(10), "10");
    assert_eq!(decimal_string(4096), "4096");
    assert_eq!(decimal_string(u64::MAX), "18446744073709551615");
    assert_eq!(parse_unsigned("0"), Some(0));
    assert_eq!(parse_unsigned("+0"), Some(0));
    assert_eq!(parse_unsigned("42"), Some(42));
    assert_eq!(parse_unsigned("000042"), Some(42));
    assert_eq!(parse_unsigned("18446744073709551615"), Some(u64::MAX));
    assert_eq!(parse_unsigned("18446744073709551616"), None);
    assert_eq!(parse_unsigned("99999999999999999999999"), None);
    assert_eq!(parse_unsigned("-1"), None);
    assert_eq!(parse_unsigned("++1"), None);
    assert_eq!(parse_unsigned("1a"), None);
    assert_eq!(parse_unsigned(""), None);
    assert_eq!(parse_unsigned("٣"), None);
    assert_eq!(parse_signed("0"), Some(0));
    assert_eq!(parse_signed("-0"), Some(0));
    assert_eq!(parse_signed("+12"), Some(12));
    assert_eq!(parse_signed("-12"), Some(-12));
    assert_eq!(parse_signed("2147483647"), Some(i32::MAX));
    assert_eq!(parse_signed("2147483648"), None);
    assert_eq!(parse_signed("-2147483648"), Some(i32::MIN));
    assert_eq!(parse_signed("-2147483649"), None);
    assert_eq!(parse_signed("-"), None);
    assert_eq!(parse_signed("+"), None);
    assert_eq!(parse_signed("+-1"), None);
    assert_eq!(parse_signed("1 "), None);
    assert_eq!(parse_signed(""), None);
}
