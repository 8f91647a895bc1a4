//! Languages and texts that exist in several of them.

use std::cmp::Ordering;
use std::collections::BTreeMap;
use vstd::prelude::*;
use vstd::std_specs::cmp::PartialOrdSpecImpl;
use vstd::std_specs::convert::{FromSpecImpl, TryFromSpecImpl};
use vstd::string::{StrSliceExecFns, StringExecFns};

use crate::utility::text::{
    comes_before,
    lemma_text_order_is_strict,
    parts_at,
    same_text,
    text_before,
};

verus! {

/// The language of a Magic card.
#[derive(Clone, Copy, Debug, PartialEq, Eq, Structural, Hash, Ord)]
pub enum Language {
    /// Ancient Greek.
    AncientGreek,
    /// Arabic.
    Arabic,
    /// Simplified Chinese.
    ChineseSimplified,
    /// Traditional Chinese.
    ChineseTraditional,
    /// American English.
    EnglishAmerican,
    /// French.
    French,
    /// German.
    German,
    /// Hebrew.
    Hebrew,
    /// Italian.
    Italian,
    /// Japanese.
    Japanese,
    /// Korean.
    Korean,
    /// Latin.
    Latin,
    /// Phyrexian.
    Phyrexian,
    /// Brazilian Portuguese.
    PortugueseBrazil,
    /// Russian.
    Russian,
    /// Sanskrit.
    Sanskrit,
    /// Spanish.
    Spanish,
}

impl Language {
    /// The number by which languages are ordered.
    pub open spec fn rank(&self) -> u8 {
        match self {
            Language::AncientGreek => 0,
            Language::Arabic => 1,
            Language::ChineseSimplified => 2,
            Language::ChineseTraditional => 3,
            Language::EnglishAmerican => 4,
            Language::French => 5,
            Language::German => 6,
            Language::Hebrew => 7,
            Language::Italian => 8,
            Language::Japanese => 9,
            Language::Korean => 10,
            Language::Latin => 11,
            Language::Phyrexian => 12,
            Language::PortugueseBrazil => 13,
            Language::Russian => 14,
            Language::Sanskrit => 15,
            Language::Spanish => 16,
        }
    }

    /// The name of this language.
    pub open spec fn name(&self) -> Seq<char> {
        match self {
            Language::AncientGreek => "Ancient Greek"@,
            Language::Arabic => "Arabic"@,
            Language::ChineseSimplified => "Chinese Simplified"@,
            Language::ChineseTraditional => "Chinese Traditional"@,
            Language::EnglishAmerican => "English American"@,
            Language::French => "French"@,
            Language::German => "German"@,
            Language::Hebrew => "Hebrew"@,
            Language::Italian => "Italian"@,
            Language::Japanese => "Japanese"@,
            Language::Korean => "Korean"@,
            Language::Latin => "Latin"@,
            Language::Phyrexian => "Phyrexian"@,
            Language::PortugueseBrazil => "Portuguese (Brazil)"@,
            Language::Russian => "Russian"@,
            Language::Sanskrit => "Sanskrit"@,
            Language::Spanish => "Spanish"@,
        }
    }

    /// The language with the given name, if there is one.
    pub open spec fn named(name: Seq<char>) -> Option<Language> {
        if name == "Ancient Greek"@ {
            Some(Language::AncientGreek)
        } else if name == "Arabic"@ {
            Some(Language::Arabic)
        } else if name == "Chinese Simplified"@ {
            Some(Language::ChineseSimplified)
        } else if name == "Chinese Traditional"@ {
            Some(Language::ChineseTraditional)
        } else if name == "English American"@ {
            Some(Language::EnglishAmerican)
        } else if name == "French"@ {
            Some(Language::French)
        } else if name == "German"@ {
            Some(Language::German)
        } else if name == "Hebrew"@ {
            Some(Language::Hebrew)
        } else if name == "Italian"@ {
            Some(Language::Italian)
        } else if name == "Japanese"@ {
            Some(Language::Japanese)
        } else if name == "Korean"@ {
            Some(Language::Korean)
        } else if name == "Latin"@ {
            Some(Language::Latin)
        } else if name == "Phyrexian"@ {
            Some(Language::Phyrexian)
        } else if name == "Portuguese (Brazil)"@ {
            Some(Language::PortugueseBrazil)
        } else if name == "Russian"@ {
            Some(Language::Russian)
        } else if name == "Sanskrit"@ {
            Some(Language::Sanskrit)
        } else if name == "Spanish"@ {
            Some(Language::Spanish)
        } else {
            None
        }
    }

    /// The place of this language in the order of the languages, which is the order of their names.
    pub fn index(&self) -> (number: u8)
        ensures
            number == self.rank(),
    {
        match self {
            Language::AncientGreek => 0,
            Language::Arabic => 1,
            Language::ChineseSimplified => 2,
            Language::ChineseTraditional => 3,
            Language::EnglishAmerican => 4,
            Language::French => 5,
            Language::German => 6,
            Language::Hebrew => 7,
            Language::Italian => 8,
            Language::Japanese => 9,
            Language::Korean => 10,
            Language::Latin => 11,
            Language::Phyrexian => 12,
            Language::PortugueseBrazil => 13,
            Language::Russian => 14,
            Language::Sanskrit => 15,
            Language::Spanish => 16,
        }
    }

    /// The name of this language.
    pub fn as_str(&self) -> (name: &'static str)
        ensures
            name@ == self.name(),
    {
        match self {
            Language::AncientGreek => "Ancient Greek",
            Language::Arabic => "Arabic",
            Language::ChineseSimplified => "Chinese Simplified",
            Language::ChineseTraditional => "Chinese Traditional",
            Language::EnglishAmerican => "English American",
            Language::French => "French",
            Language::German => "German",
            Language::Hebrew => "Hebrew",
            Language::Italian => "Italian",
            Language::Japanese => "Japanese",
            Language::Korean => "Korean",
            Language::Latin => "Latin",
            Language::Phyrexian => "Phyrexian",
            Language::PortugueseBrazil => "Portuguese (Brazil)",
            Language::Russian => "Russian",
            Language::Sanskrit => "Sanskrit",
            Language::Spanish => "Spanish",
        }
    }

    /// Writes the name of this language.
    pub fn to_string(&self) -> (name: String)
        ensures
            name@ == self.name(),
    {
        String::from_str(self.as_str())
    }

    /// Reads the name of a language. A text that is no such name is answered
    /// with a message that says so.
    pub fn parse(value: &str) -> (language: Result<Language, String>)
        ensures
            match language {
                Ok(found) => Self::named(value@) == Some(found),
                Err(message) => Self::named(value@) is None && message@ == value@
                    + " is not a valid language."@,
            },
    {
        if same_text(value, "Ancient Greek") {
            Ok(Language::AncientGreek)
        } else if same_text(value, "Arabic") {
            Ok(Language::Arabic)
        } else if same_text(value, "Chinese Simplified") {
            Ok(Language::ChineseSimplified)
        } else if same_text(value, "Chinese Traditional") {
            Ok(Language::ChineseTraditional)
        } else if same_text(value, "English American") {
            Ok(Language::EnglishAmerican)
        } else if same_text(value, "French") {
            Ok(Language::French)
        } else if same_text(value, "German") {
            Ok(Language::German)
        } else if same_text(value, "Hebrew") {
            Ok(Language::Hebrew)
        } else if same_text(value, "Italian") {
            Ok(Language::Italian)
        } else if same_text(value, "Japanese") {
            Ok(Language::Japanese)
        } else if same_text(value, "Korean") {
            Ok(Language::Korean)
        } else if same_text(value, "Latin") {
            Ok(Language::Latin)
        } else if same_text(value, "Phyrexian") {
            Ok(Language::Phyrexian)
        } else if same_text(value, "Portuguese (Brazil)") {
            Ok(Language::PortugueseBrazil)
        } else if same_text(value, "Russian") {
            Ok(Language::Russian)
        } else if same_text(value, "Sanskrit") {
            Ok(Language::Sanskrit)
        } else if same_text(value, "Spanish") {
            Ok(Language::Spanish)
        } else {
            let mut message = String::from_str(value);
            message.append(" is not a valid language.");
            Err(message)
        }
    }

    /// The code of this language.
    pub open spec fn code_text(&self) -> Seq<char> {
        match self {
            Language::AncientGreek => "grc"@,
            Language::Arabic => "ar"@,
            Language::ChineseSimplified => "zhs"@,
            Language::ChineseTraditional => "zht"@,
            Language::EnglishAmerican => "en"@,
            Language::French => "fr"@,
            Language::German => "de"@,
            Language::Hebrew => "he"@,
            Language::Italian => "it"@,
            Language::Japanese => "ja"@,
            Language::Korean => "ko"@,
            Language::Latin => "la"@,
            Language::Phyrexian => "ph"@,
            Language::PortugueseBrazil => "pt"@,
            Language::Russian => "ru"@,
            Language::Sanskrit => "sa"@,
            Language::Spanish => "es"@,
        }
    }

    /// Returns the language code.
    pub fn code(&self) -> (code: &'static str)
        ensures
            code@ == self.code_text(),
    {
        match self {
            Language::AncientGreek => "grc",
            Language::Arabic => "ar",
            Language::ChineseSimplified => "zhs",
            Language::ChineseTraditional => "zht",
            Language::EnglishAmerican => "en",
            Language::French => "fr",
            Language::German => "de",
            Language::Hebrew => "he",
            Language::Italian => "it",
            Language::Japanese => "ja",
            Language::Korean => "ko",
            Language::Latin => "la",
            Language::Phyrexian => "ph",
            Language::PortugueseBrazil => "pt",
            Language::Russian => "ru",
            Language::Sanskrit => "sa",
            Language::Spanish => "es",
        }
    }
    /// The language at the place `index` in the order of the languages, if
    /// there is one.
    pub open spec fn at(index: int) -> Option<Language> {
        if index == 0 {
            Some(Language::AncientGreek)
        } else if index == 1 {
            Some(Language::Arabic)
        } else if index == 2 {
            Some(Language::ChineseSimplified)
        } else if index == 3 {
            Some(Language::ChineseTraditional)
        } else if index == 4 {
            Some(Language::EnglishAmerican)
        } else if index == 5 {
            Some(Language::French)
        } else if index == 6 {
            Some(Language::German)
        } else if index == 7 {
            Some(Language::Hebrew)
        } else if index == 8 {
            Some(Language::Italian)
        } else if index == 9 {
            Some(Language::Japanese)
        } else if index == 10 {
            Some(Language::Korean)
        } else if index == 11 {
            Some(Language::Latin)
        } else if index == 12 {
            Some(Language::Phyrexian)
        } else if index == 13 {
            Some(Language::PortugueseBrazil)
        } else if index == 14 {
            Some(Language::Russian)
        } else if index == 15 {
            Some(Language::Sanskrit)
        } else if index == 16 {
            Some(Language::Spanish)
        } else {
            None
        }
    }

    /// Returns the language at the place `index` in the order of the
    /// languages, if there is one.
    pub fn from_index(index: u8) -> (language: Option<Language>)
        ensures
            language == Self::at(index as int),
            language matches Some(found) ==> found.rank() == index,
            index < 17 <==> language is Some,
    {
        match index {
            0 => Some(Language::AncientGreek),
            1 => Some(Language::Arabic),
            2 => Some(Language::ChineseSimplified),
            3 => Some(Language::ChineseTraditional),
            4 => Some(Language::EnglishAmerican),
            5 => Some(Language::French),
            6 => Some(Language::German),
            7 => Some(Language::Hebrew),
            8 => Some(Language::Italian),
            9 => Some(Language::Japanese),
            10 => Some(Language::Korean),
            11 => Some(Language::Latin),
            12 => Some(Language::Phyrexian),
            13 => Some(Language::PortugueseBrazil),
            14 => Some(Language::Russian),
            15 => Some(Language::Sanskrit),
            16 => Some(Language::Spanish),
            _ => None,
        }
    }
}

impl Default for Language {
    fn default() -> (language: Self)
        ensures
            language == Language::EnglishAmerican,
    {
        Language::EnglishAmerican
    }
}

impl PartialOrd for Language {
    fn partial_cmp(&self, other: &Self) -> (order: Option<Ordering>) {
        let left = self.index();
        let right = other.index();
        if left < right {
            Some(Ordering::Less)
        } else if left == right {
            Some(Ordering::Equal)
        } else {
            Some(Ordering::Greater)
        }
    }
}

impl PartialOrdSpecImpl for Language {
    open spec fn obeys_partial_cmp_spec() -> bool {
        true
    }

    open spec fn partial_cmp_spec(&self, other: &Self) -> Option<Ordering> {
        if self.rank() < other.rank() {
            Some(Ordering::Less)
        } else if self.rank() == other.rank() {
            Some(Ordering::Equal)
        } else {
            Some(Ordering::Greater)
        }
    }
}

impl From<Language> for &'static str {
    fn from(language: Language) -> (name: Self) {
        match language {
            Language::AncientGreek => "Ancient Greek",
            Language::Arabic => "Arabic",
            Language::ChineseSimplified => "Chinese Simplified",
            Language::ChineseTraditional => "Chinese Traditional",
            Language::EnglishAmerican => "English American",
            Language::French => "French",
            Language::German => "German",
            Language::Hebrew => "Hebrew",
            Language::Italian => "Italian",
            Language::Japanese => "Japanese",
            Language::Korean => "Korean",
            Language::Latin => "Latin",
            Language::Phyrexian => "Phyrexian",
            Language::PortugueseBrazil => "Portuguese (Brazil)",
            Language::Russian => "Russian",
            Language::Sanskrit => "Sanskrit",
            Language::Spanish => "Spanish",
        }
    }
}

impl FromSpecImpl<Language> for &'static str {
    open spec fn obeys_from_spec() -> bool {
        true
    }

    open spec fn from_spec(language: Language) -> Self {
        match language {
            Language::AncientGreek => "Ancient Greek",
            Language::Arabic => "Arabic",
            Language::ChineseSimplified => "Chinese Simplified",
            Language::ChineseTraditional => "Chinese Traditional",
            Language::EnglishAmerican => "English American",
            Language::French => "French",
            Language::German => "German",
            Language::Hebrew => "Hebrew",
            Language::Italian => "Italian",
            Language::Japanese => "Japanese",
            Language::Korean => "Korean",
            Language::Latin => "Latin",
            Language::Phyrexian => "Phyrexian",
            Language::PortugueseBrazil => "Portuguese (Brazil)",
            Language::Russian => "Russian",
            Language::Sanskrit => "Sanskrit",
            Language::Spanish => "Spanish",
        }
    }
}

impl From<&Language> for &'static str {
    fn from(language: &Language) -> (name: Self) {
        match language {
            Language::AncientGreek => "Ancient Greek",
            Language::Arabic => "Arabic",
            Language::ChineseSimplified => "Chinese Simplified",
            Language::ChineseTraditional => "Chinese Traditional",
            Language::EnglishAmerican => "English American",
            Language::French => "French",
            Language::German => "German",
            Language::Hebrew => "Hebrew",
            Language::Italian => "Italian",
            Language::Japanese => "Japanese",
            Language::Korean => "Korean",
            Language::Latin => "Latin",
            Language::Phyrexian => "Phyrexian",
            Language::PortugueseBrazil => "Portuguese (Brazil)",
            Language::Russian => "Russian",
            Language::Sanskrit => "Sanskrit",
            Language::Spanish => "Spanish",
        }
    }
}

impl FromSpecImpl<&Language> for &'static str {
    open spec fn obeys_from_spec() -> bool {
        true
    }

    open spec fn from_spec(language: &Language) -> Self {
        match language {
            Language::AncientGreek => "Ancient Greek",
            Language::Arabic => "Arabic",
            Language::ChineseSimplified => "Chinese Simplified",
            Language::ChineseTraditional => "Chinese Traditional",
            Language::EnglishAmerican => "English American",
            Language::French => "French",
            Language::German => "German",
            Language::Hebrew => "Hebrew",
            Language::Italian => "Italian",
            Language::Japanese => "Japanese",
            Language::Korean => "Korean",
            Language::Latin => "Latin",
            Language::Phyrexian => "Phyrexian",
            Language::PortugueseBrazil => "Portuguese (Brazil)",
            Language::Russian => "Russian",
            Language::Sanskrit => "Sanskrit",
            Language::Spanish => "Spanish",
        }
    }
}

impl TryFrom<&str> for Language {
    type Error = String;

    fn try_from(value: &str) -> (language: Result<Self, String>)
        ensures
            match language {
                Ok(found) => Self::named(value@) == Some(found),
                Err(message) => Self::named(value@) is None && message@ == value@
                    + " is not a valid language."@,
            },
    {
        Language::parse(value)
    }
}

impl TryFromSpecImpl<&str> for Language {
    open spec fn obeys_try_from_spec() -> bool {
        false
    }

    open spec fn try_from_spec(value: &str) -> Result<Self, String> {
        arbitrary()
    }
}

impl TryFrom<String> for Language {
    type Error = String;

    fn try_from(value: String) -> (language: Result<Self, String>)
        ensures
            match language {
                Ok(found) => Self::named(value@) == Some(found),
                Err(message) => Self::named(value@) is None && message@ == value@
                    + " is not a valid language."@,
            },
    {
        Language::parse(value.as_str())
    }
}

impl TryFromSpecImpl<String> for Language {
    open spec fn obeys_try_from_spec() -> bool {
        false
    }

    open spec fn try_from_spec(value: String) -> Result<Self, String> {
        arbitrary()
    }
}

/// The name of a language is read back as that language, and only the names of
/// the languages are read as one.
pub proof fn lemma_name_is_read_back(language: Language, text: Seq<char>)
    ensures
        Language::named(language.name()) == Some(language),
        Language::named(text) == Some(language) <==> text == language.name(),
{
    reveal_strlit("Ancient Greek");
    reveal_strlit("Arabic");
    reveal_strlit("Chinese Simplified");
    reveal_strlit("Chinese Traditional");
    reveal_strlit("English American");
    reveal_strlit("French");
    reveal_strlit("German");
    reveal_strlit("Hebrew");
    reveal_strlit("Italian");
    reveal_strlit("Japanese");
    reveal_strlit("Korean");
    reveal_strlit("Latin");
    reveal_strlit("Phyrexian");
    reveal_strlit("Portuguese (Brazil)");
    reveal_strlit("Russian");
    reveal_strlit("Sanskrit");
    reveal_strlit("Spanish");
    assert("Ancient Greek"@.len() == 13);
    assert("Arabic"@.len() == 6);
    assert("Chinese Simplified"@.len() == 18);
    assert("Chinese Traditional"@.len() == 19);
    assert("English American"@.len() == 16);
    assert("French"@.len() == 6);
    assert("German"@.len() == 6);
    assert("Hebrew"@.len() == 6);
    assert("Italian"@.len() == 7);
    assert("Japanese"@.len() == 8);
    assert("Korean"@.len() == 6);
    assert("Latin"@.len() == 5);
    assert("Phyrexian"@.len() == 9);
    assert("Portuguese (Brazil)"@.len() == 19);
    assert("Russian"@.len() == 7);
    assert("Sanskrit"@.len() == 8);
    assert("Spanish"@.len() == 7);
    assert("Arabic"@[0] != "French"@[0]);
    assert("Arabic"@[0] != "German"@[0]);
    assert("Arabic"@[0] != "Hebrew"@[0]);
    assert("Arabic"@[0] != "Korean"@[0]);
    assert("Chinese Traditional"@[0] != "Portuguese (Brazil)"@[0]);
    assert("French"@[0] != "German"@[0]);
    assert("French"@[0] != "Hebrew"@[0]);
    assert("French"@[0] != "Korean"@[0]);
    assert("German"@[0] != "Hebrew"@[0]);
    assert("German"@[0] != "Korean"@[0]);
    assert("Hebrew"@[0] != "Korean"@[0]);
    assert("Italian"@[0] != "Russian"@[0]);
    assert("Italian"@[0] != "Spanish"@[0]);
    assert("Japanese"@[0] != "Sanskrit"@[0]);
    assert("Russian"@[0] != "Spanish"@[0]);
}

/// The languages are ordered by their numbers, and no two of them share a
/// number.
pub proof fn lemma_order_is_total(first: Language, second: Language)
    ensures
        first.rank() == second.rank() <==> first == second,
        first.rank() < second.rank() || first.rank() > second.rank() || first == second,
{
}

/// A language that comes later in the order has a name that comes later
/// in the order of texts.
proof fn lemma_later_language_has_later_name(first: Language, second: Language)
    requires
        first.rank() < second.rank(),
    ensures
        text_before(first.name(), second.name()),
{
    reveal_strlit("Ancient Greek");
    reveal_strlit("Arabic");
    reveal_strlit("Chinese Simplified");
    reveal_strlit("Chinese Traditional");
    reveal_strlit("English American");
    reveal_strlit("French");
    reveal_strlit("German");
    reveal_strlit("Hebrew");
    reveal_strlit("Italian");
    reveal_strlit("Japanese");
    reveal_strlit("Korean");
    reveal_strlit("Latin");
    reveal_strlit("Phyrexian");
    reveal_strlit("Portuguese (Brazil)");
    reveal_strlit("Russian");
    reveal_strlit("Sanskrit");
    reveal_strlit("Spanish");
    assert("Ancient Greek"@.len() == 13);
    assert("Arabic"@.len() == 6);
    assert("Chinese Simplified"@.len() == 18);
    assert("Chinese Traditional"@.len() == 19);
    assert("English American"@.len() == 16);
    assert("French"@.len() == 6);
    assert("German"@.len() == 6);
    assert("Hebrew"@.len() == 6);
    assert("Italian"@.len() == 7);
    assert("Japanese"@.len() == 8);
    assert("Korean"@.len() == 6);
    assert("Latin"@.len() == 5);
    assert("Phyrexian"@.len() == 9);
    assert("Portuguese (Brazil)"@.len() == 19);
    assert("Russian"@.len() == 7);
    assert("Sanskrit"@.len() == 8);
    assert("Spanish"@.len() == 7);
    let left = first.name();
    let right = second.name();
    match (first, second) {
        (Language::AncientGreek, Language::Arabic) => {
            assert(left.take(1) =~= right.take(1));
            assert(parts_at(left, right, 1));
        },
        (Language::AncientGreek, Language::ChineseSimplified) => {
            assert(left.take(0) =~= right.take(0));
            assert(parts_at(left, right, 0));
        },
        (Language::AncientGreek, Language::ChineseTraditional) => {
            assert(left.take(0) =~= right.take(0));
            assert(parts_at(left, right, 0));
        },
        (Language::AncientGreek, Language::EnglishAmerican) => {
            assert(left.take(0) =~= right.take(0));
            assert(parts_at(left, right, 0));
        },
        (Language::AncientGreek, Language::French) => {
            assert(left.take(0) =~= right.take(0));
            assert(parts_at(left, right, 0));
        },
        (Language::AncientGreek, Language::German) => {
            assert(left.take(0) =~= right.take(0));
            assert(parts_at(left, right, 0));
        },
        (Language::AncientGreek, Language::Hebrew) => {
            assert(left.take(0) =~= right.take(0));
            assert(parts_at(left, right, 0));
        },
        (Language::AncientGreek, Language::Italian) => {
            assert(left.take(0) =~= right.take(0));
            assert(parts_at(left, right, 0));
        },
        (Language::AncientGreek, Language::Japanese) => {
            assert(left.take(0) =~= right.take(0));
            assert(parts_at(left, right, 0));
        },
        (Language::AncientGreek, Language::Korean) => {
            assert(left.take(0) =~= right.take(0));
            assert(parts_at(left, right, 0));
        },
        (Language::AncientGreek, Language::Latin) => {
            assert(left.take(0) =~= right.take(0));
            assert(parts_at(left, right, 0));
        },
        (Language::AncientGreek, Language::Phyrexian) => {
            assert(left.take(0) =~= right.take(0));
            assert(parts_at(left, right, 0));
        },
        (Language::AncientGreek, Language::PortugueseBrazil) => {
            assert(left.take(0) =~= right.take(0));
            assert(parts_at(left, right, 0));
        },
        (Language::AncientGreek, Language::Russian) => {
            assert(left.take(0) =~= right.take(0));
            assert(parts_at(left, right, 0));
        },
        (Language::AncientGreek, Language::Sanskrit) => {
            assert(left.take(0) =~= right.take(0));
            assert(parts_at(left, right, 0));
        },
        (Language::AncientGreek, Language::Spanish) => {
            assert(left.take(0) =~= right.take(0));
            assert(parts_at(left, right, 0));
        },
        (Language::Arabic, Language::ChineseSimplified) => {
            assert(left.take(0) =~= right.take(0));
            assert(parts_at(left, right, 0));
        },
        (Language::Arabic, Language::ChineseTraditional) => {
            assert(left.take(0) =~= right.take(0));
            assert(parts_at(left, right, 0));
        },
        (Language::Arabic, Language::EnglishAmerican) => {
            assert(left.take(0) =~= right.take(0));
            assert(parts_at(left, right, 0));
        },
        (Language::Arabic, Language::French) => {
            assert(left.take(0) =~= right.take(0));
            assert(parts_at(left, right, 0));
        },
        (Language::Arabic, Language::German) => {
            assert(left.take(0) =~= right.take(0));
            assert(parts_at(left, right, 0));
        },
        (Language::Arabic, Language::Hebrew) => {
            assert(left.take(0) =~= right.take(0));
            assert(parts_at(left, right, 0));
        },
        (Language::Arabic, Language::Italian) => {
            assert(left.take(0) =~= right.take(0));
            assert(parts_at(left, right, 0));
        },
        (Language::Arabic, Language::Japanese) => {
            assert(left.take(0) =~= right.take(0));
            assert(parts_at(left, right, 0));
        },
        (Language::Arabic, Language::Korean) => {
            assert(left.take(0) =~= right.take(0));
            assert(parts_at(left, right, 0));
        },
        (Language::Arabic, Language::Latin) => {
            assert(left.take(0) =~= right.take(0));
            assert(parts_at(left, right, 0));
        },
        (Language::Arabic, Language::Phyrexian) => {
            assert(left.take(0) =~= right.take(0));
            assert(parts_at(left, right, 0));
        },
        (Language::Arabic, Language::PortugueseBrazil) => {
            assert(left.take(0) =~= right.take(0));
            assert(parts_at(left, right, 0));
        },
        (Language::Arabic, Language::Russian) => {
            assert(left.take(0) =~= right.take(0));
            assert(parts_at(left, right, 0));
        },
        (Language::Arabic, Language::Sanskrit) => {
            assert(left.take(0) =~= right.take(0));
            assert(parts_at(left, right, 0));
        },
        (Language::Arabic, Language::Spanish) => {
            assert(left.take(0) =~= right.take(0));
            assert(parts_at(left, right, 0));
        },
        (Language::ChineseSimplified, Language::ChineseTraditional) => {
            assert(left.take(8) =~= right.take(8));
            assert(parts_at(left, right, 8));
        },
        (Language::ChineseSimplified, Language::EnglishAmerican) => {
            assert(left.take(0) =~= right.take(0));
            assert(parts_at(left, right, 0));
        },
        (Language::ChineseSimplified, Language::French) => {
            assert(left.take(0) =~= right.take(0));
            assert(parts_at(left, right, 0));
        },
        (Language::ChineseSimplified, Language::German) => {
            assert(left.take(0) =~= right.take(0));
            assert(parts_at(left, right, 0));
        },
        (Language::ChineseSimplified, Language::Hebrew) => {
            assert(left.take(0) =~= right.take(0));
            assert(parts_at(left, right, 0));
        },
        (Language::ChineseSimplified, Language::Italian) => {
            assert(left.take(0) =~= right.take(0));
            assert(parts_at(left, right, 0));
        },
        (Language::ChineseSimplified, Language::Japanese) => {
            assert(left.take(0) =~= right.take(0));
            assert(parts_at(left, right, 0));
        },
        (Language::ChineseSimplified, Language::Korean) => {
            assert(left.take(0) =~= right.take(0));
            assert(parts_at(left, right, 0));
        },
        (Language::ChineseSimplified, Language::Latin) => {
            assert(left.take(0) =~= right.take(0));
            assert(parts_at(left, right, 0));
        },
        (Language::ChineseSimplified, Language::Phyrexian) => {
            assert(left.take(0) =~= right.take(0));
            assert(parts_at(left, right, 0));
        },
        (Language::ChineseSimplified, Language::PortugueseBrazil) => {
            assert(left.take(0) =~= right.take(0));
            assert(parts_at(left, right, 0));
        },
        (Language::ChineseSimplified, Language::Russian) => {
            assert(left.take(0) =~= right.take(0));
            assert(parts_at(left, right, 0));
        },
        (Language::ChineseSimplified, Language::Sanskrit) => {
            assert(left.take(0) =~= right.take(0));
            assert(parts_at(left, right, 0));
        },
        (Language::ChineseSimplified, Language::Spanish) => {
            assert(left.take(0) =~= right.take(0));
            assert(parts_at(left, right, 0));
        },
        (Language::ChineseTraditional, Language::EnglishAmerican) => {
            assert(left.take(0) =~= right.take(0));
            assert(parts_at(left, right, 0));
        },
        (Language::ChineseTraditional, Language::French) => {
            assert(left.take(0) =~= right.take(0));
            assert(parts_at(left, right, 0));
        },
        (Language::ChineseTraditional, Language::German) => {
            assert(left.take(0) =~= right.take(0));
            assert(parts_at(left, right, 0));
        },
        (Language::ChineseTraditional, Language::Hebrew) => {
            assert(left.take(0) =~= right.take(0));
            assert(parts_at(left, right, 0));
        },
        (Language::ChineseTraditional, Language::Italian) => {
            assert(left.take(0) =~= right.take(0));
            assert(parts_at(left, right, 0));
        },
        (Language::ChineseTraditional, Language::Japanese) => {
            assert(left.take(0) =~= right.take(0));
            assert(parts_at(left, right, 0));
        },
        (Language::ChineseTraditional, Language::Korean) => {
            assert(left.take(0) =~= right.take(0));
            assert(parts_at(left, right, 0));
        },
        (Language::ChineseTraditional, Language::Latin) => {
            assert(left.take(0) =~= right.take(0));
            assert(parts_at(left, right, 0));
        },
        (Language::ChineseTraditional, Language::Phyrexian) => {
            assert(left.take(0) =~= right.take(0));
            assert(parts_at(left, right, 0));
        },
        (Language::ChineseTraditional, Language::PortugueseBrazil) => {
            assert(left.take(0) =~= right.take(0));
            assert(parts_at(left, right, 0));
        },
        (Language::ChineseTraditional, Language::Russian) => {
            assert(left.take(0) =~= right.take(0));
            assert(parts_at(left, right, 0));
        },
        (Language::ChineseTraditional, Language::Sanskrit) => {
            assert(left.take(0) =~= right.take(0));
            assert(parts_at(left, right, 0));
        },
        (Language::ChineseTraditional, Language::Spanish) => {
            assert(left.take(0) =~= right.take(0));
            assert(parts_at(left, right, 0));
        },
        (Language::EnglishAmerican, Language::French) => {
            assert(left.take(0) =~= right.take(0));
            assert(parts_at(left, right, 0));
        },
        (Language::EnglishAmerican, Language::German) => {
            assert(left.take(0) =~= right.take(0));
            assert(parts_at(left, right, 0));
        },
        (Language::EnglishAmerican, Language::Hebrew) => {
            assert(left.take(0) =~= right.take(0));
            assert(parts_at(left, right, 0));
        },
        (Language::EnglishAmerican, Language::Italian) => {
            assert(left.take(0) =~= right.take(0));
            assert(parts_at(left, right, 0));
        },
        (Language::EnglishAmerican, Language::Japanese) => {
            assert(left.take(0) =~= right.take(0));
            assert(parts_at(left, right, 0));
        },
        (Language::EnglishAmerican, Language::Korean) => {
            assert(left.take(0) =~= right.take(0));
            assert(parts_at(left, right, 0));
        },
        (Language::EnglishAmerican, Language::Latin) => {
            assert(left.take(0) =~= right.take(0));
            assert(parts_at(left, right, 0));
        },
        (Language::EnglishAmerican, Language::Phyrexian) => {
            assert(left.take(0) =~= right.take(0));
            assert(parts_at(left, right, 0));
        },
        (Language::EnglishAmerican, Language::PortugueseBrazil) => {
            assert(left.take(0) =~= right.take(0));
            assert(parts_at(left, right, 0));
        },
        (Language::EnglishAmerican, Language::Russian) => {
            assert(left.take(0) =~= right.take(0));
            assert(parts_at(left, right, 0));
        },
        (Language::EnglishAmerican, Language::Sanskrit) => {
            assert(left.take(0) =~= right.take(0));
            assert(parts_at(left, right, 0));
        },
        (Language::EnglishAmerican, Language::Spanish) => {
            assert(left.take(0) =~= right.take(0));
            assert(parts_at(left, right, 0));
        },
        (Language::French, Language::German) => {
            assert(left.take(0) =~= right.take(0));
            assert(parts_at(left, right, 0));
        },
        (Language::French, Language::Hebrew) => {
            assert(left.take(0) =~= right.take(0));
            assert(parts_at(left, right, 0));
        },
        (Language::French, Language::Italian) => {
            assert(left.take(0) =~= right.take(0));
            assert(parts_at(left, right, 0));
        },
        (Language::French, Language::Japanese) => {
            assert(left.take(0) =~= right.take(0));
            assert(parts_at(left, right, 0));
        },
        (Language::French, Language::Korean) => {
            assert(left.take(0) =~= right.take(0));
            assert(parts_at(left, right, 0));
        },
        (Language::French, Language::Latin) => {
            assert(left.take(0) =~= right.take(0));
            assert(parts_at(left, right, 0));
        },
        (Language::French, Language::Phyrexian) => {
            assert(left.take(0) =~= right.take(0));
            assert(parts_at(left, right, 0));
        },
        (Language::French, Language::PortugueseBrazil) => {
            assert(left.take(0) =~= right.take(0));
            assert(parts_at(left, right, 0));
        },
        (Language::French, Language::Russian) => {
            assert(left.take(0) =~= right.take(0));
            assert(parts_at(left, right, 0));
        },
        (Language::French, Language::Sanskrit) => {
            assert(left.take(0) =~= right.take(0));
            assert(parts_at(left, right, 0));
        },
        (Language::French, Language::Spanish) => {
            assert(left.take(0) =~= right.take(0));
            assert(parts_at(left, right, 0));
        },
        (Language::German, Language::Hebrew) => {
            assert(left.take(0) =~= right.take(0));
            assert(parts_at(left, right, 0));
        },
        (Language::German, Language::Italian) => {
            assert(left.take(0) =~= right.take(0));
            assert(parts_at(left, right, 0));
        },
        (Language::German, Language::Japanese) => {
            assert(left.take(0) =~= right.take(0));
            assert(parts_at(left, right, 0));
        },
        (Language::German, Language::Korean) => {
            assert(left.take(0) =~= right.take(0));
            assert(parts_at(left, right, 0));
        },
        (Language::German, Language::Latin) => {
            assert(left.take(0) =~= right.take(0));
            assert(parts_at(left, right, 0));
        },
        (Language::German, Language::Phyrexian) => {
            assert(left.take(0) =~= right.take(0));
            assert(parts_at(left, right, 0));
        },
        (Language::German, Language::PortugueseBrazil) => {
            assert(left.take(0) =~= right.take(0));
            assert(parts_at(left, right, 0));
        },
        (Language::German, Language::Russian) => {
            assert(left.take(0) =~= right.take(0));
            assert(parts_at(left, right, 0));
        },
        (Language::German, Language::Sanskrit) => {
            assert(left.take(0) =~= right.take(0));
            assert(parts_at(left, right, 0));
        },
        (Language::German, Language::Spanish) => {
            assert(left.take(0) =~= right.take(0));
            assert(parts_at(left, right, 0));
        },
        (Language::Hebrew, Language::Italian) => {
            assert(left.take(0) =~= right.take(0));
            assert(parts_at(left, right, 0));
        },
        (Language::Hebrew, Language::Japanese) => {
            assert(left.take(0) =~= right.take(0));
            assert(parts_at(left, right, 0));
        },
        (Language::Hebrew, Language::Korean) => {
            assert(left.take(0) =~= right.take(0));
            assert(parts_at(left, right, 0));
        },
        (Language::Hebrew, Language::Latin) => {
            assert(left.take(0) =~= right.take(0));
            assert(parts_at(left, right, 0));
        },
        (Language::Hebrew, Language::Phyrexian) => {
            assert(left.take(0) =~= right.take(0));
            assert(parts_at(left, right, 0));
        },
        (Language::Hebrew, Language::PortugueseBrazil) => {
            assert(left.take(0) =~= right.take(0));
            assert(parts_at(left, right, 0));
        },
        (Language::Hebrew, Language::Russian) => {
            assert(left.take(0) =~= right.take(0));
            assert(parts_at(left, right, 0));
        },
        (Language::Hebrew, Language::Sanskrit) => {
            assert(left.take(0) =~= right.take(0));
            assert(parts_at(left, right, 0));
        },
        (Language::Hebrew, Language::Spanish) => {
            assert(left.take(0) =~= right.take(0));
            assert(parts_at(left, right, 0));
        },
        (Language::Italian, Language::Japanese) => {
            assert(left.take(0) =~= right.take(0));
            assert(parts_at(left, right, 0));
        },
        (Language::Italian, Language::Korean) => {
            assert(left.take(0) =~= right.take(0));
            assert(parts_at(left, right, 0));
        },
        (Language::Italian, Language::Latin) => {
            assert(left.take(0) =~= right.take(0));
            assert(parts_at(left, right, 0));
        },
        (Language::Italian, Language::Phyrexian) => {
            assert(left.take(0) =~= right.take(0));
            assert(parts_at(left, right, 0));
        },
        (Language::Italian, Language::PortugueseBrazil) => {
            assert(left.take(0) =~= right.take(0));
            assert(parts_at(left, right, 0));
        },
        (Language::Italian, Language::Russian) => {
            assert(left.take(0) =~= right.take(0));
            assert(parts_at(left, right, 0));
        },
        (Language::Italian, Language::Sanskrit) => {
            assert(left.take(0) =~= right.take(0));
            assert(parts_at(left, right, 0));
        },
        (Language::Italian, Language::Spanish) => {
            assert(left.take(0) =~= right.take(0));
            assert(parts_at(left, right, 0));
        },
        (Language::Japanese, Language::Korean) => {
            assert(left.take(0) =~= right.take(0));
            assert(parts_at(left, right, 0));
        },
        (Language::Japanese, Language::Latin) => {
            assert(left.take(0) =~= right.take(0));
            assert(parts_at(left, right, 0));
        },
        (Language::Japanese, Language::Phyrexian) => {
            assert(left.take(0) =~= right.take(0));
            assert(parts_at(left, right, 0));
        },
        (Language::Japanese, Language::PortugueseBrazil) => {
            assert(left.take(0) =~= right.take(0));
            assert(parts_at(left, right, 0));
        },
        (Language::Japanese, Language::Russian) => {
            assert(left.take(0) =~= right.take(0));
            assert(parts_at(left, right, 0));
        },
        (Language::Japanese, Language::Sanskrit) => {
            assert(left.take(0) =~= right.take(0));
            assert(parts_at(left, right, 0));
        },
        (Language::Japanese, Language::Spanish) => {
            assert(left.take(0) =~= right.take(0));
            assert(parts_at(left, right, 0));
        },
        (Language::Korean, Language::Latin) => {
            assert(left.take(0) =~= right.take(0));
            assert(parts_at(left, right, 0));
        },
        (Language::Korean, Language::Phyrexian) => {
            assert(left.take(0) =~= right.take(0));
            assert(parts_at(left, right, 0));
        },
        (Language::Korean, Language::PortugueseBrazil) => {
            assert(left.take(0) =~= right.take(0));
            assert(parts_at(left, right, 0));
        },
        (Language::Korean, Language::Russian) => {
            assert(left.take(0) =~= right.take(0));
            assert(parts_at(left, right, 0));
        },
        (Language::Korean, Language::Sanskrit) => {
            assert(left.take(0) =~= right.take(0));
            assert(parts_at(left, right, 0));
        },
        (Language::Korean, Language::Spanish) => {
            assert(left.take(0) =~= right.take(0));
            assert(parts_at(left, right, 0));
        },
        (Language::Latin, Language::Phyrexian) => {
            assert(left.take(0) =~= right.take(0));
            assert(parts_at(left, right, 0));
        },
        (Language::Latin, Language::PortugueseBrazil) => {
            assert(left.take(0) =~= right.take(0));
            assert(parts_at(left, right, 0));
        },
        (Language::Latin, Language::Russian) => {
            assert(left.take(0) =~= right.take(0));
            assert(parts_at(left, right, 0));
        },
        (Language::Latin, Language::Sanskrit) => {
            assert(left.take(0) =~= right.take(0));
            assert(parts_at(left, right, 0));
        },
        (Language::Latin, Language::Spanish) => {
            assert(left.take(0) =~= right.take(0));
            assert(parts_at(left, right, 0));
        },
        (Language::Phyrexian, Language::PortugueseBrazil) => {
            assert(left.take(1) =~= right.take(1));
            assert(parts_at(left, right, 1));
        },
        (Language::Phyrexian, Language::Russian) => {
            assert(left.take(0) =~= right.take(0));
            assert(parts_at(left, right, 0));
        },
        (Language::Phyrexian, Language::Sanskrit) => {
            assert(left.take(0) =~= right.take(0));
            assert(parts_at(left, right, 0));
        },
        (Language::Phyrexian, Language::Spanish) => {
            assert(left.take(0) =~= right.take(0));
            assert(parts_at(left, right, 0));
        },
        (Language::PortugueseBrazil, Language::Russian) => {
            assert(left.take(0) =~= right.take(0));
            assert(parts_at(left, right, 0));
        },
        (Language::PortugueseBrazil, Language::Sanskrit) => {
            assert(left.take(0) =~= right.take(0));
            assert(parts_at(left, right, 0));
        },
        (Language::PortugueseBrazil, Language::Spanish) => {
            assert(left.take(0) =~= right.take(0));
            assert(parts_at(left, right, 0));
        },
        (Language::Russian, Language::Sanskrit) => {
            assert(left.take(0) =~= right.take(0));
            assert(parts_at(left, right, 0));
        },
        (Language::Russian, Language::Spanish) => {
            assert(left.take(0) =~= right.take(0));
            assert(parts_at(left, right, 0));
        },
        (Language::Sanskrit, Language::Spanish) => {
            assert(left.take(1) =~= right.take(1));
            assert(parts_at(left, right, 1));
        },
        _ => {},
    }
}

/// The languages are ordered as their names are as texts.
pub proof fn lemma_order_follows_names(first: Language, second: Language)
    ensures
        first.rank() < second.rank() <==> text_before(first.name(), second.name()),
{
    lemma_text_order_is_strict(first.name(), second.name());
    if first.rank() < second.rank() {
        lemma_later_language_has_later_name(first, second);
    } else if second.rank() < first.rank() {
        lemma_later_language_has_later_name(second, first);
    } else {
        lemma_order_is_total(first, second);
    }
}

/// The texts of the languages before the place `upto`, each after the name
/// of its language and between double quotes, with a comma and a blank
/// between two of them.
pub open spec fn listed_texts(texts: Map<Language, Seq<char>>, upto: int) -> Seq<char>
    decreases upto,
{
    if upto <= 0 {
        Seq::empty()
    } else {
        let before = listed_texts(texts, upto - 1);
        match Language::at(upto - 1) {
            Some(language) => if texts.contains_key(language) {
                (if before.len() > 0 {
                    before + ", "@
                } else {
                    before
                }) + language.name() + ": \""@ + texts[language] + "\""@
            } else {
                before
            },
            None => before,
        }
    }
}

/// The text of a localised string: the texts in all its languages, in the
/// order of the languages, between square brackets.
pub open spec fn localised_text(texts: Map<Language, Seq<char>>) -> Seq<char> {
    "["@ + listed_texts(texts, 17) + "]"@
}

/// A text in several languages. It always has the text in the default
/// language, American English.
#[derive(Clone, Debug, PartialEq, Eq, PartialOrd, Ord)]
pub struct LocalisedString {
    default: String,
    translations: BTreeMap<u8, String>,
}

impl View for LocalisedString {
    type V = Map<Language, Seq<char>>;

    closed spec fn view(&self) -> Map<Language, Seq<char>> {
        Map::new(
            |language: Language|
                language == Language::EnglishAmerican || self.translations@.contains_key(
                    language.rank(),
                ),
            |language: Language|
                if language == Language::EnglishAmerican {
                    self.default@
                } else {
                    self.translations@[language.rank()]@
                },
        )
    }
}

impl LocalisedString {
    /// Creates a new localised string.
    ///
    /// # Parameters
    ///
    /// * default - the string in the default language.
    pub fn new(default: &str) -> (localised: Self)
        ensures
            localised@ == Map::<Language, Seq<char>>::empty().insert(
                Language::EnglishAmerican,
                default@,
            ),
    {
        let localised = LocalisedString {
            default: String::from_str(default),
            translations: BTreeMap::new(),
        };
        assert(localised@ =~= Map::<Language, Seq<char>>::empty().insert(
            Language::EnglishAmerican,
            default@,
        ));
        localised
    }

    /// Sets the string in the specified language and returns the
    /// previously set string if any.
    ///
    /// # Parameters
    ///
    /// * language - the language to set the string in
    /// * value - value of the string
    pub fn set(&mut self, language: Language, value: &str) -> (previous: Option<String>)
        ensures
            final(self)@ == old(self)@.insert(language, value@),
            match previous {
                Some(text) => old(self)@.contains_key(language) && text@ == old(self)@[language],
                None => !old(self)@.contains_key(language),
            },
            final(self)@.contains_key(Language::EnglishAmerican),
    {
        broadcast use vstd::std_specs::btree::group_btree_axioms;
        broadcast use vstd::laws_cmp::group_laws_cmp;

        let ghost before = self@;
        match language {
            Language::EnglishAmerican => {
                let mut text = String::from_str(value);
                std::mem::swap(&mut self.default, &mut text);
                assert(self@ =~= before.insert(language, value@));
                Some(text)
            },
            _ => {
                let previous = self.translations.insert(language.index(), String::from_str(value));
                assert(self@ =~= before.insert(language, value@)) by {
                    assert forall|other: Language| other.rank() == language.rank() implies other
                        == language by {
                        lemma_order_is_total(other, language);
                    }
                }
                previous
            },
        }
    }

    /// Returns the string in the default language.
    pub fn get_default(&self) -> (text: &str)
        ensures
            self@.contains_key(Language::EnglishAmerican),
            text@ == self@[Language::EnglishAmerican],
    {
        self.default.as_str()
    }

    /// Writes the texts in all their languages, in the order of the
    /// languages.
    pub fn to_string(&self) -> (text: String)
        ensures
            text@ == localised_text(self@),
    {
        let mut text = String::from_str("[");
        let mut index: u8 = 0;
        let ghost mut listed: Seq<char> = Seq::empty();
        while index < 17
            invariant
                index <= 17,
                listed == listed_texts(self@, index as int),
                text@ == "["@ + listed,
            decreases 17 - index,
        {
            let ghost before = listed;
            match Language::from_index(index) {
                Some(language) => match self.get_localised(language) {
                    Some(value) => {
                        let first = index == 0 || text.as_str().unicode_len() == 1;
                        proof {
                            reveal_strlit("[");
                        }
                        if !first {
                            text.append(", ");
                        }
                        text.append(language.as_str());
                        text.append(": \"");
                        text.append(value);
                        text.append("\"");
                        proof {
                            listed = listed_texts(self@, index + 1);
                            assert(text@ =~= "["@ + listed);
                        }
                    },
                    None => {
                        proof {
                            listed = listed_texts(self@, index + 1);
                        }
                    },
                },
                None => {},
            }
            index = index + 1;
        }
        text.append("]");
        assert(text@ =~= localised_text(self@));
        text
    }

    /// Tells whether this text comes before the other in their order, which
    /// is that of the texts in the default language.
    pub fn precedes(&self, other: &LocalisedString) -> (before: bool)
        ensures
            before == text_before(
                self@[Language::EnglishAmerican],
                other@[Language::EnglishAmerican],
            ),
    {
        comes_before(self.get_default(), other.get_default())
    }

    /// Returns the string in the specified language if set.
    ///
    /// # Parameters
    ///
    /// * language - the language to get the string in
    pub fn get_localised(&self, language: Language) -> (text: Option<&str>)
        ensures
            match text {
                Some(found) => self@.contains_key(language) && found@ == self@[language],
                None => !self@.contains_key(language),
            },
    {
        broadcast use vstd::std_specs::btree::group_btree_axioms;
        broadcast use vstd::laws_cmp::group_laws_cmp;

        match language {
            Language::EnglishAmerican => Some(self.default.as_str()),
            _ => {
                let key = language.index();
                match self.translations.get(&key) {
                    Some(found) => Some(found.as_str()),
                    None => None,
                }
            },
        }
    }

    /// Returns the string in the specified language if set, otherwise
    /// returns the default.
    ///
    /// # Parameters
    ///
    /// * language - the language to get the string in
    pub fn get_localised_or_default(&self, language: Language) -> (text: &str)
        ensures
            text@ == (if self@.contains_key(language) {
                self@[language]
            } else {
                self@[Language::EnglishAmerican]
            }),
    {
        match self.get_localised(language) {
            Some(found) => found,
            None => self.get_default(),
        }
    }
}

impl From<&str> for LocalisedString {
    fn from(value: &str) -> (localised: Self)
        ensures
            localised@ == Map::<Language, Seq<char>>::empty().insert(
                Language::EnglishAmerican,
                value@,
            ),
    {
        LocalisedString::new(value)
    }
}

impl FromSpecImpl<&str> for LocalisedString {
    open spec fn obeys_from_spec() -> bool {
        false
    }

    open spec fn from_spec(value: &str) -> Self {
        arbitrary()
    }
}

impl From<String> for LocalisedString {
    fn from(value: String) -> (localised: Self)
        ensures
            localised@ == Map::<Language, Seq<char>>::empty().insert(
                Language::EnglishAmerican,
                value@,
            ),
    {
        LocalisedString::new(value.as_str())
    }
}

impl FromSpecImpl<String> for LocalisedString {
    open spec fn obeys_from_spec() -> bool {
        false
    }

    open spec fn from_spec(value: String) -> Self {
        arbitrary()
    }
}

} // verus!
