//! The rarity of a card.

use std::cmp::Ordering;
use vstd::prelude::*;
use vstd::std_specs::cmp::PartialOrdSpecImpl;
use vstd::std_specs::convert::{FromSpecImpl, TryFromSpecImpl};
use vstd::string::StringExecFns;

use crate::utility::text::same_text;

verus! {

/// The rarity of a Magic card.
#[derive(Clone, Copy, Debug, PartialEq, Eq, Structural, Hash, Ord)]
pub enum Rarity {
    /// A common card.
    Common,
    /// An uncommon card.
    Uncommon,
    /// A rare card.
    Rare,
    /// A mythic rare card.
    Mythic,
    /// A special card.
    Special,
    /// A bonus card.
    Bonus,
}

impl Rarity {
    /// The number by which rarities are ordered.
    pub open spec fn rank(&self) -> u8 {
        match self {
            Rarity::Common => 0,
            Rarity::Uncommon => 1,
            Rarity::Rare => 2,
            Rarity::Mythic => 3,
            Rarity::Special => 4,
            Rarity::Bonus => 5,
        }
    }

    /// The name of this rarity.
    pub open spec fn name(&self) -> Seq<char> {
        match self {
            Rarity::Common => "common"@,
            Rarity::Uncommon => "uncommon"@,
            Rarity::Rare => "rare"@,
            Rarity::Mythic => "mythic"@,
            Rarity::Special => "special"@,
            Rarity::Bonus => "bonus"@,
        }
    }

    /// The rarity with the given name, if there is one.
    pub open spec fn named(name: Seq<char>) -> Option<Rarity> {
        if name == "common"@ {
            Some(Rarity::Common)
        } else if name == "uncommon"@ {
            Some(Rarity::Uncommon)
        } else if name == "rare"@ {
            Some(Rarity::Rare)
        } else if name == "mythic"@ {
            Some(Rarity::Mythic)
        } else if name == "special"@ {
            Some(Rarity::Special)
        } else if name == "bonus"@ {
            Some(Rarity::Bonus)
        } else {
            None
        }
    }

    /// Returns a number for ordering of rarities.
    pub fn ordering_number(&self) -> (number: u8)
        ensures
            number == self.rank(),
    {
        match self {
            Rarity::Common => 0,
            Rarity::Uncommon => 1,
            Rarity::Rare => 2,
            Rarity::Mythic => 3,
            Rarity::Special => 4,
            Rarity::Bonus => 5,
        }
    }

    /// The name of this rarity.
    pub fn as_str(&self) -> (name: &'static str)
        ensures
            name@ == self.name(),
    {
        match self {
            Rarity::Common => "common",
            Rarity::Uncommon => "uncommon",
            Rarity::Rare => "rare",
            Rarity::Mythic => "mythic",
            Rarity::Special => "special",
            Rarity::Bonus => "bonus",
        }
    }

    /// Writes the name of this rarity.
    pub fn to_string(&self) -> (name: String)
        ensures
            name@ == self.name(),
    {
        String::from_str(self.as_str())
    }

    /// Reads the name of a rarity. A text that is no such name is answered
    /// with a message that says so.
    pub fn parse(value: &str) -> (rarity: Result<Rarity, String>)
        ensures
            match rarity {
                Ok(found) => Self::named(value@) == Some(found),
                Err(message) => Self::named(value@) is None && message@ == value@
                    + " is not a valid rarity."@,
            },
    {
        if same_text(value, "common") {
            Ok(Rarity::Common)
        } else if same_text(value, "uncommon") {
            Ok(Rarity::Uncommon)
        } else if same_text(value, "rare") {
            Ok(Rarity::Rare)
        } else if same_text(value, "mythic") {
            Ok(Rarity::Mythic)
        } else if same_text(value, "special") {
            Ok(Rarity::Special)
        } else if same_text(value, "bonus") {
            Ok(Rarity::Bonus)
        } else {
            let mut message = String::from_str(value);
            message.append(" is not a valid rarity.");
            Err(message)
        }
    }
}

impl Default for Rarity {
    fn default() -> (rarity: Self)
        ensures
            rarity == Rarity::Common,
    {
        Rarity::Common
    }
}

impl PartialOrd for Rarity {
    fn partial_cmp(&self, other: &Self) -> (order: Option<Ordering>) {
        let left = self.ordering_number();
        let right = other.ordering_number();
        if left < right {
            Some(Ordering::Less)
        } else if left == right {
            Some(Ordering::Equal)
        } else {
            Some(Ordering::Greater)
        }
    }
}

impl PartialOrdSpecImpl for Rarity {
    open spec fn obeys_partial_cmp_spec() -> bool {
        true
    }

    open spec fn partial_cmp_spec(&self, other: &Self) -> Option<Ordering> {
        if self.rank() < other.rank() {
            Some(Ordering::Less)
        } else if self.rank() == other.rank() {
            Some(Ordering::Equal)
        } else {
            Some(Ordering::Greater)
        }
    }
}

impl From<Rarity> for &'static str {
    fn from(rarity: Rarity) -> (name: Self) {
        match rarity {
            Rarity::Common => "common",
            Rarity::Uncommon => "uncommon",
            Rarity::Rare => "rare",
            Rarity::Mythic => "mythic",
            Rarity::Special => "special",
            Rarity::Bonus => "bonus",
        }
    }
}

impl FromSpecImpl<Rarity> for &'static str {
    open spec fn obeys_from_spec() -> bool {
        true
    }

    open spec fn from_spec(rarity: Rarity) -> Self {
        match rarity {
            Rarity::Common => "common",
            Rarity::Uncommon => "uncommon",
            Rarity::Rare => "rare",
            Rarity::Mythic => "mythic",
            Rarity::Special => "special",
            Rarity::Bonus => "bonus",
        }
    }
}

impl From<&Rarity> for &'static str {
    fn from(rarity: &Rarity) -> (name: Self) {
        match rarity {
            Rarity::Common => "common",
            Rarity::Uncommon => "uncommon",
            Rarity::Rare => "rare",
            Rarity::Mythic => "mythic",
            Rarity::Special => "special",
            Rarity::Bonus => "bonus",
        }
    }
}

impl FromSpecImpl<&Rarity> for &'static str {
    open spec fn obeys_from_spec() -> bool {
        true
    }

    open spec fn from_spec(rarity: &Rarity) -> Self {
        match rarity {
            Rarity::Common => "common",
            Rarity::Uncommon => "uncommon",
            Rarity::Rare => "rare",
            Rarity::Mythic => "mythic",
            Rarity::Special => "special",
            Rarity::Bonus => "bonus",
        }
    }
}

impl TryFrom<&str> for Rarity {
    type Error = String;

    fn try_from(value: &str) -> (rarity: Result<Self, String>)
        ensures
            match rarity {
                Ok(found) => Self::named(value@) == Some(found),
                Err(message) => Self::named(value@) is None && message@ == value@
                    + " is not a valid rarity."@,
            },
    {
        Rarity::parse(value)
    }
}

impl TryFromSpecImpl<&str> for Rarity {
    open spec fn obeys_try_from_spec() -> bool {
        false
    }

    open spec fn try_from_spec(value: &str) -> Result<Self, String> {
        arbitrary()
    }
}

impl TryFrom<String> for Rarity {
    type Error = String;

    fn try_from(value: String) -> (rarity: Result<Self, String>)
        ensures
            match rarity {
                Ok(found) => Self::named(value@) == Some(found),
                Err(message) => Self::named(value@) is None && message@ == value@
                    + " is not a valid rarity."@,
            },
    {
        Rarity::parse(value.as_str())
    }
}

impl TryFromSpecImpl<String> for Rarity {
    open spec fn obeys_try_from_spec() -> bool {
        false
    }

    open spec fn try_from_spec(value: String) -> Result<Self, String> {
        arbitrary()
    }
}

/// The name of a rarity is read back as that rarity, and only the names of
/// the rarities are read as one.
pub proof fn lemma_name_is_read_back(rarity: Rarity, text: Seq<char>)
    ensures
        Rarity::named(rarity.name()) == Some(rarity),
        Rarity::named(text) == Some(rarity) <==> text == rarity.name(),
{
    reveal_strlit("common");
    reveal_strlit("uncommon");
    reveal_strlit("rare");
    reveal_strlit("mythic");
    reveal_strlit("special");
    reveal_strlit("bonus");
    assert("common"@.len() == 6);
    assert("uncommon"@.len() == 8);
    assert("rare"@.len() == 4);
    assert("mythic"@.len() == 6);
    assert("special"@.len() == 7);
    assert("bonus"@.len() == 5);
    assert("common"@[0] != "mythic"@[0]);
}

/// The rarities are ordered by their numbers, and no two of them share a
/// number.
pub proof fn lemma_order_is_total(first: Rarity, second: Rarity)
    ensures
        first.rank() == second.rank() <==> first == second,
        first.rank() < second.rank() || first.rank() > second.rank() || first == second,
{
}

} // verus!
