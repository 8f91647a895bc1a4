//! The legality of a card in a format.

use std::cmp::Ordering;
use vstd::prelude::*;
use vstd::std_specs::cmp::PartialOrdSpecImpl;
use vstd::std_specs::convert::{FromSpecImpl, TryFromSpecImpl};
use vstd::string::StringExecFns;

use crate::utility::text::same_text;

verus! {

/// The legality of a Magic card.
#[derive(Clone, Copy, Debug, PartialEq, Eq, Structural, Hash, Ord)]
pub enum Legality {
    /// The card may not be played.
    Banned,
    /// The card may be played.
    Legal,
    /// The card is not part of the format.
    NotLegal,
    /// The card may be played once per deck.
    Restricted,
}

impl Legality {
    /// The number by which legalities are ordered.
    pub open spec fn rank(&self) -> u8 {
        match self {
            Legality::Banned => 0,
            Legality::Legal => 1,
            Legality::NotLegal => 2,
            Legality::Restricted => 3,
        }
    }

    /// The name of this legality.
    pub open spec fn name(&self) -> Seq<char> {
        match self {
            Legality::Banned => "Banned"@,
            Legality::Legal => "Legal"@,
            Legality::NotLegal => "Not Legal"@,
            Legality::Restricted => "Restricted"@,
        }
    }

    /// The legality with the given name, if there is one.
    pub open spec fn named(name: Seq<char>) -> Option<Legality> {
        if name == "Banned"@ {
            Some(Legality::Banned)
        } else if name == "Legal"@ {
            Some(Legality::Legal)
        } else if name == "Not Legal"@ {
            Some(Legality::NotLegal)
        } else if name == "Restricted"@ {
            Some(Legality::Restricted)
        } else {
            None
        }
    }

    /// Returns a number for ordering of legalities.
    pub fn ordering_number(&self) -> (number: u8)
        ensures
            number == self.rank(),
    {
        match self {
            Legality::Banned => 0,
            Legality::Legal => 1,
            Legality::NotLegal => 2,
            Legality::Restricted => 3,
        }
    }

    /// The name of this legality.
    pub fn as_str(&self) -> (name: &'static str)
        ensures
            name@ == self.name(),
    {
        match self {
            Legality::Banned => "Banned",
            Legality::Legal => "Legal",
            Legality::NotLegal => "Not Legal",
            Legality::Restricted => "Restricted",
        }
    }

    /// Writes the name of this legality.
    pub fn to_string(&self) -> (name: String)
        ensures
            name@ == self.name(),
    {
        String::from_str(self.as_str())
    }

    /// Reads the name of a legality. A text that is no such name is answered
    /// with a message that says so.
    pub fn parse(value: &str) -> (legality: Result<Legality, String>)
        ensures
            match legality {
                Ok(found) => Self::named(value@) == Some(found),
                Err(message) => Self::named(value@) is None && message@ == value@
                    + " is not a valid legality."@,
            },
    {
        if same_text(value, "Banned") {
            Ok(Legality::Banned)
        } else if same_text(value, "Legal") {
            Ok(Legality::Legal)
        } else if same_text(value, "Not Legal") {
            Ok(Legality::NotLegal)
        } else if same_text(value, "Restricted") {
            Ok(Legality::Restricted)
        } else {
            let mut message = String::from_str(value);
            message.append(" is not a valid legality.");
            Err(message)
        }
    }
}

impl Default for Legality {
    fn default() -> (legality: Self)
        ensures
            legality == Legality::Legal,
    {
        Legality::Legal
    }
}

impl PartialOrd for Legality {
    fn partial_cmp(&self, other: &Self) -> (order: Option<Ordering>) {
        let left = self.ordering_number();
        let right = other.ordering_number();
        if left < right {
            Some(Ordering::Less)
        } else if left == right {
            Some(Ordering::Equal)
        } else {
            Some(Ordering::Greater)
        }
    }
}

impl PartialOrdSpecImpl for Legality {
    open spec fn obeys_partial_cmp_spec() -> bool {
        true
    }

    open spec fn partial_cmp_spec(&self, other: &Self) -> Option<Ordering> {
        if self.rank() < other.rank() {
            Some(Ordering::Less)
        } else if self.rank() == other.rank() {
            Some(Ordering::Equal)
        } else {
            Some(Ordering::Greater)
        }
    }
}

impl From<Legality> for &'static str {
    fn from(legality: Legality) -> (name: Self) {
        match legality {
            Legality::Banned => "Banned",
            Legality::Legal => "Legal",
            Legality::NotLegal => "Not Legal",
            Legality::Restricted => "Restricted",
        }
    }
}

impl FromSpecImpl<Legality> for &'static str {
    open spec fn obeys_from_spec() -> bool {
        true
    }

    open spec fn from_spec(legality: Legality) -> Self {
        match legality {
            Legality::Banned => "Banned",
            Legality::Legal => "Legal",
            Legality::NotLegal => "Not Legal",
            Legality::Restricted => "Restricted",
        }
    }
}

impl From<&Legality> for &'static str {
    fn from(legality: &Legality) -> (name: Self) {
        match legality {
            Legality::Banned => "Banned",
            Legality::Legal => "Legal",
            Legality::NotLegal => "Not Legal",
            Legality::Restricted => "Restricted",
        }
    }
}

impl FromSpecImpl<&Legality> for &'static str {
    open spec fn obeys_from_spec() -> bool {
        true
    }

    open spec fn from_spec(legality: &Legality) -> Self {
        match legality {
            Legality::Banned => "Banned",
            Legality::Legal => "Legal",
            Legality::NotLegal => "Not Legal",
            Legality::Restricted => "Restricted",
        }
    }
}

impl TryFrom<&str> for Legality {
    type Error = String;

    fn try_from(value: &str) -> (legality: Result<Self, String>)
        ensures
            match legality {
                Ok(found) => Self::named(value@) == Some(found),
                Err(message) => Self::named(value@) is None && message@ == value@
                    + " is not a valid legality."@,
            },
    {
        Legality::parse(value)
    }
}

impl TryFromSpecImpl<&str> for Legality {
    open spec fn obeys_try_from_spec() -> bool {
        false
    }

    open spec fn try_from_spec(value: &str) -> Result<Self, String> {
        arbitrary()
    }
}

impl TryFrom<String> for Legality {
    type Error = String;

    fn try_from(value: String) -> (legality: Result<Self, String>)
        ensures
            match legality {
                Ok(found) => Self::named(value@) == Some(found),
                Err(message) => Self::named(value@) is None && message@ == value@
                    + " is not a valid legality."@,
            },
    {
        Legality::parse(value.as_str())
    }
}

impl TryFromSpecImpl<String> for Legality {
    open spec fn obeys_try_from_spec() -> bool {
        false
    }

    open spec fn try_from_spec(value: String) -> Result<Self, String> {
        arbitrary()
    }
}

/// The name of a legality is read back as that legality, and only the names of
/// the legalities are read as one.
pub proof fn lemma_name_is_read_back(legality: Legality, text: Seq<char>)
    ensures
        Legality::named(legality.name()) == Some(legality),
        Legality::named(text) == Some(legality) <==> text == legality.name(),
{
    reveal_strlit("Banned");
    reveal_strlit("Legal");
    reveal_strlit("Not Legal");
    reveal_strlit("Restricted");
    assert("Banned"@.len() == 6);
    assert("Legal"@.len() == 5);
    assert("Not Legal"@.len() == 9);
    assert("Restricted"@.len() == 10);
}

/// The legalities are ordered by their numbers, and no two of them share a
/// number.
pub proof fn lemma_order_is_total(first: Legality, second: Legality)
    ensures
        first.rank() == second.rank() <==> first == second,
        first.rank() < second.rank() || first.rank() > second.rank() || first == second,
{
}

} // verus!
