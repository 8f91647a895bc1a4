//! Colours, sets of colours, mana and mana costs.

use vstd::prelude::*;
use vstd::std_specs::convert::{FromSpecImpl, TryFromSpecImpl};
use vstd::string::StringExecFns;

use crate::utility::text::{
    characters,
    ends_with,
    find_from,
    is_digit,
    lemma_decimal_denotes,
    lemma_position,
    lemma_written_integer_is_read_back,
    parse_signed,
    position,
    push_signed_decimal,
    same_text,
    signed,
    signed_decimal,
    split_once,
    starts_with,
    strip_prefix,
    strip_suffix,
};
use vstd::string::StrSliceExecFns;

verus! {

/// The colour of a Magic product.
#[derive(Clone, Copy, Debug, PartialEq, Eq, Structural, Hash)]
pub enum Colour {
    /// Black.
    Black,
    /// Blue.
    Blue,
    /// Green.
    Green,
    /// Red.
    Red,
    /// White.
    White,
}

impl Colour {
    /// The place of this colour in the order black, blue, green, red, white.
    pub open spec fn rank(&self) -> u8 {
        match self {
            Colour::Black => 0,
            Colour::Blue => 1,
            Colour::Green => 2,
            Colour::Red => 3,
            Colour::White => 4,
        }
    }

    /// The name of this colour.
    pub open spec fn name(&self) -> Seq<char> {
        match self {
            Colour::Black => "B"@,
            Colour::Blue => "U"@,
            Colour::Green => "G"@,
            Colour::Red => "R"@,
            Colour::White => "W"@,
        }
    }

    /// The colour with the given name, if there is one.
    pub open spec fn named(name: Seq<char>) -> Option<Colour> {
        if name == "B"@ {
            Some(Colour::Black)
        } else if name == "U"@ {
            Some(Colour::Blue)
        } else if name == "G"@ {
            Some(Colour::Green)
        } else if name == "R"@ {
            Some(Colour::Red)
        } else if name == "W"@ {
            Some(Colour::White)
        } else {
            None
        }
    }

    /// The place of this colour in the order black, blue, green, red, white.
    pub fn index(&self) -> (number: u8)
        ensures
            number == self.rank(),
    {
        match self {
            Colour::Black => 0,
            Colour::Blue => 1,
            Colour::Green => 2,
            Colour::Red => 3,
            Colour::White => 4,
        }
    }

    /// The name of this colour.
    pub fn as_str(&self) -> (name: &'static str)
        ensures
            name@ == self.name(),
    {
        match self {
            Colour::Black => "B",
            Colour::Blue => "U",
            Colour::Green => "G",
            Colour::Red => "R",
            Colour::White => "W",
        }
    }

    /// Writes the name of this colour.
    pub fn to_string(&self) -> (name: String)
        ensures
            name@ == self.name(),
    {
        String::from_str(self.as_str())
    }

    /// Reads the name of a colour. A text that is no such name is answered
    /// with a message that says so.
    pub fn parse(value: &str) -> (colour: Result<Colour, String>)
        ensures
            match colour {
                Ok(found) => Self::named(value@) == Some(found),
                Err(message) => Self::named(value@) is None && message@ == value@
                    + " is not a valid colour."@,
            },
    {
        if same_text(value, "B") {
            Ok(Colour::Black)
        } else if same_text(value, "U") {
            Ok(Colour::Blue)
        } else if same_text(value, "G") {
            Ok(Colour::Green)
        } else if same_text(value, "R") {
            Ok(Colour::Red)
        } else if same_text(value, "W") {
            Ok(Colour::White)
        } else {
            let mut message = String::from_str(value);
            message.append(" is not a valid colour.");
            Err(message)
        }
    }
}

impl From<Colour> for &'static str {
    fn from(colour: Colour) -> (name: Self) {
        match colour {
            Colour::Black => "B",
            Colour::Blue => "U",
            Colour::Green => "G",
            Colour::Red => "R",
            Colour::White => "W",
        }
    }
}

impl FromSpecImpl<Colour> for &'static str {
    open spec fn obeys_from_spec() -> bool {
        true
    }

    open spec fn from_spec(colour: Colour) -> Self {
        match colour {
            Colour::Black => "B",
            Colour::Blue => "U",
            Colour::Green => "G",
            Colour::Red => "R",
            Colour::White => "W",
        }
    }
}

impl From<&Colour> for &'static str {
    fn from(colour: &Colour) -> (name: Self) {
        match colour {
            Colour::Black => "B",
            Colour::Blue => "U",
            Colour::Green => "G",
            Colour::Red => "R",
            Colour::White => "W",
        }
    }
}

impl FromSpecImpl<&Colour> for &'static str {
    open spec fn obeys_from_spec() -> bool {
        true
    }

    open spec fn from_spec(colour: &Colour) -> Self {
        match colour {
            Colour::Black => "B",
            Colour::Blue => "U",
            Colour::Green => "G",
            Colour::Red => "R",
            Colour::White => "W",
        }
    }
}

impl TryFrom<&str> for Colour {
    type Error = String;

    fn try_from(value: &str) -> (colour: Result<Self, String>)
        ensures
            match colour {
                Ok(found) => Self::named(value@) == Some(found),
                Err(message) => Self::named(value@) is None && message@ == value@
                    + " is not a valid colour."@,
            },
    {
        Colour::parse(value)
    }
}

impl TryFromSpecImpl<&str> for Colour {
    open spec fn obeys_try_from_spec() -> bool {
        false
    }

    open spec fn try_from_spec(value: &str) -> Result<Self, String> {
        arbitrary()
    }
}

impl TryFrom<String> for Colour {
    type Error = String;

    fn try_from(value: String) -> (colour: Result<Self, String>)
        ensures
            match colour {
                Ok(found) => Self::named(value@) == Some(found),
                Err(message) => Self::named(value@) is None && message@ == value@
                    + " is not a valid colour."@,
            },
    {
        Colour::parse(value.as_str())
    }
}

impl TryFromSpecImpl<String> for Colour {
    open spec fn obeys_try_from_spec() -> bool {
        false
    }

    open spec fn try_from_spec(value: String) -> Result<Self, String> {
        arbitrary()
    }
}

/// The name of a colour is read back as that colour, and only the names of
/// the colours are read as one.
pub proof fn lemma_name_is_read_back(colour: Colour, text: Seq<char>)
    ensures
        Colour::named(colour.name()) == Some(colour),
        Colour::named(text) == Some(colour) <==> text == colour.name(),
{
    reveal_strlit("B");
    reveal_strlit("U");
    reveal_strlit("G");
    reveal_strlit("R");
    reveal_strlit("W");
    assert("B"@.len() == 1);
    assert("U"@.len() == 1);
    assert("G"@.len() == 1);
    assert("R"@.len() == 1);
    assert("W"@.len() == 1);
    assert("B"@[0] != "U"@[0]);
    assert("B"@[0] != "G"@[0]);
    assert("B"@[0] != "R"@[0]);
    assert("B"@[0] != "W"@[0]);
    assert("U"@[0] != "G"@[0]);
    assert("U"@[0] != "R"@[0]);
    assert("U"@[0] != "W"@[0]);
    assert("G"@[0] != "R"@[0]);
    assert("G"@[0] != "W"@[0]);
    assert("R"@[0] != "W"@[0]);
}

/// No two colours share a place.
pub proof fn lemma_places_differ(first: Colour, second: Colour)
    ensures
        first.rank() == second.rank() <==> first == second,
{
}

/// A set of colours.
#[derive(Clone, Debug, PartialEq, Eq, Structural)]
pub struct ColourSet {
    black: bool,
    blue: bool,
    green: bool,
    red: bool,
    white: bool,
}

impl View for ColourSet {
    type V = Set<Colour>;

    closed spec fn view(&self) -> Set<Colour> {
        Set::new(
            |colour: Colour|
                match colour {
                    Colour::Black => self.black,
                    Colour::Blue => self.blue,
                    Colour::Green => self.green,
                    Colour::Red => self.red,
                    Colour::White => self.white,
                },
        )
    }
}

/// The name by which a set of colours goes: that of the colour, of the
/// guild, of the shard or wedge, or of the four-colour identity.
pub open spec fn title(colours: Set<Colour>) -> Seq<char> {
    let black = colours.contains(Colour::Black);
    let blue = colours.contains(Colour::Blue);
    let green = colours.contains(Colour::Green);
    let red = colours.contains(Colour::Red);
    let white = colours.contains(Colour::White);
    if colours.len() == 0 {
        "Colorless"@
    } else if colours.len() == 1 {
        if black {
            "Black"@
        } else if blue {
            "Blue"@
        } else if green {
            "Green"@
        } else if red {
            "Red"@
        } else {
            "White"@
        }
    } else if colours.len() == 2 {
        if black && blue {
            "House Dimir"@
        } else if black && green {
            "Golgari Swarm"@
        } else if black && red {
            "Cult of Rakdos"@
        } else if black && white {
            "Orzhov Syndicate"@
        } else if blue && green {
            "Simic Combine"@
        } else if blue && red {
            "Izzet League"@
        } else if blue && white {
            "Azorius Senate"@
        } else if green && red {
            "Gruul Clans"@
        } else if green && white {
            "Selesnya Conclave"@
        } else {
            "Boros Legion"@
        }
    } else if colours.len() == 3 {
        if !black && !blue {
            "Naya"@
        } else if !black && !green {
            "Jeskai"@
        } else if !black && !red {
            "Bant"@
        } else if !black && !white {
            "Temur"@
        } else if !blue && !green {
            "Mardu"@
        } else if !blue && !red {
            "Abzan"@
        } else if !blue && !white {
            "Jund"@
        } else if !green && !red {
            "Esper"@
        } else if !green && !white {
            "Grixis"@
        } else {
            "Sultai"@
        }
    } else if colours.len() == 4 {
        if !black {
            "Altruism"@
        } else if !blue {
            "Aggression"@
        } else if !green {
            "Artifice"@
        } else if !red {
            "Growth"@
        } else {
            "Chaos"@
        }
    } else {
        "WUBRG"@
    }
}

/// The colours of a set in the order black, blue, green, red, white.
pub open spec fn in_order(colours: Set<Colour>) -> Seq<Colour> {
    let black: Seq<Colour> = if colours.contains(Colour::Black) {
        seq![Colour::Black]
    } else {
        Seq::empty()
    };
    let blue: Seq<Colour> = if colours.contains(Colour::Blue) {
        seq![Colour::Blue]
    } else {
        Seq::empty()
    };
    let green: Seq<Colour> = if colours.contains(Colour::Green) {
        seq![Colour::Green]
    } else {
        Seq::empty()
    };
    let red: Seq<Colour> = if colours.contains(Colour::Red) {
        seq![Colour::Red]
    } else {
        Seq::empty()
    };
    let white: Seq<Colour> = if colours.contains(Colour::White) {
        seq![Colour::White]
    } else {
        Seq::empty()
    };
    black + blue + green + red + white
}

impl ColourSet {
    /// The number of colours among the five that the set holds.
    proof fn lemma_counted(&self)
        ensures
            self@.finite(),
            self@.len() == (if self.black {
                1int
            } else {
                0int
            }) + (if self.blue {
                1int
            } else {
                0int
            }) + (if self.green {
                1int
            } else {
                0int
            }) + (if self.red {
                1int
            } else {
                0int
            }) + (if self.white {
                1int
            } else {
                0int
            }),
    {
        let s0 = Set::<Colour>::empty();
        let s1 = if self.black {
            s0.insert(Colour::Black)
        } else {
            s0
        };
        let s2 = if self.blue {
            s1.insert(Colour::Blue)
        } else {
            s1
        };
        let s3 = if self.green {
            s2.insert(Colour::Green)
        } else {
            s2
        };
        let s4 = if self.red {
            s3.insert(Colour::Red)
        } else {
            s3
        };
        let s5 = if self.white {
            s4.insert(Colour::White)
        } else {
            s4
        };
        assert(s1.finite() && s2.finite() && s3.finite() && s4.finite() && s5.finite());
        assert(s1.len() == s0.len() + (if self.black {
            1int
        } else {
            0int
        }));
        assert(s2.len() == s1.len() + (if self.blue {
            1int
        } else {
            0int
        }));
        assert(s3.len() == s2.len() + (if self.green {
            1int
        } else {
            0int
        }));
        assert(s4.len() == s3.len() + (if self.red {
            1int
        } else {
            0int
        }));
        assert(s5.len() == s4.len() + (if self.white {
            1int
        } else {
            0int
        }));
        assert(s5 =~= self@);
    }

    /// Create a new set of colours, which holds none.
    pub fn new() -> (colours: Self)
        ensures
            colours@ == Set::<Colour>::empty(),
    {
        let colours = ColourSet { black: false, blue: false, green: false, red: false, white: false };
        assert(colours@ =~= Set::<Colour>::empty());
        colours
    }

    /// Checks if the colour set contains the specified colour.
    ///
    /// # Parameters
    ///
    /// * `colour` - the colour to check
    pub fn has(&self, colour: Colour) -> (held: bool)
        ensures
            held == self@.contains(colour),
    {
        match colour {
            Colour::Black => self.black,
            Colour::Blue => self.blue,
            Colour::Green => self.green,
            Colour::Red => self.red,
            Colour::White => self.white,
        }
    }

    /// Returns the number of colours in the set.
    pub fn length(&self) -> (length: usize)
        ensures
            length == self@.len(),
            self@.finite(),
            length <= 5,
    {
        proof {
            self.lemma_counted();
        }
        let mut length: usize = 0;
        if self.black {
            length = length + 1;
        }
        if self.blue {
            length = length + 1;
        }
        if self.green {
            length = length + 1;
        }
        if self.red {
            length = length + 1;
        }
        if self.white {
            length = length + 1;
        }
        length
    }

    /// Checks if the set has multiple colours.
    pub fn is_multicoloured(&self) -> (multicoloured: bool)
        ensures
            multicoloured == (self@.len() > 1),
    {
        self.length() > 1
    }

    /// Checks if the set has no colours.
    pub fn is_colourless(&self) -> (colourless: bool)
        ensures
            colourless == (self@.len() == 0),
            colourless == (self@ == Set::<Colour>::empty()),
    {
        proof {
            self.lemma_counted();
            if self@.len() == 0 {
                assert(self@ =~= Set::<Colour>::empty());
            }
        }
        self.length() == 0
    }

    /// Checks if the set has only a single colour.
    pub fn is_monocoloured(&self) -> (monocoloured: bool)
        ensures
            monocoloured == (self@.len() == 1),
    {
        self.length() == 1
    }

    /// Checks if the specified set of colours is a subset of this set.
    ///
    /// # Parameters
    ///
    /// * `colours` - the subset to validate
    pub fn is_subset(&self, colours: &ColourSet) -> (subset: bool)
        ensures
            subset == colours@.subset_of(self@),
    {
        let subset = (!colours.black || self.black) && (!colours.blue || self.blue) && (
        !colours.green || self.green) && (!colours.red || self.red) && (!colours.white
            || self.white);
        proof {
            if subset {
                assert forall|colour: Colour| colours@.contains(colour) implies self@.contains(
                    colour,
                ) by {}
            } else {
                assert(!(colours@.contains(Colour::Black) ==> self@.contains(Colour::Black)) || !(
                colours@.contains(Colour::Blue) ==> self@.contains(Colour::Blue)) || !(
                colours@.contains(Colour::Green) ==> self@.contains(Colour::Green)) || !(
                colours@.contains(Colour::Red) ==> self@.contains(Colour::Red)) || !(
                colours@.contains(Colour::White) ==> self@.contains(Colour::White)));
            }
        }
        subset
    }

    /// Adds the specified colour to the set. Returns true if the colour was
    /// not already contained in the set, false otherwise.
    ///
    /// # Parameters
    ///
    /// * colour - the colour to add
    pub fn add(&mut self, colour: Colour) -> (added: bool)
        ensures
            final(self)@ == old(self)@.insert(colour),
            added == !old(self)@.contains(colour),
    {
        let added = !self.has(colour);
        match colour {
            Colour::Black => {
                self.black = true;
            },
            Colour::Blue => {
                self.blue = true;
            },
            Colour::Green => {
                self.green = true;
            },
            Colour::Red => {
                self.red = true;
            },
            Colour::White => {
                self.white = true;
            },
        }
        assert(final(self)@ =~= old(self)@.insert(colour));
        added
    }

    /// The colours of the set, in the order black, blue, green, red, white.
    pub fn colours(&self) -> (list: Vec<Colour>)
        ensures
            list@ == in_order(self@),
    {
        let mut list: Vec<Colour> = Vec::new();
        if self.black {
            list.push(Colour::Black);
        }
        if self.blue {
            list.push(Colour::Blue);
        }
        if self.green {
            list.push(Colour::Green);
        }
        if self.red {
            list.push(Colour::Red);
        }
        if self.white {
            list.push(Colour::White);
        }
        assert(list@ =~= in_order(self@));
        list
    }

    /// The set of the colours in a list.
    pub fn from_colours(colours: &[Colour]) -> (set: Self)
        ensures
            set@ == colours@.to_set(),
    {
        let mut set = ColourSet::new();
        let mut i: usize = 0;
        while i < colours.len()
            invariant
                i <= colours.len(),
                forall|colour: Colour|
                    set@.contains(colour) <==> colours@.take(i as int).contains(colour),
            decreases colours.len() - i,
        {
            let ghost before = set@;
            set.add(colours[i]);
            proof {
                let shorter = colours@.take(i as int);
                let longer = colours@.take(i + 1);
                assert forall|colour: Colour| set@.contains(colour) <==> longer.contains(
                    colour,
                ) by {
                    if longer.contains(colour) {
                        let k = choose|k: int| 0 <= k < longer.len() && longer[k] == colour;
                        if k < i {
                            assert(shorter[k] == colour);
                        }
                    }
                    if before.contains(colour) {
                        let k = choose|k: int| 0 <= k < shorter.len() && shorter[k] == colour;
                        assert(longer[k] == colour);
                    }
                    if colour == colours@[i as int] {
                        assert(longer[i as int] == colour);
                    }
                }
            }
            i = i + 1;
        }
        assert(colours@.take(i as int) =~= colours@);
        assert(set@ =~= colours@.to_set());
        set
    }

    /// Writes the name by which the set of colours goes.
    pub fn to_string(&self) -> (name: String)
        ensures
            name@ == title(self@),
    {
        let length = self.length();
        let black = self.has(Colour::Black);
        let blue = self.has(Colour::Blue);
        let green = self.has(Colour::Green);
        let red = self.has(Colour::Red);
        let white = self.has(Colour::White);
        let name = if length == 0 {
            "Colorless"
        } else if length == 1 {
            if black {
                "Black"
            } else if blue {
                "Blue"
            } else if green {
                "Green"
            } else if red {
                "Red"
            } else {
                "White"
            }
        } else if length == 2 {
            if black && blue {
                "House Dimir"
            } else if black && green {
                "Golgari Swarm"
            } else if black && red {
                "Cult of Rakdos"
            } else if black && white {
                "Orzhov Syndicate"
            } else if blue && green {
                "Simic Combine"
            } else if blue && red {
                "Izzet League"
            } else if blue && white {
                "Azorius Senate"
            } else if green && red {
                "Gruul Clans"
            } else if green && white {
                "Selesnya Conclave"
            } else {
                "Boros Legion"
            }
        } else if length == 3 {
            if !black && !blue {
                "Naya"
            } else if !black && !green {
                "Jeskai"
            } else if !black && !red {
                "Bant"
            } else if !black && !white {
                "Temur"
            } else if !blue && !green {
                "Mardu"
            } else if !blue && !red {
                "Abzan"
            } else if !blue && !white {
                "Jund"
            } else if !green && !red {
                "Esper"
            } else if !green && !white {
                "Grixis"
            } else {
                "Sultai"
            }
        } else if length == 4 {
            if !black {
                "Altruism"
            } else if !blue {
                "Aggression"
            } else if !green {
                "Artifice"
            } else if !red {
                "Growth"
            } else {
                "Chaos"
            }
        } else {
            "WUBRG"
        };
        String::from_str(name)
    }
}

impl Default for ColourSet {
    fn default() -> (colours: Self)
        ensures
            colours@ == Set::<Colour>::empty(),
    {
        ColourSet::new()
    }
}

/// The types of generic mana costs.
#[derive(Clone, Debug, PartialEq, Eq, Hash)]
pub enum GenericCost {
    /// An infinite amount of mana.
    Infinity,
    /// Half a mana.
    Half,
    /// A whole number of mana.
    Integer(i32),
    /// An amount that is chosen when the cost is paid.
    Variable(String),
}

/// What a generic mana cost says.
pub enum GenericCostView {
    /// An infinite amount of mana.
    Infinity,
    /// Half a mana.
    Half,
    /// A whole number of mana.
    Integer(i32),
    /// An amount that is chosen when the cost is paid, with its name.
    Variable(Seq<char>),
}

impl View for GenericCost {
    type V = GenericCostView;

    open spec fn view(&self) -> GenericCostView {
        match self {
            GenericCost::Infinity => GenericCostView::Infinity,
            GenericCost::Half => GenericCostView::Half,
            GenericCost::Integer(amount) => GenericCostView::Integer(*amount),
            GenericCost::Variable(variable) => GenericCostView::Variable(variable@),
        }
    }
}

/// Whether a text is the name of a variable amount: `X`, `Y` or `Z`.
pub open spec fn is_variable(text: Seq<char>) -> bool {
    text == "X"@ || text == "Y"@ || text == "Z"@
}

impl GenericCostView {
    /// The generic mana cost that a text denotes: the sign of infinity,
    /// the sign of one half, a whole number, or the name of a variable.
    pub open spec fn read(text: Seq<char>) -> Option<GenericCostView> {
        if text == "∞"@ {
            Some(GenericCostView::Infinity)
        } else if text == "½"@ {
            Some(GenericCostView::Half)
        } else if signed(text) is Some {
            Some(GenericCostView::Integer(signed(text)->0))
        } else if is_variable(text) {
            Some(GenericCostView::Variable(text))
        } else {
            None
        }
    }

    /// The text of this cost.
    pub open spec fn text(self) -> Seq<char> {
        match self {
            GenericCostView::Infinity => "∞"@,
            GenericCostView::Half => "½"@,
            GenericCostView::Integer(amount) => signed_decimal(amount as int),
            GenericCostView::Variable(variable) => variable,
        }
    }

    /// Twice the converted mana cost, and `None` for an infinite cost. A
    /// variable amount counts as nothing.
    pub open spec fn doubled_cost(self) -> Option<int> {
        match self {
            GenericCostView::Infinity => None,
            GenericCostView::Half => Some(1),
            GenericCostView::Integer(amount) => Some(2 * amount),
            GenericCostView::Variable(_) => Some(0),
        }
    }
}

impl GenericCost {
    /// Returns twice the converted mana cost, and `None` for an infinite
    /// cost.
    pub fn doubled_mana_cost(&self) -> (cost: Option<i64>)
        ensures
            match cost {
                Some(value) => self@.doubled_cost() == Some(value as int),
                None => self@.doubled_cost() is None,
            },
    {
        match self {
            GenericCost::Infinity => None,
            GenericCost::Half => Some(1),
            GenericCost::Integer(amount) => Some(2 * (*amount as i64)),
            GenericCost::Variable(_) => Some(0),
        }
    }

    /// Tries to convert the specified string to a `GenericCost::Integer`.
    ///
    /// # Parameters
    ///
    /// * `i` - the potential integer
    pub fn to_integer(i: &str) -> (cost: Result<GenericCost, ()>)
        ensures
            match cost {
                Ok(cost) => signed(i@) is Some && cost == GenericCost::Integer(signed(i@)->0),
                Err(_) => signed(i@) is None,
            },
    {
        match parse_signed(i) {
            Some(amount) => Ok(GenericCost::Integer(amount)),
            None => Err(()),
        }
    }

    /// Tries to convert the specified string to a `GenericCost::Variable`.
    ///
    /// # Parameters
    ///
    /// * `v` - the potential variable
    pub fn to_variable(v: &str) -> (cost: Result<GenericCost, ()>)
        ensures
            match cost {
                Ok(cost) => is_variable(v@) && cost@ == GenericCostView::Variable(v@),
                Err(_) => !is_variable(v@),
            },
    {
        if same_text(v, "X") || same_text(v, "Y") || same_text(v, "Z") {
            Ok(GenericCost::Variable(String::from_str(v)))
        } else {
            Err(())
        }
    }

    /// Reads a generic mana cost. A text that denotes none is answered with
    /// a message that says so.
    pub fn parse(value: &str) -> (cost: Result<GenericCost, String>)
        ensures
            match cost {
                Ok(cost) => GenericCostView::read(value@) == Some(cost@),
                Err(message) => GenericCostView::read(value@) is None && message@ == value@
                    + " is not a valid generic cost."@,
            },
    {
        if same_text(value, "∞") {
            Ok(GenericCost::Infinity)
        } else if same_text(value, "½") {
            Ok(GenericCost::Half)
        } else {
            match GenericCost::to_integer(value) {
                Ok(cost) => Ok(cost),
                Err(_) => match GenericCost::to_variable(value) {
                    Ok(cost) => Ok(cost),
                    Err(_) => {
                        let mut message = String::from_str(value);
                        message.append(" is not a valid generic cost.");
                        Err(message)
                    },
                },
            }
        }
    }

    /// Appends the text of this cost to `text`.
    fn push_text(&self, text: &mut String)
        ensures
            final(text)@ == old(text)@ + self@.text(),
    {
        match self {
            GenericCost::Infinity => {
                text.append("∞");
            },
            GenericCost::Half => {
                text.append("½");
            },
            GenericCost::Integer(amount) => {
                push_signed_decimal(text, *amount as i64);
            },
            GenericCost::Variable(variable) => {
                text.append(variable.as_str());
            },
        }
    }

    /// Writes this cost as text.
    pub fn to_string(&self) -> (text: String)
        ensures
            text@ == self@.text(),
    {
        let mut text = String::new();
        self.push_text(&mut text);
        assert(text@ =~= self@.text());
        text
    }
}

impl TryFrom<&str> for GenericCost {
    type Error = String;

    fn try_from(value: &str) -> (cost: Result<Self, String>)
        ensures
            match cost {
                Ok(cost) => GenericCostView::read(value@) == Some(cost@),
                Err(message) => GenericCostView::read(value@) is None && message@ == value@
                    + " is not a valid generic cost."@,
            },
    {
        GenericCost::parse(value)
    }
}

impl TryFromSpecImpl<&str> for GenericCost {
    open spec fn obeys_try_from_spec() -> bool {
        false
    }

    open spec fn try_from_spec(value: &str) -> Result<Self, String> {
        arbitrary()
    }
}

impl TryFrom<String> for GenericCost {
    type Error = String;

    fn try_from(value: String) -> (cost: Result<Self, String>)
        ensures
            match cost {
                Ok(cost) => GenericCostView::read(value@) == Some(cost@),
                Err(message) => GenericCostView::read(value@) is None && message@ == value@
                    + " is not a valid generic cost."@,
            },
    {
        GenericCost::parse(value.as_str())
    }
}

impl TryFromSpecImpl<String> for GenericCost {
    open spec fn obeys_try_from_spec() -> bool {
        false
    }

    open spec fn try_from_spec(value: String) -> Result<Self, String> {
        arbitrary()
    }
}

/// A type of mana.
#[derive(Clone, Debug, PartialEq, Eq, Hash)]
pub enum Mana {
    /// Mana of one colour.
    Coloured(Colour),
    /// Mana without colour.
    Colourless,
    /// Mana of any kind.
    Generic(GenericCost),
    /// Either one mana of the colour or two of any kind.
    MonoHybrid(Colour),
    /// Mana of either of two colours.
    DualHybrid(Colour, Colour),
    /// Mana from a snow source.
    Snow,
    /// Either mana of the colour or two life.
    Phyrexian(Colour),
    /// Half a mana of the colour.
    Half(Colour),
}

/// What a mana says.
pub enum ManaView {
    /// Mana of one colour.
    Coloured(Colour),
    /// Mana without colour.
    Colourless,
    /// Mana of any kind.
    Generic(GenericCostView),
    /// Either one mana of the colour or two of any kind.
    MonoHybrid(Colour),
    /// Mana of either of two colours.
    DualHybrid(Colour, Colour),
    /// Mana from a snow source.
    Snow,
    /// Either mana of the colour or two life.
    Phyrexian(Colour),
    /// Half a mana of the colour.
    Half(Colour),
}

impl View for Mana {
    type V = ManaView;

    open spec fn view(&self) -> ManaView {
        match self {
            Mana::Coloured(colour) => ManaView::Coloured(*colour),
            Mana::Colourless => ManaView::Colourless,
            Mana::Generic(cost) => ManaView::Generic(cost@),
            Mana::MonoHybrid(colour) => ManaView::MonoHybrid(*colour),
            Mana::DualHybrid(first, second) => ManaView::DualHybrid(*first, *second),
            Mana::Snow => ManaView::Snow,
            Mana::Phyrexian(colour) => ManaView::Phyrexian(*colour),
            Mana::Half(colour) => ManaView::Half(*colour),
        }
    }
}

impl ManaView {
    /// The mana of one colour that a text denotes: the name of the colour.
    pub open spec fn read_coloured(text: Seq<char>) -> Option<ManaView> {
        match Colour::named(text) {
            Some(colour) => Some(ManaView::Coloured(colour)),
            None => None,
        }
    }

    /// The colourless mana that a text denotes: `C`.
    pub open spec fn read_colourless(text: Seq<char>) -> Option<ManaView> {
        if text == "C"@ {
            Some(ManaView::Colourless)
        } else {
            None
        }
    }

    /// The generic mana that a text denotes: a generic cost.
    pub open spec fn read_generic(text: Seq<char>) -> Option<ManaView> {
        match GenericCostView::read(text) {
            Some(cost) => Some(ManaView::Generic(cost)),
            None => None,
        }
    }

    /// The mono hybrid mana that a text denotes: `2/` before the name of a
    /// colour.
    pub open spec fn read_mono_hybrid(text: Seq<char>) -> Option<ManaView> {
        if starts_with(text, "2/"@) {
            match Colour::named(text.skip(2)) {
                Some(colour) => Some(ManaView::MonoHybrid(colour)),
                None => None,
            }
        } else {
            None
        }
    }

    /// The dual hybrid mana that a text denotes: the names of two colours
    /// on the two sides of the first `/`.
    pub open spec fn read_dual_hybrid(text: Seq<char>) -> Option<ManaView> {
        let slash = position(text, '/');
        if slash < text.len() {
            match (Colour::named(text.take(slash)), Colour::named(text.skip(slash + 1))) {
                (Some(first), Some(second)) => Some(ManaView::DualHybrid(first, second)),
                _ => None,
            }
        } else {
            None
        }
    }

    /// The mana that the text `S` denotes. It is read as colourless mana.
    pub open spec fn read_snow(text: Seq<char>) -> Option<ManaView> {
        if text == "S"@ {
            Some(ManaView::Colourless)
        } else {
            None
        }
    }

    /// The phyrexian mana that a text denotes: the name of a colour before
    /// `/P`.
    pub open spec fn read_phyrexian(text: Seq<char>) -> Option<ManaView> {
        if ends_with(text, "/P"@) {
            match Colour::named(text.take(text.len() - 2)) {
                Some(colour) => Some(ManaView::Phyrexian(colour)),
                None => None,
            }
        } else {
            None
        }
    }

    /// The half mana that a text denotes: `H` before the name of a colour.
    pub open spec fn read_half(text: Seq<char>) -> Option<ManaView> {
        if starts_with(text, "H"@) {
            match Colour::named(text.skip(1)) {
                Some(colour) => Some(ManaView::Half(colour)),
                None => None,
            }
        } else {
            None
        }
    }

    /// The mana that a text without braces denotes: the first of coloured,
    /// colourless, generic, mono hybrid, dual hybrid, snow, phyrexian and
    /// half mana that it can be read as.
    pub open spec fn read_inner(text: Seq<char>) -> Option<ManaView> {
        if Self::read_coloured(text) is Some {
            Self::read_coloured(text)
        } else if Self::read_colourless(text) is Some {
            Self::read_colourless(text)
        } else if Self::read_generic(text) is Some {
            Self::read_generic(text)
        } else if Self::read_mono_hybrid(text) is Some {
            Self::read_mono_hybrid(text)
        } else if Self::read_dual_hybrid(text) is Some {
            Self::read_dual_hybrid(text)
        } else if Self::read_snow(text) is Some {
            Self::read_snow(text)
        } else if Self::read_phyrexian(text) is Some {
            Self::read_phyrexian(text)
        } else {
            Self::read_half(text)
        }
    }

    /// The mana that a text denotes: what stands between its braces.
    pub open spec fn read(text: Seq<char>) -> Option<ManaView> {
        if starts_with(text, "{"@) && ends_with(text.skip(1), "}"@) {
            Self::read_inner(text.skip(1).take(text.len() - 2))
        } else {
            None
        }
    }

    /// The text of this mana without its braces.
    pub open spec fn inner_text(self) -> Seq<char> {
        match self {
            ManaView::Coloured(colour) => colour.name(),
            ManaView::Colourless => "C"@,
            ManaView::Generic(cost) => cost.text(),
            ManaView::MonoHybrid(colour) => "2/"@ + colour.name(),
            ManaView::DualHybrid(first, second) => first.name() + "/"@ + second.name(),
            ManaView::Snow => "S"@,
            ManaView::Phyrexian(colour) => colour.name() + "/P"@,
            ManaView::Half(colour) => "H"@ + colour.name(),
        }
    }

    /// The text of this mana: between braces.
    pub open spec fn text(self) -> Seq<char> {
        "{"@ + self.inner_text() + "}"@
    }

    /// Twice the converted mana cost, and `None` for an infinite cost.
    pub open spec fn doubled_cost(self) -> Option<int> {
        match self {
            ManaView::Coloured(_) => Some(2),
            ManaView::Colourless => Some(2),
            ManaView::Generic(cost) => cost.doubled_cost(),
            ManaView::MonoHybrid(_) => Some(4),
            ManaView::DualHybrid(_, _) => Some(2),
            ManaView::Snow => Some(2),
            ManaView::Phyrexian(_) => Some(2),
            ManaView::Half(_) => Some(1),
        }
    }
}

impl Mana {
    /// Returns twice the converted mana cost, and `None` for an infinite
    /// cost.
    pub fn doubled_mana_cost(&self) -> (cost: Option<i64>)
        ensures
            match cost {
                Some(value) => self@.doubled_cost() == Some(value as int),
                None => self@.doubled_cost() is None,
            },
    {
        match self {
            Mana::Coloured(_) => Some(2),
            Mana::Colourless => Some(2),
            Mana::Generic(cost) => cost.doubled_mana_cost(),
            Mana::MonoHybrid(_) => Some(4),
            Mana::DualHybrid(_, _) => Some(2),
            Mana::Snow => Some(2),
            Mana::Phyrexian(_) => Some(2),
            Mana::Half(_) => Some(1),
        }
    }

    /// Tries to convert a string without specifiers into coloured mana.
    ///
    /// # Parameters
    ///
    /// * `value` - the string to convert
    pub fn into_coloured(value: &str) -> (mana: Option<Mana>)
        ensures
            match mana {
                Some(mana) => ManaView::read_coloured(value@) == Some(mana@),
                None => ManaView::read_coloured(value@) is None,
            },
    {
        match Colour::parse(value) {
            Ok(colour) => Some(Mana::Coloured(colour)),
            Err(_) => None,
        }
    }

    /// Tries to convert a string without specifiers into colourless mana.
    ///
    /// # Parameters
    ///
    /// * `value` - the string to convert
    pub fn into_colourless(value: &str) -> (mana: Option<Mana>)
        ensures
            match mana {
                Some(mana) => ManaView::read_colourless(value@) == Some(mana@),
                None => ManaView::read_colourless(value@) is None,
            },
    {
        if same_text(value, "C") {
            Some(Mana::Colourless)
        } else {
            None
        }
    }

    /// Tries to convert a string without specifiers into generic mana.
    ///
    /// # Parameters
    ///
    /// * `value` - the string to convert
    pub fn into_generic(value: &str) -> (mana: Option<Mana>)
        ensures
            match mana {
                Some(mana) => ManaView::read_generic(value@) == Some(mana@),
                None => ManaView::read_generic(value@) is None,
            },
    {
        match GenericCost::parse(value) {
            Ok(cost) => Some(Mana::Generic(cost)),
            Err(_) => None,
        }
    }

    /// Tries to convert a string without specifiers into mono hybrid mana.
    ///
    /// # Parameters
    ///
    /// * `value` - the string to convert
    pub fn into_mono_hybrid(value: &str) -> (mana: Option<Mana>)
        ensures
            match mana {
                Some(mana) => ManaView::read_mono_hybrid(value@) == Some(mana@),
                None => ManaView::read_mono_hybrid(value@) is None,
            },
    {
        proof {
            reveal_strlit("2/");
        }
        match strip_prefix(value, "2/") {
            Some(stripped) => match Colour::parse(stripped) {
                Ok(colour) => Some(Mana::MonoHybrid(colour)),
                Err(_) => None,
            },
            None => None,
        }
    }

    /// Tries to convert a string without specifiers into dual hybrid mana.
    ///
    /// # Parameters
    ///
    /// * `value` - the string to convert
    pub fn into_dual_hybrid(value: &str) -> (mana: Option<Mana>)
        ensures
            match mana {
                Some(mana) => ManaView::read_dual_hybrid(value@) == Some(mana@),
                None => ManaView::read_dual_hybrid(value@) is None,
            },
    {
        proof {
            lemma_position(value@, '/');
        }
        match split_once(value, '/') {
            Some((first, second)) => match (Colour::parse(first), Colour::parse(second)) {
                (Ok(a), Ok(b)) => Some(Mana::DualHybrid(a, b)),
                _ => None,
            },
            None => None,
        }
    }

    /// Tries to convert a string without specifiers into phyrexian mana.
    ///
    /// # Parameters
    ///
    /// * `value` - the string to convert
    pub fn into_phyrexian(value: &str) -> (mana: Option<Mana>)
        ensures
            match mana {
                Some(mana) => ManaView::read_phyrexian(value@) == Some(mana@),
                None => ManaView::read_phyrexian(value@) is None,
            },
    {
        proof {
            reveal_strlit("/P");
        }
        match strip_suffix(value, "/P") {
            Some(stripped) => match Colour::parse(stripped) {
                Ok(colour) => Some(Mana::Phyrexian(colour)),
                Err(_) => None,
            },
            None => None,
        }
    }

    /// Tries to convert a string without specifiers into half mana.
    ///
    /// # Parameters
    ///
    /// * `value` - the string to convert
    pub fn into_half(value: &str) -> (mana: Option<Mana>)
        ensures
            match mana {
                Some(mana) => ManaView::read_half(value@) == Some(mana@),
                None => ManaView::read_half(value@) is None,
            },
    {
        proof {
            reveal_strlit("H");
        }
        match strip_prefix(value, "H") {
            Some(stripped) => match Colour::parse(stripped) {
                Ok(colour) => Some(Mana::Half(colour)),
                Err(_) => None,
            },
            None => None,
        }
    }

    /// Tries to convert the string `S` without specifiers into mana. It is
    /// read as colourless mana.
    ///
    /// # Parameters
    ///
    /// * `value` - the string to convert
    pub fn into_snow(value: &str) -> (mana: Option<Mana>)
        ensures
            match mana {
                Some(mana) => ManaView::read_snow(value@) == Some(mana@),
                None => ManaView::read_snow(value@) is None,
            },
    {
        if same_text(value, "S") {
            Some(Mana::Colourless)
        } else {
            None
        }
    }

    /// Reads what stands between the braces of a mana.
    fn parse_inner(inner: &str) -> (mana: Option<Mana>)
        ensures
            match mana {
                Some(mana) => ManaView::read_inner(inner@) == Some(mana@),
                None => ManaView::read_inner(inner@) is None,
            },
    {
        let coloured = Mana::into_coloured(inner);
        if coloured.is_some() {
            return coloured;
        }
        let colourless = Mana::into_colourless(inner);
        if colourless.is_some() {
            return colourless;
        }
        let generic = Mana::into_generic(inner);
        if generic.is_some() {
            return generic;
        }
        let mono_hybrid = Mana::into_mono_hybrid(inner);
        if mono_hybrid.is_some() {
            return mono_hybrid;
        }
        let dual_hybrid = Mana::into_dual_hybrid(inner);
        if dual_hybrid.is_some() {
            return dual_hybrid;
        }
        let snow = Mana::into_snow(inner);
        if snow.is_some() {
            return snow;
        }
        let phyrexian = Mana::into_phyrexian(inner);
        if phyrexian.is_some() {
            return phyrexian;
        }
        Mana::into_half(inner)
    }

    /// Reads a mana. A text that denotes none is answered with a message
    /// that says so.
    pub fn parse(value: &str) -> (mana: Result<Mana, String>)
        ensures
            match mana {
                Ok(mana) => ManaView::read(value@) == Some(mana@),
                Err(message) => ManaView::read(value@) is None && message@ == value@
                    + " is not valid mana."@,
            },
    {
        proof {
            reveal_strlit("{");
            reveal_strlit("}");
        }
        let inner = match strip_prefix(value, "{") {
            Some(trim) => strip_suffix(trim, "}"),
            None => None,
        };
        let mana = match inner {
            Some(inner) => {
                assert(inner@ =~= value@.skip(1).take(value@.len() - 2));
                Mana::parse_inner(inner)
            },
            None => None,
        };
        match mana {
            Some(mana) => Ok(mana),
            None => {
                let mut message = String::from_str(value);
                message.append(" is not valid mana.");
                Err(message)
            },
        }
    }

    /// Appends the text of this mana to `text`.
    fn push_text(&self, text: &mut String)
        ensures
            final(text)@ == old(text)@ + self@.text(),
    {
        text.append("{");
        match self {
            Mana::Coloured(colour) => {
                text.append(colour.as_str());
            },
            Mana::Colourless => {
                text.append("C");
            },
            Mana::Generic(cost) => {
                cost.push_text(text);
            },
            Mana::MonoHybrid(colour) => {
                text.append("2/");
                text.append(colour.as_str());
            },
            Mana::DualHybrid(first, second) => {
                text.append(first.as_str());
                text.append("/");
                text.append(second.as_str());
            },
            Mana::Snow => {
                text.append("S");
            },
            Mana::Phyrexian(colour) => {
                text.append(colour.as_str());
                text.append("/P");
            },
            Mana::Half(colour) => {
                text.append("H");
                text.append(colour.as_str());
            },
        }
        text.append("}");
        assert(final(text)@ =~= old(text)@ + self@.text());
    }

    /// Writes this mana as text.
    pub fn to_string(&self) -> (text: String)
        ensures
            text@ == self@.text(),
    {
        let mut text = String::new();
        self.push_text(&mut text);
        assert(text@ =~= self@.text());
        text
    }
}

impl TryFrom<&str> for Mana {
    type Error = String;

    fn try_from(value: &str) -> (mana: Result<Self, String>)
        ensures
            match mana {
                Ok(mana) => ManaView::read(value@) == Some(mana@),
                Err(message) => ManaView::read(value@) is None && message@ == value@
                    + " is not valid mana."@,
            },
    {
        Mana::parse(value)
    }
}

impl TryFromSpecImpl<&str> for Mana {
    open spec fn obeys_try_from_spec() -> bool {
        false
    }

    open spec fn try_from_spec(value: &str) -> Result<Self, String> {
        arbitrary()
    }
}

impl TryFrom<String> for Mana {
    type Error = String;

    fn try_from(value: String) -> (mana: Result<Self, String>)
        ensures
            match mana {
                Ok(mana) => ManaView::read(value@) == Some(mana@),
                Err(message) => ManaView::read(value@) is None && message@ == value@
                    + " is not valid mana."@,
            },
    {
        Mana::parse(value.as_str())
    }
}

impl TryFromSpecImpl<String> for Mana {
    open spec fn obeys_try_from_spec() -> bool {
        false
    }

    open spec fn try_from_spec(value: String) -> Result<Self, String> {
        arbitrary()
    }
}

/// The signs of the mana notation as they are, character by character.
proof fn lemma_signs()
    ensures
        "B"@ == seq!['B'],
        "U"@ == seq!['U'],
        "G"@ == seq!['G'],
        "R"@ == seq!['R'],
        "W"@ == seq!['W'],
        "C"@ == seq!['C'],
        "S"@ == seq!['S'],
        "H"@ == seq!['H'],
        "X"@ == seq!['X'],
        "Y"@ == seq!['Y'],
        "Z"@ == seq!['Z'],
        "/"@ == seq!['/'],
        "{"@ == seq!['{'],
        "}"@ == seq!['}'],
        "∞"@ == seq!['∞'],
        "½"@ == seq!['½'],
        "2/"@ == seq!['2', '/'],
        "/P"@ == seq!['/', 'P'],
{
    reveal_strlit("B");
    reveal_strlit("U");
    reveal_strlit("G");
    reveal_strlit("R");
    reveal_strlit("W");
    reveal_strlit("C");
    reveal_strlit("S");
    reveal_strlit("H");
    reveal_strlit("X");
    reveal_strlit("Y");
    reveal_strlit("Z");
    reveal_strlit("/");
    reveal_strlit("{");
    reveal_strlit("}");
    reveal_strlit("∞");
    reveal_strlit("½");
    reveal_strlit("2/");
    reveal_strlit("/P");
    assert("B"@ =~= seq!['B']);
    assert("U"@ =~= seq!['U']);
    assert("G"@ =~= seq!['G']);
    assert("R"@ =~= seq!['R']);
    assert("W"@ =~= seq!['W']);
    assert("C"@ =~= seq!['C']);
    assert("S"@ =~= seq!['S']);
    assert("H"@ =~= seq!['H']);
    assert("X"@ =~= seq!['X']);
    assert("Y"@ =~= seq!['Y']);
    assert("Z"@ =~= seq!['Z']);
    assert("/"@ =~= seq!['/']);
    assert("{"@ =~= seq!['{']);
    assert("}"@ =~= seq!['}']);
    assert("∞"@ =~= seq!['∞']);
    assert("½"@ =~= seq!['½']);
    assert("2/"@ =~= seq!['2', '/']);
    assert("/P"@ =~= seq!['/', 'P']);
}

/// A text is the name of a colour exactly if it is one of the five
/// letters.
proof fn lemma_colour_letters(text: Seq<char>)
    ensures
        Colour::named(text) is Some <==> (text.len() == 1 && (text[0] == 'B' || text[0] == 'U'
            || text[0] == 'G' || text[0] == 'R' || text[0] == 'W')),
        forall|colour: Colour|
            (#[trigger] colour.name()).len() == 1 && Colour::named(colour.name()) == Some(colour)
                && (colour.name()[0] == 'B' || colour.name()[0] == 'U' || colour.name()[0] == 'G'
                || colour.name()[0] == 'R' || colour.name()[0] == 'W'),
{
    lemma_signs();
    if text.len() == 1 {
        assert(text =~= seq![text[0]]);
    }
    assert forall|colour: Colour|
        (#[trigger] colour.name()).len() == 1 && Colour::named(colour.name()) == Some(colour) && (
        colour.name()[0] == 'B' || colour.name()[0] == 'U' || colour.name()[0] == 'G'
            || colour.name()[0] == 'R' || colour.name()[0] == 'W') by {
        lemma_name_is_read_back(colour, colour.name());
        match colour {
            Colour::Black => {
                assert(colour.name()[0] == 'B');
            },
            Colour::Blue => {
                assert(colour.name()[0] == 'U');
            },
            Colour::Green => {
                assert(colour.name()[0] == 'G');
            },
            Colour::Red => {
                assert(colour.name()[0] == 'R');
            },
            Colour::White => {
                assert(colour.name()[0] == 'W');
            },
        }
    }
}

/// The text of a generic cost is read back as that cost, and as no
/// coloured or colourless mana.
proof fn lemma_written_cost_is_read_back(cost: GenericCostView)
    requires
        cost matches GenericCostView::Variable(variable) ==> is_variable(variable),
    ensures
        GenericCostView::read(cost.text()) == Some(cost),
        Colour::named(cost.text()) is None,
        cost.text() != "C"@,
{
    lemma_signs();
    lemma_colour_letters(cost.text());
    let text = cost.text();
    match cost {
        GenericCostView::Infinity => {},
        GenericCostView::Half => {},
        GenericCostView::Integer(amount) => {
            lemma_written_integer_is_read_back(amount);
            if amount < 0 {
                assert(text[0] == '-');
            } else {
                lemma_decimal_denotes(amount as nat);
                assert(is_digit(text[0]));
            }
        },
        GenericCostView::Variable(variable) => {
            assert(!is_digit(text[0]));
            assert(signed(text) is None);
        },
    }
}

/// The text of a mana is read back as that mana. This does not hold of
/// snow mana, whose sign is read as colourless mana, nor of a variable
/// amount with another name than `X`, `Y` or `Z`.
pub proof fn lemma_written_mana_is_read_back(mana: ManaView)
    requires
        !(mana is Snow),
        mana matches ManaView::Generic(GenericCostView::Variable(variable)) ==> is_variable(
            variable,
        ),
    ensures
        ManaView::read(mana.text()) == Some(mana),
{
    lemma_signs();
    let inner = mana.inner_text();
    let text = mana.text();
    lemma_colour_letters(inner);
    assert(text.take(1) =~= "{"@);
    assert(text.skip(1).skip(text.skip(1).len() - 1) =~= "}"@);
    assert(text.skip(1).take(text.len() - 2) =~= inner);
    match mana {
        ManaView::Coloured(colour) => {},
        ManaView::Colourless => {},
        ManaView::Generic(cost) => {
            lemma_written_cost_is_read_back(cost);
        },
        ManaView::MonoHybrid(colour) => {
            assert(inner.len() == 3);
            assert(inner.take(2) =~= "2/"@);
            assert(inner.skip(2) =~= colour.name());
            assert(!is_digit(inner[1]));
            assert(signed(inner) is None);
        },
        ManaView::DualHybrid(first, second) => {
            assert(inner.len() == 3);
            assert(inner[0] == first.name()[0]);
            assert(inner[1] == '/');
            assert(!is_digit(inner[0]));
            assert(signed(inner) is None);
            assert(inner.take(2) != "2/"@) by {
                assert(inner.take(2)[0] == inner[0]);
            }
            assert(position(inner.drop_first(), '/') == 0);
            assert(position(inner, '/') == 1);
            assert(inner.take(1) =~= first.name());
            assert(inner.skip(2) =~= second.name());
        },
        ManaView::Snow => {},
        ManaView::Phyrexian(colour) => {
            assert(inner.len() == 3);
            assert(inner[0] == colour.name()[0]);
            assert(inner[1] == '/');
            assert(inner[2] == 'P');
            assert(!is_digit(inner[0]));
            assert(signed(inner) is None);
            assert(inner.take(2) != "2/"@) by {
                assert(inner.take(2)[0] == inner[0]);
            }
            assert(position(inner.drop_first(), '/') == 0);
            assert(position(inner, '/') == 1);
            lemma_colour_letters(inner.skip(2));
            assert(inner.skip(2)[0] == 'P');
            assert(inner.skip(1) =~= "/P"@);
            assert(inner.take(1) =~= colour.name());
        },
        ManaView::Half(colour) => {
            assert(inner.len() == 2);
            assert(inner[0] == 'H');
            assert(inner[1] == colour.name()[0]);
            assert(!is_digit(inner[0]));
            assert(signed(inner) is None);
            assert(inner.take(2) != "2/"@) by {
                assert(inner.take(2)[0] == inner[0]);
            }
            assert(position(inner.drop_first().drop_first(), '/') == 0);
            assert(position(inner.drop_first(), '/') == 1);
            assert(position(inner, '/') == 2);
            assert(inner.skip(0) != "/P"@) by {
                assert(inner.skip(0)[0] == inner[0]);
            }
            assert(inner.take(1) =~= "H"@);
            assert(inner.skip(1) =~= colour.name());
        },
    }
}

/// The texts of a list of mana, one after the other.
pub open spec fn cost_text(mana: Seq<Mana>) -> Seq<char>
    decreases mana.len(),
{
    if mana.len() == 0 {
        Seq::empty()
    } else {
        cost_text(mana.drop_last()) + mana.last()@.text()
    }
}

/// Twice the converted mana cost of a list of mana: the sum over the list,
/// and `None` if a mana of the list costs an infinite amount.
pub open spec fn cost_doubled(mana: Seq<Mana>) -> Option<int>
    decreases mana.len(),
{
    if mana.len() == 0 {
        Some(0)
    } else {
        match (cost_doubled(mana.drop_last()), mana.last()@.doubled_cost()) {
            (Some(sum), Some(cost)) => Some(sum + cost),
            _ => None,
        }
    }
}

/// The mana cost of a card.
#[derive(Clone, Debug, PartialEq, Eq, Hash)]
pub struct ManaCost {
    mana: Vec<Mana>,
}

impl View for ManaCost {
    type V = Seq<Mana>;

    closed spec fn view(&self) -> Seq<Mana> {
        self.mana@
    }
}

impl ManaCost {
    /// Creates a new mana cost.
    ///
    /// # Parameters
    ///
    /// * mana - the mana cost
    pub fn new(mana: Vec<Mana>) -> (cost: Self)
        ensures
            cost@ == mana@,
    {
        Self { mana }
    }

    /// Returns twice the converted mana cost, and `None` if a part of the
    /// cost is infinite.
    pub fn doubled_mana_cost(&self) -> (cost: Option<i128>)
        ensures
            match cost {
                Some(value) => cost_doubled(self@) == Some(value as int),
                None => cost_doubled(self@) is None,
            },
    {
        let mut sum: i128 = 0;
        let mut i: usize = 0;
        while i < self.mana.len()
            invariant
                i <= self.mana.len(),
                cost_doubled(self@.take(i as int)) == Some(sum as int),
                -0x1_0000_0000 * i <= sum <= 0x1_0000_0000 * i,
            decreases self.mana.len() - i,
        {
            assert(self@.take(i + 1).drop_last() =~= self@.take(i as int));
            match self.mana[i].doubled_mana_cost() {
                Some(cost) => {
                    sum = sum + (cost as i128);
                },
                None => {
                    proof {
                        lemma_infinite_stays(self@, i + 1);
                    }
                    return None;
                },
            }
            i = i + 1;
        }
        assert(self@.take(i as int) =~= self@);
        Some(sum)
    }

    /// Writes this mana cost as text: the texts of its mana, one after the
    /// other.
    pub fn to_string(&self) -> (text: String)
        ensures
            text@ == cost_text(self@),
    {
        let mut text = String::new();
        let mut i: usize = 0;
        while i < self.mana.len()
            invariant
                i <= self.mana.len(),
                text@ == cost_text(self@.take(i as int)),
            decreases self.mana.len() - i,
        {
            assert(self@.take(i + 1).drop_last() =~= self@.take(i as int));
            self.mana[i].push_text(&mut text);
            i = i + 1;
        }
        assert(self@.take(i as int) =~= self@);
        text
    }
}

/// A list of mana with an infinite part costs an infinite amount, whatever
/// follows.
pub proof fn lemma_infinite_stays(mana: Seq<Mana>, length: int)
    requires
        0 <= length <= mana.len(),
        cost_doubled(mana.take(length)) is None,
    ensures
        cost_doubled(mana) is None,
    decreases mana.len() - length,
{
    if length < mana.len() {
        assert(mana.take(length + 1).drop_last() =~= mana.take(length));
        lemma_infinite_stays(mana, length + 1);
    } else {
        assert(mana.take(length) =~= mana);
    }
}

/// The pieces into which a text of several mana falls: each piece ends
/// with the first closing brace after its beginning, and what follows the
/// last closing brace is a piece of its own, unless nothing follows. A text
/// without a closing brace is one piece.
pub open spec fn mana_pieces(text: Seq<char>) -> Seq<Seq<char>>
    decreases text.len(),
{
    let close = position(text, '}');
    if 0 <= close && close + 1 < text.len() {
        seq![text.take(close + 1)] + mana_pieces(text.skip(close + 1))
    } else {
        seq![text]
    }
}

/// The views of a list of texts.
pub open spec fn texts(pieces: Seq<&str>) -> Seq<Seq<char>> {
    Seq::new(pieces.len(), |i: int| pieces[i]@)
}

/// Splits a text of several mana into its pieces, one for each mana.
pub fn split_mana_string<'a>(mana_string: &'a str) -> (pieces: Vec<&'a str>)
    ensures
        texts(pieces@) == mana_pieces(mana_string@),
{
    let whole = characters(mana_string);
    let mut pieces: Vec<&'a str> = Vec::new();
    let mut start: usize = 0;
    assert(mana_string@.skip(0) =~= mana_string@);
    assert(texts(pieces@) + mana_pieces(mana_string@) =~= mana_pieces(mana_string@));
    loop
        invariant
            start <= whole.len(),
            whole@ == mana_string@,
            mana_pieces(mana_string@) == texts(pieces@) + mana_pieces(
                mana_string@.skip(start as int),
            ),
        decreases whole.len() - start,
    {
        let ghost rest = mana_string@.skip(start as int);
        let close = find_from(&whole, start, '}');
        proof {
            lemma_position(rest, '}');
        }
        if close < whole.len() && close + 1 < whole.len() {
            let piece = mana_string.substring_char(start, close + 1);
            let ghost before = texts(pieces@);
            pieces.push(piece);
            proof {
                assert(piece@ =~= rest.take(close - start + 1));
                assert(rest.skip(close - start + 1) =~= mana_string@.skip(close + 1));
                assert(texts(pieces@) =~= before + seq![piece@]);
            }
            start = close + 1;
        } else {
            let piece = mana_string.substring_char(start, whole.len());
            let ghost before = texts(pieces@);
            pieces.push(piece);
            proof {
                assert(piece@ =~= rest);
                assert(texts(pieces@) =~= before + seq![piece@]);
            }
            return pieces;
        }
    }
}

} // verus!
