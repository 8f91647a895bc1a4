//! Cards and sets of cards.

use chrono::NaiveDate;
use std::collections::HashMap;
use vstd::prelude::*;

use crate::magic::colour::{ColourSet, ManaCost};
use crate::magic::language::LocalisedString;
use crate::magic::legality::Legality;
use crate::magic::physical_card::text_of;
use crate::magic::rarity::Rarity;
use crate::utility::text::same_text;

verus! {

/// A date of the calendar, as `chrono` holds it.
#[verifier::external_type_specification]
#[verifier::external_body]
pub struct ExNaiveDate(NaiveDate);

/// Trusted: this is the `clone` that `chrono` derives for its `NaiveDate`,
/// a type that is `Copy`, so the clone is the date itself.
pub assume_specification[ <NaiveDate as Clone>::clone ](date: &NaiveDate) -> (copy: NaiveDate)
    ensures
        copy == *date,
;

/// The characters of each text of a list.
pub open spec fn texts_of(list: Seq<String>) -> Seq<Seq<char>> {
    Seq::new(list.len(), |i: int| list[i]@)
}

/// The formats of a list with the legality in each, the formats given by
/// their characters.
pub open spec fn formats_of(list: Seq<(String, Legality)>) -> Seq<(Seq<char>, Legality)> {
    Seq::new(list.len(), |i: int| (list[i].0@, list[i].1))
}

/// The place of the first entry for the format in a list, and the length of
/// the list if there is none.
pub open spec fn format_place(list: Seq<(Seq<char>, Legality)>, format: Seq<char>) -> int
    decreases list.len(),
{
    if list.len() == 0 {
        0
    } else if list[0].0 == format {
        0
    } else {
        1 + format_place(list.drop_first(), format)
    }
}

/// The legality in the format that a list gives: that of its first entry
/// for the format, and `NotLegal` if it has none.
pub open spec fn legality_in(list: Seq<(Seq<char>, Legality)>, format: Seq<char>) -> Legality {
    if format_place(list, format) < list.len() {
        list[format_place(list, format)].1
    } else {
        Legality::NotLegal
    }
}

/// The list after the legality in the format was set: in the place of the
/// first entry for the format, or as a new entry at the end.
pub open spec fn with_legality(
    list: Seq<(Seq<char>, Legality)>,
    format: Seq<char>,
    legality: Legality,
) -> Seq<(Seq<char>, Legality)> {
    if format_place(list, format) < list.len() {
        list.update(format_place(list, format), (format, legality))
    } else {
        list.push((format, legality))
    }
}

/// The place of a format lies in the list or at its end; there the list
/// holds the format, and before it the list does not.
pub proof fn lemma_format_place(list: Seq<(Seq<char>, Legality)>, format: Seq<char>)
    ensures
        0 <= format_place(list, format) <= list.len(),
        format_place(list, format) < list.len() ==> list[format_place(list, format)].0 == format,
        forall|i: int| 0 <= i < format_place(list, format) ==> list[i].0 != format,
    decreases list.len(),
{
    if list.len() > 0 && list[0].0 != format {
        let rest = list.drop_first();
        lemma_format_place(rest, format);
        assert forall|i: int| 0 <= i < format_place(list, format) implies list[i].0 != format by {
            if i > 0 {
                assert(rest[i - 1] == list[i]);
            }
        }
    }
}

/// A legality that was set for a format is the one that is found for it,
/// and the legality in every other format stays what it was.
pub proof fn lemma_set_legality_is_found(
    list: Seq<(Seq<char>, Legality)>,
    format: Seq<char>,
    legality: Legality,
    other: Seq<char>,
)
    ensures
        legality_in(with_legality(list, format, legality), format) == legality,
        other != format ==> legality_in(with_legality(list, format, legality), other)
            == legality_in(list, other),
{
    let after = with_legality(list, format, legality);
    lemma_format_place(list, format);
    lemma_same_place(list, after, format, format);
    if other != format {
        lemma_format_place(list, other);
        lemma_same_place(list, after, format, other);
    }
}

/// Setting the legality in a format moves the place of no format.
proof fn lemma_same_place(
    list: Seq<(Seq<char>, Legality)>,
    after: Seq<(Seq<char>, Legality)>,
    format: Seq<char>,
    other: Seq<char>,
)
    requires
        after.len() >= list.len(),
        forall|i: int| 0 <= i < list.len() ==> (#[trigger] after[i]).0 == list[i].0,
        forall|i: int| 0 <= i < list.len() && list[i].0 != format ==> after[i] == list[i],
        after.len() > list.len() ==> after.len() == list.len() + 1 && after[list.len() as int].0
            == format && format_place(list, format) == list.len(),
    ensures
        other == format || format_place(list, other) < list.len() ==> format_place(after, other)
            == format_place(list, other),
        other != format && format_place(list, other) == list.len() ==> format_place(after, other)
            == after.len(),
    decreases list.len(),
{
    if list.len() == 0 {
        if after.len() > 0 {
            assert(after.drop_first().len() == 0);
            assert(format_place(after.drop_first(), other) == 0);
        }
    } else {
        let rest = list.drop_first();
        let rest_after = after.drop_first();
        assert(after[0].0 == list[0].0);
        if list[0].0 != other {
            assert forall|i: int| 0 <= i < rest.len() implies (#[trigger] rest_after[i]).0
                == rest[i].0 by {
                assert(after[i + 1].0 == list[i + 1].0);
            }
            assert forall|i: int| 0 <= i < rest.len() && rest[i].0 != format implies rest_after[i]
                == rest[i] by {
                assert(after[i + 1] == list[i + 1]);
            }
            if after.len() > list.len() {
                assert(rest_after[rest.len() as int] == after[list.len() as int]);
                assert(list[0].0 != format);
            }
            lemma_same_place(rest, rest_after, format, other);
        }
    }
}

/// An archetype of a card.
#[derive(Clone, Debug)]
pub struct Card {
    artist: Option<String>,
    availability: Vec<String>,
    border_colour: String,
    colour: ColourSet,
    colour_identity: ColourSet,
    faces: Vec<u128>,
    flavor_text: Option<LocalisedString>,
    loyalty: Option<String>,
    legality: Vec<(String, Legality)>,
    mana_cost: Option<ManaCost>,
    name: LocalisedString,
    number: String,
    power: Option<String>,
    rarity: Rarity,
    set_code: String,
    text: Option<LocalisedString>,
    toughness: Option<String>,
    uuid: u128,
}

/// What a card says.
pub struct CardView {
    /// The artist of a cards artwork.
    pub artist: Option<Seq<char>>,
    /// The availability of the card.
    pub availability: Seq<Seq<char>>,
    /// The border colour of the card.
    pub border_colour: Seq<char>,
    /// The colour of the card.
    pub colour: ColourSet,
    /// The colour identity of the card.
    pub colour_identity: ColourSet,
    /// The identifiers of other card faces.
    pub faces: Seq<u128>,
    /// The flavor text of the card if any.
    pub flavor_text: Option<LocalisedString>,
    /// The loyalty if the card is a planeswalker.
    pub loyalty: Option<Seq<char>>,
    /// The legality of the card in different formats.
    pub legality: Seq<(Seq<char>, Legality)>,
    /// The mana cost of the card.
    pub mana_cost: Option<ManaCost>,
    /// The name of the card.
    pub name: LocalisedString,
    /// The number of the card.
    pub number: Seq<char>,
    /// The power if the card is a creature.
    pub power: Option<Seq<char>>,
    /// The rarity of the card.
    pub rarity: Rarity,
    /// The code of the set the card belongs to.
    pub set_code: Seq<char>,
    /// The rules text on the card.
    pub text: Option<LocalisedString>,
    /// The toughness if the card is a creature.
    pub toughness: Option<Seq<char>>,
    /// The identifier of the card.
    pub uuid: u128,
}

impl View for Card {
    type V = CardView;

    closed spec fn view(&self) -> CardView {
        CardView {
            artist: text_of(self.artist),
            availability: texts_of(self.availability@),
            border_colour: self.border_colour@,
            colour: self.colour,
            colour_identity: self.colour_identity,
            faces: self.faces@,
            flavor_text: self.flavor_text,
            loyalty: text_of(self.loyalty),
            legality: formats_of(self.legality@),
            mana_cost: self.mana_cost,
            name: self.name,
            number: self.number@,
            power: text_of(self.power),
            rarity: self.rarity,
            set_code: self.set_code@,
            text: self.text,
            toughness: text_of(self.toughness),
            uuid: self.uuid,
        }
    }
}

impl Card {
    /// Creates a card from what every card has. Everything else is left
    /// empty and can be set afterwards.
    pub fn new(border_colour: String, colour: ColourSet, colour_identity: ColourSet, name: LocalisedString, number: String, rarity: Rarity, set_code: String, uuid: u128) -> (created: Self)
        ensures
            created@ == (CardView {
                artist: None,
                availability: Seq::empty(),
                border_colour: border_colour@,
                colour: colour,
                colour_identity: colour_identity,
                faces: Seq::empty(),
                flavor_text: None,
                loyalty: None,
                legality: Seq::empty(),
                mana_cost: None,
                name: name,
                number: number@,
                power: None,
                rarity: rarity,
                set_code: set_code@,
                text: None,
                toughness: None,
                uuid: uuid,
            }),
    {
        let created = Card {
            artist: None,
            availability: Vec::new(),
            border_colour,
            colour,
            colour_identity,
            faces: Vec::new(),
            flavor_text: None,
            loyalty: None,
            legality: Vec::new(),
            mana_cost: None,
            name,
            number,
            power: None,
            rarity,
            set_code,
            text: None,
            toughness: None,
            uuid,
        };
        assert(created@.availability =~= Seq::<Seq<char>>::empty());
        assert(created@.legality =~= Seq::<(Seq<char>, Legality)>::empty());
        created
    }

    /// The artist of a cards artwork.
    pub fn artist(&self) -> (value: &Option<String>)
        ensures
            text_of(*value) == self@.artist,
    {
        &self.artist
    }

    /// The availability of the card.
    pub fn availability(&self) -> (value: &Vec<String>)
        ensures
            texts_of(value@) == self@.availability,
    {
        &self.availability
    }

    /// The border colour of the card.
    pub fn border_colour(&self) -> (value: &String)
        ensures
            value@ == self@.border_colour,
    {
        &self.border_colour
    }

    /// The colour of the card.
    pub fn colour(&self) -> (value: &ColourSet)
        ensures
            *value == self@.colour,
    {
        &self.colour
    }

    /// The colour identity of the card.
    pub fn colour_identity(&self) -> (value: &ColourSet)
        ensures
            *value == self@.colour_identity,
    {
        &self.colour_identity
    }

    /// The identifiers of other card faces.
    pub fn faces(&self) -> (value: &Vec<u128>)
        ensures
            value@ == self@.faces,
    {
        &self.faces
    }

    /// The flavor text of the card if any.
    pub fn flavor_text(&self) -> (value: &Option<LocalisedString>)
        ensures
            *value == self@.flavor_text,
    {
        &self.flavor_text
    }

    /// The loyalty if the card is a planeswalker.
    pub fn loyalty(&self) -> (value: &Option<String>)
        ensures
            text_of(*value) == self@.loyalty,
    {
        &self.loyalty
    }


    /// The mana cost of the card.
    pub fn mana_cost(&self) -> (value: &Option<ManaCost>)
        ensures
            *value == self@.mana_cost,
    {
        &self.mana_cost
    }

    /// The name of the card.
    pub fn name(&self) -> (value: &LocalisedString)
        ensures
            *value == self@.name,
    {
        &self.name
    }

    /// The number of the card.
    pub fn number(&self) -> (value: &String)
        ensures
            value@ == self@.number,
    {
        &self.number
    }

    /// The power if the card is a creature.
    pub fn power(&self) -> (value: &Option<String>)
        ensures
            text_of(*value) == self@.power,
    {
        &self.power
    }

    /// The rarity of the card.
    pub fn rarity(&self) -> (value: Rarity)
        ensures
            value == self@.rarity,
    {
        self.rarity
    }

    /// The code of the set the card belongs to.
    pub fn set_code(&self) -> (value: &String)
        ensures
            value@ == self@.set_code,
    {
        &self.set_code
    }

    /// The rules text on the card.
    pub fn text(&self) -> (value: &Option<LocalisedString>)
        ensures
            *value == self@.text,
    {
        &self.text
    }

    /// The toughness if the card is a creature.
    pub fn toughness(&self) -> (value: &Option<String>)
        ensures
            text_of(*value) == self@.toughness,
    {
        &self.toughness
    }

    /// The identifier of the card.
    pub fn uuid(&self) -> (value: u128)
        ensures
            value == self@.uuid,
    {
        self.uuid
    }

    /// Sets the artist of a cards artwork.
    pub fn set_artist(&mut self, value: Option<String>)
        ensures
            final(self)@ == (CardView { artist: text_of(value), ..old(self)@ }),
    {
        self.artist = value;
    }

    /// Sets the availability of the card.
    pub fn set_availability(&mut self, value: Vec<String>)
        ensures
            final(self)@ == (CardView { availability: texts_of(value@), ..old(self)@ }),
    {
        self.availability = value;
    }

    /// Sets the identifiers of other card faces.
    pub fn set_faces(&mut self, value: Vec<u128>)
        ensures
            final(self)@ == (CardView { faces: value@, ..old(self)@ }),
    {
        self.faces = value;
    }

    /// Sets the flavor text of the card if any.
    pub fn set_flavor_text(&mut self, value: Option<LocalisedString>)
        ensures
            final(self)@ == (CardView { flavor_text: value, ..old(self)@ }),
    {
        self.flavor_text = value;
    }

    /// Sets the loyalty if the card is a planeswalker.
    pub fn set_loyalty(&mut self, value: Option<String>)
        ensures
            final(self)@ == (CardView { loyalty: text_of(value), ..old(self)@ }),
    {
        self.loyalty = value;
    }

    /// Sets the mana cost of the card.
    pub fn set_mana_cost(&mut self, value: Option<ManaCost>)
        ensures
            final(self)@ == (CardView { mana_cost: value, ..old(self)@ }),
    {
        self.mana_cost = value;
    }

    /// Sets the power if the card is a creature.
    pub fn set_power(&mut self, value: Option<String>)
        ensures
            final(self)@ == (CardView { power: text_of(value), ..old(self)@ }),
    {
        self.power = value;
    }

    /// Sets the rules text on the card.
    pub fn set_text(&mut self, value: Option<LocalisedString>)
        ensures
            final(self)@ == (CardView { text: value, ..old(self)@ }),
    {
        self.text = value;
    }

    /// Sets the toughness if the card is a creature.
    pub fn set_toughness(&mut self, value: Option<String>)
        ensures
            final(self)@ == (CardView { toughness: text_of(value), ..old(self)@ }),
    {
        self.toughness = value;
    }

    /// Returns the legality of the card in the specified format. If the
    /// legality in the specified format is unknown, it is returned as not
    /// legal.
    ///
    /// # Parameters
    ///
    /// * `format` - the format to check the legality
    pub fn legality(&self, format: &str) -> (legality: Legality)
        ensures
            legality == legality_in(self@.legality, format@),
    {
        match self.find_format(format) {
            Some(place) => self.legality[place].1,
            None => Legality::NotLegal,
        }
    }

    /// Sets the legality of the card in the specified format.
    pub fn set_legality(&mut self, format: &str, legality: Legality)
        ensures
            final(self)@ == (CardView {
                legality: with_legality(old(self)@.legality, format@, legality),
                ..old(self)@
            }),
    {
        let found = self.find_format(format);
        let entry = (String::from_str(format), legality);
        match found {
            Some(place) => {
                self.legality.set(place, entry);
            },
            None => {
                self.legality.push(entry);
            },
        }
        assert(final(self)@.legality =~= with_legality(old(self)@.legality, format@, legality));
    }

    /// The place of the first entry for the format, if there is one.
    fn find_format(&self, format: &str) -> (place: Option<usize>)
        ensures
            match place {
                Some(place) => place == format_place(self@.legality, format@) && place
                    < self@.legality.len(),
                None => format_place(self@.legality, format@) == self@.legality.len(),
            },
            self@.legality.len() == self.legality@.len(),
    {
        let ghost list = self@.legality;
        let mut place: usize = 0;
        assert(list.skip(0) =~= list);
        while place < self.legality.len()
            invariant
                place <= self.legality.len(),
                list == self@.legality,
                list.len() == self.legality@.len(),
                format_place(list, format@) == place + format_place(
                    list.skip(place as int),
                    format@,
                ),
            decreases self.legality.len() - place,
        {
            let ghost rest = list.skip(place as int);
            assert(rest[0] == list[place as int]);
            if same_text(self.legality[place].0.as_str(), format) {
                return Some(place);
            }
            assert(rest.drop_first() =~= list.skip(place + 1));
            place = place + 1;
        }
        assert(list.skip(place as int).len() == 0);
        None
    }
}

/// A set of cards.
#[derive(Clone, Debug)]
pub struct CardSet {
    block: Option<LocalisedString>,
    cards: HashMap<u128, Card>,
    code: String,
    name: LocalisedString,
    keyrune: String,
    release_date: NaiveDate,
}

/// What a set of cards says.
pub struct CardSetView {
    /// The name of the block the set belongs to if any.
    pub block: Option<LocalisedString>,
    /// The cards that are part of the set, by their identifiers.
    pub cards: Map<u128, Card>,
    /// The unique identifier of the set.
    pub code: Seq<char>,
    /// The name of the set.
    pub name: LocalisedString,
    /// The keyrune image code.
    pub keyrune: Seq<char>,
    /// The release date of the set.
    pub release_date: NaiveDate,
}

impl View for CardSet {
    type V = CardSetView;

    closed spec fn view(&self) -> CardSetView {
        CardSetView {
            block: self.block,
            cards: self.cards@,
            code: self.code@,
            name: self.name,
            keyrune: self.keyrune@,
            release_date: self.release_date,
        }
    }
}

impl CardSet {
    /// Creates a set without cards and without a block.
    pub fn new(code: String, name: LocalisedString, keyrune: String, release_date: NaiveDate) -> (created: Self)
        ensures
            created@ == (CardSetView {
                block: None,
                cards: Map::empty(),
                code: code@,
                name: name,
                keyrune: keyrune@,
                release_date: release_date,
            }),
    {
        let created = CardSet {
            block: None,
            cards: HashMap::new(),
            code,
            name,
            keyrune,
            release_date,
        };
        created
    }

    /// The name of the block the set belongs to if any.
    pub fn block(&self) -> (value: &Option<LocalisedString>)
        ensures
            *value == self@.block,
    {
        &self.block
    }


    /// The unique identifier of the set.
    pub fn code(&self) -> (value: &String)
        ensures
            value@ == self@.code,
    {
        &self.code
    }

    /// The name of the set.
    pub fn name(&self) -> (value: &LocalisedString)
        ensures
            *value == self@.name,
    {
        &self.name
    }

    /// The keyrune image code.
    pub fn keyrune(&self) -> (value: &String)
        ensures
            value@ == self@.keyrune,
    {
        &self.keyrune
    }

    /// The release date of the set.
    pub fn release_date(&self) -> (value: &NaiveDate)
        ensures
            *value == self@.release_date,
    {
        &self.release_date
    }

    /// Sets the name of the block the set belongs to if any.
    pub fn set_block(&mut self, value: Option<LocalisedString>)
        ensures
            final(self)@ == (CardSetView { block: value, ..old(self)@ }),
    {
        self.block = value;
    }

    /// Adds a card to the set. If a card with the same identifier is
    /// present in the set it is removed and returned.
    pub fn insert(&mut self, card: Card) -> (previous: Option<Card>)
        ensures
            final(self)@ == (CardSetView {
                cards: old(self)@.cards.insert(card@.uuid, card),
                ..old(self)@
            }),
            match previous {
                Some(found) => old(self)@.cards.contains_key(card@.uuid) && found
                    == old(self)@.cards[card@.uuid],
                None => !old(self)@.cards.contains_key(card@.uuid),
            },
    {
        broadcast use vstd::std_specs::hash::group_hash_axioms;

        let key = card.uuid();
        self.cards.insert(key, card)
    }

    /// Returns the number of cards in this set.
    pub fn size(&self) -> (size: usize)
        ensures
            size == self@.cards.len(),
    {
        broadcast use vstd::std_specs::hash::group_hash_axioms;

        self.cards.len()
    }

    /// Returns the card with the identifier `uuid`, if the set has it.
    pub fn card(&self, uuid: u128) -> (card: Option<&Card>)
        ensures
            match card {
                Some(found) => self@.cards.contains_key(uuid) && *found == self@.cards[uuid],
                None => !self@.cards.contains_key(uuid),
            },
    {
        broadcast use vstd::std_specs::hash::group_hash_axioms;

        self.cards.get(&uuid)
    }

    /// Returns all cards in this set, in no particular order.
    pub fn cards(&self) -> (list: Vec<&Card>)
        ensures
            list@.len() == self@.cards.len(),
            forall|i: int| 0 <= i < list@.len() ==> self@.cards.values().contains(*list@[i]),
    {
        broadcast use vstd::std_specs::hash::group_hash_axioms;

        let mut list: Vec<&Card> = Vec::new();
        for card in walk: self.cards.values()
            invariant
                walk.seq().len() == self@.cards.len(),
                walk.seq().unref().to_set() == self@.cards.values(),
                list@.len() == walk.index(),
                forall|i: int| 0 <= i < list@.len() ==> self@.cards.values().contains(*list@[i]),
        {
            assert(walk.seq().unref()[walk.index()] == *card);
            assert(walk.seq().unref().to_set().contains(*card));
            list.push(card);
        }
        list
    }
}

} // verus!
