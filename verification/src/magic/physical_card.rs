//! A card as it lies on the table.

use vstd::prelude::*;

use crate::magic::language::Language;

verus! {

/// The characters of a text that may be missing.
pub open spec fn text_of(text: Option<String>) -> Option<Seq<char>> {
    match text {
        Some(text) => Some(text@),
        None => None,
    }
}

/// An actual physical card.
#[derive(Clone, Debug)]
pub struct PhysicalCard {
    image_path_front: Option<String>,
    image_path_back: Option<String>,
    foil: bool,
    language: Language,
    signed: Option<String>,
    altered: Option<String>,
    comment: Option<String>,
    template: u128,
    uuid: u128,
}

/// What a physical card says.
pub struct PhysicalCardView {
    /// An optional custom image path for the front.
    pub image_path_front: Option<Seq<char>>,
    /// An optional custom image path for the back.
    pub image_path_back: Option<Seq<char>>,
    /// Whether the card is foiled.
    pub foil: bool,
    /// The language of the card.
    pub language: Language,
    /// An optional comment on by whom the card was signed.
    pub signed: Option<Seq<char>>,
    /// An optional comment on how the card was altered.
    pub altered: Option<Seq<char>>,
    /// An optional comment.
    pub comment: Option<Seq<char>>,
    /// The identifier of the card template this card is a physical copy of.
    pub template: u128,
    /// The identifier of the card.
    pub uuid: u128,
}

impl View for PhysicalCard {
    type V = PhysicalCardView;

    closed spec fn view(&self) -> PhysicalCardView {
        PhysicalCardView {
            image_path_front: text_of(self.image_path_front),
            image_path_back: text_of(self.image_path_back),
            foil: self.foil,
            language: self.language,
            signed: text_of(self.signed),
            altered: text_of(self.altered),
            comment: text_of(self.comment),
            template: self.template,
            uuid: self.uuid,
        }
    }
}

impl PhysicalCard {
    /// Creates the physical copy with the identifier `uuid` of the card
    /// template with the identifier `template`: an English card that is not
    /// foiled, with nothing noted about it.
    pub fn new(template: u128, uuid: u128) -> (created: Self)
        ensures
            created@ == (PhysicalCardView {
                image_path_front: None,
                image_path_back: None,
                foil: false,
                language: Language::EnglishAmerican,
                signed: None,
                altered: None,
                comment: None,
                template: template,
                uuid: uuid,
            }),
    {
        let created = PhysicalCard {
            image_path_front: None,
            image_path_back: None,
            foil: false,
            language: Language::EnglishAmerican,
            signed: None,
            altered: None,
            comment: None,
            template,
            uuid,
        };
        created
    }

    /// An optional custom image path for the front.
    pub fn image_path_front(&self) -> (value: &Option<String>)
        ensures
            text_of(*value) == self@.image_path_front,
    {
        &self.image_path_front
    }

    /// An optional custom image path for the back.
    pub fn image_path_back(&self) -> (value: &Option<String>)
        ensures
            text_of(*value) == self@.image_path_back,
    {
        &self.image_path_back
    }

    /// Whether the card is foiled.
    pub fn foil(&self) -> (value: bool)
        ensures
            value == self@.foil,
    {
        self.foil
    }

    /// The language of the card.
    pub fn language(&self) -> (value: Language)
        ensures
            value == self@.language,
    {
        self.language
    }

    /// An optional comment on by whom the card was signed.
    pub fn signed(&self) -> (value: &Option<String>)
        ensures
            text_of(*value) == self@.signed,
    {
        &self.signed
    }

    /// An optional comment on how the card was altered.
    pub fn altered(&self) -> (value: &Option<String>)
        ensures
            text_of(*value) == self@.altered,
    {
        &self.altered
    }

    /// An optional comment.
    pub fn comment(&self) -> (value: &Option<String>)
        ensures
            text_of(*value) == self@.comment,
    {
        &self.comment
    }

    /// The identifier of the card template this card is a physical copy of.
    pub fn template(&self) -> (value: u128)
        ensures
            value == self@.template,
    {
        self.template
    }

    /// The identifier of the card.
    pub fn uuid(&self) -> (value: u128)
        ensures
            value == self@.uuid,
    {
        self.uuid
    }

    /// Sets an optional custom image path for the front.
    pub fn set_image_path_front(&mut self, value: Option<String>)
        ensures
            final(self)@ == (PhysicalCardView { image_path_front: text_of(value), ..old(self)@ }),
    {
        self.image_path_front = value;
    }

    /// Sets an optional custom image path for the back.
    pub fn set_image_path_back(&mut self, value: Option<String>)
        ensures
            final(self)@ == (PhysicalCardView { image_path_back: text_of(value), ..old(self)@ }),
    {
        self.image_path_back = value;
    }

    /// Sets whether the card is foiled.
    pub fn set_foil(&mut self, value: bool)
        ensures
            final(self)@ == (PhysicalCardView { foil: value, ..old(self)@ }),
    {
        self.foil = value;
    }

    /// Sets the language of the card.
    pub fn set_language(&mut self, value: Language)
        ensures
            final(self)@ == (PhysicalCardView { language: value, ..old(self)@ }),
    {
        self.language = value;
    }

    /// Sets an optional comment on by whom the card was signed.
    pub fn set_signed(&mut self, value: Option<String>)
        ensures
            final(self)@ == (PhysicalCardView { signed: text_of(value), ..old(self)@ }),
    {
        self.signed = value;
    }

    /// Sets an optional comment on how the card was altered.
    pub fn set_altered(&mut self, value: Option<String>)
        ensures
            final(self)@ == (PhysicalCardView { altered: text_of(value), ..old(self)@ }),
    {
        self.altered = value;
    }

    /// Sets an optional comment.
    pub fn set_comment(&mut self, value: Option<String>)
        ensures
            final(self)@ == (PhysicalCardView { comment: text_of(value), ..old(self)@ }),
    {
        self.comment = value;
    }
}

} // verus!
