//! The card entity: the persisted shape (with an identifier) and the input
//! shape (without one), together with their mathematical views.

use vstd::prelude::*;
use crate::date::Date;

verus! {

/// A persisted card row.
#[derive(Debug, Clone, PartialEq)]
pub struct Card {
    pub id: i64,
    pub title: String,
    pub description: String,
    pub date: Date,
    pub priority: String,
    pub duration: i32,
    pub status: String,
}

/// The mutable field set of a card, used both to create one and to overwrite
/// one in full.
#[derive(Debug, Clone, PartialEq)]
pub struct CardData {
    pub title: String,
    pub description: String,
    pub date: Date,
    pub priority: String,
    pub duration: i32,
    pub status: String,
}

/// Mathematical view of a persisted card.
pub ghost struct CardV {
    pub id: int,
    pub title: Seq<char>,
    pub description: Seq<char>,
    pub date: Date,
    pub priority: Seq<char>,
    pub duration: int,
    pub status: Seq<char>,
}

/// Mathematical view of a card's mutable field set.
pub ghost struct CardDataV {
    pub title: Seq<char>,
    pub description: Seq<char>,
    pub date: Date,
    pub priority: Seq<char>,
    pub duration: int,
    pub status: Seq<char>,
}

impl View for Card {
    type V = CardV;

    open spec fn view(&self) -> CardV {
        CardV {
            id: self.id as int,
            title: self.title@,
            description: self.description@,
            date: self.date,
            priority: self.priority@,
            duration: self.duration as int,
            status: self.status@,
        }
    }
}

impl View for CardData {
    type V = CardDataV;

    open spec fn view(&self) -> CardDataV {
        CardDataV {
            title: self.title@,
            description: self.description@,
            date: self.date,
            priority: self.priority@,
            duration: self.duration as int,
            status: self.status@,
        }
    }
}

/// The card row that holds exactly the given identifier and field set.
pub open spec fn card_of(id: int, d: CardDataV) -> CardV {
    CardV {
        id: id,
        title: d.title,
        description: d.description,
        date: d.date,
        priority: d.priority,
        duration: d.duration,
        status: d.status,
    }
}

impl Card {
    /// A structurally equal copy of the card.
    pub fn duplicate(&self) -> (c: Card)
        ensures
            c@ == self@,
    {
        Card {
            id: self.id,
            title: self.title.clone(),
            description: self.description.clone(),
            date: self.date,
            priority: self.priority.clone(),
            duration: self.duration,
            status: self.status.clone(),
        }
    }
}

impl CardData {
    /// The card row built from an identifier and this field set.
    pub fn into_card(self, id: i64) -> (c: Card)
        ensures
            c@ == card_of(id as int, self@),
    {
        Card {
            id: id,
            title: self.title,
            description: self.description,
            date: self.date,
            priority: self.priority,
            duration: self.duration,
            status: self.status,
        }
    }
}

} // verus!
