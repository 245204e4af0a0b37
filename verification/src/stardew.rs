//! The records of a save game.

pub mod player;
pub mod save_game;

use vstd::prelude::*;
use crate::document::Document;
use crate::failure::{DecodeError, Failure};
use crate::fields::{FieldMap, Fields, get_bool, get_string, parse};
use crate::list::Variant;
use crate::number::Fault;
use crate::numeral::Numeral;
use crate::reader::parsed;
use crate::record::{
    Otherwise, Record, document_failure, from_document, is_document, no_failure, try_into,
};
use crate::scalar::Scalar;
use crate::text::same_text;

pub use self::player::Player;
pub use self::save_game::SaveGame;

verus! {

/// A season of the year.
#[derive(Debug, Clone, Copy, PartialEq, Eq, Structural)]
pub enum Season {
    Spring,
    Summer,
    Autumn,
    Winter,
}

/// The season that `s` names, in lower case.
pub open spec fn season_named(s: Seq<char>) -> Option<Season> {
    if s == "spring"@ {
        Some(Season::Spring)
    } else if s == "summer"@ {
        Some(Season::Summer)
    } else if s == "autumn"@ {
        Some(Season::Autumn)
    } else if s == "winter"@ {
        Some(Season::Winter)
    } else {
        None
    }
}

impl std::str::FromStr for Season {
    type Err = Fault;

    /// The season that `s` names.
    fn from_str(s: &str) -> (r: Result<Season, Fault>)
        ensures
            match r {
                Ok(season) => season_named(s@) == Some(season),
                Err(fault) => season_named(s@) is None && fault == Fault::UnknownSeason,
            },
    {
        if same_text(s, "spring") {
            Ok(Season::Spring)
        } else if same_text(s, "summer") {
            Ok(Season::Summer)
        } else if same_text(s, "autumn") {
            Ok(Season::Autumn)
        } else if same_text(s, "winter") {
            Ok(Season::Winter)
        } else {
            Err(Fault::UnknownSeason)
        }
    }
}

impl Scalar for Season {
    open spec fn fault(text: Seq<char>) -> Option<Fault> {
        if season_named(text) is None {
            Some(Fault::UnknownSeason)
        } else {
            None
        }
    }

    open spec fn spelled(&self, text: Seq<char>) -> bool {
        season_named(text) == Some(*self)
    }

    fn read(text: &str) -> (r: Result<Season, Fault>) {
        <Season as std::str::FromStr>::from_str(text)
    }
}

/// The kind of a quest, as its element declares it.
#[derive(Debug, Clone, Copy, PartialEq, Eq, Structural)]
pub enum QuestType {
    ItemDeliveryQuest,
    LostItemQuest,
}

/// The kind of quest that `kind` names.
pub open spec fn quest_type_named(kind: Seq<char>) -> Option<QuestType> {
    if kind == "ItemDeliveryQuest"@ {
        Some(QuestType::ItemDeliveryQuest)
    } else if kind == "LostItemQuest"@ {
        Some(QuestType::LostItemQuest)
    } else {
        None
    }
}

impl Variant for QuestType {
    open spec fn failure(kind: Option<Seq<char>>, fields: Fields) -> Option<Failure> {
        match kind {
            None => Some(Failure::missing("type"@)),
            Some(k) => if quest_type_named(k) is None {
                Some(Failure::unknown(k))
            } else {
                None
            },
        }
    }

    open spec fn decoded(&self, kind: Option<Seq<char>>, fields: Fields) -> bool {
        kind matches Some(k) && quest_type_named(k) == Some(*self)
    }

    /// A quest has no kind of its own to fall back on: an element that
    /// declares none fails as a missing field, and one that declares a kind
    /// that is not known fails as an unknown variant.
    fn from_variant(kind: Option<&str>, map: &FieldMap<'_>) -> (r: Result<QuestType, DecodeError>) {
        match kind {
            None => Err(DecodeError::missing("type")),
            Some(k) => if same_text(k, "ItemDeliveryQuest") {
                Ok(QuestType::ItemDeliveryQuest)
            } else if same_text(k, "LostItemQuest") {
                Ok(QuestType::LostItemQuest)
            } else {
                Err(DecodeError::unknown(k))
            },
        }
    }
}

/// A place on a map.
#[derive(Debug, PartialEq, Eq)]
pub struct Position {
    pub x: Numeral,
    pub y: Numeral,
}

impl Default for Position {
    fn default() -> (r: Position)
        ensures
            r.x@ == "0"@,
            r.y@ == "0"@,
    {
        Position { x: Numeral::zero(), y: Numeral::zero() }
    }
}

impl Record for Position {
    open spec fn failure(fields: Fields) -> Option<Failure> {
        no_failure()
            .otherwise(fields.scalar_failure::<Numeral>("X"@))
            .otherwise(fields.scalar_failure::<Numeral>("Y"@))
    }

    open spec fn decoded(&self, fields: Fields) -> bool {
        &&& fields.is_scalar("X"@, self.x)
        &&& fields.is_scalar("Y"@, self.y)
    }

    fn from_fields(map: &FieldMap<'_>) -> (r: Result<Position, DecodeError>) {
        Ok(
            Position {
                x: parse(map, "X")?,
                y: parse(map, "Y")?,
            },
        )
    }
}

/// A color: its four channels, and the same packed into one number.
#[derive(Debug, PartialEq, Eq)]
pub struct Color {
    pub r: u8,
    pub g: u8,
    pub b: u8,
    pub a: u8,
    pub packed_value: u32,
}

impl Default for Color {
    fn default() -> (r: Color)
        ensures
            r == (Color { r: 0, g: 0, b: 0, a: 0, packed_value: 0 }),
    {
        Color { r: 0, g: 0, b: 0, a: 0, packed_value: 0 }
    }
}

impl Record for Color {
    open spec fn failure(fields: Fields) -> Option<Failure> {
        no_failure()
            .otherwise(fields.scalar_failure::<u8>("R"@))
            .otherwise(fields.scalar_failure::<u8>("G"@))
            .otherwise(fields.scalar_failure::<u8>("B"@))
            .otherwise(fields.scalar_failure::<u8>("A"@))
            .otherwise(fields.scalar_failure::<u32>("PackedValue"@))
    }

    open spec fn decoded(&self, fields: Fields) -> bool {
        &&& fields.is_scalar("R"@, self.r)
        &&& fields.is_scalar("G"@, self.g)
        &&& fields.is_scalar("B"@, self.b)
        &&& fields.is_scalar("A"@, self.a)
        &&& fields.is_scalar("PackedValue"@, self.packed_value)
    }

    fn from_fields(map: &FieldMap<'_>) -> (r: Result<Color, DecodeError>) {
        Ok(
            Color {
                r: parse(map, "R")?,
                g: parse(map, "G")?,
                b: parse(map, "B")?,
                a: parse(map, "A")?,
                packed_value: parse(map, "PackedValue")?,
            },
        )
    }
}

/// A piece of clothing.
#[derive(Debug, PartialEq, Eq)]
pub struct ClothingItem {
    pub is_lost_item: bool,
    pub category: i64,
    pub has_been_in_inventory: bool,
    pub name: String,
    pub parent_sheet_index: u64,
    pub special_item: bool,
    pub special_variable: i64,
    pub display_name: String,
    pub name2: String,
    pub stack: u64,
    pub price: u64,
    pub index_in_tile_sheet: u64,
    pub index_in_tile_sheet_female: i64,
    pub clothes_type: u64,
    pub dyeable: bool,
    pub clothes_color: Color,
    pub other_data: (),
    pub is_prismatic: bool,
    pub price2: u64,
}

impl Record for ClothingItem {
    open spec fn failure(fields: Fields) -> Option<Failure> {
        no_failure()
            .otherwise(fields.flag_failure("isLostItem"@))
            .otherwise(fields.scalar_failure::<i64>("category"@))
            .otherwise(fields.flag_failure("hasBeenInInventory"@))
            .otherwise(fields.string_failure("name"@))
            .otherwise(fields.scalar_failure::<u64>("parentSheetIndex"@))
            .otherwise(fields.flag_failure("specialItem"@))
            .otherwise(fields.scalar_failure::<i64>("SpecialVariable"@))
            .otherwise(fields.string_failure("DisplayName"@))
            .otherwise(fields.string_failure("Name"@))
            .otherwise(fields.scalar_failure::<u64>("Stack"@))
            .otherwise(fields.scalar_failure::<u64>("price"@))
            .otherwise(fields.scalar_failure::<u64>("indexInTileSheet"@))
            .otherwise(fields.scalar_failure::<i64>("indexInTileSheetFemale"@))
            .otherwise(fields.scalar_failure::<u64>("clothesType"@))
            .otherwise(fields.flag_failure("dyeable"@))
            .otherwise(fields.record_failure::<Color>("clothesColor"@))
            .otherwise(fields.flag_failure("isPrismatic"@))
            .otherwise(fields.scalar_failure::<u64>("Price"@))
    }

    open spec fn decoded(&self, fields: Fields) -> bool {
        &&& fields.is_flag("isLostItem"@, self.is_lost_item)
        &&& fields.is_scalar("category"@, self.category)
        &&& fields.is_flag("hasBeenInInventory"@, self.has_been_in_inventory)
        &&& fields.is_string("name"@, self.name)
        &&& fields.is_scalar("parentSheetIndex"@, self.parent_sheet_index)
        &&& fields.is_flag("specialItem"@, self.special_item)
        &&& fields.is_scalar("SpecialVariable"@, self.special_variable)
        &&& fields.is_string("DisplayName"@, self.display_name)
        &&& fields.is_string("Name"@, self.name2)
        &&& fields.is_scalar("Stack"@, self.stack)
        &&& fields.is_scalar("price"@, self.price)
        &&& fields.is_scalar("indexInTileSheet"@, self.index_in_tile_sheet)
        &&& fields.is_scalar("indexInTileSheetFemale"@, self.index_in_tile_sheet_female)
        &&& fields.is_scalar("clothesType"@, self.clothes_type)
        &&& fields.is_flag("dyeable"@, self.dyeable)
        &&& fields.is_record("clothesColor"@, self.clothes_color)
        &&& fields.is_flag("isPrismatic"@, self.is_prismatic)
        &&& fields.is_scalar("Price"@, self.price2)
    }

    fn from_fields(map: &FieldMap<'_>) -> (r: Result<ClothingItem, DecodeError>) {
        Ok(
            ClothingItem {
                is_lost_item: get_bool(map, "isLostItem")?,
                category: parse(map, "category")?,
                has_been_in_inventory: get_bool(map, "hasBeenInInventory")?,
                name: get_string(map, "name")?,
                parent_sheet_index: parse(map, "parentSheetIndex")?,
                special_item: get_bool(map, "specialItem")?,
                special_variable: parse(map, "SpecialVariable")?,
                display_name: get_string(map, "DisplayName")?,
                name2: get_string(map, "Name")?,
                stack: parse(map, "Stack")?,
                price: parse(map, "price")?,
                index_in_tile_sheet: parse(map, "indexInTileSheet")?,
                index_in_tile_sheet_female: parse(map, "indexInTileSheetFemale")?,
                clothes_type: parse(map, "clothesType")?,
                dyeable: get_bool(map, "dyeable")?,
                clothes_color: try_into(map, "clothesColor")?,
                other_data: (),
                is_prismatic: get_bool(map, "isPrismatic")?,
                price2: parse(map, "Price")?,
            },
        )
    }
}

/// A thing that a player carries.
#[derive(Debug, PartialEq, Eq)]
pub struct Item {
    pub is_lost_item: bool,
    pub category: i64,
    pub has_been_in_inventory: bool,
    pub name: String,
    pub special_item: bool,
    pub special_variable: i64,
    pub display_name: String,
    pub name2: String,
    pub stack: u64,
}

impl Variant for Item {
    open spec fn failure(kind: Option<Seq<char>>, fields: Fields) -> Option<Failure> {
        no_failure()
            .otherwise(fields.flag_failure("isLostItem"@))
            .otherwise(fields.scalar_failure::<i64>("category"@))
            .otherwise(fields.flag_failure("hasBeenInInventory"@))
            .otherwise(fields.string_failure("name"@))
            .otherwise(fields.flag_failure("specialItem"@))
            .otherwise(fields.scalar_failure::<i64>("SpecialVariable"@))
            .otherwise(fields.string_failure("DisplayName"@))
            .otherwise(fields.string_failure("Name"@))
            .otherwise(fields.scalar_failure::<u64>("Stack"@))
    }

    open spec fn decoded(&self, kind: Option<Seq<char>>, fields: Fields) -> bool {
        &&& fields.is_flag("isLostItem"@, self.is_lost_item)
        &&& fields.is_scalar("category"@, self.category)
        &&& fields.is_flag("hasBeenInInventory"@, self.has_been_in_inventory)
        &&& fields.is_string("name"@, self.name)
        &&& fields.is_flag("specialItem"@, self.special_item)
        &&& fields.is_scalar("SpecialVariable"@, self.special_variable)
        &&& fields.is_string("DisplayName"@, self.display_name)
        &&& fields.is_string("Name"@, self.name2)
        &&& fields.is_scalar("Stack"@, self.stack)
    }

    fn from_variant(kind: Option<&str>, map: &FieldMap<'_>) -> (r: Result<Item, DecodeError>) {
        Ok(
            Item {
                is_lost_item: get_bool(map, "isLostItem")?,
                category: parse(map, "category")?,
                has_been_in_inventory: get_bool(map, "hasBeenInInventory")?,
                name: get_string(map, "name")?,
                special_item: get_bool(map, "specialItem")?,
                special_variable: parse(map, "SpecialVariable")?,
                display_name: get_string(map, "DisplayName")?,
                name2: get_string(map, "Name")?,
                stack: parse(map, "Stack")?,
            },
        )
    }
}

/// Reads a save game from the XML text of a save file: the record that the
/// root element of the document holds.
pub fn load(file: &str) -> (r: Result<SaveGame, DecodeError>)
    ensures
        match parsed(file@) {
            None => r matches Err(e) && e@ == Failure::malformed(),
            Some(nodes) => match r {
                Ok(save) => document_failure::<SaveGame>(nodes) is None && is_document(nodes, save),
                Err(e) => document_failure::<SaveGame>(nodes) == Some(e@),
            },
        },
{
    let doc = Document::parse(file)?;
    from_document::<SaveGame>(&doc)
}

} // verus!
