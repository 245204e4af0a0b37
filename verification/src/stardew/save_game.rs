//! The root record of a save game.

use vstd::prelude::*;
use crate::failure::{DecodeError, Failure};
use crate::fields::{FieldMap, Fields, get_bool, get_string, parse};
use crate::list::{get_int_list, get_string_list};
use crate::numeral::Numeral;
use crate::record::{Otherwise, Record, no_failure, try_into};
use crate::stardew::{Player, Position, Season};

verus! {

/// A saved game: the player and the state of the world.
#[derive(Debug, PartialEq, Eq)]
pub struct SaveGame {
    pub player: Player,
    pub current_season: Season,
    pub sam_band_name: String,
    pub elliott_book_name: String,
    pub world_state_ids: Vec<String>,
    pub lost_books_found: u64,
    pub day_of_month: u8,
    pub year: u32,
    pub farmer_wallpaper: u64,
    pub farmer_floor: u64,
    pub current_wallpaper: u64,
    pub current_floor: u64,
    pub current_song_index: u64,
    pub incubating_egg: Position,
    pub chance_to_rain_tomorrow: Numeral,
    pub daily_luck: Numeral,
    pub unique_id_for_this_game: String,
    pub wedding_today: bool,
    pub is_raining: bool,
    pub is_debris_weather: bool,
    pub shipping_tax: bool,
    pub bloom_day: bool,
    pub is_lightning: bool,
    pub is_snowing: bool,
    pub should_spawn_monsters: bool,
    pub has_applied_1_3_update_changes: bool,
    pub has_applied_1_4_update_changes: bool,
    pub music_volume: Numeral,
    pub sound_volume: Numeral,
    pub crops_of_the_week: Vec<u64>,
    pub highest_player_limit: u8,
    pub move_building_permission_mode: u64,
    pub latest_id: i64,
    pub mine_lowest_level_reached: u8,
    pub minecart_high_score: u64,
    pub weather_for_tomorrow: u64,
    pub which_farm: u8,
    pub last_applied_save_fix: u64,
    pub game_version: String,
}

impl Record for SaveGame {
    open spec fn failure(fields: Fields) -> Option<Failure> {
        no_failure()
            .otherwise(fields.record_failure::<Player>("player"@))
            .otherwise(fields.scalar_failure::<Season>("currentSeason"@))
            .otherwise(fields.string_failure("samBandName"@))
            .otherwise(fields.string_failure("elliottBookName"@))
            .otherwise(fields.list_failure::<String>("worldStateIDs"@, "string"@))
            .otherwise(fields.scalar_failure::<u64>("lostBooksFound"@))
            .otherwise(fields.scalar_failure::<u8>("dayOfMonth"@))
            .otherwise(fields.scalar_failure::<u32>("year"@))
            .otherwise(fields.scalar_failure::<u64>("farmerWallpaper"@))
            .otherwise(fields.scalar_failure::<u64>("FarmerFloor"@))
            .otherwise(fields.scalar_failure::<u64>("currentWallpaper"@))
            .otherwise(fields.scalar_failure::<u64>("currentFloor"@))
            .otherwise(fields.scalar_failure::<u64>("currentSongIndex"@))
            .otherwise(fields.record_failure::<Position>("incubatingEgg"@))
            .otherwise(fields.scalar_failure::<Numeral>("chanceToRainTomorrow"@))
            .otherwise(fields.scalar_failure::<Numeral>("dailyLuck"@))
            .otherwise(fields.string_failure("uniqueIDForThisGame"@))
            .otherwise(fields.flag_failure("weddingToday"@))
            .otherwise(fields.flag_failure("isRaining"@))
            .otherwise(fields.flag_failure("isDebrisWeather"@))
            .otherwise(fields.flag_failure("shippingTax"@))
            .otherwise(fields.flag_failure("bloomDay"@))
            .otherwise(fields.flag_failure("isLightning"@))
            .otherwise(fields.flag_failure("isSnowing"@))
            .otherwise(fields.flag_failure("shouldSpawnMonsters"@))
            .otherwise(fields.flag_failure("hasApplied1_3_UpdateChanges"@))
            .otherwise(fields.flag_failure("hasApplied1_4_UpdateChanges"@))
            .otherwise(fields.scalar_failure::<Numeral>("musicVolume"@))
            .otherwise(fields.scalar_failure::<Numeral>("soundVolume"@))
            .otherwise(fields.list_failure::<u64>("cropsOfTheWeek"@, "int"@))
            .otherwise(fields.scalar_failure::<u8>("highestPlayerLimit"@))
            .otherwise(fields.scalar_failure::<u64>("moveBuildingPermissionMode"@))
            .otherwise(fields.scalar_failure::<i64>("latestID"@))
            .otherwise(fields.scalar_failure::<u8>("mine_lowestLevelReached"@))
            .otherwise(fields.scalar_failure::<u64>("minecartHighScore"@))
            .otherwise(fields.scalar_failure::<u64>("weatherForTomorrow"@))
            .otherwise(fields.scalar_failure::<u8>("whichFarm"@))
            .otherwise(fields.scalar_failure::<u64>("lastAppliedSaveFix"@))
            .otherwise(fields.string_failure("gameVersion"@))
    }

    open spec fn decoded(&self, fields: Fields) -> bool {
        &&& fields.is_record("player"@, self.player)
        &&& fields.is_scalar("currentSeason"@, self.current_season)
        &&& fields.is_string("samBandName"@, self.sam_band_name)
        &&& fields.is_string("elliottBookName"@, self.elliott_book_name)
        &&& fields.is_list("worldStateIDs"@, self.world_state_ids@)
        &&& fields.is_scalar("lostBooksFound"@, self.lost_books_found)
        &&& fields.is_scalar("dayOfMonth"@, self.day_of_month)
        &&& fields.is_scalar("year"@, self.year)
        &&& fields.is_scalar("farmerWallpaper"@, self.farmer_wallpaper)
        &&& fields.is_scalar("FarmerFloor"@, self.farmer_floor)
        &&& fields.is_scalar("currentWallpaper"@, self.current_wallpaper)
        &&& fields.is_scalar("currentFloor"@, self.current_floor)
        &&& fields.is_scalar("currentSongIndex"@, self.current_song_index)
        &&& fields.is_record("incubatingEgg"@, self.incubating_egg)
        &&& fields.is_scalar("chanceToRainTomorrow"@, self.chance_to_rain_tomorrow)
        &&& fields.is_scalar("dailyLuck"@, self.daily_luck)
        &&& fields.is_string("uniqueIDForThisGame"@, self.unique_id_for_this_game)
        &&& fields.is_flag("weddingToday"@, self.wedding_today)
        &&& fields.is_flag("isRaining"@, self.is_raining)
        &&& fields.is_flag("isDebrisWeather"@, self.is_debris_weather)
        &&& fields.is_flag("shippingTax"@, self.shipping_tax)
        &&& fields.is_flag("bloomDay"@, self.bloom_day)
        &&& fields.is_flag("isLightning"@, self.is_lightning)
        &&& fields.is_flag("isSnowing"@, self.is_snowing)
        &&& fields.is_flag("shouldSpawnMonsters"@, self.should_spawn_monsters)
        &&& fields.is_flag("hasApplied1_3_UpdateChanges"@, self.has_applied_1_3_update_changes)
        &&& fields.is_flag("hasApplied1_4_UpdateChanges"@, self.has_applied_1_4_update_changes)
        &&& fields.is_scalar("musicVolume"@, self.music_volume)
        &&& fields.is_scalar("soundVolume"@, self.sound_volume)
        &&& fields.is_list("cropsOfTheWeek"@, self.crops_of_the_week@)
        &&& fields.is_scalar("highestPlayerLimit"@, self.highest_player_limit)
        &&& fields.is_scalar("moveBuildingPermissionMode"@, self.move_building_permission_mode)
        &&& fields.is_scalar("latestID"@, self.latest_id)
        &&& fields.is_scalar("mine_lowestLevelReached"@, self.mine_lowest_level_reached)
        &&& fields.is_scalar("minecartHighScore"@, self.minecart_high_score)
        &&& fields.is_scalar("weatherForTomorrow"@, self.weather_for_tomorrow)
        &&& fields.is_scalar("whichFarm"@, self.which_farm)
        &&& fields.is_scalar("lastAppliedSaveFix"@, self.last_applied_save_fix)
        &&& fields.is_string("gameVersion"@, self.game_version)
    }

    fn from_fields(map: &FieldMap<'_>) -> (r: Result<SaveGame, DecodeError>) {
        Ok(
            SaveGame {
                player: try_into(map, "player")?,
                current_season: parse(map, "currentSeason")?,
                sam_band_name: get_string(map, "samBandName")?,
                elliott_book_name: get_string(map, "elliottBookName")?,
                world_state_ids: get_string_list(map, "worldStateIDs")?,
                lost_books_found: parse(map, "lostBooksFound")?,
                day_of_month: parse(map, "dayOfMonth")?,
                year: parse(map, "year")?,
                farmer_wallpaper: parse(map, "farmerWallpaper")?,
                farmer_floor: parse(map, "FarmerFloor")?,
                current_wallpaper: parse(map, "currentWallpaper")?,
                current_floor: parse(map, "currentFloor")?,
                current_song_index: parse(map, "currentSongIndex")?,
                incubating_egg: try_into(map, "incubatingEgg")?,
                chance_to_rain_tomorrow: parse(map, "chanceToRainTomorrow")?,
                daily_luck: parse(map, "dailyLuck")?,
                unique_id_for_this_game: get_string(map, "uniqueIDForThisGame")?,
                wedding_today: get_bool(map, "weddingToday")?,
                is_raining: get_bool(map, "isRaining")?,
                is_debris_weather: get_bool(map, "isDebrisWeather")?,
                shipping_tax: get_bool(map, "shippingTax")?,
                bloom_day: get_bool(map, "bloomDay")?,
                is_lightning: get_bool(map, "isLightning")?,
                is_snowing: get_bool(map, "isSnowing")?,
                should_spawn_monsters: get_bool(map, "shouldSpawnMonsters")?,
                has_applied_1_3_update_changes: get_bool(map, "hasApplied1_3_UpdateChanges")?,
                has_applied_1_4_update_changes: get_bool(map, "hasApplied1_4_UpdateChanges")?,
                music_volume: parse(map, "musicVolume")?,
                sound_volume: parse(map, "soundVolume")?,
                crops_of_the_week: get_int_list(map, "cropsOfTheWeek")?,
                highest_player_limit: parse(map, "highestPlayerLimit")?,
                move_building_permission_mode: parse(map, "moveBuildingPermissionMode")?,
                latest_id: parse(map, "latestID")?,
                mine_lowest_level_reached: parse(map, "mine_lowestLevelReached")?,
                minecart_high_score: parse(map, "minecartHighScore")?,
                weather_for_tomorrow: parse(map, "weatherForTomorrow")?,
                which_farm: parse(map, "whichFarm")?,
                last_applied_save_fix: parse(map, "lastAppliedSaveFix")?,
                game_version: get_string(map, "gameVersion")?,
            },
        )
    }
}

} // verus!
