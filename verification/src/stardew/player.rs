//! The player record.

use vstd::prelude::*;
use crate::failure::{DecodeError, Failure};
use crate::fields::{FieldMap, Fields, get_bool, get_string, parse};
use crate::list::{get_int_list, get_string_list, try_into_list};
use crate::numeral::Numeral;
use crate::record::{Otherwise, Record, no_failure, parse_inner, try_into};
use crate::stardew::{ClothingItem, Color, Item, Position};

verus! {

/// A farmer: the one who plays.
#[derive(Debug, PartialEq, Eq)]
pub struct Player {
    pub name: String,
    pub is_emoting: bool,
    pub is_charging: bool,
    pub is_glowing: bool,
    pub colored_border: bool,
    pub flip: bool,
    pub draw_on_top: bool,
    pub face_toward_farmer: bool,
    pub ignore_movement_animation: bool,
    pub face_away_from_farmer: bool,
    pub scale: Numeral,
    pub time_before_ai_movement_again: u64,
    pub glowing_transparency: Numeral,
    pub glow_rate: Numeral,
    pub will_destroy_objects_underfoot: bool,
    pub position: Position,
    pub speed: u64,
    pub facing_direction: u64,
    pub is_emoting2: bool,
    pub current_emote: u64,
    pub scale2: Numeral,
    pub professions: Vec<u64>,
    pub experience_points: Vec<u64>,
    pub items: Vec<Item>,
    pub dialogue_questions_answered: Vec<u64>,
    pub events_seen: Vec<u64>,
    pub songs_heard: Vec<String>,
    pub achievements: Vec<u64>,
    pub special_items: Vec<u64>,
    pub special_big_craftables: Vec<u64>,
    pub mail_received: Vec<String>,
    pub mailbox: Vec<String>,
    pub time_went_to_bed: u64,
    pub farm_name: String,
    pub favorite_thing: String,
    pub slot_can_host: bool,
    pub cat_person: bool,
    pub which_pet_breed: u64,
    pub accepted_daily_quest: bool,
    pub most_recent_bed: Position,
    pub shirt: i64,
    pub hair: u64,
    pub skin: u64,
    pub shoes: i64,
    pub accessory: i64,
    pub facial_hair: i64,
    pub pants: i64,
    pub hairstyle_color: Color,
    pub pants_color: Color,
    pub new_eye_color: Color,
    pub shirt_item: ClothingItem,
    pub pants_item: ClothingItem,
    pub divorce_tonight: bool,
    pub change_wallet_type_tonight: bool,
    pub wood_pieces: u64,
    pub stone_pieces: u64,
    pub copper_pieces: u64,
    pub iron_pieces: u64,
    pub coal_pieces: u64,
    pub gold_pieces: u64,
    pub iridium_pieces: u64,
    pub quartz_pieces: u64,
    pub game_version: String,
    pub cave_choice: u8,
    pub feed: u64,
    pub farming_level: u8,
    pub mining_level: u8,
    pub combat_level: u8,
    pub foraging_level: u8,
    pub fishing_level: u8,
    pub luck_level: u8,
    pub new_skill_points_to_spend: u8,
    pub added_farming_level: u8,
    pub added_mining_level: u8,
    pub added_combat_level: u8,
    pub added_foraging_level: u8,
    pub added_fishing_level: u8,
    pub added_luck_level: u8,
    pub max_stamina: u32,
    pub max_items: u32,
    pub last_seen_movie_week: i32,
    pub resilience: u64,
    pub attack: u64,
    pub immunity: u64,
    pub attack_increase_modifier: u64,
    pub knockback_modifier: u64,
    pub weapon_speed_modifier: u64,
    pub crit_chance_modifier: u64,
    pub crit_power_modifier: u64,
    pub weapon_precision_modifier: u64,
    pub club_coins: u64,
    pub trash_can_level: u8,
    pub days_left_for_tool_upgrade: u8,
    pub house_upgrade_level: u8,
    pub days_until_house_upgrade: i8,
    pub coop_upgrade_level: u8,
    pub barn_upgrade_level: u8,
    pub has_greenhouse: bool,
    pub has_unlocked_skull_door: bool,
    pub has_dark_talisman: bool,
    pub has_magic_ink: bool,
    pub show_chest_color_picker: bool,
    pub has_magnifying_glass: bool,
    pub has_watering_can_enchantment: bool,
    pub magnetic_radius: u16,
    pub temporary_invincibility_timer: u64,
    pub health: u32,
    pub max_health: u32,
    pub difficulty_modifier: i32,
    pub is_male: bool,
    pub has_bus_ticket: bool,
    pub stardew_hero: bool,
    pub has_club_card: bool,
    pub has_special_charm: bool,
    pub day_of_month_for_save_game: u8,
    pub season_for_save_game: u8,
    pub year_for_safe_game: u32,
    pub overalls_color: u32,
    pub shirt_color: u32,
    pub skin_color: u32,
    pub hair_color: u32,
    pub eye_color: u32,
    pub save_time: u64,
    pub is_customized: bool,
    pub home_location: String,
    pub days_married: u64,
    pub movement_multiplier: Numeral,
    pub theater_build_date: i64,
    pub deepest_mine_level: u8,
    pub stamina: u32,
    pub total_money_earned: u64,
    pub milliseconds_played: u64,
    pub has_rusty_key: bool,
    pub has_skull_key: bool,
    pub can_understand_dwarves: bool,
    pub use_separate_wallets: bool,
    pub times_reached_mine_bottom: u64,
    pub unique_multiplayer_id: String,
    pub money: u64,
}

impl Record for Player {
    open spec fn failure(fields: Fields) -> Option<Failure> {
        no_failure()
            .otherwise(fields.string_failure("name"@))
            .otherwise(fields.flag_failure("isEmoting"@))
            .otherwise(fields.flag_failure("isCharging"@))
            .otherwise(fields.flag_failure("isGlowing"@))
            .otherwise(fields.flag_failure("coloredBorder"@))
            .otherwise(fields.flag_failure("flip"@))
            .otherwise(fields.flag_failure("drawOnTop"@))
            .otherwise(fields.flag_failure("faceTowardFarmer"@))
            .otherwise(fields.flag_failure("ignoreMovementAnimation"@))
            .otherwise(fields.flag_failure("faceAwayFromFarmer"@))
            .otherwise(fields.inner_failure::<Numeral>("scale"@))
            .otherwise(fields.scalar_failure::<u64>("timeBeforeAIMovementAgain"@))
            .otherwise(fields.scalar_failure::<Numeral>("glowingTransparency"@))
            .otherwise(fields.scalar_failure::<Numeral>("glowRate"@))
            .otherwise(fields.flag_failure("willDestroyObjectsUnderfoot"@))
            .otherwise(fields.record_failure::<Position>("Position"@))
            .otherwise(fields.scalar_failure::<u64>("Speed"@))
            .otherwise(fields.scalar_failure::<u64>("FacingDirection"@))
            .otherwise(fields.flag_failure("IsEmoting"@))
            .otherwise(fields.scalar_failure::<u64>("CurrentEmote"@))
            .otherwise(fields.scalar_failure::<Numeral>("Scale"@))
            .otherwise(fields.list_failure::<u64>("professions"@, "int"@))
            .otherwise(fields.list_failure::<u64>("experiencePoints"@, "int"@))
            .otherwise(fields.variants_failure::<Item>("items"@, "Item"@))
            .otherwise(fields.list_failure::<u64>("dialogueQuestionsAnswered"@, "int"@))
            .otherwise(fields.list_failure::<u64>("eventsSeen"@, "int"@))
            .otherwise(fields.list_failure::<String>("songsHeard"@, "string"@))
            .otherwise(fields.list_failure::<u64>("achievements"@, "int"@))
            .otherwise(fields.list_failure::<u64>("specialItems"@, "int"@))
            .otherwise(fields.list_failure::<u64>("specialBigCraftables"@, "int"@))
            .otherwise(fields.list_failure::<String>("mailReceived"@, "string"@))
            .otherwise(fields.list_failure::<String>("mailbox"@, "string"@))
            .otherwise(fields.inner_failure::<u64>("timeWentToBed"@))
            .otherwise(fields.string_failure("farmName"@))
            .otherwise(fields.string_failure("favoriteThing"@))
            .otherwise(fields.flag_failure("slotCanHost"@))
            .otherwise(fields.flag_failure("catPerson"@))
            .otherwise(fields.scalar_failure::<u64>("whichPetBreed"@))
            .otherwise(fields.flag_failure("acceptedDailyQuest"@))
            .otherwise(fields.record_failure::<Position>("mostRecentBed"@))
            .otherwise(fields.scalar_failure::<i64>("shirt"@))
            .otherwise(fields.scalar_failure::<u64>("hair"@))
            .otherwise(fields.scalar_failure::<u64>("skin"@))
            .otherwise(fields.scalar_failure::<i64>("shoes"@))
            .otherwise(fields.scalar_failure::<i64>("accessory"@))
            .otherwise(fields.scalar_failure::<i64>("facialHair"@))
            .otherwise(fields.scalar_failure::<i64>("pants"@))
            .otherwise(fields.record_failure::<Color>("hairstyleColor"@))
            .otherwise(fields.record_failure::<Color>("pantsColor"@))
            .otherwise(fields.record_failure::<Color>("newEyeColor"@))
            .otherwise(fields.record_failure::<ClothingItem>("shirtItem"@))
            .otherwise(fields.record_failure::<ClothingItem>("pantsItem"@))
            .otherwise(fields.flag_failure("divorceTonight"@))
            .otherwise(fields.flag_failure("changeWalletTypeTonight"@))
            .otherwise(fields.scalar_failure::<u64>("woodPieces"@))
            .otherwise(fields.scalar_failure::<u64>("stonePieces"@))
            .otherwise(fields.scalar_failure::<u64>("copperPieces"@))
            .otherwise(fields.scalar_failure::<u64>("ironPieces"@))
            .otherwise(fields.scalar_failure::<u64>("coalPieces"@))
            .otherwise(fields.scalar_failure::<u64>("goldPieces"@))
            .otherwise(fields.scalar_failure::<u64>("iridiumPieces"@))
            .otherwise(fields.scalar_failure::<u64>("quartzPieces"@))
            .otherwise(fields.string_failure("gameVersion"@))
            .otherwise(fields.scalar_failure::<u8>("caveChoice"@))
            .otherwise(fields.scalar_failure::<u64>("feed"@))
            .otherwise(fields.scalar_failure::<u8>("farmingLevel"@))
            .otherwise(fields.scalar_failure::<u8>("miningLevel"@))
            .otherwise(fields.scalar_failure::<u8>("combatLevel"@))
            .otherwise(fields.scalar_failure::<u8>("foragingLevel"@))
            .otherwise(fields.scalar_failure::<u8>("fishingLevel"@))
            .otherwise(fields.scalar_failure::<u8>("luckLevel"@))
            .otherwise(fields.scalar_failure::<u8>("newSkillPointsToSpend"@))
            .otherwise(fields.scalar_failure::<u8>("addedFarmingLevel"@))
            .otherwise(fields.scalar_failure::<u8>("addedMiningLevel"@))
            .otherwise(fields.scalar_failure::<u8>("addedCombatLevel"@))
            .otherwise(fields.scalar_failure::<u8>("addedForagingLevel"@))
            .otherwise(fields.scalar_failure::<u8>("addedFishingLevel"@))
            .otherwise(fields.scalar_failure::<u8>("addedLuckLevel"@))
            .otherwise(fields.scalar_failure::<u32>("maxStamina"@))
            .otherwise(fields.scalar_failure::<u32>("maxItems"@))
            .otherwise(fields.scalar_failure::<i32>("lastSeenMovieWeek"@))
            .otherwise(fields.scalar_failure::<u64>("resilience"@))
            .otherwise(fields.scalar_failure::<u64>("attack"@))
            .otherwise(fields.scalar_failure::<u64>("immunity"@))
            .otherwise(fields.scalar_failure::<u64>("attackIncreaseModifier"@))
            .otherwise(fields.scalar_failure::<u64>("knockbackModifier"@))
            .otherwise(fields.scalar_failure::<u64>("weaponSpeedModifier"@))
            .otherwise(fields.scalar_failure::<u64>("critChanceModifier"@))
            .otherwise(fields.scalar_failure::<u64>("critPowerModifier"@))
            .otherwise(fields.scalar_failure::<u64>("weaponPrecisionModifier"@))
            .otherwise(fields.scalar_failure::<u64>("clubCoins"@))
            .otherwise(fields.scalar_failure::<u8>("trashCanLevel"@))
            .otherwise(fields.scalar_failure::<u8>("daysLeftForToolUpgrade"@))
            .otherwise(fields.scalar_failure::<u8>("houseUpgradeLevel"@))
            .otherwise(fields.scalar_failure::<i8>("daysUntilHouseUpgrade"@))
            .otherwise(fields.scalar_failure::<u8>("coopUpgradeLevel"@))
            .otherwise(fields.scalar_failure::<u8>("barnUpgradeLevel"@))
            .otherwise(fields.flag_failure("hasGreenhouse"@))
            .otherwise(fields.flag_failure("hasUnlockedSkullDoor"@))
            .otherwise(fields.flag_failure("hasDarkTalisman"@))
            .otherwise(fields.flag_failure("hasMagicInk"@))
            .otherwise(fields.flag_failure("showChestColorPicker"@))
            .otherwise(fields.flag_failure("hasMagnifyingGlass"@))
            .otherwise(fields.flag_failure("hasWateringCanEnchantment"@))
            .otherwise(fields.scalar_failure::<u16>("magneticRadius"@))
            .otherwise(fields.scalar_failure::<u64>("temporaryInvincibilityTimer"@))
            .otherwise(fields.scalar_failure::<u32>("health"@))
            .otherwise(fields.scalar_failure::<u32>("maxHealth"@))
            .otherwise(fields.scalar_failure::<i32>("difficultyModifier"@))
            .otherwise(fields.flag_failure("isMale"@))
            .otherwise(fields.flag_failure("hasBusTicket"@))
            .otherwise(fields.flag_failure("stardewHero"@))
            .otherwise(fields.flag_failure("hasClubCard"@))
            .otherwise(fields.flag_failure("hasSpecialCharm"@))
            .otherwise(fields.scalar_failure::<u8>("dayOfMonthForSaveGame"@))
            .otherwise(fields.scalar_failure::<u8>("seasonForSaveGame"@))
            .otherwise(fields.scalar_failure::<u32>("yearForSaveGame"@))
            .otherwise(fields.scalar_failure::<u32>("overallsColor"@))
            .otherwise(fields.scalar_failure::<u32>("shirtColor"@))
            .otherwise(fields.scalar_failure::<u32>("skinColor"@))
            .otherwise(fields.scalar_failure::<u32>("hairColor"@))
            .otherwise(fields.scalar_failure::<u32>("eyeColor"@))
            .otherwise(fields.scalar_failure::<u64>("saveTime"@))
            .otherwise(fields.flag_failure("isCustomized"@))
            .otherwise(fields.string_failure("homeLocation"@))
            .otherwise(fields.scalar_failure::<u64>("daysMarried"@))
            .otherwise(fields.scalar_failure::<Numeral>("movementMultiplier"@))
            .otherwise(fields.scalar_failure::<i64>("theaterBuildDate"@))
            .otherwise(fields.scalar_failure::<u8>("deepestMineLevel"@))
            .otherwise(fields.scalar_failure::<u32>("stamina"@))
            .otherwise(fields.scalar_failure::<u64>("totalMoneyEarned"@))
            .otherwise(fields.scalar_failure::<u64>("millisecondsPlayed"@))
            .otherwise(fields.flag_failure("hasRustyKey"@))
            .otherwise(fields.flag_failure("hasSkullKey"@))
            .otherwise(fields.flag_failure("canUnderstandDwarves"@))
            .otherwise(fields.flag_failure("useSeparateWallets"@))
            .otherwise(fields.scalar_failure::<u64>("timesReachedMineBottom"@))
            .otherwise(fields.string_failure("UniqueMultiplayerID"@))
            .otherwise(fields.scalar_failure::<u64>("money"@))
    }

    open spec fn decoded(&self, fields: Fields) -> bool {
        &&& fields.is_string("name"@, self.name)
        &&& fields.is_flag("isEmoting"@, self.is_emoting)
        &&& fields.is_flag("isCharging"@, self.is_charging)
        &&& fields.is_flag("isGlowing"@, self.is_glowing)
        &&& fields.is_flag("coloredBorder"@, self.colored_border)
        &&& fields.is_flag("flip"@, self.flip)
        &&& fields.is_flag("drawOnTop"@, self.draw_on_top)
        &&& fields.is_flag("faceTowardFarmer"@, self.face_toward_farmer)
        &&& fields.is_flag("ignoreMovementAnimation"@, self.ignore_movement_animation)
        &&& fields.is_flag("faceAwayFromFarmer"@, self.face_away_from_farmer)
        &&& fields.is_inner("scale"@, self.scale)
        &&& fields.is_scalar("timeBeforeAIMovementAgain"@, self.time_before_ai_movement_again)
        &&& fields.is_scalar("glowingTransparency"@, self.glowing_transparency)
        &&& fields.is_scalar("glowRate"@, self.glow_rate)
        &&& fields.is_flag("willDestroyObjectsUnderfoot"@, self.will_destroy_objects_underfoot)
        &&& fields.is_record("Position"@, self.position)
        &&& fields.is_scalar("Speed"@, self.speed)
        &&& fields.is_scalar("FacingDirection"@, self.facing_direction)
        &&& fields.is_flag("IsEmoting"@, self.is_emoting2)
        &&& fields.is_scalar("CurrentEmote"@, self.current_emote)
        &&& fields.is_scalar("Scale"@, self.scale2)
        &&& fields.is_list("professions"@, self.professions@)
        &&& fields.is_list("experiencePoints"@, self.experience_points@)
        &&& fields.is_variants("items"@, self.items@)
        &&& fields.is_list("dialogueQuestionsAnswered"@, self.dialogue_questions_answered@)
        &&& fields.is_list("eventsSeen"@, self.events_seen@)
        &&& fields.is_list("songsHeard"@, self.songs_heard@)
        &&& fields.is_list("achievements"@, self.achievements@)
        &&& fields.is_list("specialItems"@, self.special_items@)
        &&& fields.is_list("specialBigCraftables"@, self.special_big_craftables@)
        &&& fields.is_list("mailReceived"@, self.mail_received@)
        &&& fields.is_list("mailbox"@, self.mailbox@)
        &&& fields.is_inner("timeWentToBed"@, self.time_went_to_bed)
        &&& fields.is_string("farmName"@, self.farm_name)
        &&& fields.is_string("favoriteThing"@, self.favorite_thing)
        &&& fields.is_flag("slotCanHost"@, self.slot_can_host)
        &&& fields.is_flag("catPerson"@, self.cat_person)
        &&& fields.is_scalar("whichPetBreed"@, self.which_pet_breed)
        &&& fields.is_flag("acceptedDailyQuest"@, self.accepted_daily_quest)
        &&& fields.is_record("mostRecentBed"@, self.most_recent_bed)
        &&& fields.is_scalar("shirt"@, self.shirt)
        &&& fields.is_scalar("hair"@, self.hair)
        &&& fields.is_scalar("skin"@, self.skin)
        &&& fields.is_scalar("shoes"@, self.shoes)
        &&& fields.is_scalar("accessory"@, self.accessory)
        &&& fields.is_scalar("facialHair"@, self.facial_hair)
        &&& fields.is_scalar("pants"@, self.pants)
        &&& fields.is_record("hairstyleColor"@, self.hairstyle_color)
        &&& fields.is_record("pantsColor"@, self.pants_color)
        &&& fields.is_record("newEyeColor"@, self.new_eye_color)
        &&& fields.is_record("shirtItem"@, self.shirt_item)
        &&& fields.is_record("pantsItem"@, self.pants_item)
        &&& fields.is_flag("divorceTonight"@, self.divorce_tonight)
        &&& fields.is_flag("changeWalletTypeTonight"@, self.change_wallet_type_tonight)
        &&& fields.is_scalar("woodPieces"@, self.wood_pieces)
        &&& fields.is_scalar("stonePieces"@, self.stone_pieces)
        &&& fields.is_scalar("copperPieces"@, self.copper_pieces)
        &&& fields.is_scalar("ironPieces"@, self.iron_pieces)
        &&& fields.is_scalar("coalPieces"@, self.coal_pieces)
        &&& fields.is_scalar("goldPieces"@, self.gold_pieces)
        &&& fields.is_scalar("iridiumPieces"@, self.iridium_pieces)
        &&& fields.is_scalar("quartzPieces"@, self.quartz_pieces)
        &&& fields.is_string("gameVersion"@, self.game_version)
        &&& fields.is_scalar("caveChoice"@, self.cave_choice)
        &&& fields.is_scalar("feed"@, self.feed)
        &&& fields.is_scalar("farmingLevel"@, self.farming_level)
        &&& fields.is_scalar("miningLevel"@, self.mining_level)
        &&& fields.is_scalar("combatLevel"@, self.combat_level)
        &&& fields.is_scalar("foragingLevel"@, self.foraging_level)
        &&& fields.is_scalar("fishingLevel"@, self.fishing_level)
        &&& fields.is_scalar("luckLevel"@, self.luck_level)
        &&& fields.is_scalar("newSkillPointsToSpend"@, self.new_skill_points_to_spend)
        &&& fields.is_scalar("addedFarmingLevel"@, self.added_farming_level)
        &&& fields.is_scalar("addedMiningLevel"@, self.added_mining_level)
        &&& fields.is_scalar("addedCombatLevel"@, self.added_combat_level)
        &&& fields.is_scalar("addedForagingLevel"@, self.added_foraging_level)
        &&& fields.is_scalar("addedFishingLevel"@, self.added_fishing_level)
        &&& fields.is_scalar("addedLuckLevel"@, self.added_luck_level)
        &&& fields.is_scalar("maxStamina"@, self.max_stamina)
        &&& fields.is_scalar("maxItems"@, self.max_items)
        &&& fields.is_scalar("lastSeenMovieWeek"@, self.last_seen_movie_week)
        &&& fields.is_scalar("resilience"@, self.resilience)
        &&& fields.is_scalar("attack"@, self.attack)
        &&& fields.is_scalar("immunity"@, self.immunity)
        &&& fields.is_scalar("attackIncreaseModifier"@, self.attack_increase_modifier)
        &&& fields.is_scalar("knockbackModifier"@, self.knockback_modifier)
        &&& fields.is_scalar("weaponSpeedModifier"@, self.weapon_speed_modifier)
        &&& fields.is_scalar("critChanceModifier"@, self.crit_chance_modifier)
        &&& fields.is_scalar("critPowerModifier"@, self.crit_power_modifier)
        &&& fields.is_scalar("weaponPrecisionModifier"@, self.weapon_precision_modifier)
        &&& fields.is_scalar("clubCoins"@, self.club_coins)
        &&& fields.is_scalar("trashCanLevel"@, self.trash_can_level)
        &&& fields.is_scalar("daysLeftForToolUpgrade"@, self.days_left_for_tool_upgrade)
        &&& fields.is_scalar("houseUpgradeLevel"@, self.house_upgrade_level)
        &&& fields.is_scalar("daysUntilHouseUpgrade"@, self.days_until_house_upgrade)
        &&& fields.is_scalar("coopUpgradeLevel"@, self.coop_upgrade_level)
        &&& fields.is_scalar("barnUpgradeLevel"@, self.barn_upgrade_level)
        &&& fields.is_flag("hasGreenhouse"@, self.has_greenhouse)
        &&& fields.is_flag("hasUnlockedSkullDoor"@, self.has_unlocked_skull_door)
        &&& fields.is_flag("hasDarkTalisman"@, self.has_dark_talisman)
        &&& fields.is_flag("hasMagicInk"@, self.has_magic_ink)
        &&& fields.is_flag("showChestColorPicker"@, self.show_chest_color_picker)
        &&& fields.is_flag("hasMagnifyingGlass"@, self.has_magnifying_glass)
        &&& fields.is_flag("hasWateringCanEnchantment"@, self.has_watering_can_enchantment)
        &&& fields.is_scalar("magneticRadius"@, self.magnetic_radius)
        &&& fields.is_scalar("temporaryInvincibilityTimer"@, self.temporary_invincibility_timer)
        &&& fields.is_scalar("health"@, self.health)
        &&& fields.is_scalar("maxHealth"@, self.max_health)
        &&& fields.is_scalar("difficultyModifier"@, self.difficulty_modifier)
        &&& fields.is_flag("isMale"@, self.is_male)
        &&& fields.is_flag("hasBusTicket"@, self.has_bus_ticket)
        &&& fields.is_flag("stardewHero"@, self.stardew_hero)
        &&& fields.is_flag("hasClubCard"@, self.has_club_card)
        &&& fields.is_flag("hasSpecialCharm"@, self.has_special_charm)
        &&& fields.is_scalar("dayOfMonthForSaveGame"@, self.day_of_month_for_save_game)
        &&& fields.is_scalar("seasonForSaveGame"@, self.season_for_save_game)
        &&& fields.is_scalar("yearForSaveGame"@, self.year_for_safe_game)
        &&& fields.is_scalar("overallsColor"@, self.overalls_color)
        &&& fields.is_scalar("shirtColor"@, self.shirt_color)
        &&& fields.is_scalar("skinColor"@, self.skin_color)
        &&& fields.is_scalar("hairColor"@, self.hair_color)
        &&& fields.is_scalar("eyeColor"@, self.eye_color)
        &&& fields.is_scalar("saveTime"@, self.save_time)
        &&& fields.is_flag("isCustomized"@, self.is_customized)
        &&& fields.is_string("homeLocation"@, self.home_location)
        &&& fields.is_scalar("daysMarried"@, self.days_married)
        &&& fields.is_scalar("movementMultiplier"@, self.movement_multiplier)
        &&& fields.is_scalar("theaterBuildDate"@, self.theater_build_date)
        &&& fields.is_scalar("deepestMineLevel"@, self.deepest_mine_level)
        &&& fields.is_scalar("stamina"@, self.stamina)
        &&& fields.is_scalar("totalMoneyEarned"@, self.total_money_earned)
        &&& fields.is_scalar("millisecondsPlayed"@, self.milliseconds_played)
        &&& fields.is_flag("hasRustyKey"@, self.has_rusty_key)
        &&& fields.is_flag("hasSkullKey"@, self.has_skull_key)
        &&& fields.is_flag("canUnderstandDwarves"@, self.can_understand_dwarves)
        &&& fields.is_flag("useSeparateWallets"@, self.use_separate_wallets)
        &&& fields.is_scalar("timesReachedMineBottom"@, self.times_reached_mine_bottom)
        &&& fields.is_string("UniqueMultiplayerID"@, self.unique_multiplayer_id)
        &&& fields.is_scalar("money"@, self.money)
    }

    fn from_fields(map: &FieldMap<'_>) -> (r: Result<Player, DecodeError>) {
        Ok(
            Player {
                name: get_string(map, "name")?,
                is_emoting: get_bool(map, "isEmoting")?,
                is_charging: get_bool(map, "isCharging")?,
                is_glowing: get_bool(map, "isGlowing")?,
                colored_border: get_bool(map, "coloredBorder")?,
                flip: get_bool(map, "flip")?,
                draw_on_top: get_bool(map, "drawOnTop")?,
                face_toward_farmer: get_bool(map, "faceTowardFarmer")?,
                ignore_movement_animation: get_bool(map, "ignoreMovementAnimation")?,
                face_away_from_farmer: get_bool(map, "faceAwayFromFarmer")?,
                scale: parse_inner(map, "scale")?,
                time_before_ai_movement_again: parse(map, "timeBeforeAIMovementAgain")?,
                glowing_transparency: parse(map, "glowingTransparency")?,
                glow_rate: parse(map, "glowRate")?,
                will_destroy_objects_underfoot: get_bool(map, "willDestroyObjectsUnderfoot")?,
                position: try_into(map, "Position")?,
                speed: parse(map, "Speed")?,
                facing_direction: parse(map, "FacingDirection")?,
                is_emoting2: get_bool(map, "IsEmoting")?,
                current_emote: parse(map, "CurrentEmote")?,
                scale2: parse(map, "Scale")?,
                professions: get_int_list(map, "professions")?,
                experience_points: get_int_list(map, "experiencePoints")?,
                items: try_into_list(map, "items", "Item")?,
                dialogue_questions_answered: get_int_list(map, "dialogueQuestionsAnswered")?,
                events_seen: get_int_list(map, "eventsSeen")?,
                songs_heard: get_string_list(map, "songsHeard")?,
                achievements: get_int_list(map, "achievements")?,
                special_items: get_int_list(map, "specialItems")?,
                special_big_craftables: get_int_list(map, "specialBigCraftables")?,
                mail_received: get_string_list(map, "mailReceived")?,
                mailbox: get_string_list(map, "mailbox")?,
                time_went_to_bed: parse_inner(map, "timeWentToBed")?,
                farm_name: get_string(map, "farmName")?,
                favorite_thing: get_string(map, "favoriteThing")?,
                slot_can_host: get_bool(map, "slotCanHost")?,
                cat_person: get_bool(map, "catPerson")?,
                which_pet_breed: parse(map, "whichPetBreed")?,
                accepted_daily_quest: get_bool(map, "acceptedDailyQuest")?,
                most_recent_bed: try_into(map, "mostRecentBed")?,
                shirt: parse(map, "shirt")?,
                hair: parse(map, "hair")?,
                skin: parse(map, "skin")?,
                shoes: parse(map, "shoes")?,
                accessory: parse(map, "accessory")?,
                facial_hair: parse(map, "facialHair")?,
                pants: parse(map, "pants")?,
                hairstyle_color: try_into(map, "hairstyleColor")?,
                pants_color: try_into(map, "pantsColor")?,
                new_eye_color: try_into(map, "newEyeColor")?,
                shirt_item: try_into(map, "shirtItem")?,
                pants_item: try_into(map, "pantsItem")?,
                divorce_tonight: get_bool(map, "divorceTonight")?,
                change_wallet_type_tonight: get_bool(map, "changeWalletTypeTonight")?,
                wood_pieces: parse(map, "woodPieces")?,
                stone_pieces: parse(map, "stonePieces")?,
                copper_pieces: parse(map, "copperPieces")?,
                iron_pieces: parse(map, "ironPieces")?,
                coal_pieces: parse(map, "coalPieces")?,
                gold_pieces: parse(map, "goldPieces")?,
                iridium_pieces: parse(map, "iridiumPieces")?,
                quartz_pieces: parse(map, "quartzPieces")?,
                game_version: get_string(map, "gameVersion")?,
                cave_choice: parse(map, "caveChoice")?,
                feed: parse(map, "feed")?,
                farming_level: parse(map, "farmingLevel")?,
                mining_level: parse(map, "miningLevel")?,
                combat_level: parse(map, "combatLevel")?,
                foraging_level: parse(map, "foragingLevel")?,
                fishing_level: parse(map, "fishingLevel")?,
                luck_level: parse(map, "luckLevel")?,
                new_skill_points_to_spend: parse(map, "newSkillPointsToSpend")?,
                added_farming_level: parse(map, "addedFarmingLevel")?,
                added_mining_level: parse(map, "addedMiningLevel")?,
                added_combat_level: parse(map, "addedCombatLevel")?,
                added_foraging_level: parse(map, "addedForagingLevel")?,
                added_fishing_level: parse(map, "addedFishingLevel")?,
                added_luck_level: parse(map, "addedLuckLevel")?,
                max_stamina: parse(map, "maxStamina")?,
                max_items: parse(map, "maxItems")?,
                last_seen_movie_week: parse(map, "lastSeenMovieWeek")?,
                resilience: parse(map, "resilience")?,
                attack: parse(map, "attack")?,
                immunity: parse(map, "immunity")?,
                attack_increase_modifier: parse(map, "attackIncreaseModifier")?,
                knockback_modifier: parse(map, "knockbackModifier")?,
                weapon_speed_modifier: parse(map, "weaponSpeedModifier")?,
                crit_chance_modifier: parse(map, "critChanceModifier")?,
                crit_power_modifier: parse(map, "critPowerModifier")?,
                weapon_precision_modifier: parse(map, "weaponPrecisionModifier")?,
                club_coins: parse(map, "clubCoins")?,
                trash_can_level: parse(map, "trashCanLevel")?,
                days_left_for_tool_upgrade: parse(map, "daysLeftForToolUpgrade")?,
                house_upgrade_level: parse(map, "houseUpgradeLevel")?,
                days_until_house_upgrade: parse(map, "daysUntilHouseUpgrade")?,
                coop_upgrade_level: parse(map, "coopUpgradeLevel")?,
                barn_upgrade_level: parse(map, "barnUpgradeLevel")?,
                has_greenhouse: get_bool(map, "hasGreenhouse")?,
                has_unlocked_skull_door: get_bool(map, "hasUnlockedSkullDoor")?,
                has_dark_talisman: get_bool(map, "hasDarkTalisman")?,
                has_magic_ink: get_bool(map, "hasMagicInk")?,
                show_chest_color_picker: get_bool(map, "showChestColorPicker")?,
                has_magnifying_glass: get_bool(map, "hasMagnifyingGlass")?,
                has_watering_can_enchantment: get_bool(map, "hasWateringCanEnchantment")?,
                magnetic_radius: parse(map, "magneticRadius")?,
                temporary_invincibility_timer: parse(map, "temporaryInvincibilityTimer")?,
                health: parse(map, "health")?,
                max_health: parse(map, "maxHealth")?,
                difficulty_modifier: parse(map, "difficultyModifier")?,
                is_male: get_bool(map, "isMale")?,
                has_bus_ticket: get_bool(map, "hasBusTicket")?,
                stardew_hero: get_bool(map, "stardewHero")?,
                has_club_card: get_bool(map, "hasClubCard")?,
                has_special_charm: get_bool(map, "hasSpecialCharm")?,
                day_of_month_for_save_game: parse(map, "dayOfMonthForSaveGame")?,
                season_for_save_game: parse(map, "seasonForSaveGame")?,
                year_for_safe_game: parse(map, "yearForSaveGame")?,
                overalls_color: parse(map, "overallsColor")?,
                shirt_color: parse(map, "shirtColor")?,
                skin_color: parse(map, "skinColor")?,
                hair_color: parse(map, "hairColor")?,
                eye_color: parse(map, "eyeColor")?,
                save_time: parse(map, "saveTime")?,
                is_customized: get_bool(map, "isCustomized")?,
                home_location: get_string(map, "homeLocation")?,
                days_married: parse(map, "daysMarried")?,
                movement_multiplier: parse(map, "movementMultiplier")?,
                theater_build_date: parse(map, "theaterBuildDate")?,
                deepest_mine_level: parse(map, "deepestMineLevel")?,
                stamina: parse(map, "stamina")?,
                total_money_earned: parse(map, "totalMoneyEarned")?,
                milliseconds_played: parse(map, "millisecondsPlayed")?,
                has_rusty_key: get_bool(map, "hasRustyKey")?,
                has_skull_key: get_bool(map, "hasSkullKey")?,
                can_understand_dwarves: get_bool(map, "canUnderstandDwarves")?,
                use_separate_wallets: get_bool(map, "useSeparateWallets")?,
                times_reached_mine_bottom: parse(map, "timesReachedMineBottom")?,
                unique_multiplayer_id: get_string(map, "UniqueMultiplayerID")?,
                money: parse(map, "money")?,
            },
        )
    }
}

} // verus!
