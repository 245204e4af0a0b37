use stardew_save::document::Document;
use stardew_save::failure::{Cause, DecodeError};
use stardew_save::fields::FieldMap;
use stardew_save::list::Variant;
use stardew_save::number::Fault;
use stardew_save::record::{from_document, Record};
use stardew_save::stardew::{load, ClothingItem, Color, Item, Player, Position, SaveGame, Season};

fn save_inner(fields: &[(&'static str, String)]) -> String {
    let mut out = String::new();
    for (tag, content) in fields {
        out.push_str(&format!("<{}>{}</{}>", tag, content, tag));
    }
    out
}

fn save_document(fields: &[(&'static str, String)]) -> String {
    format!(
        "<?xml version=\"1.0\" encoding=\"utf-8\"?>\n<SaveGame xmlns:xsi=\"http://www.w3.org/2001/XMLSchema-instance\">{}</SaveGame>",
        save_inner(fields)
    )
}

fn save_without(fields: Vec<(&'static str, String)>, tag: &str) -> Vec<(&'static str, String)> {
    fields.into_iter().filter(|(t, _)| *t != tag).collect()
}

fn save_with(
    fields: Vec<(&'static str, String)>,
    tag: &str,
    content: &str,
) -> Vec<(&'static str, String)> {
    fields
        .into_iter()
        .map(|(t, c)| if t == tag { (t, content.to_string()) } else { (t, c) })
        .collect()
}

fn save_position() -> String {
    "<X>1.5</X><Y>-2</Y>".to_string()
}

fn save_color() -> String {
    "<R>1</R><G>2</G><B>3</B><A>255</A><PackedValue>4278387201</PackedValue>".to_string()
}

fn save_clothing() -> String {
    save_inner(&save_clothing_fields())
}

fn save_items() -> String {
    format!(
        "<Item xsi:type=\"Tool\">{}</Item><Item xsi:nil=\"true\" /><Item>{}</Item>",
        save_inner(&save_with(save_item(), "name", "Axe")),
        save_inner(&save_with(save_item(), "name", "Parsnip"))
    )
}

fn save_failure(path: &[&str], cause: Cause) -> DecodeError {
    DecodeError { path: path.iter().map(|s| s.to_string()).collect(), cause }
}

fn save_item() -> Vec<(&'static str, String)> {
    vec![
        ("isLostItem", "true".to_string()),
        ("category", "3".to_string()),
        ("hasBeenInInventory", "true".to_string()),
        ("name", "text".to_string()),
        ("specialItem", "true".to_string()),
        ("SpecialVariable", "3".to_string()),
        ("DisplayName", "text".to_string()),
        ("Name", "text".to_string()),
        ("Stack", "3".to_string()),
    ]
}

fn save_clothing_fields() -> Vec<(&'static str, String)> {
    vec![
        ("isLostItem", "true".to_string()),
        ("category", "3".to_string()),
        ("hasBeenInInventory", "true".to_string()),
        ("name", "text".to_string()),
        ("parentSheetIndex", "3".to_string()),
        ("specialItem", "true".to_string()),
        ("SpecialVariable", "3".to_string()),
        ("DisplayName", "text".to_string()),
        ("Name", "text".to_string()),
        ("Stack", "3".to_string()),
        ("price", "3".to_string()),
        ("indexInTileSheet", "3".to_string()),
        ("indexInTileSheetFemale", "3".to_string()),
        ("clothesType", "3".to_string()),
        ("dyeable", "true".to_string()),
        ("clothesColor", save_color()),
        ("isPrismatic", "true".to_string()),
        ("Price", "3".to_string()),
    ]
}

fn save_player() -> Vec<(&'static str, String)> {
    vec![
        ("name", "text".to_string()),
        ("isEmoting", "true".to_string()),
        ("isCharging", "true".to_string()),
        ("isGlowing", "true".to_string()),
        ("coloredBorder", "true".to_string()),
        ("flip", "true".to_string()),
        ("drawOnTop", "true".to_string()),
        ("faceTowardFarmer", "true".to_string()),
        ("ignoreMovementAnimation", "true".to_string()),
        ("faceAwayFromFarmer", "true".to_string()),
        ("scale", "<v>4</v>".to_string()),
        ("timeBeforeAIMovementAgain", "3".to_string()),
        ("glowingTransparency", "0.5".to_string()),
        ("glowRate", "0.5".to_string()),
        ("willDestroyObjectsUnderfoot", "true".to_string()),
        ("Position", save_position()),
        ("Speed", "3".to_string()),
        ("FacingDirection", "3".to_string()),
        ("IsEmoting", "true".to_string()),
        ("CurrentEmote", "3".to_string()),
        ("Scale", "0.5".to_string()),
        ("professions", "<int>1</int><int>2</int>".to_string()),
        ("experiencePoints", "<int>1</int><int>2</int>".to_string()),
        ("items", save_items()),
        ("dialogueQuestionsAnswered", "<int>1</int><int>2</int>".to_string()),
        ("eventsSeen", "<int>1</int><int>2</int>".to_string()),
        ("songsHeard", "<string>a</string><string>b</string>".to_string()),
        ("achievements", "<int>1</int><int>2</int>".to_string()),
        ("specialItems", "<int>1</int><int>2</int>".to_string()),
        ("specialBigCraftables", "<int>1</int><int>2</int>".to_string()),
        ("mailReceived", "<string>a</string><string>b</string>".to_string()),
        ("mailbox", "<string>a</string><string>b</string>".to_string()),
        ("timeWentToBed", "<v>4</v>".to_string()),
        ("farmName", "text".to_string()),
        ("favoriteThing", "text".to_string()),
        ("slotCanHost", "true".to_string()),
        ("catPerson", "true".to_string()),
        ("whichPetBreed", "3".to_string()),
        ("acceptedDailyQuest", "true".to_string()),
        ("mostRecentBed", save_position()),
        ("shirt", "3".to_string()),
        ("hair", "3".to_string()),
        ("skin", "3".to_string()),
        ("shoes", "3".to_string()),
        ("accessory", "3".to_string()),
        ("facialHair", "3".to_string()),
        ("pants", "3".to_string()),
        ("hairstyleColor", save_color()),
        ("pantsColor", save_color()),
        ("newEyeColor", save_color()),
        ("shirtItem", save_clothing()),
        ("pantsItem", save_clothing()),
        ("divorceTonight", "true".to_string()),
        ("changeWalletTypeTonight", "true".to_string()),
        ("woodPieces", "3".to_string()),
        ("stonePieces", "3".to_string()),
        ("copperPieces", "3".to_string()),
        ("ironPieces", "3".to_string()),
        ("coalPieces", "3".to_string()),
        ("goldPieces", "3".to_string()),
        ("iridiumPieces", "3".to_string()),
        ("quartzPieces", "3".to_string()),
        ("gameVersion", "text".to_string()),
        ("caveChoice", "3".to_string()),
        ("feed", "3".to_string()),
        ("farmingLevel", "3".to_string()),
        ("miningLevel", "3".to_string()),
        ("combatLevel", "3".to_string()),
        ("foragingLevel", "3".to_string()),
        ("fishingLevel", "3".to_string()),
        ("luckLevel", "3".to_string()),
        ("newSkillPointsToSpend", "3".to_string()),
        ("addedFarmingLevel", "3".to_string()),
        ("addedMiningLevel", "3".to_string()),
        ("addedCombatLevel", "3".to_string()),
        ("addedForagingLevel", "3".to_string()),
        ("addedFishingLevel", "3".to_string()),
        ("addedLuckLevel", "3".to_string()),
        ("maxStamina", "3".to_string()),
        ("maxItems", "3".to_string()),
        ("lastSeenMovieWeek", "3".to_string()),
        ("resilience", "3".to_string()),
        ("attack", "3".to_string()),
        ("immunity", "3".to_string()),
        ("attackIncreaseModifier", "3".to_string()),
        ("knockbackModifier", "3".to_string()),
        ("weaponSpeedModifier", "3".to_string()),
        ("critChanceModifier", "3".to_string()),
        ("critPowerModifier", "3".to_string()),
        ("weaponPrecisionModifier", "3".to_string()),
        ("clubCoins", "3".to_string()),
        ("trashCanLevel", "3".to_string()),
        ("daysLeftForToolUpgrade", "3".to_string()),
        ("houseUpgradeLevel", "3".to_string()),
        ("daysUntilHouseUpgrade", "3".to_string()),
        ("coopUpgradeLevel", "3".to_string()),
        ("barnUpgradeLevel", "3".to_string()),
        ("hasGreenhouse", "true".to_string()),
        ("hasUnlockedSkullDoor", "true".to_string()),
        ("hasDarkTalisman", "true".to_string()),
        ("hasMagicInk", "true".to_string()),
        ("showChestColorPicker", "true".to_string()),
        ("hasMagnifyingGlass", "true".to_string()),
        ("hasWateringCanEnchantment", "true".to_string()),
        ("magneticRadius", "3".to_string()),
        ("temporaryInvincibilityTimer", "3".to_string()),
        ("health", "3".to_string()),
        ("maxHealth", "3".to_string()),
        ("difficultyModifier", "3".to_string()),
        ("isMale", "true".to_string()),
        ("hasBusTicket", "true".to_string()),
        ("stardewHero", "true".to_string()),
        ("hasClubCard", "true".to_string()),
        ("hasSpecialCharm", "true".to_string()),
        ("dayOfMonthForSaveGame", "3".to_string()),
        ("seasonForSaveGame", "3".to_string()),
        ("yearForSaveGame", "3".to_string()),
        ("overallsColor", "3".to_string()),
        ("shirtColor", "3".to_string()),
        ("skinColor", "3".to_string()),
        ("hairColor", "3".to_string()),
        ("eyeColor", "3".to_string()),
        ("saveTime", "3".to_string()),
        ("isCustomized", "true".to_string()),
        ("homeLocation", "text".to_string()),
        ("daysMarried", "3".to_string()),
        ("movementMultiplier", "0.5".to_string()),
        ("theaterBuildDate", "3".to_string()),
        ("deepestMineLevel", "3".to_string()),
        ("stamina", "3".to_string()),
        ("totalMoneyEarned", "3".to_string()),
        ("millisecondsPlayed", "3".to_string()),
        ("hasRustyKey", "true".to_string()),
        ("hasSkullKey", "true".to_string()),
        ("canUnderstandDwarves", "true".to_string()),
        ("useSeparateWallets", "true".to_string()),
        ("timesReachedMineBottom", "3".to_string()),
        ("UniqueMultiplayerID", "text".to_string()),
        ("money", "3".to_string()),
    ]
}

fn save_game() -> Vec<(&'static str, String)> {
    vec![
        ("player", save_inner(&save_player())),
        ("currentSeason", "spring".to_string()),
        ("samBandName", "text".to_string()),
        ("elliottBookName", "text".to_string()),
        ("worldStateIDs", "<string>a</string><string>b</string>".to_string()),
        ("lostBooksFound", "3".to_string()),
        ("dayOfMonth", "3".to_string()),
        ("year", "3".to_string()),
        ("farmerWallpaper", "3".to_string()),
        ("FarmerFloor", "3".to_string()),
        ("currentWallpaper", "3".to_string()),
        ("currentFloor", "3".to_string()),
        ("currentSongIndex", "3".to_string()),
        ("incubatingEgg", save_position()),
        ("chanceToRainTomorrow", "0.5".to_string()),
        ("dailyLuck", "0.5".to_string()),
        ("uniqueIDForThisGame", "text".to_string()),
        ("weddingToday", "true".to_string()),
        ("isRaining", "true".to_string()),
        ("isDebrisWeather", "true".to_string()),
        ("shippingTax", "true".to_string()),
        ("bloomDay", "true".to_string()),
        ("isLightning", "true".to_string()),
        ("isSnowing", "true".to_string()),
        ("shouldSpawnMonsters", "true".to_string()),
        ("hasApplied1_3_UpdateChanges", "true".to_string()),
        ("hasApplied1_4_UpdateChanges", "true".to_string()),
        ("musicVolume", "0.5".to_string()),
        ("soundVolume", "0.5".to_string()),
        ("cropsOfTheWeek", "<int>1</int><int>2</int>".to_string()),
        ("highestPlayerLimit", "3".to_string()),
        ("moveBuildingPermissionMode", "3".to_string()),
        ("latestID", "3".to_string()),
        ("mine_lowestLevelReached", "3".to_string()),
        ("minecartHighScore", "3".to_string()),
        ("weatherForTomorrow", "3".to_string()),
        ("whichFarm", "3".to_string()),
        ("lastAppliedSaveFix", "3".to_string()),
        ("gameVersion", "text".to_string()),
    ]
}


#[test]
fn load_reads_a_whole_save_game() {
    let save = load(&save_document(&save_game())).unwrap();
    assert_eq!(save.current_season, Season::Spring);
    assert_eq!(save.sam_band_name, "text");
    assert_eq!(save.world_state_ids, vec!["a".to_string(), "b".to_string()]);
    assert_eq!(save.crops_of_the_week, vec![1u64, 2u64]);
    assert_eq!(save.day_of_month, 3u8);
    assert_eq!(save.latest_id, 3i64);
    assert_eq!(save.daily_luck.as_str(), "0.5");
    assert_eq!(save.incubating_egg.x.as_str(), "1.5");
    assert_eq!(save.incubating_egg.y.as_str(), "-2");
    assert!(save.is_raining);
    assert_eq!(save.game_version, "text");
    let player = &save.player;
    assert_eq!(player.name, "text");
    assert_eq!(player.scale.as_str(), "4");
    assert_eq!(player.time_went_to_bed, 4u64);
    assert_eq!(player.position.x.as_str(), "1.5");
    assert_eq!(player.most_recent_bed.y.as_str(), "-2");
    assert_eq!(player.professions, vec![1u64, 2u64]);
    assert_eq!(player.songs_heard, vec!["a".to_string(), "b".to_string()]);
    assert_eq!(
        player.hairstyle_color,
        Color { r: 1, g: 2, b: 3, a: 255, packed_value: 4278387201 }
    );
    assert_eq!(player.shirt_item.clothes_color.a, 255u8);
    assert_eq!(player.shirt_item.price2, 3u64);
    assert_eq!(player.days_until_house_upgrade, 3i8);
    assert_eq!(player.magnetic_radius, 3u16);
    assert_eq!(player.last_seen_movie_week, 3i32);
    assert_eq!(player.money, 3u64);
    assert_eq!(player.items.len(), 2);
    assert_eq!(player.items[0].name, "Axe");
    assert_eq!(player.items[1].name, "Parsnip");
}

#[test]
fn load_reports_a_malformed_document() {
    assert_eq!(load("<SaveGame></Other>").map(|_| ()), Err(save_failure(&[], Cause::DocumentMalformed)));
    assert_eq!(load("").map(|_| ()), Err(save_failure(&[], Cause::DocumentMalformed)));
}

#[test]
fn load_reports_a_missing_field_of_the_root() {
    let fields = save_without(save_game(), "year");
    assert_eq!(
        load(&save_document(&fields)).map(|_| ()),
        Err(save_failure(&[], Cause::MissingField("year".to_string())))
    );
}

#[test]
fn load_reports_the_first_field_that_fails() {
    let fields = save_without(save_without(save_game(), "gameVersion"), "dayOfMonth");
    assert_eq!(
        load(&save_document(&fields)).map(|_| ()),
        Err(save_failure(&[], Cause::MissingField("dayOfMonth".to_string())))
    );
    let fields = save_without(save_with(save_game(), "currentSeason", "monsoon"), "year");
    assert_eq!(
        load(&save_document(&fields)).map(|_| ()),
        Err(save_failure(
            &[],
            Cause::InvalidField(
                "currentSeason".to_string(),
                "monsoon".to_string(),
                Fault::UnknownSeason
            )
        ))
    );
}

#[test]
fn load_wraps_a_failure_of_the_player_in_its_field() {
    let player = save_without(save_player(), "farmName");
    let fields = save_with(save_game(), "player", &save_inner(&player));
    assert_eq!(
        load(&save_document(&fields)).map(|_| ()),
        Err(save_failure(&["player"], Cause::MissingField("farmName".to_string())))
    );
}

#[test]
fn failure_three_levels_deep_names_all_three() {
    let player = save_with(save_player(), "Position", "<X></X><Y>2</Y>");
    let fields = save_with(save_game(), "player", &save_inner(&player));
    let error = load(&save_document(&fields)).map(|_| ()).unwrap_err();
    assert_eq!(error, save_failure(&["player", "Position"], Cause::EmptyField("X".to_string())));
    assert_eq!(error.message(), "field `player`: field `Position`: field `X` has no content");
}

#[test]
fn failure_in_a_record_in_a_record_in_a_record() {
    let clothing = save_with(
        save_clothing_fields(),
        "clothesColor",
        "<R>1</R><G>2</G><B>300</B><A>255</A><PackedValue>1</PackedValue>",
    );
    let player = save_with(save_player(), "pantsItem", &save_inner(&clothing));
    let fields = save_with(save_game(), "player", &save_inner(&player));
    let error = load(&save_document(&fields)).map(|_| ()).unwrap_err();
    assert_eq!(
        error,
        save_failure(
            &["player", "pantsItem", "clothesColor"],
            Cause::InvalidField("B".to_string(), "300".to_string(), Fault::PosOverflow)
        )
    );
    assert_eq!(
        error.message(),
        "field `player`: field `pantsItem`: field `clothesColor`: invalid content `300` in `B` field: the number is too large for the field"
    );
}

#[test]
fn failure_of_an_item_is_wrapped_in_the_list() {
    let items = format!("<Item>{}</Item>", save_inner(&save_without(save_item(), "Stack")));
    let player = save_with(save_player(), "items", &items);
    let fields = save_with(save_game(), "player", &save_inner(&player));
    assert_eq!(
        load(&save_document(&fields)).map(|_| ()),
        Err(save_failure(&["player", "items"], Cause::MissingField("Stack".to_string())))
    );
}

#[test]
fn player_scale_is_read_from_the_first_element_under_it() {
    let fields = save_with(save_player(), "scale", "<a>2.5</a><b>7</b>");
    let doc = Document::parse(&format!("<p>{}</p>", save_inner(&save_without(fields, "items"))))
        .unwrap();
    let map = FieldMap::new(&doc, 1);
    assert_eq!(
        Player::from_fields(&map).map(|_| ()),
        Err(save_failure(&[], Cause::MissingField("items".to_string())))
    );
}

#[test]
fn player_scale_without_an_element_is_a_failure() {
    let cases = [
        (save_without(save_player(), "scale"), Cause::MissingField("scale".to_string())),
        (save_with(save_player(), "scale", "1"), Cause::EmptyField("scale".to_string())),
        (save_with(save_player(), "scale", "<v/>"), Cause::EmptyField("scale".to_string())),
        (
            save_with(save_player(), "scale", "<v>big</v>"),
            Cause::InvalidField("scale".to_string(), "big".to_string(), Fault::InvalidNumeral),
        ),
        (
            save_with(save_player(), "timeWentToBed", "<int>-1</int>"),
            Cause::InvalidField(
                "timeWentToBed".to_string(),
                "-1".to_string(),
                Fault::InvalidDigit,
            ),
        ),
    ];
    for (player, cause) in cases {
        let fields = save_with(save_game(), "player", &save_inner(&player));
        assert_eq!(
            load(&save_document(&fields)).map(|_| ()),
            Err(save_failure(&["player"], cause))
        );
    }
}

#[test]
fn from_document_decodes_the_root_element() {
    let doc = Document::parse("<!-- save --><Color><R>9</R><G>8</G><B>7</B><A>6</A><PackedValue>5</PackedValue></Color>").unwrap();
    assert_eq!(
        from_document::<Color>(&doc),
        Ok(Color { r: 9, g: 8, b: 7, a: 6, packed_value: 5 })
    );
    let empty = Document { nodes: Vec::new() };
    assert_eq!(from_document::<Color>(&empty), Err(save_failure(&[], Cause::DocumentMalformed)));
}

#[test]
fn position_is_decoded_from_its_two_fields() {
    let doc = Document::parse("<p><Y>2e3</Y><X>-.5</X></p>").unwrap();
    let position = Position::from_fields(&FieldMap::new(&doc, 1)).unwrap();
    assert_eq!(position.x.as_str(), "-.5");
    assert_eq!(position.y.as_str(), "2e3");
    let doc = Document::parse("<p><X>1</X><Y>north</Y></p>").unwrap();
    assert_eq!(
        Position::from_fields(&FieldMap::new(&doc, 1)),
        Err(save_failure(
            &[],
            Cause::InvalidField("Y".to_string(), "north".to_string(), Fault::InvalidNumeral)
        ))
    );
}

#[test]
fn clothing_item_is_decoded_from_its_fields() {
    let doc = Document::parse(&format!("<c>{}</c>", save_clothing())).unwrap();
    let item = ClothingItem::from_fields(&FieldMap::new(&doc, 1)).unwrap();
    assert!(item.is_lost_item);
    assert_eq!(item.name, "text");
    assert_eq!(item.name2, "text");
    assert_eq!(item.index_in_tile_sheet_female, 3i64);
    assert_eq!(item.clothes_color, Color { r: 1, g: 2, b: 3, a: 255, packed_value: 4278387201 });
}

#[test]
fn item_takes_any_declared_kind() {
    let doc = Document::parse(&format!("<i>{}</i>", save_inner(&save_item()))).unwrap();
    let map = FieldMap::new(&doc, 1);
    let plain = Item::from_variant(None, &map).unwrap();
    let tool = Item::from_variant(Some("Tool"), &map).unwrap();
    assert_eq!(plain, tool);
    assert_eq!(plain.category, 3i64);
    assert_eq!(plain.stack, 3u64);
    assert_eq!(plain.display_name, "text");
}

#[test]
fn defaults_are_zero() {
    assert_eq!(Color::default(), Color { r: 0, g: 0, b: 0, a: 0, packed_value: 0 });
    assert_eq!(Position::default().x.as_str(), "0");
    assert_eq!(Position::default().y.as_str(), "0");
}

#[test]
fn save_game_is_decoded_from_fields_in_any_order() {
    let mut fields = save_game();
    fields.reverse();
    let doc = Document::parse(&save_document(&fields)).unwrap();
    let root = doc.root_element().unwrap();
    let save = SaveGame::from_fields(&FieldMap::new(&doc, root)).unwrap();
    assert_eq!(save.year, 3u32);
    assert_eq!(save.player.items.len(), 2);
}
