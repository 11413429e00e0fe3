use dink::fields::ExtraFields;
use dink::notification::{Notification, NotificationType};

fn notification(kind: NotificationType, content: &str, extra: ExtraFields) -> Notification {
    Notification {
        content: content.to_string(),
        extra,
        notification_type: kind,
        player_name: "PlayerName".to_string(),
        account_type: "NORMAL".to_string(),
        seasonal_world: "false".to_string(),
        dink_account_hash: "test_hash".to_string(),
    }
}

fn fields(pairs: &[(&str, &str)]) -> ExtraFields {
    let mut extra = ExtraFields::new();
    for (k, v) in pairs {
        extra.insert(k.to_string(), v.to_string());
    }
    extra
}

#[test]
fn test_death_notification_message() {
    let mut extra = ExtraFields::new();
    extra.insert("valueLost".to_string(), "500".to_string());
    extra.insert("isPvp".to_string(), "false".to_string());
    extra.insert("killerName".to_string(), "Giant Spider".to_string());

    let notification = Notification {
        content: "PlayerName has died...".to_string(),
        extra,
        notification_type: NotificationType::Death,
        player_name: "PlayerName".to_string(),
        account_type: "NORMAL".to_string(),
        seasonal_world: "false".to_string(),
        dink_account_hash: "test_hash".to_string(),
    };

    let message = notification.message();
    assert_eq!(message, "PlayerName died, lost 500 gp");
}

#[test]
fn test_death_pvp_notification_message() {
    let mut extra = ExtraFields::new();
    extra.insert("valueLost".to_string(), "1000".to_string());
    extra.insert("isPvp".to_string(), "true".to_string());
    extra.insert("killerName".to_string(), "PKerName".to_string());

    let notification = Notification {
        content: "PlayerName has just been PKed by PKerName for 1000 gp...".to_string(),
        extra,
        notification_type: NotificationType::Death,
        player_name: "PlayerName".to_string(),
        account_type: "NORMAL".to_string(),
        seasonal_world: "false".to_string(),
        dink_account_hash: "test_hash".to_string(),
    };

    let message = notification.message();
    assert_eq!(message, "PlayerName died in PvP, lost 1000 gp");
}

#[test]
fn test_collection_notification_message() {
    let mut extra = ExtraFields::new();
    extra.insert("itemName".to_string(), "Zamorak chaps".to_string());
    extra.insert("itemId".to_string(), "10372".to_string());
    extra.insert("price".to_string(), "500812".to_string());
    extra.insert("completedEntries".to_string(), "420".to_string());
    extra.insert("totalEntries".to_string(), "1443".to_string());
    extra.insert("currentRank".to_string(), "IRON".to_string());

    let notification = Notification {
        content: "PlayerName has added Zamorak chaps to their collection".to_string(),
        extra,
        notification_type: NotificationType::Collection,
        player_name: "PlayerName".to_string(),
        account_type: "NORMAL".to_string(),
        seasonal_world: "false".to_string(),
        dink_account_hash: "test_hash".to_string(),
    };

    let message = notification.message();
    assert_eq!(
        message,
        "PlayerName added Zamorak chaps to collection (500812 gp)"
    );
}

#[test]
fn test_loot_valuable_drop_notification_message() {
    let mut extra = ExtraFields::new();
    extra.insert("source".to_string(), "Tombs of Amascut".to_string());
    extra.insert(
        "items".to_string(),
        "Tumeken's shadow, Osmumten's fang, Lightbearer".to_string(),
    );
    extra.insert("category".to_string(), "EVENT".to_string());
    extra.insert("killCount".to_string(), "60".to_string());
    extra.insert("rarestProbability".to_string(), "0.001".to_string());

    let notification = Notification {
        content: "PlayerName has looted: Tumeken's shadow, Osmumten's fang, Lightbearer\nFrom: Tombs of Amascut".to_string(),
        extra,
        notification_type: NotificationType::Loot,
        player_name: "PlayerName".to_string(),
        account_type: "NORMAL".to_string(),
        seasonal_world: "false".to_string(),
        dink_account_hash: "test_hash".to_string(),
    };

    let message = notification.message();
    assert_eq!(message, "PlayerName looted 3 items from Tombs of Amascut");
}

#[test]
fn test_loot_single_item_notification_message() {
    let mut extra = ExtraFields::new();
    extra.insert("source".to_string(), "Giant Mole".to_string());
    extra.insert("items".to_string(), "Mole skin".to_string());
    extra.insert("category".to_string(), "NPC".to_string());
    extra.insert("npcId".to_string(), "3340".to_string());

    let notification = Notification {
        content: "PlayerName has looted: Mole skin\nFrom: Giant Mole".to_string(),
        extra,
        notification_type: NotificationType::Loot,
        player_name: "PlayerName".to_string(),
        account_type: "NORMAL".to_string(),
        seasonal_world: "false".to_string(),
        dink_account_hash: "test_hash".to_string(),
    };

    let message = notification.message();
    assert_eq!(message, "PlayerName looted 1 items from Giant Mole");
}

#[test]
fn test_notification_with_missing_extra_data() {
    let extra = ExtraFields::new();

    let notification = Notification {
        content: "PlayerName has died...".to_string(),
        extra,
        notification_type: NotificationType::Death,
        player_name: "PlayerName".to_string(),
        account_type: "NORMAL".to_string(),
        seasonal_world: "false".to_string(),
        dink_account_hash: "test_hash".to_string(),
    };

    let message = notification.message();
    assert_eq!(message, "PlayerName died, lost 0 gp");
}

fn message_of(kind: NotificationType, pairs: &[(&str, &str)]) -> String {
    notification(kind, "", fields(pairs)).message()
}

#[test]
fn level_with_skills_trims_and_joins() {
    let m = message_of(
        NotificationType::Level,
        &[("levelledSkills", " Attack ,Strength,  Defence ")],
    );
    assert_eq!(m, "PlayerName leveled up: Attack, Strength, Defence");
}

#[test]
fn level_without_skills() {
    assert_eq!(
        message_of(NotificationType::Level, &[]),
        "PlayerName leveled up"
    );
}

#[test]
fn level_with_empty_skills_still_lists_them() {
    assert_eq!(
        message_of(NotificationType::Level, &[("levelledSkills", "")]),
        "PlayerName leveled up: "
    );
}

#[test]
fn xp_milestone_messages() {
    assert_eq!(
        message_of(
            NotificationType::XpMilestone,
            &[("milestoneAchieved", "Attack,\tSlayer")]
        ),
        "PlayerName hit XP milestone in Attack, Slayer"
    );
    assert_eq!(
        message_of(NotificationType::XpMilestone, &[]),
        "PlayerName hit XP milestone in skills"
    );
}

#[test]
fn loot_without_items_counts_one() {
    assert_eq!(
        message_of(NotificationType::Loot, &[]),
        "PlayerName looted 1 items from Unknown source"
    );
}

#[test]
fn loot_counts_every_comma_piece() {
    let items = vec!["x"; 12].join(",");
    assert_eq!(
        message_of(NotificationType::Loot, &[("items", &items), ("source", "Zulrah")]),
        "PlayerName looted 12 items from Zulrah"
    );
    assert_eq!(
        message_of(NotificationType::Loot, &[("items", ""), ("source", "Zulrah")]),
        "PlayerName looted 1 items from Zulrah"
    );
}

#[test]
fn grand_exchange_takes_first_item() {
    assert_eq!(
        message_of(
            NotificationType::GrandExchange,
            &[("status", "BOUGHT"), ("item", "Abyssal whip,4151")]
        ),
        "PlayerName BOUGHT on GE: Abyssal whip"
    );
    assert_eq!(
        message_of(NotificationType::GrandExchange, &[]),
        "PlayerName Unknown on GE: Unknown item"
    );
}

#[test]
fn messages_of_every_other_kind_with_defaults() {
    let cases: Vec<(NotificationType, &str)> = vec![
        (NotificationType::Collection, "PlayerName added Unknown item to collection (0 gp)"),
        (NotificationType::Slayer, "PlayerName completed Unknown task slayer task (+0 points)"),
        (NotificationType::Quest, "PlayerName completed quest: Unknown quest"),
        (NotificationType::Clue, "PlayerName completed Unknown clue (#0)"),
        (NotificationType::KillCount, "PlayerName defeated Unknown boss (count: 0)"),
        (NotificationType::CombatAchievement, "PlayerName completed Unknown tier combat task: Unknown task"),
        (NotificationType::AchievementDiary, "PlayerName completed Unknown Unknown area diary"),
        (NotificationType::Pet, "PlayerName got pet: Unknown pet"),
        (NotificationType::Speedrun, "PlayerName speedran Unknown quest in Unknown time"),
        (NotificationType::BarbarianAssaultGamble, "PlayerName reached 0 high gambles"),
        (NotificationType::PlayerKill, "PlayerName PK'd Unknown"),
        (NotificationType::GroupStorage, "PlayerName group storage activity (0 gp net)"),
        (NotificationType::Trade, "PlayerName traded with Unknown"),
        (NotificationType::LeaguesArea, "PlayerName selected region: Unknown area"),
        (NotificationType::LeaguesMastery, "PlayerName unlocked Unknown mastery"),
        (NotificationType::LeaguesRelic, "PlayerName unlocked Tier Unknown relic: Unknown relic"),
        (NotificationType::LeaguesTask, "PlayerName completed Unknown task: Unknown task"),
        (NotificationType::Chat, "PlayerName received Unknown message"),
        (NotificationType::ExternalPlugin, "PlayerName external plugin notification from Unknown plugin"),
        (NotificationType::Login, "PlayerName logged into World Unknown"),
        (NotificationType::Logout, "PlayerName logged out"),
        (NotificationType::ToaUnique, "PlayerName rolled purple from TOA (level Unknown)"),
    ];
    for (kind, expected) in cases {
        assert_eq!(message_of(kind, &[]), expected);
    }
}

#[test]
fn messages_of_every_other_kind_with_fields() {
    let cases: Vec<(NotificationType, Vec<(&str, &str)>, &str)> = vec![
        (NotificationType::Slayer, vec![("slayerTask", "Abyssal demons"), ("slayerPoints", "15")], "PlayerName completed Abyssal demons slayer task (+15 points)"),
        (NotificationType::Quest, vec![("questName", "Dragon Slayer I")], "PlayerName completed quest: Dragon Slayer I"),
        (NotificationType::Clue, vec![("clueType", "Elite"), ("numberCompleted", "12")], "PlayerName completed Elite clue (#12)"),
        (NotificationType::KillCount, vec![("boss", "Vorkath"), ("count", "100")], "PlayerName defeated Vorkath (count: 100)"),
        (NotificationType::CombatAchievement, vec![("task", "Peach Conjurer"), ("tier", "MASTER")], "PlayerName completed MASTER combat task: Peach Conjurer"),
        (NotificationType::AchievementDiary, vec![("area", "Varrock"), ("difficulty", "HARD")], "PlayerName completed HARD Varrock diary"),
        (NotificationType::Pet, vec![("petName", "Ikkle hydra")], "PlayerName got pet: Ikkle hydra"),
        (NotificationType::Speedrun, vec![("questName", "Cook's Assistant"), ("currentTime", "1:02.40")], "PlayerName speedran Cook's Assistant in 1:02.40"),
        (NotificationType::BarbarianAssaultGamble, vec![("gambleCount", "500")], "PlayerName reached 500 high gambles"),
        (NotificationType::PlayerKill, vec![("victimName", "Zezima")], "PlayerName PK'd Zezima"),
        (NotificationType::GroupStorage, vec![("groupName", "Iron Squad"), ("netValue", "-25000")], "PlayerName group storage activity (-25000 gp net)"),
        (NotificationType::Trade, vec![("counterparty", "Lynx Titan")], "PlayerName traded with Lynx Titan"),
        (NotificationType::LeaguesArea, vec![("area", "Kandarin")], "PlayerName selected region: Kandarin"),
        (NotificationType::LeaguesMastery, vec![("masteryType", "Melee")], "PlayerName unlocked Melee mastery"),
        (NotificationType::LeaguesRelic, vec![("relic", "Production Prodigy"), ("tier", "1")], "PlayerName unlocked Tier 1 relic: Production Prodigy"),
        (NotificationType::LeaguesTask, vec![("taskName", "Pick a banana"), ("difficulty", "EASY")], "PlayerName completed EASY task: Pick a banana"),
        (NotificationType::Chat, vec![("type", "GAMEMESSAGE")], "PlayerName received GAMEMESSAGE message"),
        (NotificationType::ExternalPlugin, vec![("sourcePlugin", "Tombs Tracker")], "PlayerName external plugin notification from Tombs Tracker"),
        (NotificationType::Login, vec![("world", "302")], "PlayerName logged into World 302"),
        (NotificationType::ToaUnique, vec![("raidLevels", "500")], "PlayerName rolled purple from TOA (level 500)"),
    ];
    for (kind, pairs, expected) in cases {
        assert_eq!(message_of(kind, &pairs), expected);
    }
}

#[test]
fn death_pvp_only_for_exact_true() {
    assert_eq!(
        message_of(NotificationType::Death, &[("isPvp", "TRUE"), ("valueLost", "7")]),
        "PlayerName died, lost 7 gp"
    );
}

#[test]
fn every_message_starts_with_the_player() {
    let kinds = vec![
        NotificationType::Death,
        NotificationType::Level,
        NotificationType::Loot,
        NotificationType::GrandExchange,
        NotificationType::Logout,
    ];
    for kind in kinds {
        let mut n = notification(kind, "", ExtraFields::new());
        n.player_name = "Lynx Titan".to_string();
        assert!(n.message().starts_with("Lynx Titan "));
    }
}

#[test]
fn message_ignores_content_account_and_hash() {
    let mut a = notification(NotificationType::Quest, "one", fields(&[("questName", "X")]));
    let b = a.clone();
    a.content = "something else".to_string();
    a.account_type = "IRONMAN".to_string();
    a.seasonal_world = "true".to_string();
    a.dink_account_hash = "other".to_string();
    assert_eq!(a.message(), b.message());
}
