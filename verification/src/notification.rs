//! Dink notifications and the one-line summary of each.

use vstd::prelude::*;

use crate::api::{digits_value, is_digit};
use crate::fields::ExtraFields;
use crate::text::{
    decimal, join, join_strings, lemma_decimal_reads_back, lemma_first_piece, lemma_split_count, lemma_split_nonempty, push_decimal,
    occurrences, split_and_trim, split_on, split_pieces, split_trimmed, trim,
};

verus! {

/// The kinds of notification that the Dink plugin sends.
#[derive(Debug, Clone, PartialEq, Eq, Structural)]
pub enum NotificationType {
    Death,
    Collection,
    Level,
    XpMilestone,
    Loot,
    Slayer,
    Quest,
    Clue,
    KillCount,
    CombatAchievement,
    AchievementDiary,
    Pet,
    Speedrun,
    BarbarianAssaultGamble,
    PlayerKill,
    GroupStorage,
    GrandExchange,
    Trade,
    LeaguesArea,
    LeaguesMastery,
    LeaguesRelic,
    LeaguesTask,
    Chat,
    ExternalPlugin,
    Login,
    Logout,
    ToaUnique,
}

/// One notification as the Dink plugin sends it.
#[derive(Debug, Clone, PartialEq)]
pub struct Notification {
    pub content: String,
    pub extra: ExtraFields,
    pub notification_type: NotificationType,
    pub player_name: String,
    pub account_type: String,
    pub seasonal_world: String,
    pub dink_account_hash: String,
}

/// The text of field `key`, or `default` where there is no such field.
pub open spec fn text_or(
    extra: Map<Seq<char>, Seq<char>>,
    key: Seq<char>,
    default: Seq<char>,
) -> Seq<char> {
    if extra.dom().contains(key) {
        extra[key]
    } else {
        default
    }
}

/// The summary of a notification of kind `kind` from player `p` with fields
/// `extra`.
pub open spec fn summary(
    kind: NotificationType,
    p: Seq<char>,
    extra: Map<Seq<char>, Seq<char>>,
) -> Seq<char> {
    match kind {
        NotificationType::Death => {
            let lost = text_or(extra, "valueLost"@, "0"@);
            if text_or(extra, "isPvp"@, "false"@) == "true"@ {
                p + " died in PvP, lost "@ + lost + " gp"@
            } else {
                p + " died, lost "@ + lost + " gp"@
            }
        },
        NotificationType::Collection => p + " added "@ + text_or(extra, "itemName"@, "Unknown item"@)
            + " to collection ("@ + text_or(extra, "price"@, "0"@) + " gp)"@,
        NotificationType::Level => {
            if extra.dom().contains("levelledSkills"@) {
                p + " leveled up: "@ + join(split_trimmed(extra["levelledSkills"@], ','), ", "@)
            } else {
                p + " leveled up"@
            }
        },
        NotificationType::XpMilestone => {
            let milestone = if extra.dom().contains("milestoneAchieved"@) {
                join(split_trimmed(extra["milestoneAchieved"@], ','), ", "@)
            } else {
                "skills"@
            };
            p + " hit XP milestone in "@ + milestone
        },
        NotificationType::Loot => {
            let count: nat = if extra.dom().contains("items"@) {
                split_on(extra["items"@], ',').len()
            } else {
                1
            };
            p + " looted "@ + decimal(count) + " items from "@ + text_or(
                extra,
                "source"@,
                "Unknown source"@,
            )
        },
        NotificationType::Slayer => p + " completed "@ + text_or(
            extra,
            "slayerTask"@,
            "Unknown task"@,
        ) + " slayer task (+"@ + text_or(extra, "slayerPoints"@, "0"@) + " points)"@,
        NotificationType::Quest => p + " completed quest: "@ + text_or(
            extra,
            "questName"@,
            "Unknown quest"@,
        ),
        NotificationType::Clue => p + " completed "@ + text_or(extra, "clueType"@, "Unknown"@)
            + " clue (#"@ + text_or(extra, "numberCompleted"@, "0"@) + ")"@,
        NotificationType::KillCount => p + " defeated "@ + text_or(extra, "boss"@, "Unknown boss"@)
            + " (count: "@ + text_or(extra, "count"@, "0"@) + ")"@,
        NotificationType::CombatAchievement => p + " completed "@ + text_or(
            extra,
            "tier"@,
            "Unknown tier"@,
        ) + " combat task: "@ + text_or(extra, "task"@, "Unknown task"@),
        NotificationType::AchievementDiary => p + " completed "@ + text_or(
            extra,
            "difficulty"@,
            "Unknown"@,
        ) + " "@ + text_or(extra, "area"@, "Unknown area"@) + " diary"@,
        NotificationType::Pet => p + " got pet: "@ + text_or(extra, "petName"@, "Unknown pet"@),
        NotificationType::Speedrun => p + " speedran "@ + text_or(
            extra,
            "questName"@,
            "Unknown quest"@,
        ) + " in "@ + text_or(extra, "currentTime"@, "Unknown time"@),
        NotificationType::BarbarianAssaultGamble => p + " reached "@ + text_or(
            extra,
            "gambleCount"@,
            "0"@,
        ) + " high gambles"@,
        NotificationType::PlayerKill => p + " PK'd "@ + text_or(extra, "victimName"@, "Unknown"@),
        NotificationType::GroupStorage => p + " group storage activity ("@ + text_or(
            extra,
            "netValue"@,
            "0"@,
        ) + " gp net)"@,
        NotificationType::GrandExchange => {
            let item = if extra.dom().contains("item"@) {
                split_on(extra["item"@], ',')[0]
            } else {
                "Unknown item"@
            };
            p + " "@ + text_or(extra, "status"@, "Unknown"@) + " on GE: "@ + item
        },
        NotificationType::Trade => p + " traded with "@ + text_or(
            extra,
            "counterparty"@,
            "Unknown"@,
        ),
        NotificationType::LeaguesArea => p + " selected region: "@ + text_or(
            extra,
            "area"@,
            "Unknown area"@,
        ),
        NotificationType::LeaguesMastery => p + " unlocked "@ + text_or(
            extra,
            "masteryType"@,
            "Unknown"@,
        ) + " mastery"@,
        NotificationType::LeaguesRelic => p + " unlocked Tier "@ + text_or(
            extra,
            "tier"@,
            "Unknown"@,
        ) + " relic: "@ + text_or(extra, "relic"@, "Unknown relic"@),
        NotificationType::LeaguesTask => p + " completed "@ + text_or(
            extra,
            "difficulty"@,
            "Unknown"@,
        ) + " task: "@ + text_or(extra, "taskName"@, "Unknown task"@),
        NotificationType::Chat => p + " received "@ + text_or(extra, "type"@, "Unknown"@)
            + " message"@,
        NotificationType::ExternalPlugin => p + " external plugin notification from "@ + text_or(
            extra,
            "sourcePlugin"@,
            "Unknown plugin"@,
        ),
        NotificationType::Login => p + " logged into World "@ + text_or(
            extra,
            "world"@,
            "Unknown"@,
        ),
        NotificationType::Logout => p + " logged out"@,
        NotificationType::ToaUnique => p + " rolled purple from TOA (level "@ + text_or(
            extra,
            "raidLevels"@,
            "Unknown"@,
        ) + ")"@,
    }
}

/// The text of field `key` of `extra`, or `default`.
fn field_or<'a>(extra: &'a ExtraFields, key: &str, default: &'a str) -> (r: &'a str)
    ensures
        r@ == text_or(extra@, key@, default@),
{
    match extra.get(key) {
        Some(v) => v.as_str(),
        None => default,
    }
}

impl Notification {
    /// A short message summarizing the notification.
    pub fn message(&self) -> (r: String)
        ensures
            r@ == summary(self.notification_type, self.player_name@, self.extra@),
    {
        let p = &self.player_name;
        let extra = &self.extra;
        let mut m = p.clone();
        match &self.notification_type {
            NotificationType::Death => {
                let value_lost = field_or(extra, "valueLost", "0");
                let is_pvp = field_or(extra, "isPvp", "false").to_owned();
                if is_pvp == "true".to_owned() {
                    m.append(" died in PvP, lost ");
                } else {
                    m.append(" died, lost ");
                }
                m.append(value_lost);
                m.append(" gp");
            },
            NotificationType::Collection => {
                let item_name = field_or(extra, "itemName", "Unknown item");
                let price = field_or(extra, "price", "0");
                m.append(" added ");
                m.append(item_name);
                m.append(" to collection (");
                m.append(price);
                m.append(" gp)");
            },
            NotificationType::Level => {
                let skills: Vec<String> = match extra.get("levelledSkills") {
                    Some(s) => {
                        proof {
                            lemma_split_nonempty(s@, ',');
                        }
                        split_and_trim(s.as_str(), ',')
                    },
                    None => Vec::new(),
                };
                if skills.len() == 0 {
                    m.append(" leveled up");
                } else {
                    let joined = join_strings(&skills, ", ");
                    m.append(" leveled up: ");
                    m.append(joined.as_str());
                }
            },
            NotificationType::XpMilestone => {
                let milestone = match extra.get("milestoneAchieved") {
                    Some(s) => {
                        let parts = split_and_trim(s.as_str(), ',');
                        join_strings(&parts, ", ")
                    },
                    None => "skills".to_owned(),
                };
                m.append(" hit XP milestone in ");
                m.append(milestone.as_str());
            },
            NotificationType::Loot => {
                let source = field_or(extra, "source", "Unknown source");
                let items_count: usize = match extra.get("items") {
                    Some(s) => split_pieces(s.as_str(), ',').len(),
                    None => 1,
                };
                m.append(" looted ");
                push_decimal(&mut m, items_count);
                m.append(" items from ");
                m.append(source);
            },
            NotificationType::Slayer => {
                let task = field_or(extra, "slayerTask", "Unknown task");
                let points = field_or(extra, "slayerPoints", "0");
                m.append(" completed ");
                m.append(task);
                m.append(" slayer task (+");
                m.append(points);
                m.append(" points)");
            },
            NotificationType::Quest => {
                let quest = field_or(extra, "questName", "Unknown quest");
                m.append(" completed quest: ");
                m.append(quest);
            },
            NotificationType::Clue => {
                let clue_type = field_or(extra, "clueType", "Unknown");
                let count = field_or(extra, "numberCompleted", "0");
                m.append(" completed ");
                m.append(clue_type);
                m.append(" clue (#");
                m.append(count);
                m.append(")");
            },
            NotificationType::KillCount => {
                let boss = field_or(extra, "boss", "Unknown boss");
                let count = field_or(extra, "count", "0");
                m.append(" defeated ");
                m.append(boss);
                m.append(" (count: ");
                m.append(count);
                m.append(")");
            },
            NotificationType::CombatAchievement => {
                let task = field_or(extra, "task", "Unknown task");
                let tier = field_or(extra, "tier", "Unknown tier");
                m.append(" completed ");
                m.append(tier);
                m.append(" combat task: ");
                m.append(task);
            },
            NotificationType::AchievementDiary => {
                let area = field_or(extra, "area", "Unknown area");
                let difficulty = field_or(extra, "difficulty", "Unknown");
                m.append(" completed ");
                m.append(difficulty);
                m.append(" ");
                m.append(area);
                m.append(" diary");
            },
            NotificationType::Pet => {
                let pet_name = field_or(extra, "petName", "Unknown pet");
                m.append(" got pet: ");
                m.append(pet_name);
            },
            NotificationType::Speedrun => {
                let quest = field_or(extra, "questName", "Unknown quest");
                let time = field_or(extra, "currentTime", "Unknown time");
                m.append(" speedran ");
                m.append(quest);
                m.append(" in ");
                m.append(time);
            },
            NotificationType::BarbarianAssaultGamble => {
                let count = field_or(extra, "gambleCount", "0");
                m.append(" reached ");
                m.append(count);
                m.append(" high gambles");
            },
            NotificationType::PlayerKill => {
                let victim = field_or(extra, "victimName", "Unknown");
                m.append(" PK'd ");
                m.append(victim);
            },
            NotificationType::GroupStorage => {
                let net_value = field_or(extra, "netValue", "0");
                m.append(" group storage activity (");
                m.append(net_value);
                m.append(" gp net)");
            },
            NotificationType::GrandExchange => {
                let status = field_or(extra, "status", "Unknown");
                let item_name = match extra.get("item") {
                    Some(s) => {
                        proof {
                            lemma_split_nonempty(s@, ',');
                        }
                        let pieces = split_pieces(s.as_str(), ',');
                        pieces[0].clone()
                    },
                    None => "Unknown item".to_owned(),
                };
                m.append(" ");
                m.append(status);
                m.append(" on GE: ");
                m.append(item_name.as_str());
            },
            NotificationType::Trade => {
                let counterparty = field_or(extra, "counterparty", "Unknown");
                m.append(" traded with ");
                m.append(counterparty);
            },
            NotificationType::LeaguesArea => {
                let area = field_or(extra, "area", "Unknown area");
                m.append(" selected region: ");
                m.append(area);
            },
            NotificationType::LeaguesMastery => {
                let mastery = field_or(extra, "masteryType", "Unknown");
                m.append(" unlocked ");
                m.append(mastery);
                m.append(" mastery");
            },
            NotificationType::LeaguesRelic => {
                let relic = field_or(extra, "relic", "Unknown relic");
                let tier = field_or(extra, "tier", "Unknown");
                m.append(" unlocked Tier ");
                m.append(tier);
                m.append(" relic: ");
                m.append(relic);
            },
            NotificationType::LeaguesTask => {
                let task = field_or(extra, "taskName", "Unknown task");
                let difficulty = field_or(extra, "difficulty", "Unknown");
                m.append(" completed ");
                m.append(difficulty);
                m.append(" task: ");
                m.append(task);
            },
            NotificationType::Chat => {
                let message_type = field_or(extra, "type", "Unknown");
                m.append(" received ");
                m.append(message_type);
                m.append(" message");
            },
            NotificationType::ExternalPlugin => {
                let plugin = field_or(extra, "sourcePlugin", "Unknown plugin");
                m.append(" external plugin notification from ");
                m.append(plugin);
            },
            NotificationType::Login => {
                let world = field_or(extra, "world", "Unknown");
                m.append(" logged into World ");
                m.append(world);
            },
            NotificationType::Logout => {
                m.append(" logged out");
            },
            NotificationType::ToaUnique => {
                let raid_level = field_or(extra, "raidLevels", "Unknown");
                m.append(" rolled purple from TOA (level ");
                m.append(raid_level);
                m.append(")");
            },
        }
        m
    }
}

/// Appending keeps every prefix of the left part.
pub broadcast proof fn lemma_add_keeps_prefix(x: Seq<char>, y: Seq<char>, k: int)
    requires
        0 <= k <= x.len(),
    ensures
        #[trigger] (x + y).subrange(0, k) == x.subrange(0, k),
{
    assert((x + y).subrange(0, k) =~= x.subrange(0, k));
}

/// Every summary begins with the name of the player it is about.
pub proof fn lemma_summary_starts_with_player(
    kind: NotificationType,
    p: Seq<char>,
    extra: Map<Seq<char>, Seq<char>>,
)
    ensures
        p.is_prefix_of(summary(kind, p, extra)),
{
    broadcast use lemma_add_keeps_prefix;

    let m = summary(kind, p, extra);
    assert(p.subrange(0, p.len() as int) =~= p);
    assert(m.len() >= p.len());
    assert(m.subrange(0, p.len() as int) == p);
}

/// The message of a notification depends on its kind, its player and its
/// extra fields alone: content, account type, seasonal world and account
/// hash play no part in it.
pub proof fn lemma_summary_ignores_other_fields(a: Notification, b: Notification)
    requires
        a.notification_type == b.notification_type,
        a.player_name@ == b.player_name@,
        a.extra@ == b.extra@,
    ensures
        summary(a.notification_type, a.player_name@, a.extra@) == summary(
            b.notification_type,
            b.player_name@,
            b.extra@,
        ),
{
}

/// An XP milestone names the skill in its `milestoneAchieved` field: where
/// that field holds no comma, the message ends with the field's text, trimmed
/// of surrounding white space; only where the field is absent does it say
/// `skills`.
pub proof fn lemma_xp_milestone_names_skill(p: Seq<char>, extra: Map<Seq<char>, Seq<char>>)
    ensures
        extra.dom().contains("milestoneAchieved"@) && (forall|i: int|
            0 <= i < extra["milestoneAchieved"@].len() ==> #[trigger] extra["milestoneAchieved"@][i]
                != ',') ==> summary(NotificationType::XpMilestone, p, extra) == p
            + " hit XP milestone in "@ + trim(extra["milestoneAchieved"@]),
        !extra.dom().contains("milestoneAchieved"@) ==> summary(
            NotificationType::XpMilestone,
            p,
            extra,
        ) == p + " hit XP milestone in "@ + "skills"@,
{
    if extra.dom().contains("milestoneAchieved"@) {
        let s = extra["milestoneAchieved"@];
        if forall|i: int| 0 <= i < s.len() ==> #[trigger] s[i] != ',' {
            let k = lemma_first_piece(s, ',');
            lemma_split_nonempty(s, ',');
            assert(k == s.len());
            assert(s.take(k) =~= s);
            let pieces = split_on(s, ',');
            assert(pieces =~= seq![s]);
            assert(split_trimmed(s, ',') =~= seq![trim(s)]);
        }
    }
}

/// A Grand Exchange message ends with the item: the text of the `item` field
/// up to its first comma, or all of it where it has none; `Unknown item`
/// stands there only where the field is absent.
pub proof fn lemma_grand_exchange_names_item(p: Seq<char>, extra: Map<Seq<char>, Seq<char>>)
    ensures
        extra.dom().contains("item"@) ==> exists|k: int|
            {
                &&& 0 <= k <= extra["item"@].len()
                &&& forall|i: int| 0 <= i < k ==> #[trigger] extra["item"@][i] != ','
                &&& k < extra["item"@].len() ==> extra["item"@][k] == ','
                &&& summary(NotificationType::GrandExchange, p, extra) == p + " "@ + text_or(
                    extra,
                    "status"@,
                    "Unknown"@,
                ) + " on GE: "@ + #[trigger] extra["item"@].take(k)
            },
        !extra.dom().contains("item"@) ==> summary(NotificationType::GrandExchange, p, extra) == p
            + " "@ + text_or(extra, "status"@, "Unknown"@) + " on GE: "@ + "Unknown item"@,
{
    if extra.dom().contains("item"@) {
        let k = lemma_first_piece(extra["item"@], ',');
        assert(summary(NotificationType::GrandExchange, p, extra) == p + " "@ + text_or(
            extra,
            "status"@,
            "Unknown"@,
        ) + " on GE: "@ + extra["item"@].take(k));
    }
}

/// A loot message counts the items: the number it shows, written in the
/// digits `0` to `9` without leading zeros, is one more than the commas in the
/// `items` field, and one where that field is absent.
pub proof fn lemma_loot_counts_items(p: Seq<char>, extra: Map<Seq<char>, Seq<char>>)
    ensures
        exists|digits: Seq<char>|
            {
                &&& digits.len() > 0
                &&& forall|i: int| 0 <= i < digits.len() ==> is_digit(#[trigger] digits[i])
                &&& (digits[0] == '0' ==> digits.len() == 1)
                &&& #[trigger] digits_value(digits) == if extra.dom().contains("items"@) {
                    occurrences(extra["items"@], ',') + 1
                } else {
                    1
                }
                &&& summary(NotificationType::Loot, p, extra) == p + " looted "@ + digits
                    + " items from "@ + text_or(extra, "source"@, "Unknown source"@)
            },
{
    let count: nat = if extra.dom().contains("items"@) {
        lemma_split_count(extra["items"@], ',');
        split_on(extra["items"@], ',').len()
    } else {
        1
    };
    lemma_decimal_reads_back(count);
    let digits = decimal(count);
    if digits[0] == '0' {
        if count > 0 {
            assert(false);
        }
        assert(digits.len() == 1);
    }
    assert(digits_value(digits) == count);
}

} // verus!
