//! Extra effects an item gives, read from the codex page of the item.

use vstd::prelude::*;

use crate::error::{
    fails_with, html_error, int_outcome, read_i16, read_i8, read_int, read_u16, read_u8, Error,
    Failure,
};
use crate::num::{digit_value, is_digit, parse_u16, spec_dec, spec_int_text};
use crate::text::{
    concat3, find_char, find_char_index, is_ascii_char, seq_ends_with, spec_trim_start_char, str_eq,
    strip_suffix, trim_start_matches,
};

verus! {

/// Extra effects an item gives.
#[derive(Debug, Clone, PartialEq, Eq, Structural)]
pub enum Affix {
    /// The XP bonus of the item (at common quality).
    ExpBonus(i16),
    /// The gold bonus of the item (at common quality).
    GoldBonus(u8),
    /// The orn bonus of the item (at common quality).
    OrnBonus(u8),
    /// The luck bonus of the item (at common quality).
    LuckBonus(u16),
    /// How much View Distance the item gives (%).
    ViewDistance(u8),
    /// How much stats to the follower the item gives (%).
    FollowerAct(i8),
    /// How much stats to the follower the item gives (%).
    FollowerStats(i8),
    /// How much stats to the summons the item gives (%).
    SummonStats(i8),
    /// How much Monster Attraction the item gives (%).
    MonsterAttraction(u8),
    /// The number of Ward turn at the start of the battle the item grants.
    WardStart(u8),
    /// How much Status Reflection the item gives (%).
    StatusReflection(u8),
    /// How much Beast Taming the item gives (%).
    BeastTaming(u8),
    /// How much Monster Power the item gives (%).
    MonsterPower(u8),
    /// How much Monster Encounters the item gives (%).
    MonsterEncounters(u8),
    /// How much Damage to Ward the item gives (%).
    DamageToWard(u8),
    /// How much Gifts the item gives (%).
    Gifts(u8),
    /// How much Apex the item gives (%).
    Apex(u8),
    /// How much Apex Rate the item gives (%).
    ApexRate(u8),
    /// How much Apex Start the item gives (%).
    ApexStart(u8),
    /// How much Manaflask Charge the item gives (%).
    ManaflaskCharge(u8),
    /// How much Multi-target Damage the item gives (%).
    MultitargetDamage(u8),
    /// How much Chain Damage Chance the item gives (%).
    ChainDamageChance(u8),
    /// How much Buff Duration the item gives (%).
    BuffDuration(u8),
    /// How much Ally Effect Chance the item gives (%).
    AllyEffectChance(u8),
    /// How much Effect Damage the item gives (%).
    EffectDamage(u8),
    /// How much Assassin the item gives (%).
    Assassin(u8),
    /// How much Defend Power the item gives (%).
    DefendPower(u8),
    /// How much Self Damage Reduction the item gives (%).
    ///
    /// Although a reduction, a lower value means more reduction.
    SelfDamageReduction(i8),
    /// How much Collateral Chance the item gives (%).
    CollateralChance(u8),
    /// How much Collateral Damage the item gives (%).
    CollateralDamage(u8),
    /// How much Status Protection the item gives.
    StatusProtection(u8),
    /// How much Def/Res Penetration the item gives (%).
    DefresPenetration(u8),
    /// How much HP Regen the item gives (%).
    HpRegen(u8),
    /// How much Healing the item gives (%).
    Healing(u8),
    /// How much Accuracy the item gives (%).
    Accuracy(u8),
    /// How much Avidity the item gives (tenth of %).
    Avidity(u16),
    /// How much Bestial Bond the item gives (%).
    BestialBond(u8),
    /// How much Critical Chain the item gives (%).
    CriticalChain(u8),
    /// How much Crit Damage the item gives (%).
    CritDamage(i8),
    /// How much Double Handed the item gives (%).
    DoubleHanded(u8),
    /// How much Mana-Ward Recovery the item gives (%).
    ManaWardRecovery(u8),
    /// How much HP-Ward Recovery the item gives (%).
    HpWardRecovery(u8),
    /// How much Summon Pacts the item gives (%).
    SummonPacts(u8),
    /// How much Summon Protection the item gives (%).
    SummonProtection(u8),
    /// How much Mana Reduction the item gives (%).
    ManaReduction(i8),
    /// How much Hybrid Damage the item gives (%).
    HybridDamage(u8),
    /// How much Life Siphon the item gives (%).
    LifeSiphon(u8),
    /// How much Debuff Fade the item gives (%).
    DebuffFade(u8),
    /// How much Faction Damage the item gives (%).
    FactionDamage(u8),
    /// How much Earthen Damage the item gives (%).
    EarthenDamage(i8),
    /// How much Water Damage the item gives (%).
    WaterDamage(i8),
    /// How much Lightning Damage the item gives (%).
    LightningDamage(i8),
    /// How much Fire Damage the item gives (%).
    FireDamage(i8),
    /// How much Arcane Damage the item gives (%).
    ArcaneDamage(i8),
    /// How much Dragon Damage the item gives (%).
    DragonDamage(i8),
    /// How much Dark Damage the item gives (%).
    DarkDamage(i8),
    /// How much Holy Damage the item gives (%).
    HolyDamage(i8),
    /// How much Parapet the item gives (%).
    Parapet(u8),
    /// How much Area Defense the item gives (%).
    AreaDefense(u8),
    /// How much Godforge the item gives (%).
    Godforge(u8),
    /// How much Raid Rewards the item gives (%).
    RaidRewards(u8),
    /// How much Blacksmith Time the item gives (%).
    BlacksmithTime(i8),
    /// How much Line Catches the item gives (%).
    LineCatches(u8),
    /// How much Ult Defense the item gives (%).
    UltDefense(u8),
    /// How much Damage Limit Break the item gives (%).
    DamageLimitBreak(u8),
    /// How much Follower/Summon AI the item gives (%).
    FollowerSummonAI(u8),
    /// How much Ward Power the item gives (%).
    WardPower(u8),
    /// How much Elemental Weaknesses the item gives (%).
    ElementalWeaknesses(u8),
    /// How much Weapon Proficiency the item gives (%).
    WeaponProficiency(u8),
    /// How much No Follower Bonus the item gives (%).
    NoFollowerBonus(u8),
    /// How much Ward Absorption the item gives (%).
    WardAbsorption(u8),
    /// How much Instant Summon the item gives (%).
    InstantSummon(u8),
    /// How many Ward Turns the item gives.
    WardTurns(u8),
    /// How much Mana Regen the item gives (tenth of %).
    ManaRegen(u16),
    /// How much Quest Rewards the item gives (%).
    QuestRewards(u8),
    /// How much Ward Recovery the item gives (%).
    WardRecovery(u8),
    /// How much Turn Reduction the item gives (%).
    TurnReduction(u8),
    /// How much Debuff Duration the item gives (%).
    DebuffDuration(u8),
    /// How much Questing the item gives (%).
    Questing(u8),
    /// How much Dark Res the item gives (%).
    ///
    /// Although a resistance, a lower value means more resistance.
    DarkRes(i8),
    /// How much Holy Res the item gives (%).
    ///
    /// Although a resistance, a lower value means more resistance.
    HolyRes(i8),
    /// How many Summon Turns the item gives.
    SummonTurns(i8),
    /// How much Drop Quality the item gives (%).
    DropQuality(u8),
    /// How much Memory Hunting the item gives (%).
    MemoryHunting(u8),
    /// How much Dungeon Cooldown the item gives (%).
    DungeonCooldown(i8),
}

/// Which affix a stat label names.
#[derive(Debug, Clone, Copy, PartialEq, Eq, Structural)]
pub enum AffixKind {
    ExpBonus,
    GoldBonus,
    LuckBonus,
    OrnBonus,
    BlacksmithTime,
    DropQuality,
    DungeonCooldown,
    Gifts,
    Godforge,
    LineCatches,
    MemoryHunting,
    MonsterAttraction,
    MonsterEncounters,
    MonsterPower,
    Questing,
    QuestRewards,
    RaidRewards,
    ArcaneDamage,
    DarkDamage,
    DragonDamage,
    EarthenDamage,
    FireDamage,
    HolyDamage,
    LightningDamage,
    WaterDamage,
    DarkRes,
    HolyRes,
    HpWardRecovery,
    ManaWardRecovery,
    WardAbsorption,
    WardPower,
    WardRecovery,
    WardStart,
    WardTurns,
    Apex,
    ApexRate,
    ApexStart,
    Avidity,
    ManaflaskCharge,
    Assassin,
    BuffDuration,
    DebuffDuration,
    DebuffFade,
    EffectDamage,
    SelfDamageReduction,
    StatusProtection,
    SummonProtection,
    StatusReflection,
    BeastTaming,
    BestialBond,
    FollowerAct,
    FollowerStats,
    FollowerSummonAI,
    InstantSummon,
    NoFollowerBonus,
    SummonPacts,
    SummonStats,
    SummonTurns,
    Accuracy,
    AreaDefense,
    CritDamage,
    DoubleHanded,
    HybridDamage,
    WeaponProficiency,
    ChainDamageChance,
    CollateralChance,
    CollateralDamage,
    DamageLimitBreak,
    DamageToWard,
    DefresPenetration,
    ElementalWeaknesses,
    FactionDamage,
    MultitargetDamage,
    DefendPower,
    Healing,
    HpRegen,
    LifeSiphon,
    ManaReduction,
    ManaRegen,
    Parapet,
    TurnReduction,
    UltDefense,
    AllyEffectChance,
    CriticalChain,
    ViewDistance,
}

/// The affix a stat label names (the label keeps its trailing `:`).
pub open spec fn spec_affix_kind(stat: Seq<char>) -> Option<AffixKind> {
    if stat == "EXP Bonus:"@ {
        Some(AffixKind::ExpBonus)
    }     else if stat == "Gold Bonus:"@ {
        Some(AffixKind::GoldBonus)
    }     else if stat == "Luck Bonus:"@ {
        Some(AffixKind::LuckBonus)
    }     else if stat == "Orn Bonus:"@ {
        Some(AffixKind::OrnBonus)
    }     else if stat == "Blacksmith Time:"@ {
        Some(AffixKind::BlacksmithTime)
    }     else if stat == "Drop Quality:"@ {
        Some(AffixKind::DropQuality)
    }     else if stat == "Dungeon Cooldown:"@ {
        Some(AffixKind::DungeonCooldown)
    }     else if stat == "Gifts:"@ {
        Some(AffixKind::Gifts)
    }     else if stat == "Godforge:"@ {
        Some(AffixKind::Godforge)
    }     else if stat == "Line Catches:"@ {
        Some(AffixKind::LineCatches)
    }     else if stat == "Memory Hunting:"@ {
        Some(AffixKind::MemoryHunting)
    }     else if stat == "Monster attraction:"@ {
        Some(AffixKind::MonsterAttraction)
    }     else if stat == "Monster Encounters:"@ {
        Some(AffixKind::MonsterEncounters)
    }     else if stat == "Monster Power:"@ {
        Some(AffixKind::MonsterPower)
    }     else if stat == "Questing:"@ {
        Some(AffixKind::Questing)
    }     else if stat == "Quest Rewards:"@ {
        Some(AffixKind::QuestRewards)
    }     else if stat == "Raid Rewards:"@ {
        Some(AffixKind::RaidRewards)
    }     else if stat == "Arcane Damage:"@ {
        Some(AffixKind::ArcaneDamage)
    }     else if stat == "Dark Damage:"@ {
        Some(AffixKind::DarkDamage)
    }     else if stat == "Dragon Damage:"@ {
        Some(AffixKind::DragonDamage)
    }     else if stat == "Earthen Damage:"@ {
        Some(AffixKind::EarthenDamage)
    }     else if stat == "Fire Damage:"@ {
        Some(AffixKind::FireDamage)
    }     else if stat == "Holy Damage:"@ {
        Some(AffixKind::HolyDamage)
    }     else if stat == "Lightning Damage:"@ {
        Some(AffixKind::LightningDamage)
    }     else if stat == "Water Damage:"@ {
        Some(AffixKind::WaterDamage)
    }     else if stat == "Dark Res:"@ {
        Some(AffixKind::DarkRes)
    }     else if stat == "Holy Res:"@ {
        Some(AffixKind::HolyRes)
    }     else if stat == "HP-Ward Recovery:"@ {
        Some(AffixKind::HpWardRecovery)
    }     else if stat == "Mana-Ward Recovery:"@ {
        Some(AffixKind::ManaWardRecovery)
    }     else if stat == "Ward Absorption:"@ {
        Some(AffixKind::WardAbsorption)
    }     else if stat == "Ward Power:"@ {
        Some(AffixKind::WardPower)
    }     else if stat == "Ward Recovery:"@ {
        Some(AffixKind::WardRecovery)
    }     else if stat == "Ward Start:"@ {
        Some(AffixKind::WardStart)
    }     else if stat == "Ward Turns:"@ {
        Some(AffixKind::WardTurns)
    }     else if stat == "Apex:"@ {
        Some(AffixKind::Apex)
    }     else if stat == "Apex Rate:"@ {
        Some(AffixKind::ApexRate)
    }     else if stat == "Apex Start:"@ {
        Some(AffixKind::ApexStart)
    }     else if stat == "Avidity:"@ {
        Some(AffixKind::Avidity)
    }     else if stat == "Manaflask Charge:"@ {
        Some(AffixKind::ManaflaskCharge)
    }     else if stat == "Assassin:"@ {
        Some(AffixKind::Assassin)
    }     else if stat == "Buff Duration:"@ {
        Some(AffixKind::BuffDuration)
    }     else if stat == "Debuff Duration:"@ {
        Some(AffixKind::DebuffDuration)
    }     else if stat == "Debuff Fade:"@ {
        Some(AffixKind::DebuffFade)
    }     else if stat == "Effect Damage:"@ {
        Some(AffixKind::EffectDamage)
    }     else if stat == "Self Damage Reduction:"@ {
        Some(AffixKind::SelfDamageReduction)
    }     else if stat == "Status Protection:"@ {
        Some(AffixKind::StatusProtection)
    }     else if stat == "Status Reflection:"@ {
        Some(AffixKind::StatusReflection)
    }     else if stat == "Beast Taming:"@ {
        Some(AffixKind::BeastTaming)
    }     else if stat == "Bestial Bond:"@ {
        Some(AffixKind::BestialBond)
    }     else if stat == "Follower Act:"@ {
        Some(AffixKind::FollowerAct)
    }     else if stat == "Follower Stats:"@ {
        Some(AffixKind::FollowerStats)
    }     else if stat == "Follower/Summon AI:"@ {
        Some(AffixKind::FollowerSummonAI)
    }     else if stat == "Instant Summon:"@ {
        Some(AffixKind::InstantSummon)
    }     else if stat == "No Follower Bonus:"@ {
        Some(AffixKind::NoFollowerBonus)
    }     else if stat == "Summon Pacts:"@ {
        Some(AffixKind::SummonPacts)
    }     else if stat == "Summon Protection:"@ {
        Some(AffixKind::SummonProtection)
    }     else if stat == "Summon Stats:"@ {
        Some(AffixKind::SummonStats)
    }     else if stat == "Summon Turns:"@ {
        Some(AffixKind::SummonTurns)
    }     else if stat == "Accuracy:"@ {
        Some(AffixKind::Accuracy)
    }     else if stat == "Area Defense:"@ {
        Some(AffixKind::AreaDefense)
    }     else if stat == "Crit damage:"@ {
        Some(AffixKind::CritDamage)
    }     else if stat == "Double Handed:"@ {
        Some(AffixKind::DoubleHanded)
    }     else if stat == "Hybrid Damage:"@ {
        Some(AffixKind::HybridDamage)
    }     else if stat == "Weapon Proficiency:"@ {
        Some(AffixKind::WeaponProficiency)
    }     else if stat == "Chain Damage Chance:"@ {
        Some(AffixKind::ChainDamageChance)
    }     else if stat == "Collateral Chance:"@ {
        Some(AffixKind::CollateralChance)
    }     else if stat == "Collateral Damage:"@ {
        Some(AffixKind::CollateralDamage)
    }     else if stat == "Damage Limit Break:"@ {
        Some(AffixKind::DamageLimitBreak)
    }     else if stat == "Damage to Ward:"@ {
        Some(AffixKind::DamageToWard)
    }     else if stat == "Def/Res Penetration:"@ {
        Some(AffixKind::DefresPenetration)
    }     else if stat == "Elemental Weaknesses:"@ {
        Some(AffixKind::ElementalWeaknesses)
    }     else if stat == "Faction Damage:"@ {
        Some(AffixKind::FactionDamage)
    }     else if stat == "Multi-target Damage:"@ {
        Some(AffixKind::MultitargetDamage)
    }     else if stat == "Defend Power:"@ {
        Some(AffixKind::DefendPower)
    }     else if stat == "Healing:"@ {
        Some(AffixKind::Healing)
    }     else if stat == "HP Regen:"@ {
        Some(AffixKind::HpRegen)
    }     else if stat == "Life Siphon:"@ {
        Some(AffixKind::LifeSiphon)
    }     else if stat == "Mana Reduction:"@ {
        Some(AffixKind::ManaReduction)
    }     else if stat == "Mana Regen:"@ {
        Some(AffixKind::ManaRegen)
    }     else if stat == "Parapet:"@ {
        Some(AffixKind::Parapet)
    }     else if stat == "Turn Reduction:"@ {
        Some(AffixKind::TurnReduction)
    }     else if stat == "Ult Defense:"@ {
        Some(AffixKind::UltDefense)
    }     else if stat == "Ally Effect Chance:"@ {
        Some(AffixKind::AllyEffectChance)
    }     else if stat == "Critical Chain:"@ {
        Some(AffixKind::CriticalChain)
    }     else if stat == "View distance:"@ {
        Some(AffixKind::ViewDistance)
    }     else if stat == "View Distance:"@ {
        Some(AffixKind::ViewDistance)
    } else {
        None
    }
}

/// The affix a stat label names.
pub fn affix_kind(stat: &str) -> (r: Option<AffixKind>)
    ensures
        r == spec_affix_kind(stat@),
{
    if str_eq(stat, "EXP Bonus:") {
        Some(AffixKind::ExpBonus)
    }     else if str_eq(stat, "Gold Bonus:") {
        Some(AffixKind::GoldBonus)
    }     else if str_eq(stat, "Luck Bonus:") {
        Some(AffixKind::LuckBonus)
    }     else if str_eq(stat, "Orn Bonus:") {
        Some(AffixKind::OrnBonus)
    }     else if str_eq(stat, "Blacksmith Time:") {
        Some(AffixKind::BlacksmithTime)
    }     else if str_eq(stat, "Drop Quality:") {
        Some(AffixKind::DropQuality)
    }     else if str_eq(stat, "Dungeon Cooldown:") {
        Some(AffixKind::DungeonCooldown)
    }     else if str_eq(stat, "Gifts:") {
        Some(AffixKind::Gifts)
    }     else if str_eq(stat, "Godforge:") {
        Some(AffixKind::Godforge)
    }     else if str_eq(stat, "Line Catches:") {
        Some(AffixKind::LineCatches)
    }     else if str_eq(stat, "Memory Hunting:") {
        Some(AffixKind::MemoryHunting)
    }     else if str_eq(stat, "Monster attraction:") {
        Some(AffixKind::MonsterAttraction)
    }     else if str_eq(stat, "Monster Encounters:") {
        Some(AffixKind::MonsterEncounters)
    }     else if str_eq(stat, "Monster Power:") {
        Some(AffixKind::MonsterPower)
    }     else if str_eq(stat, "Questing:") {
        Some(AffixKind::Questing)
    }     else if str_eq(stat, "Quest Rewards:") {
        Some(AffixKind::QuestRewards)
    }     else if str_eq(stat, "Raid Rewards:") {
        Some(AffixKind::RaidRewards)
    }     else if str_eq(stat, "Arcane Damage:") {
        Some(AffixKind::ArcaneDamage)
    }     else if str_eq(stat, "Dark Damage:") {
        Some(AffixKind::DarkDamage)
    }     else if str_eq(stat, "Dragon Damage:") {
        Some(AffixKind::DragonDamage)
    }     else if str_eq(stat, "Earthen Damage:") {
        Some(AffixKind::EarthenDamage)
    }     else if str_eq(stat, "Fire Damage:") {
        Some(AffixKind::FireDamage)
    }     else if str_eq(stat, "Holy Damage:") {
        Some(AffixKind::HolyDamage)
    }     else if str_eq(stat, "Lightning Damage:") {
        Some(AffixKind::LightningDamage)
    }     else if str_eq(stat, "Water Damage:") {
        Some(AffixKind::WaterDamage)
    }     else if str_eq(stat, "Dark Res:") {
        Some(AffixKind::DarkRes)
    }     else if str_eq(stat, "Holy Res:") {
        Some(AffixKind::HolyRes)
    }     else if str_eq(stat, "HP-Ward Recovery:") {
        Some(AffixKind::HpWardRecovery)
    }     else if str_eq(stat, "Mana-Ward Recovery:") {
        Some(AffixKind::ManaWardRecovery)
    }     else if str_eq(stat, "Ward Absorption:") {
        Some(AffixKind::WardAbsorption)
    }     else if str_eq(stat, "Ward Power:") {
        Some(AffixKind::WardPower)
    }     else if str_eq(stat, "Ward Recovery:") {
        Some(AffixKind::WardRecovery)
    }     else if str_eq(stat, "Ward Start:") {
        Some(AffixKind::WardStart)
    }     else if str_eq(stat, "Ward Turns:") {
        Some(AffixKind::WardTurns)
    }     else if str_eq(stat, "Apex:") {
        Some(AffixKind::Apex)
    }     else if str_eq(stat, "Apex Rate:") {
        Some(AffixKind::ApexRate)
    }     else if str_eq(stat, "Apex Start:") {
        Some(AffixKind::ApexStart)
    }     else if str_eq(stat, "Avidity:") {
        Some(AffixKind::Avidity)
    }     else if str_eq(stat, "Manaflask Charge:") {
        Some(AffixKind::ManaflaskCharge)
    }     else if str_eq(stat, "Assassin:") {
        Some(AffixKind::Assassin)
    }     else if str_eq(stat, "Buff Duration:") {
        Some(AffixKind::BuffDuration)
    }     else if str_eq(stat, "Debuff Duration:") {
        Some(AffixKind::DebuffDuration)
    }     else if str_eq(stat, "Debuff Fade:") {
        Some(AffixKind::DebuffFade)
    }     else if str_eq(stat, "Effect Damage:") {
        Some(AffixKind::EffectDamage)
    }     else if str_eq(stat, "Self Damage Reduction:") {
        Some(AffixKind::SelfDamageReduction)
    }     else if str_eq(stat, "Status Protection:") {
        Some(AffixKind::StatusProtection)
    }     else if str_eq(stat, "Status Reflection:") {
        Some(AffixKind::StatusReflection)
    }     else if str_eq(stat, "Beast Taming:") {
        Some(AffixKind::BeastTaming)
    }     else if str_eq(stat, "Bestial Bond:") {
        Some(AffixKind::BestialBond)
    }     else if str_eq(stat, "Follower Act:") {
        Some(AffixKind::FollowerAct)
    }     else if str_eq(stat, "Follower Stats:") {
        Some(AffixKind::FollowerStats)
    }     else if str_eq(stat, "Follower/Summon AI:") {
        Some(AffixKind::FollowerSummonAI)
    }     else if str_eq(stat, "Instant Summon:") {
        Some(AffixKind::InstantSummon)
    }     else if str_eq(stat, "No Follower Bonus:") {
        Some(AffixKind::NoFollowerBonus)
    }     else if str_eq(stat, "Summon Pacts:") {
        Some(AffixKind::SummonPacts)
    }     else if str_eq(stat, "Summon Protection:") {
        Some(AffixKind::SummonProtection)
    }     else if str_eq(stat, "Summon Stats:") {
        Some(AffixKind::SummonStats)
    }     else if str_eq(stat, "Summon Turns:") {
        Some(AffixKind::SummonTurns)
    }     else if str_eq(stat, "Accuracy:") {
        Some(AffixKind::Accuracy)
    }     else if str_eq(stat, "Area Defense:") {
        Some(AffixKind::AreaDefense)
    }     else if str_eq(stat, "Crit damage:") {
        Some(AffixKind::CritDamage)
    }     else if str_eq(stat, "Double Handed:") {
        Some(AffixKind::DoubleHanded)
    }     else if str_eq(stat, "Hybrid Damage:") {
        Some(AffixKind::HybridDamage)
    }     else if str_eq(stat, "Weapon Proficiency:") {
        Some(AffixKind::WeaponProficiency)
    }     else if str_eq(stat, "Chain Damage Chance:") {
        Some(AffixKind::ChainDamageChance)
    }     else if str_eq(stat, "Collateral Chance:") {
        Some(AffixKind::CollateralChance)
    }     else if str_eq(stat, "Collateral Damage:") {
        Some(AffixKind::CollateralDamage)
    }     else if str_eq(stat, "Damage Limit Break:") {
        Some(AffixKind::DamageLimitBreak)
    }     else if str_eq(stat, "Damage to Ward:") {
        Some(AffixKind::DamageToWard)
    }     else if str_eq(stat, "Def/Res Penetration:") {
        Some(AffixKind::DefresPenetration)
    }     else if str_eq(stat, "Elemental Weaknesses:") {
        Some(AffixKind::ElementalWeaknesses)
    }     else if str_eq(stat, "Faction Damage:") {
        Some(AffixKind::FactionDamage)
    }     else if str_eq(stat, "Multi-target Damage:") {
        Some(AffixKind::MultitargetDamage)
    }     else if str_eq(stat, "Defend Power:") {
        Some(AffixKind::DefendPower)
    }     else if str_eq(stat, "Healing:") {
        Some(AffixKind::Healing)
    }     else if str_eq(stat, "HP Regen:") {
        Some(AffixKind::HpRegen)
    }     else if str_eq(stat, "Life Siphon:") {
        Some(AffixKind::LifeSiphon)
    }     else if str_eq(stat, "Mana Reduction:") {
        Some(AffixKind::ManaReduction)
    }     else if str_eq(stat, "Mana Regen:") {
        Some(AffixKind::ManaRegen)
    }     else if str_eq(stat, "Parapet:") {
        Some(AffixKind::Parapet)
    }     else if str_eq(stat, "Turn Reduction:") {
        Some(AffixKind::TurnReduction)
    }     else if str_eq(stat, "Ult Defense:") {
        Some(AffixKind::UltDefense)
    }     else if str_eq(stat, "Ally Effect Chance:") {
        Some(AffixKind::AllyEffectChance)
    }     else if str_eq(stat, "Critical Chain:") {
        Some(AffixKind::CriticalChain)
    }     else if str_eq(stat, "View distance:") {
        Some(AffixKind::ViewDistance)
    }     else if str_eq(stat, "View Distance:") {
        Some(AffixKind::ViewDistance)
    } else {
        None
    }
}

/// The value of an affix of kind `k` written `v`.
pub open spec fn spec_read_affix(k: AffixKind, v: Seq<char>) -> Result<Affix, Failure> {
    match k {
        AffixKind::ExpBonus => match read_int(v, -32768, 32767) {
            Ok(x) => Ok(Affix::ExpBonus(x as i16)),
            Err(e) => Err(e),
        },
        AffixKind::GoldBonus => match read_int(v, 0, 255) {
            Ok(x) => Ok(Affix::GoldBonus(x as u8)),
            Err(e) => Err(e),
        },
        AffixKind::LuckBonus => match read_int(v, 0, 65535) {
            Ok(x) => Ok(Affix::LuckBonus(x as u16)),
            Err(e) => Err(e),
        },
        AffixKind::OrnBonus => match read_int(v, 0, 255) {
            Ok(x) => Ok(Affix::OrnBonus(x as u8)),
            Err(e) => Err(e),
        },
        AffixKind::BlacksmithTime => match read_int(v, -128, 127) {
            Ok(x) => Ok(Affix::BlacksmithTime(x as i8)),
            Err(e) => Err(e),
        },
        AffixKind::DropQuality => match read_int(v, 0, 255) {
            Ok(x) => Ok(Affix::DropQuality(x as u8)),
            Err(e) => Err(e),
        },
        AffixKind::DungeonCooldown => match read_int(v, -128, 127) {
            Ok(x) => Ok(Affix::DungeonCooldown(x as i8)),
            Err(e) => Err(e),
        },
        AffixKind::Gifts => match read_int(v, 0, 255) {
            Ok(x) => Ok(Affix::Gifts(x as u8)),
            Err(e) => Err(e),
        },
        AffixKind::Godforge => match read_int(v, 0, 255) {
            Ok(x) => Ok(Affix::Godforge(x as u8)),
            Err(e) => Err(e),
        },
        AffixKind::LineCatches => match read_int(v, 0, 255) {
            Ok(x) => Ok(Affix::LineCatches(x as u8)),
            Err(e) => Err(e),
        },
        AffixKind::MemoryHunting => match read_int(v, 0, 255) {
            Ok(x) => Ok(Affix::MemoryHunting(x as u8)),
            Err(e) => Err(e),
        },
        AffixKind::MonsterAttraction => match read_int(v, 0, 255) {
            Ok(x) => Ok(Affix::MonsterAttraction(x as u8)),
            Err(e) => Err(e),
        },
        AffixKind::MonsterEncounters => match read_int(v, 0, 255) {
            Ok(x) => Ok(Affix::MonsterEncounters(x as u8)),
            Err(e) => Err(e),
        },
        AffixKind::MonsterPower => match read_int(v, 0, 255) {
            Ok(x) => Ok(Affix::MonsterPower(x as u8)),
            Err(e) => Err(e),
        },
        AffixKind::Questing => match read_int(v, 0, 255) {
            Ok(x) => Ok(Affix::Questing(x as u8)),
            Err(e) => Err(e),
        },
        AffixKind::QuestRewards => match read_int(v, 0, 255) {
            Ok(x) => Ok(Affix::QuestRewards(x as u8)),
            Err(e) => Err(e),
        },
        AffixKind::RaidRewards => match read_int(v, 0, 255) {
            Ok(x) => Ok(Affix::RaidRewards(x as u8)),
            Err(e) => Err(e),
        },
        AffixKind::ArcaneDamage => match read_int(v, -128, 127) {
            Ok(x) => Ok(Affix::ArcaneDamage(x as i8)),
            Err(e) => Err(e),
        },
        AffixKind::DarkDamage => match read_int(v, -128, 127) {
            Ok(x) => Ok(Affix::DarkDamage(x as i8)),
            Err(e) => Err(e),
        },
        AffixKind::DragonDamage => match read_int(v, -128, 127) {
            Ok(x) => Ok(Affix::DragonDamage(x as i8)),
            Err(e) => Err(e),
        },
        AffixKind::EarthenDamage => match read_int(v, -128, 127) {
            Ok(x) => Ok(Affix::EarthenDamage(x as i8)),
            Err(e) => Err(e),
        },
        AffixKind::FireDamage => match read_int(v, -128, 127) {
            Ok(x) => Ok(Affix::FireDamage(x as i8)),
            Err(e) => Err(e),
        },
        AffixKind::HolyDamage => match read_int(v, -128, 127) {
            Ok(x) => Ok(Affix::HolyDamage(x as i8)),
            Err(e) => Err(e),
        },
        AffixKind::LightningDamage => match read_int(v, -128, 127) {
            Ok(x) => Ok(Affix::LightningDamage(x as i8)),
            Err(e) => Err(e),
        },
        AffixKind::WaterDamage => match read_int(v, -128, 127) {
            Ok(x) => Ok(Affix::WaterDamage(x as i8)),
            Err(e) => Err(e),
        },
        AffixKind::DarkRes => match read_int(v, -128, 127) {
            Ok(x) => Ok(Affix::DarkRes(x as i8)),
            Err(e) => Err(e),
        },
        AffixKind::HolyRes => match read_int(v, -128, 127) {
            Ok(x) => Ok(Affix::HolyRes(x as i8)),
            Err(e) => Err(e),
        },
        AffixKind::HpWardRecovery => match read_int(v, 0, 255) {
            Ok(x) => Ok(Affix::HpWardRecovery(x as u8)),
            Err(e) => Err(e),
        },
        AffixKind::ManaWardRecovery => match read_int(v, 0, 255) {
            Ok(x) => Ok(Affix::ManaWardRecovery(x as u8)),
            Err(e) => Err(e),
        },
        AffixKind::WardAbsorption => match read_int(v, 0, 255) {
            Ok(x) => Ok(Affix::WardAbsorption(x as u8)),
            Err(e) => Err(e),
        },
        AffixKind::WardPower => match read_int(v, 0, 255) {
            Ok(x) => Ok(Affix::WardPower(x as u8)),
            Err(e) => Err(e),
        },
        AffixKind::WardRecovery => match read_int(v, 0, 255) {
            Ok(x) => Ok(Affix::WardRecovery(x as u8)),
            Err(e) => Err(e),
        },
        AffixKind::WardStart => match spec_ward_turns(v) {
            Ok(x) => Ok(Affix::WardStart(x as u8)),
            Err(e) => Err(e),
        },
        AffixKind::WardTurns => match read_int(v, 0, 255) {
            Ok(x) => Ok(Affix::WardTurns(x as u8)),
            Err(e) => Err(e),
        },
        AffixKind::Apex => match read_int(v, 0, 255) {
            Ok(x) => Ok(Affix::Apex(x as u8)),
            Err(e) => Err(e),
        },
        AffixKind::ApexRate => match read_int(v, 0, 255) {
            Ok(x) => Ok(Affix::ApexRate(x as u8)),
            Err(e) => Err(e),
        },
        AffixKind::ApexStart => match read_int(v, 0, 255) {
            Ok(x) => Ok(Affix::ApexStart(x as u8)),
            Err(e) => Err(e),
        },
        AffixKind::Avidity => match spec_tenth_percent(v) {
            Ok(x) => Ok(Affix::Avidity(x as u16)),
            Err(e) => Err(e),
        },
        AffixKind::ManaflaskCharge => match read_int(v, 0, 255) {
            Ok(x) => Ok(Affix::ManaflaskCharge(x as u8)),
            Err(e) => Err(e),
        },
        AffixKind::Assassin => match read_int(v, 0, 255) {
            Ok(x) => Ok(Affix::Assassin(x as u8)),
            Err(e) => Err(e),
        },
        AffixKind::BuffDuration => match read_int(v, 0, 255) {
            Ok(x) => Ok(Affix::BuffDuration(x as u8)),
            Err(e) => Err(e),
        },
        AffixKind::DebuffDuration => match read_int(v, 0, 255) {
            Ok(x) => Ok(Affix::DebuffDuration(x as u8)),
            Err(e) => Err(e),
        },
        AffixKind::DebuffFade => match read_int(v, 0, 255) {
            Ok(x) => Ok(Affix::DebuffFade(x as u8)),
            Err(e) => Err(e),
        },
        AffixKind::EffectDamage => match read_int(v, 0, 255) {
            Ok(x) => Ok(Affix::EffectDamage(x as u8)),
            Err(e) => Err(e),
        },
        AffixKind::SelfDamageReduction => match read_int(v, -128, 127) {
            Ok(x) => Ok(Affix::SelfDamageReduction(x as i8)),
            Err(e) => Err(e),
        },
        AffixKind::StatusProtection => match read_int(v, 0, 255) {
            Ok(x) => Ok(Affix::StatusProtection(x as u8)),
            Err(e) => Err(e),
        },
        AffixKind::SummonProtection => match read_int(v, 0, 255) {
            Ok(x) => Ok(Affix::SummonProtection(x as u8)),
            Err(e) => Err(e),
        },
        AffixKind::StatusReflection => match read_int(v, 0, 255) {
            Ok(x) => Ok(Affix::StatusReflection(x as u8)),
            Err(e) => Err(e),
        },
        AffixKind::BeastTaming => match read_int(v, 0, 255) {
            Ok(x) => Ok(Affix::BeastTaming(x as u8)),
            Err(e) => Err(e),
        },
        AffixKind::BestialBond => match read_int(v, 0, 255) {
            Ok(x) => Ok(Affix::BestialBond(x as u8)),
            Err(e) => Err(e),
        },
        AffixKind::FollowerAct => match read_int(v, -128, 127) {
            Ok(x) => Ok(Affix::FollowerAct(x as i8)),
            Err(e) => Err(e),
        },
        AffixKind::FollowerStats => match spec_percent_maybe_dot(v) {
            Ok(x) => Ok(Affix::FollowerStats(x as i8)),
            Err(e) => Err(e),
        },
        AffixKind::FollowerSummonAI => match read_int(v, 0, 255) {
            Ok(x) => Ok(Affix::FollowerSummonAI(x as u8)),
            Err(e) => Err(e),
        },
        AffixKind::InstantSummon => match read_int(v, 0, 255) {
            Ok(x) => Ok(Affix::InstantSummon(x as u8)),
            Err(e) => Err(e),
        },
        AffixKind::NoFollowerBonus => match read_int(v, 0, 255) {
            Ok(x) => Ok(Affix::NoFollowerBonus(x as u8)),
            Err(e) => Err(e),
        },
        AffixKind::SummonPacts => match read_int(v, 0, 255) {
            Ok(x) => Ok(Affix::SummonPacts(x as u8)),
            Err(e) => Err(e),
        },
        AffixKind::SummonStats => match read_int(v, -128, 127) {
            Ok(x) => Ok(Affix::SummonStats(x as i8)),
            Err(e) => Err(e),
        },
        AffixKind::SummonTurns => match read_int(v, -128, 127) {
            Ok(x) => Ok(Affix::SummonTurns(x as i8)),
            Err(e) => Err(e),
        },
        AffixKind::Accuracy => match read_int(v, 0, 255) {
            Ok(x) => Ok(Affix::Accuracy(x as u8)),
            Err(e) => Err(e),
        },
        AffixKind::AreaDefense => match read_int(v, 0, 255) {
            Ok(x) => Ok(Affix::AreaDefense(x as u8)),
            Err(e) => Err(e),
        },
        AffixKind::CritDamage => match read_int(v, -128, 127) {
            Ok(x) => Ok(Affix::CritDamage(x as i8)),
            Err(e) => Err(e),
        },
        AffixKind::DoubleHanded => match read_int(v, 0, 255) {
            Ok(x) => Ok(Affix::DoubleHanded(x as u8)),
            Err(e) => Err(e),
        },
        AffixKind::HybridDamage => match read_int(v, 0, 255) {
            Ok(x) => Ok(Affix::HybridDamage(x as u8)),
            Err(e) => Err(e),
        },
        AffixKind::WeaponProficiency => match read_int(v, 0, 255) {
            Ok(x) => Ok(Affix::WeaponProficiency(x as u8)),
            Err(e) => Err(e),
        },
        AffixKind::ChainDamageChance => match read_int(v, 0, 255) {
            Ok(x) => Ok(Affix::ChainDamageChance(x as u8)),
            Err(e) => Err(e),
        },
        AffixKind::CollateralChance => match read_int(v, 0, 255) {
            Ok(x) => Ok(Affix::CollateralChance(x as u8)),
            Err(e) => Err(e),
        },
        AffixKind::CollateralDamage => match read_int(v, 0, 255) {
            Ok(x) => Ok(Affix::CollateralDamage(x as u8)),
            Err(e) => Err(e),
        },
        AffixKind::DamageLimitBreak => match read_int(v, 0, 255) {
            Ok(x) => Ok(Affix::DamageLimitBreak(x as u8)),
            Err(e) => Err(e),
        },
        AffixKind::DamageToWard => match read_int(v, 0, 255) {
            Ok(x) => Ok(Affix::DamageToWard(x as u8)),
            Err(e) => Err(e),
        },
        AffixKind::DefresPenetration => match read_int(v, 0, 255) {
            Ok(x) => Ok(Affix::DefresPenetration(x as u8)),
            Err(e) => Err(e),
        },
        AffixKind::ElementalWeaknesses => match read_int(v, 0, 255) {
            Ok(x) => Ok(Affix::ElementalWeaknesses(x as u8)),
            Err(e) => Err(e),
        },
        AffixKind::FactionDamage => match read_int(v, 0, 255) {
            Ok(x) => Ok(Affix::FactionDamage(x as u8)),
            Err(e) => Err(e),
        },
        AffixKind::MultitargetDamage => match read_int(v, 0, 255) {
            Ok(x) => Ok(Affix::MultitargetDamage(x as u8)),
            Err(e) => Err(e),
        },
        AffixKind::DefendPower => match read_int(v, 0, 255) {
            Ok(x) => Ok(Affix::DefendPower(x as u8)),
            Err(e) => Err(e),
        },
        AffixKind::Healing => match read_int(v, 0, 255) {
            Ok(x) => Ok(Affix::Healing(x as u8)),
            Err(e) => Err(e),
        },
        AffixKind::HpRegen => match read_int(v, 0, 255) {
            Ok(x) => Ok(Affix::HpRegen(x as u8)),
            Err(e) => Err(e),
        },
        AffixKind::LifeSiphon => match read_int(v, 0, 255) {
            Ok(x) => Ok(Affix::LifeSiphon(x as u8)),
            Err(e) => Err(e),
        },
        AffixKind::ManaReduction => match spec_percent_maybe_dot(v) {
            Ok(x) => Ok(Affix::ManaReduction(x as i8)),
            Err(e) => Err(e),
        },
        AffixKind::ManaRegen => match spec_tenth_percent(v) {
            Ok(x) => Ok(Affix::ManaRegen(x as u16)),
            Err(e) => Err(e),
        },
        AffixKind::Parapet => match read_int(v, 0, 255) {
            Ok(x) => Ok(Affix::Parapet(x as u8)),
            Err(e) => Err(e),
        },
        AffixKind::TurnReduction => match read_int(v, 0, 255) {
            Ok(x) => Ok(Affix::TurnReduction(x as u8)),
            Err(e) => Err(e),
        },
        AffixKind::UltDefense => match read_int(v, 0, 255) {
            Ok(x) => Ok(Affix::UltDefense(x as u8)),
            Err(e) => Err(e),
        },
        AffixKind::AllyEffectChance => match read_int(v, 0, 255) {
            Ok(x) => Ok(Affix::AllyEffectChance(x as u8)),
            Err(e) => Err(e),
        },
        AffixKind::CriticalChain => match read_int(v, 0, 255) {
            Ok(x) => Ok(Affix::CriticalChain(x as u8)),
            Err(e) => Err(e),
        },
        AffixKind::ViewDistance => match read_int(v, 0, 255) {
            Ok(x) => Ok(Affix::ViewDistance(x as u8)),
            Err(e) => Err(e),
        },
    }
}

/// Reading `v` as the value of an affix of kind `k` does not panic.
pub open spec fn affix_value_ok(k: AffixKind, v: Seq<char>) -> bool {
    match k {
        AffixKind::Avidity | AffixKind::ManaRegen => tenth_percent_ok(v),
        AffixKind::FollowerStats | AffixKind::ManaReduction => percent_maybe_dot_ok(v),
        _ => true,
    }
}

/// Reads `v` as the value of an affix of kind `k`.
pub fn read_affix(k: AffixKind, v: &str) -> (r: Result<Affix, Error>)
    requires
        affix_value_ok(k, v@),
    ensures
        outcome(r, spec_read_affix(k, v@)),
{
    match k {
        AffixKind::ExpBonus => match read_i16(v) {
            Ok(x) => Ok(Affix::ExpBonus(x)),
            Err(e) => Err(e),
        },
        AffixKind::GoldBonus => match read_u8(v) {
            Ok(x) => Ok(Affix::GoldBonus(x)),
            Err(e) => Err(e),
        },
        AffixKind::LuckBonus => match read_u16(v) {
            Ok(x) => Ok(Affix::LuckBonus(x)),
            Err(e) => Err(e),
        },
        AffixKind::OrnBonus => match read_u8(v) {
            Ok(x) => Ok(Affix::OrnBonus(x)),
            Err(e) => Err(e),
        },
        AffixKind::BlacksmithTime => match read_i8(v) {
            Ok(x) => Ok(Affix::BlacksmithTime(x)),
            Err(e) => Err(e),
        },
        AffixKind::DropQuality => match read_u8(v) {
            Ok(x) => Ok(Affix::DropQuality(x)),
            Err(e) => Err(e),
        },
        AffixKind::DungeonCooldown => match read_i8(v) {
            Ok(x) => Ok(Affix::DungeonCooldown(x)),
            Err(e) => Err(e),
        },
        AffixKind::Gifts => match read_u8(v) {
            Ok(x) => Ok(Affix::Gifts(x)),
            Err(e) => Err(e),
        },
        AffixKind::Godforge => match read_u8(v) {
            Ok(x) => Ok(Affix::Godforge(x)),
            Err(e) => Err(e),
        },
        AffixKind::LineCatches => match read_u8(v) {
            Ok(x) => Ok(Affix::LineCatches(x)),
            Err(e) => Err(e),
        },
        AffixKind::MemoryHunting => match read_u8(v) {
            Ok(x) => Ok(Affix::MemoryHunting(x)),
            Err(e) => Err(e),
        },
        AffixKind::MonsterAttraction => match read_u8(v) {
            Ok(x) => Ok(Affix::MonsterAttraction(x)),
            Err(e) => Err(e),
        },
        AffixKind::MonsterEncounters => match read_u8(v) {
            Ok(x) => Ok(Affix::MonsterEncounters(x)),
            Err(e) => Err(e),
        },
        AffixKind::MonsterPower => match read_u8(v) {
            Ok(x) => Ok(Affix::MonsterPower(x)),
            Err(e) => Err(e),
        },
        AffixKind::Questing => match read_u8(v) {
            Ok(x) => Ok(Affix::Questing(x)),
            Err(e) => Err(e),
        },
        AffixKind::QuestRewards => match read_u8(v) {
            Ok(x) => Ok(Affix::QuestRewards(x)),
            Err(e) => Err(e),
        },
        AffixKind::RaidRewards => match read_u8(v) {
            Ok(x) => Ok(Affix::RaidRewards(x)),
            Err(e) => Err(e),
        },
        AffixKind::ArcaneDamage => match read_i8(v) {
            Ok(x) => Ok(Affix::ArcaneDamage(x)),
            Err(e) => Err(e),
        },
        AffixKind::DarkDamage => match read_i8(v) {
            Ok(x) => Ok(Affix::DarkDamage(x)),
            Err(e) => Err(e),
        },
        AffixKind::DragonDamage => match read_i8(v) {
            Ok(x) => Ok(Affix::DragonDamage(x)),
            Err(e) => Err(e),
        },
        AffixKind::EarthenDamage => match read_i8(v) {
            Ok(x) => Ok(Affix::EarthenDamage(x)),
            Err(e) => Err(e),
        },
        AffixKind::FireDamage => match read_i8(v) {
            Ok(x) => Ok(Affix::FireDamage(x)),
            Err(e) => Err(e),
        },
        AffixKind::HolyDamage => match read_i8(v) {
            Ok(x) => Ok(Affix::HolyDamage(x)),
            Err(e) => Err(e),
        },
        AffixKind::LightningDamage => match read_i8(v) {
            Ok(x) => Ok(Affix::LightningDamage(x)),
            Err(e) => Err(e),
        },
        AffixKind::WaterDamage => match read_i8(v) {
            Ok(x) => Ok(Affix::WaterDamage(x)),
            Err(e) => Err(e),
        },
        AffixKind::DarkRes => match read_i8(v) {
            Ok(x) => Ok(Affix::DarkRes(x)),
            Err(e) => Err(e),
        },
        AffixKind::HolyRes => match read_i8(v) {
            Ok(x) => Ok(Affix::HolyRes(x)),
            Err(e) => Err(e),
        },
        AffixKind::HpWardRecovery => match read_u8(v) {
            Ok(x) => Ok(Affix::HpWardRecovery(x)),
            Err(e) => Err(e),
        },
        AffixKind::ManaWardRecovery => match read_u8(v) {
            Ok(x) => Ok(Affix::ManaWardRecovery(x)),
            Err(e) => Err(e),
        },
        AffixKind::WardAbsorption => match read_u8(v) {
            Ok(x) => Ok(Affix::WardAbsorption(x)),
            Err(e) => Err(e),
        },
        AffixKind::WardPower => match read_u8(v) {
            Ok(x) => Ok(Affix::WardPower(x)),
            Err(e) => Err(e),
        },
        AffixKind::WardRecovery => match read_u8(v) {
            Ok(x) => Ok(Affix::WardRecovery(x)),
            Err(e) => Err(e),
        },
        AffixKind::WardStart => match read_ward_turns(v) {
            Ok(x) => Ok(Affix::WardStart(x)),
            Err(e) => Err(e),
        },
        AffixKind::WardTurns => match read_u8(v) {
            Ok(x) => Ok(Affix::WardTurns(x)),
            Err(e) => Err(e),
        },
        AffixKind::Apex => match read_u8(v) {
            Ok(x) => Ok(Affix::Apex(x)),
            Err(e) => Err(e),
        },
        AffixKind::ApexRate => match read_u8(v) {
            Ok(x) => Ok(Affix::ApexRate(x)),
            Err(e) => Err(e),
        },
        AffixKind::ApexStart => match read_u8(v) {
            Ok(x) => Ok(Affix::ApexStart(x)),
            Err(e) => Err(e),
        },
        AffixKind::Avidity => match parse_tenth_percent_value(v) {
            Ok(x) => Ok(Affix::Avidity(x)),
            Err(e) => Err(e),
        },
        AffixKind::ManaflaskCharge => match read_u8(v) {
            Ok(x) => Ok(Affix::ManaflaskCharge(x)),
            Err(e) => Err(e),
        },
        AffixKind::Assassin => match read_u8(v) {
            Ok(x) => Ok(Affix::Assassin(x)),
            Err(e) => Err(e),
        },
        AffixKind::BuffDuration => match read_u8(v) {
            Ok(x) => Ok(Affix::BuffDuration(x)),
            Err(e) => Err(e),
        },
        AffixKind::DebuffDuration => match read_u8(v) {
            Ok(x) => Ok(Affix::DebuffDuration(x)),
            Err(e) => Err(e),
        },
        AffixKind::DebuffFade => match read_u8(v) {
            Ok(x) => Ok(Affix::DebuffFade(x)),
            Err(e) => Err(e),
        },
        AffixKind::EffectDamage => match read_u8(v) {
            Ok(x) => Ok(Affix::EffectDamage(x)),
            Err(e) => Err(e),
        },
        AffixKind::SelfDamageReduction => match read_i8(v) {
            Ok(x) => Ok(Affix::SelfDamageReduction(x)),
            Err(e) => Err(e),
        },
        AffixKind::StatusProtection => match read_u8(v) {
            Ok(x) => Ok(Affix::StatusProtection(x)),
            Err(e) => Err(e),
        },
        AffixKind::SummonProtection => match read_u8(v) {
            Ok(x) => Ok(Affix::SummonProtection(x)),
            Err(e) => Err(e),
        },
        AffixKind::StatusReflection => match read_u8(v) {
            Ok(x) => Ok(Affix::StatusReflection(x)),
            Err(e) => Err(e),
        },
        AffixKind::BeastTaming => match read_u8(v) {
            Ok(x) => Ok(Affix::BeastTaming(x)),
            Err(e) => Err(e),
        },
        AffixKind::BestialBond => match read_u8(v) {
            Ok(x) => Ok(Affix::BestialBond(x)),
            Err(e) => Err(e),
        },
        AffixKind::FollowerAct => match read_i8(v) {
            Ok(x) => Ok(Affix::FollowerAct(x)),
            Err(e) => Err(e),
        },
        AffixKind::FollowerStats => match parse_percent_with_maybe_a_dot(v) {
            Ok(x) => Ok(Affix::FollowerStats(x)),
            Err(e) => Err(e),
        },
        AffixKind::FollowerSummonAI => match read_u8(v) {
            Ok(x) => Ok(Affix::FollowerSummonAI(x)),
            Err(e) => Err(e),
        },
        AffixKind::InstantSummon => match read_u8(v) {
            Ok(x) => Ok(Affix::InstantSummon(x)),
            Err(e) => Err(e),
        },
        AffixKind::NoFollowerBonus => match read_u8(v) {
            Ok(x) => Ok(Affix::NoFollowerBonus(x)),
            Err(e) => Err(e),
        },
        AffixKind::SummonPacts => match read_u8(v) {
            Ok(x) => Ok(Affix::SummonPacts(x)),
            Err(e) => Err(e),
        },
        AffixKind::SummonStats => match read_i8(v) {
            Ok(x) => Ok(Affix::SummonStats(x)),
            Err(e) => Err(e),
        },
        AffixKind::SummonTurns => match read_i8(v) {
            Ok(x) => Ok(Affix::SummonTurns(x)),
            Err(e) => Err(e),
        },
        AffixKind::Accuracy => match read_u8(v) {
            Ok(x) => Ok(Affix::Accuracy(x)),
            Err(e) => Err(e),
        },
        AffixKind::AreaDefense => match read_u8(v) {
            Ok(x) => Ok(Affix::AreaDefense(x)),
            Err(e) => Err(e),
        },
        AffixKind::CritDamage => match read_i8(v) {
            Ok(x) => Ok(Affix::CritDamage(x)),
            Err(e) => Err(e),
        },
        AffixKind::DoubleHanded => match read_u8(v) {
            Ok(x) => Ok(Affix::DoubleHanded(x)),
            Err(e) => Err(e),
        },
        AffixKind::HybridDamage => match read_u8(v) {
            Ok(x) => Ok(Affix::HybridDamage(x)),
            Err(e) => Err(e),
        },
        AffixKind::WeaponProficiency => match read_u8(v) {
            Ok(x) => Ok(Affix::WeaponProficiency(x)),
            Err(e) => Err(e),
        },
        AffixKind::ChainDamageChance => match read_u8(v) {
            Ok(x) => Ok(Affix::ChainDamageChance(x)),
            Err(e) => Err(e),
        },
        AffixKind::CollateralChance => match read_u8(v) {
            Ok(x) => Ok(Affix::CollateralChance(x)),
            Err(e) => Err(e),
        },
        AffixKind::CollateralDamage => match read_u8(v) {
            Ok(x) => Ok(Affix::CollateralDamage(x)),
            Err(e) => Err(e),
        },
        AffixKind::DamageLimitBreak => match read_u8(v) {
            Ok(x) => Ok(Affix::DamageLimitBreak(x)),
            Err(e) => Err(e),
        },
        AffixKind::DamageToWard => match read_u8(v) {
            Ok(x) => Ok(Affix::DamageToWard(x)),
            Err(e) => Err(e),
        },
        AffixKind::DefresPenetration => match read_u8(v) {
            Ok(x) => Ok(Affix::DefresPenetration(x)),
            Err(e) => Err(e),
        },
        AffixKind::ElementalWeaknesses => match read_u8(v) {
            Ok(x) => Ok(Affix::ElementalWeaknesses(x)),
            Err(e) => Err(e),
        },
        AffixKind::FactionDamage => match read_u8(v) {
            Ok(x) => Ok(Affix::FactionDamage(x)),
            Err(e) => Err(e),
        },
        AffixKind::MultitargetDamage => match read_u8(v) {
            Ok(x) => Ok(Affix::MultitargetDamage(x)),
            Err(e) => Err(e),
        },
        AffixKind::DefendPower => match read_u8(v) {
            Ok(x) => Ok(Affix::DefendPower(x)),
            Err(e) => Err(e),
        },
        AffixKind::Healing => match read_u8(v) {
            Ok(x) => Ok(Affix::Healing(x)),
            Err(e) => Err(e),
        },
        AffixKind::HpRegen => match read_u8(v) {
            Ok(x) => Ok(Affix::HpRegen(x)),
            Err(e) => Err(e),
        },
        AffixKind::LifeSiphon => match read_u8(v) {
            Ok(x) => Ok(Affix::LifeSiphon(x)),
            Err(e) => Err(e),
        },
        AffixKind::ManaReduction => match parse_percent_with_maybe_a_dot(v) {
            Ok(x) => Ok(Affix::ManaReduction(x)),
            Err(e) => Err(e),
        },
        AffixKind::ManaRegen => match parse_tenth_percent_value(v) {
            Ok(x) => Ok(Affix::ManaRegen(x)),
            Err(e) => Err(e),
        },
        AffixKind::Parapet => match read_u8(v) {
            Ok(x) => Ok(Affix::Parapet(x)),
            Err(e) => Err(e),
        },
        AffixKind::TurnReduction => match read_u8(v) {
            Ok(x) => Ok(Affix::TurnReduction(x)),
            Err(e) => Err(e),
        },
        AffixKind::UltDefense => match read_u8(v) {
            Ok(x) => Ok(Affix::UltDefense(x)),
            Err(e) => Err(e),
        },
        AffixKind::AllyEffectChance => match read_u8(v) {
            Ok(x) => Ok(Affix::AllyEffectChance(x)),
            Err(e) => Err(e),
        },
        AffixKind::CriticalChain => match read_u8(v) {
            Ok(x) => Ok(Affix::CriticalChain(x)),
            Err(e) => Err(e),
        },
        AffixKind::ViewDistance => match read_u8(v) {
            Ok(x) => Ok(Affix::ViewDistance(x)),
            Err(e) => Err(e),
        },
    }
}

/// `r` is what `s` describes: the same affix, or the error that reports its failure.
pub open spec fn outcome(r: Result<Affix, Error>, s: Result<Affix, Failure>) -> bool {
    match r {
        Ok(a) => s == Ok::<Affix, Failure>(a),
        Err(e) => fails_with(e, s),
    }
}

/// The message of a malformed `Ward Start` value.
pub open spec fn ward_start_message(v: Seq<char>) -> Seq<char> {
    "Invalid Ward Start value: \""@ + v + "\""@
}

/// A `Ward Start` value: a number of turns followed by ` turns`.
pub open spec fn spec_ward_turns(v: Seq<char>) -> Result<int, Failure> {
    if seq_ends_with(v, " turns"@) {
        read_int(v.subrange(0, v.len() - " turns"@.len()), 0, 255)
    } else {
        Err(Failure::Html(ward_start_message(v)))
    }
}

/// Reads a `Ward Start` value.
fn read_ward_turns(v: &str) -> (r: Result<u8, Error>)
    ensures
        int_outcome(r, |x: u8| x as int, spec_ward_turns(v@)),
{
    if let Some(n_turns) = strip_suffix(v, " turns") {
        read_u8(n_turns)
    } else {
        Err(html_error(concat3("Invalid Ward Start value: \"", v, "\"")))
    }
}

/// The message of a malformed 10th-percent value.
pub open spec fn tenth_message(v: Seq<char>) -> Seq<char> {
    "Invalid 10th-percent value: \""@ + v + "\""@
}

/// The digits of `s` from index `i` on, read after `acc`, the dots skipped; `None`
/// at the first character that is neither a digit nor a dot.
pub open spec fn tenth_digits(s: Seq<char>, i: int, acc: int) -> Option<int>
    decreases s.len() - i,
{
    if i < 0 || i >= s.len() {
        Some(acc)
    } else if s[i] == '.' {
        tenth_digits(s, i + 1, acc)
    } else if is_digit(s[i]) {
        tenth_digits(s, i + 1, acc * 10 + digit_value(s[i]))
    } else {
        None
    }
}

/// Every value read on the way by `tenth_digits(s, i, acc)` fits in a `u16`.
pub open spec fn tenth_digits_fit(s: Seq<char>, i: int, acc: int) -> bool
    decreases s.len() - i,
{
    if i < 0 || i >= s.len() {
        true
    } else if s[i] == '.' {
        tenth_digits_fit(s, i + 1, acc)
    } else if is_digit(s[i]) {
        acc * 10 + digit_value(s[i]) <= 0xffff && tenth_digits_fit(
            s,
            i + 1,
            acc * 10 + digit_value(s[i]),
        )
    } else {
        true
    }
}

/// The dot of `s` is the one before its last character (compared in bytes by the
/// codex parser: the first `.` sits two bytes before the end).
pub open spec fn dot_before_last(s: Seq<char>, d: int) -> bool {
    d + 2 == s.len() && is_ascii_char(s.last())
}

/// A percent value in tenth of percent: `"1%"`-style integers are multiplied by
/// ten, `"0.5"`-style values with one decimal are read without their dot.
pub open spec fn spec_tenth_value(s: Seq<char>) -> Result<int, Failure> {
    match find_char(s, '.') {
        Some(d) => if dot_before_last(s, d) {
            let t = spec_trim_start_char(s, '+');
            match tenth_digits(t, 0, 0) {
                Some(v) => Ok(v),
                None => Err(Failure::Html(tenth_message(t))),
            }
        } else {
            Err(Failure::Html(tenth_message(s)))
        },
        None => match read_int(s, 0, 65535) {
            Ok(v) => Ok(v * 10),
            Err(e) => Err(e),
        },
    }
}

/// Reading `s` as a 10th-percent value stays within a `u16` (the text is not a
/// lone dot, and no value read on the way exceeds `u16::MAX`).
pub open spec fn tenth_value_ok(s: Seq<char>) -> bool {
    match find_char(s, '.') {
        Some(d) => s.len() >= 2 && (dot_before_last(s, d) ==> tenth_digits_fit(
            spec_trim_start_char(s, '+'),
            0,
            0,
        )),
        None => read_int(s, 0, 65535) matches Ok(v) ==> v * 10 <= 0xffff,
    }
}

/// Whether reading `s`, without a `%`, as a 10th-percent value stays within a `u16`.
fn tenth_value_fits(s: &str) -> (r: bool)
    ensures
        r == tenth_value_ok(s@),
{
    let n = s.unicode_len();
    match find_char_index(s, '.') {
        Some(dot_pos) => {
            if n < 2 {
                return false;
            }
            if !(dot_pos == n - 2 && (s.get_char(n - 1) as u32) < 128) {
                return true;
            }
            let t = trim_start_matches(s, '+');
            let m = t.unicode_len();
            let mut acc: u32 = 0;
            let mut i: usize = 0;
            while i < m
                invariant
                    m == t@.len(),
                    n == s@.len(),
                    s@.len() >= 2,
                    find_char(s@, '.') == Some(dot_pos as int),
                    dot_before_last(s@, dot_pos as int),
                    t@ == spec_trim_start_char(s@, '+'),
                    i <= m,
                    acc <= 0xffff,
                    tenth_digits_fit(t@, 0, 0) == tenth_digits_fit(t@, i as int, acc as int),
                decreases m - i,
            {
                let c = t.get_char(i);
                if c != '.' {
                    if '0' <= c && c <= '9' {
                        let d = (c as u32) - ('0' as u32);
                        if acc * 10 + d > 0xffff {
                            return false;
                        }
                        acc = acc * 10 + d;
                    } else {
                        return true;
                    }
                }
                i = i + 1;
            }
            true
        },
        None => match parse_u16(s) {
            Ok(v) => (v as u32) * 10 <= 0xffff,
            Err(_) => true,
        },
    }
}

/// Whether reading `v` as a percent value that may hold one decimal does not panic.
pub fn percent_maybe_dot_fits(v: &str) -> (r: bool)
    ensures
        r == percent_maybe_dot_ok(v@),
{
    let t = trim_start_matches(v, '-');
    if !tenth_percent_fits(t) {
        return false;
    }
    match parse_tenth_percent_value(t) {
        Ok(x) => x % 10 == 0 && x / 10 <= 127,
        Err(_) => true,
    }
}

/// Whether reading `v` as the value of an affix of kind `k` does not panic.
pub fn affix_value_fits(k: AffixKind, v: &str) -> (r: bool)
    ensures
        r == affix_value_ok(k, v@),
{
    match k {
        AffixKind::Avidity | AffixKind::ManaRegen => tenth_percent_fits(v),
        AffixKind::FollowerStats | AffixKind::ManaReduction => percent_maybe_dot_fits(v),
        _ => true,
    }
}

/// `s` without one trailing `%`.
pub open spec fn without_percent(s: Seq<char>) -> Seq<char> {
    if s.len() > 0 && s.last() == '%' {
        s.drop_last()
    } else {
        s
    }
}

/// A percent value in tenth of percent, its trailing `%` left out: `"1%"`-style
/// integers are multiplied by ten, `"0.5%"`-style values with one decimal are read
/// without their dot.
pub open spec fn spec_tenth_percent(s: Seq<char>) -> Result<int, Failure> {
    spec_tenth_value(without_percent(s))
}

/// Reading `s` as a 10th-percent value, its trailing `%` left out, stays within a
/// `u16`.
pub open spec fn tenth_percent_ok(s: Seq<char>) -> bool {
    tenth_value_ok(without_percent(s))
}

/// `s` without one trailing `%`.
fn strip_percent(s: &str) -> (r: &str)
    ensures
        r@ == without_percent(s@),
{
    let n = s.unicode_len();
    if n > 0 && s.get_char(n - 1) == '%' {
        let r = s.substring_char(0, n - 1);
        assert(r@ =~= s@.drop_last());
        r
    } else {
        s
    }
}

/// Whether reading `s` as a 10th-percent value stays within a `u16`.
pub fn tenth_percent_fits(s: &str) -> (r: bool)
    ensures
        r == tenth_percent_ok(s@),
{
    tenth_value_fits(strip_percent(s))
}

/// Parse a % value and return it in tenth of % (e.g.: `"1%"` -> 10, `"0.5%"` -> 5).
pub fn parse_tenth_percent_value(text: &str) -> (r: Result<u16, Error>)
    requires
        tenth_percent_ok(text@),
    ensures
        int_outcome(r, |x: u16| x as int, spec_tenth_percent(text@)),
{
    parse_tenth_value(strip_percent(text))
}

/// Parse a value in tenth of % written without its `%`.
fn parse_tenth_value(text: &str) -> (r: Result<u16, Error>)
    requires
        tenth_value_ok(text@),
    ensures
        int_outcome(r, |x: u16| x as int, spec_tenth_value(text@)),
{
    let n = text.unicode_len();
    match find_char_index(text, '.') {
        Some(dot_pos) => {
            if dot_pos == n - 2 && (text.get_char(n - 1) as u32) < 128 {
                let t = trim_start_matches(text, '+');
                let m = t.unicode_len();
                let mut res: u16 = 0;
                let mut i: usize = 0;
                while i < m
                    invariant
                        m == t@.len(),
                        find_char(text@, '.') == Some(dot_pos as int),
                        dot_before_last(text@, dot_pos as int),
                        t@ == spec_trim_start_char(text@, '+'),
                        i <= m,
                        tenth_digits(t@, 0, 0) == tenth_digits(t@, i as int, res as int),
                        tenth_digits_fit(t@, i as int, res as int),
                    decreases m - i,
                {
                    let c = t.get_char(i);
                    if c != '.' {
                        if '0' <= c && c <= '9' {
                            let d = ((c as u32) - ('0' as u32)) as u16;
                            res = res * 10 + d;
                        } else {
                            return Err(
                                html_error(concat3("Invalid 10th-percent value: \"", t, "\"")),
                            );
                        }
                    }
                    i = i + 1;
                }
                Ok(res)
            } else {
                Err(html_error(concat3("Invalid 10th-percent value: \"", text, "\"")))
            }
        },
        None => match read_u16(text) {
            Ok(v) => Ok(v * 10),
            Err(e) => Err(e),
        },
    }
}

/// A percent value that may hold one decimal (`"-10.0"`), read as a whole percent.
pub open spec fn spec_percent_maybe_dot(v: Seq<char>) -> Result<int, Failure> {
    let neg = v.len() > 0 && v[0] == '-';
    match spec_tenth_percent(spec_trim_start_char(v, '-')) {
        Ok(x) => Ok(
            if neg {
                -(x / 10)
            } else {
                x / 10
            },
        ),
        Err(e) => Err(e),
    }
}

/// Reading `v` as a percent value does not panic: its 10th-percent reading stays
/// within a `u16`, is a whole percent and fits in an `i8`.
pub open spec fn percent_maybe_dot_ok(v: Seq<char>) -> bool {
    let t = spec_trim_start_char(v, '-');
    &&& tenth_percent_ok(t)
    &&& spec_tenth_percent(t) matches Ok(x) ==> x % 10 == 0 && x / 10 <= 127
}

/// Parse a percent value which may contain a `.`.
pub fn parse_percent_with_maybe_a_dot(value: &str) -> (r: Result<i8, Error>)
    requires
        percent_maybe_dot_ok(value@),
    ensures
        int_outcome(r, |x: i8| x as int, spec_percent_maybe_dot(value@)),
{
    let neg = value.unicode_len() > 0 && value.get_char(0) == '-';
    let value = trim_start_matches(value, '-');
    match parse_tenth_percent_value(value) {
        Ok(v) => {
            let v = (v / 10) as i8;
            Ok(
                if neg {
                    -v
                } else {
                    v
                },
            )
        },
        Err(e) => Err(e),
    }
}

/// The message of an unknown stat.
pub open spec fn unknown_affix_message(stat: Seq<char>, value: Seq<char>) -> Seq<char> {
    "Failed to parse affix: \""@ + stat + ":"@ + value + "\""@
}

/// The affix of a stat label and its value.
pub open spec fn spec_parse_affix(stat: Seq<char>, value: Seq<char>) -> Result<Affix, Failure> {
    match spec_affix_kind(stat) {
        Some(k) => spec_read_affix(k, value),
        None => Err(Failure::Html(unknown_affix_message(stat, value))),
    }
}

/// Each elemental damage label reads its value as the damage bonus of that element:
/// `"Fire Damage:"` with the text of an `i8` gives `FireDamage` of it, and so on for
/// arcane, dark, dragon, earthen, holy, lightning and water damage.
pub proof fn law_elemental_damage_affixes(n: i8)
    ensures
        spec_parse_affix("Arcane Damage:"@, spec_int_text(n as int)) == Ok::<Affix, Failure>(Affix::ArcaneDamage(n)),
        spec_parse_affix("Dark Damage:"@, spec_int_text(n as int)) == Ok::<Affix, Failure>(Affix::DarkDamage(n)),
        spec_parse_affix("Dragon Damage:"@, spec_int_text(n as int)) == Ok::<Affix, Failure>(Affix::DragonDamage(n)),
        spec_parse_affix("Earthen Damage:"@, spec_int_text(n as int)) == Ok::<Affix, Failure>(Affix::EarthenDamage(n)),
        spec_parse_affix("Fire Damage:"@, spec_int_text(n as int)) == Ok::<Affix, Failure>(Affix::FireDamage(n)),
        spec_parse_affix("Holy Damage:"@, spec_int_text(n as int)) == Ok::<Affix, Failure>(Affix::HolyDamage(n)),
        spec_parse_affix("Lightning Damage:"@, spec_int_text(n as int)) == Ok::<Affix, Failure>(Affix::LightningDamage(n)),
        spec_parse_affix("Water Damage:"@, spec_int_text(n as int)) == Ok::<Affix, Failure>(Affix::WaterDamage(n)),
{
    reveal_strlit("EXP Bonus:");
    reveal_strlit("Gold Bonus:");
    reveal_strlit("Luck Bonus:");
    reveal_strlit("Orn Bonus:");
    reveal_strlit("Blacksmith Time:");
    reveal_strlit("Drop Quality:");
    reveal_strlit("Dungeon Cooldown:");
    reveal_strlit("Gifts:");
    reveal_strlit("Godforge:");
    reveal_strlit("Line Catches:");
    reveal_strlit("Memory Hunting:");
    reveal_strlit("Monster attraction:");
    reveal_strlit("Monster Encounters:");
    reveal_strlit("Monster Power:");
    reveal_strlit("Questing:");
    reveal_strlit("Quest Rewards:");
    reveal_strlit("Raid Rewards:");
    reveal_strlit("Arcane Damage:");
    reveal_strlit("Dark Damage:");
    reveal_strlit("Dragon Damage:");
    reveal_strlit("Earthen Damage:");
    reveal_strlit("Fire Damage:");
    reveal_strlit("Holy Damage:");
    reveal_strlit("Lightning Damage:");
    reveal_strlit("Water Damage:");
    assert("EXP Bonus:"@.len() == 10);
    assert("EXP Bonus:"@[0] == 'E');
    assert("Gold Bonus:"@.len() == 11);
    assert("Gold Bonus:"@[0] == 'G');
    assert("Luck Bonus:"@.len() == 11);
    assert("Luck Bonus:"@[0] == 'L');
    assert("Orn Bonus:"@.len() == 10);
    assert("Orn Bonus:"@[0] == 'O');
    assert("Blacksmith Time:"@.len() == 16);
    assert("Blacksmith Time:"@[0] == 'B');
    assert("Drop Quality:"@.len() == 13);
    assert("Drop Quality:"@[0] == 'D');
    assert("Dungeon Cooldown:"@.len() == 17);
    assert("Dungeon Cooldown:"@[0] == 'D');
    assert("Gifts:"@.len() == 6);
    assert("Gifts:"@[0] == 'G');
    assert("Godforge:"@.len() == 9);
    assert("Godforge:"@[0] == 'G');
    assert("Line Catches:"@.len() == 13);
    assert("Line Catches:"@[0] == 'L');
    assert("Memory Hunting:"@.len() == 15);
    assert("Memory Hunting:"@[0] == 'M');
    assert("Monster attraction:"@.len() == 19);
    assert("Monster attraction:"@[0] == 'M');
    assert("Monster Encounters:"@.len() == 19);
    assert("Monster Encounters:"@[0] == 'M');
    assert("Monster Power:"@.len() == 14);
    assert("Monster Power:"@[0] == 'M');
    assert("Questing:"@.len() == 9);
    assert("Questing:"@[0] == 'Q');
    assert("Quest Rewards:"@.len() == 14);
    assert("Quest Rewards:"@[0] == 'Q');
    assert("Raid Rewards:"@.len() == 13);
    assert("Raid Rewards:"@[0] == 'R');
    assert("Arcane Damage:"@.len() == 14);
    assert("Arcane Damage:"@[0] == 'A');
    assert("Dark Damage:"@.len() == 12);
    assert("Dark Damage:"@[0] == 'D');
    assert("Dragon Damage:"@.len() == 14);
    assert("Dragon Damage:"@[0] == 'D');
    assert("Earthen Damage:"@.len() == 15);
    assert("Earthen Damage:"@[0] == 'E');
    assert("Fire Damage:"@.len() == 12);
    assert("Fire Damage:"@[0] == 'F');
    assert("Holy Damage:"@.len() == 12);
    assert("Holy Damage:"@[0] == 'H');
    assert("Lightning Damage:"@.len() == 17);
    assert("Lightning Damage:"@[0] == 'L');
    assert("Water Damage:"@.len() == 13);
    assert("Water Damage:"@[0] == 'W');
    crate::num::lemma_parse_int_text(n as int, -128, 127);
}

/// The lengths and a few letters of the labels of the affix table, enough to tell
/// each label from the others.
proof fn lemma_affix_labels()
    ensures
        "EXP Bonus:"@.len() == 10,
        "EXP Bonus:"@[0] == 'E',
        "Gold Bonus:"@.len() == 11,
        "Gold Bonus:"@[0] == 'G',
        "Luck Bonus:"@.len() == 11,
        "Luck Bonus:"@[0] == 'L',
        "Orn Bonus:"@.len() == 10,
        "Orn Bonus:"@[0] == 'O',
        "Blacksmith Time:"@.len() == 16,
        "Blacksmith Time:"@[0] == 'B',
        "Drop Quality:"@.len() == 13,
        "Drop Quality:"@[0] == 'D',
        "Drop Quality:"@[1] == 'r',
        "Dungeon Cooldown:"@.len() == 17,
        "Dungeon Cooldown:"@[0] == 'D',
        "Gifts:"@.len() == 6,
        "Gifts:"@[0] == 'G',
        "Godforge:"@.len() == 9,
        "Godforge:"@[0] == 'G',
        "Line Catches:"@.len() == 13,
        "Line Catches:"@[0] == 'L',
        "Memory Hunting:"@.len() == 15,
        "Memory Hunting:"@[0] == 'M',
        "Memory Hunting:"@[1] == 'e',
        "Monster attraction:"@.len() == 19,
        "Monster attraction:"@[0] == 'M',
        "Monster attraction:"@[1] == 'o',
        "Monster attraction:"@[8] == 'a',
        "Monster Encounters:"@.len() == 19,
        "Monster Encounters:"@[0] == 'M',
        "Monster Encounters:"@[1] == 'o',
        "Monster Encounters:"@[8] == 'E',
        "Monster Power:"@.len() == 14,
        "Monster Power:"@[0] == 'M',
        "Questing:"@.len() == 9,
        "Questing:"@[0] == 'Q',
        "Quest Rewards:"@.len() == 14,
        "Quest Rewards:"@[0] == 'Q',
        "Raid Rewards:"@.len() == 13,
        "Raid Rewards:"@[0] == 'R',
        "Arcane Damage:"@.len() == 14,
        "Arcane Damage:"@[0] == 'A',
        "Dark Damage:"@.len() == 12,
        "Dark Damage:"@[0] == 'D',
        "Dark Damage:"@[1] == 'a',
        "Dragon Damage:"@.len() == 14,
        "Dragon Damage:"@[0] == 'D',
        "Dragon Damage:"@[1] == 'r',
        "Earthen Damage:"@.len() == 15,
        "Earthen Damage:"@[0] == 'E',
        "Fire Damage:"@.len() == 12,
        "Fire Damage:"@[0] == 'F',
        "Holy Damage:"@.len() == 12,
        "Holy Damage:"@[0] == 'H',
        "Lightning Damage:"@.len() == 17,
        "Lightning Damage:"@[0] == 'L',
        "Water Damage:"@.len() == 13,
        "Water Damage:"@[0] == 'W',
        "Dark Res:"@.len() == 9,
        "Dark Res:"@[0] == 'D',
        "Holy Res:"@.len() == 9,
        "Holy Res:"@[0] == 'H',
        "Holy Res:"@[1] == 'o',
        "HP-Ward Recovery:"@.len() == 17,
        "HP-Ward Recovery:"@[0] == 'H',
        "Mana-Ward Recovery:"@.len() == 19,
        "Mana-Ward Recovery:"@[0] == 'M',
        "Mana-Ward Recovery:"@[1] == 'a',
        "Ward Absorption:"@.len() == 16,
        "Ward Absorption:"@[0] == 'W',
        "Ward Power:"@.len() == 11,
        "Ward Power:"@[0] == 'W',
        "Ward Power:"@[5] == 'P',
        "Ward Recovery:"@.len() == 14,
        "Ward Recovery:"@[0] == 'W',
        "Ward Start:"@.len() == 11,
        "Ward Start:"@[0] == 'W',
        "Ward Start:"@[5] == 'S',
        "Ward Turns:"@.len() == 11,
        "Ward Turns:"@[0] == 'W',
        "Ward Turns:"@[5] == 'T',
        "Apex:"@.len() == 5,
        "Apex:"@[0] == 'A',
        "Apex Rate:"@.len() == 10,
        "Apex Rate:"@[0] == 'A',
        "Apex Start:"@.len() == 11,
        "Apex Start:"@[0] == 'A',
        "Avidity:"@.len() == 8,
        "Avidity:"@[0] == 'A',
        "Manaflask Charge:"@.len() == 17,
        "Manaflask Charge:"@[0] == 'M',
        "Assassin:"@.len() == 9,
        "Assassin:"@[0] == 'A',
        "Assassin:"@[1] == 's',
        "Buff Duration:"@.len() == 14,
        "Buff Duration:"@[0] == 'B',
        "Debuff Duration:"@.len() == 16,
        "Debuff Duration:"@[0] == 'D',
        "Debuff Fade:"@.len() == 12,
        "Debuff Fade:"@[0] == 'D',
        "Debuff Fade:"@[1] == 'e',
        "Effect Damage:"@.len() == 14,
        "Effect Damage:"@[0] == 'E',
        "Self Damage Reduction:"@.len() == 22,
        "Self Damage Reduction:"@[0] == 'S',
        "Status Protection:"@.len() == 18,
        "Status Protection:"@[0] == 'S',
        "Status Protection:"@[1] == 't',
        "Status Protection:"@[7] == 'P',
        "Status Reflection:"@.len() == 18,
        "Status Reflection:"@[0] == 'S',
        "Status Reflection:"@[1] == 't',
        "Status Reflection:"@[7] == 'R',
        "Beast Taming:"@.len() == 13,
        "Beast Taming:"@[0] == 'B',
        "Beast Taming:"@[2] == 'a',
        "Bestial Bond:"@.len() == 13,
        "Bestial Bond:"@[0] == 'B',
        "Bestial Bond:"@[2] == 's',
        "Follower Act:"@.len() == 13,
        "Follower Act:"@[0] == 'F',
        "Follower Stats:"@.len() == 15,
        "Follower Stats:"@[0] == 'F',
        "Follower Stats:"@[1] == 'o',
        "Follower/Summon AI:"@.len() == 19,
        "Follower/Summon AI:"@[0] == 'F',
        "Instant Summon:"@.len() == 15,
        "Instant Summon:"@[0] == 'I',
        "No Follower Bonus:"@.len() == 18,
        "No Follower Bonus:"@[0] == 'N',
        "Summon Pacts:"@.len() == 13,
        "Summon Pacts:"@[0] == 'S',
        "Summon Pacts:"@[7] == 'P',
        "Summon Protection:"@.len() == 18,
        "Summon Protection:"@[0] == 'S',
        "Summon Protection:"@[1] == 'u',
        "Summon Stats:"@.len() == 13,
        "Summon Stats:"@[0] == 'S',
        "Summon Stats:"@[7] == 'S',
        "Summon Turns:"@.len() == 13,
        "Summon Turns:"@[0] == 'S',
        "Summon Turns:"@[7] == 'T',
        "Accuracy:"@.len() == 9,
        "Accuracy:"@[0] == 'A',
        "Accuracy:"@[1] == 'c',
        "Area Defense:"@.len() == 13,
        "Area Defense:"@[0] == 'A',
        "Crit damage:"@.len() == 12,
        "Crit damage:"@[0] == 'C',
        "Double Handed:"@.len() == 14,
        "Double Handed:"@[0] == 'D',
        "Double Handed:"@[1] == 'o',
        "Hybrid Damage:"@.len() == 14,
        "Hybrid Damage:"@[0] == 'H',
        "Weapon Proficiency:"@.len() == 19,
        "Weapon Proficiency:"@[0] == 'W',
        "Chain Damage Chance:"@.len() == 20,
        "Chain Damage Chance:"@[0] == 'C',
        "Collateral Chance:"@.len() == 18,
        "Collateral Chance:"@[0] == 'C',
        "Collateral Chance:"@[11] == 'C',
        "Collateral Damage:"@.len() == 18,
        "Collateral Damage:"@[0] == 'C',
        "Collateral Damage:"@[11] == 'D',
        "Damage Limit Break:"@.len() == 19,
        "Damage Limit Break:"@[0] == 'D',
        "Damage to Ward:"@.len() == 15,
        "Damage to Ward:"@[0] == 'D',
        "Def/Res Penetration:"@.len() == 20,
        "Def/Res Penetration:"@[0] == 'D',
        "Elemental Weaknesses:"@.len() == 21,
        "Elemental Weaknesses:"@[0] == 'E',
        "Faction Damage:"@.len() == 15,
        "Faction Damage:"@[0] == 'F',
        "Faction Damage:"@[1] == 'a',
        "Multi-target Damage:"@.len() == 20,
        "Multi-target Damage:"@[0] == 'M',
        "Defend Power:"@.len() == 13,
        "Defend Power:"@[0] == 'D',
        "Defend Power:"@[1] == 'e',
        "Healing:"@.len() == 8,
        "Healing:"@[0] == 'H',
        "HP Regen:"@.len() == 9,
        "HP Regen:"@[0] == 'H',
        "HP Regen:"@[1] == 'P',
        "Life Siphon:"@.len() == 12,
        "Life Siphon:"@[0] == 'L',
        "Mana Reduction:"@.len() == 15,
        "Mana Reduction:"@[0] == 'M',
        "Mana Reduction:"@[1] == 'a',
        "Mana Regen:"@.len() == 11,
        "Mana Regen:"@[0] == 'M',
        "Parapet:"@.len() == 8,
        "Parapet:"@[0] == 'P',
        "Turn Reduction:"@.len() == 15,
        "Turn Reduction:"@[0] == 'T',
        "Ult Defense:"@.len() == 12,
        "Ult Defense:"@[0] == 'U',
        "Ally Effect Chance:"@.len() == 19,
        "Ally Effect Chance:"@[0] == 'A',
        "Critical Chain:"@.len() == 15,
        "Critical Chain:"@[0] == 'C',
        "View distance:"@.len() == 14,
        "View distance:"@[0] == 'V',
        "View distance:"@[5] == 'd',
        "View Distance:"@.len() == 14,
        "View Distance:"@[0] == 'V',
        "View Distance:"@[5] == 'D',
{
    reveal_strlit("EXP Bonus:");
    reveal_strlit("Gold Bonus:");
    reveal_strlit("Luck Bonus:");
    reveal_strlit("Orn Bonus:");
    reveal_strlit("Blacksmith Time:");
    reveal_strlit("Drop Quality:");
    reveal_strlit("Dungeon Cooldown:");
    reveal_strlit("Gifts:");
    reveal_strlit("Godforge:");
    reveal_strlit("Line Catches:");
    reveal_strlit("Memory Hunting:");
    reveal_strlit("Monster attraction:");
    reveal_strlit("Monster Encounters:");
    reveal_strlit("Monster Power:");
    reveal_strlit("Questing:");
    reveal_strlit("Quest Rewards:");
    reveal_strlit("Raid Rewards:");
    reveal_strlit("Arcane Damage:");
    reveal_strlit("Dark Damage:");
    reveal_strlit("Dragon Damage:");
    reveal_strlit("Earthen Damage:");
    reveal_strlit("Fire Damage:");
    reveal_strlit("Holy Damage:");
    reveal_strlit("Lightning Damage:");
    reveal_strlit("Water Damage:");
    reveal_strlit("Dark Res:");
    reveal_strlit("Holy Res:");
    reveal_strlit("HP-Ward Recovery:");
    reveal_strlit("Mana-Ward Recovery:");
    reveal_strlit("Ward Absorption:");
    reveal_strlit("Ward Power:");
    reveal_strlit("Ward Recovery:");
    reveal_strlit("Ward Start:");
    reveal_strlit("Ward Turns:");
    reveal_strlit("Apex:");
    reveal_strlit("Apex Rate:");
    reveal_strlit("Apex Start:");
    reveal_strlit("Avidity:");
    reveal_strlit("Manaflask Charge:");
    reveal_strlit("Assassin:");
    reveal_strlit("Buff Duration:");
    reveal_strlit("Debuff Duration:");
    reveal_strlit("Debuff Fade:");
    reveal_strlit("Effect Damage:");
    reveal_strlit("Self Damage Reduction:");
    reveal_strlit("Status Protection:");
    reveal_strlit("Status Reflection:");
    reveal_strlit("Beast Taming:");
    reveal_strlit("Bestial Bond:");
    reveal_strlit("Follower Act:");
    reveal_strlit("Follower Stats:");
    reveal_strlit("Follower/Summon AI:");
    reveal_strlit("Instant Summon:");
    reveal_strlit("No Follower Bonus:");
    reveal_strlit("Summon Pacts:");
    reveal_strlit("Summon Protection:");
    reveal_strlit("Summon Stats:");
    reveal_strlit("Summon Turns:");
    reveal_strlit("Accuracy:");
    reveal_strlit("Area Defense:");
    reveal_strlit("Crit damage:");
    reveal_strlit("Double Handed:");
    reveal_strlit("Hybrid Damage:");
    reveal_strlit("Weapon Proficiency:");
    reveal_strlit("Chain Damage Chance:");
    reveal_strlit("Collateral Chance:");
    reveal_strlit("Collateral Damage:");
    reveal_strlit("Damage Limit Break:");
    reveal_strlit("Damage to Ward:");
    reveal_strlit("Def/Res Penetration:");
    reveal_strlit("Elemental Weaknesses:");
    reveal_strlit("Faction Damage:");
    reveal_strlit("Multi-target Damage:");
    reveal_strlit("Defend Power:");
    reveal_strlit("Healing:");
    reveal_strlit("HP Regen:");
    reveal_strlit("Life Siphon:");
    reveal_strlit("Mana Reduction:");
    reveal_strlit("Mana Regen:");
    reveal_strlit("Parapet:");
    reveal_strlit("Turn Reduction:");
    reveal_strlit("Ult Defense:");
    reveal_strlit("Ally Effect Chance:");
    reveal_strlit("Critical Chain:");
    reveal_strlit("View distance:");
    reveal_strlit("View Distance:");
}

/// Each label of the affix table from `EXP Bonus:` to `Earthen Damage:` reads its value as the
/// affix it names: the label with the text of an integer of the affix's type gives
/// that affix holding that integer.
pub proof fn law_affix_labels_1(c: i16, a: i8, d: u16, b: u8)
    ensures
        spec_parse_affix("EXP Bonus:"@, spec_int_text(c as int)) == Ok::<Affix, Failure>(Affix::ExpBonus(c)),
        spec_parse_affix("Gold Bonus:"@, spec_int_text(b as int)) == Ok::<Affix, Failure>(Affix::GoldBonus(b)),
        spec_parse_affix("Luck Bonus:"@, spec_int_text(d as int)) == Ok::<Affix, Failure>(Affix::LuckBonus(d)),
        spec_parse_affix("Orn Bonus:"@, spec_int_text(b as int)) == Ok::<Affix, Failure>(Affix::OrnBonus(b)),
        spec_parse_affix("Blacksmith Time:"@, spec_int_text(a as int)) == Ok::<Affix, Failure>(Affix::BlacksmithTime(a)),
        spec_parse_affix("Drop Quality:"@, spec_int_text(b as int)) == Ok::<Affix, Failure>(Affix::DropQuality(b)),
        spec_parse_affix("Dungeon Cooldown:"@, spec_int_text(a as int)) == Ok::<Affix, Failure>(Affix::DungeonCooldown(a)),
        spec_parse_affix("Gifts:"@, spec_int_text(b as int)) == Ok::<Affix, Failure>(Affix::Gifts(b)),
        spec_parse_affix("Godforge:"@, spec_int_text(b as int)) == Ok::<Affix, Failure>(Affix::Godforge(b)),
        spec_parse_affix("Line Catches:"@, spec_int_text(b as int)) == Ok::<Affix, Failure>(Affix::LineCatches(b)),
        spec_parse_affix("Memory Hunting:"@, spec_int_text(b as int)) == Ok::<Affix, Failure>(Affix::MemoryHunting(b)),
        spec_parse_affix("Monster attraction:"@, spec_int_text(b as int)) == Ok::<Affix, Failure>(Affix::MonsterAttraction(b)),
        spec_parse_affix("Monster Encounters:"@, spec_int_text(b as int)) == Ok::<Affix, Failure>(Affix::MonsterEncounters(b)),
        spec_parse_affix("Monster Power:"@, spec_int_text(b as int)) == Ok::<Affix, Failure>(Affix::MonsterPower(b)),
        spec_parse_affix("Questing:"@, spec_int_text(b as int)) == Ok::<Affix, Failure>(Affix::Questing(b)),
        spec_parse_affix("Quest Rewards:"@, spec_int_text(b as int)) == Ok::<Affix, Failure>(Affix::QuestRewards(b)),
        spec_parse_affix("Raid Rewards:"@, spec_int_text(b as int)) == Ok::<Affix, Failure>(Affix::RaidRewards(b)),
        spec_parse_affix("Arcane Damage:"@, spec_int_text(a as int)) == Ok::<Affix, Failure>(Affix::ArcaneDamage(a)),
        spec_parse_affix("Dark Damage:"@, spec_int_text(a as int)) == Ok::<Affix, Failure>(Affix::DarkDamage(a)),
        spec_parse_affix("Dragon Damage:"@, spec_int_text(a as int)) == Ok::<Affix, Failure>(Affix::DragonDamage(a)),
        spec_parse_affix("Earthen Damage:"@, spec_int_text(a as int)) == Ok::<Affix, Failure>(Affix::EarthenDamage(a)),
{
    lemma_affix_labels();
    crate::num::lemma_parse_int_text(c as int, -32768, 32767);
    crate::num::lemma_parse_int_text(a as int, -128, 127);
    crate::num::lemma_parse_int_text(d as int, 0, 65535);
    crate::num::lemma_parse_int_text(b as int, 0, 255);
}

/// Each label of the affix table from `Fire Damage:` to `Effect Damage:` reads its value as the
/// affix it names: the label with the text of an integer of the affix's type gives
/// that affix holding that integer.
pub proof fn law_affix_labels_2(a: i8, b: u8)
    ensures
        spec_parse_affix("Fire Damage:"@, spec_int_text(a as int)) == Ok::<Affix, Failure>(Affix::FireDamage(a)),
        spec_parse_affix("Holy Damage:"@, spec_int_text(a as int)) == Ok::<Affix, Failure>(Affix::HolyDamage(a)),
        spec_parse_affix("Lightning Damage:"@, spec_int_text(a as int)) == Ok::<Affix, Failure>(Affix::LightningDamage(a)),
        spec_parse_affix("Water Damage:"@, spec_int_text(a as int)) == Ok::<Affix, Failure>(Affix::WaterDamage(a)),
        spec_parse_affix("Dark Res:"@, spec_int_text(a as int)) == Ok::<Affix, Failure>(Affix::DarkRes(a)),
        spec_parse_affix("Holy Res:"@, spec_int_text(a as int)) == Ok::<Affix, Failure>(Affix::HolyRes(a)),
        spec_parse_affix("HP-Ward Recovery:"@, spec_int_text(b as int)) == Ok::<Affix, Failure>(Affix::HpWardRecovery(b)),
        spec_parse_affix("Mana-Ward Recovery:"@, spec_int_text(b as int)) == Ok::<Affix, Failure>(Affix::ManaWardRecovery(b)),
        spec_parse_affix("Ward Absorption:"@, spec_int_text(b as int)) == Ok::<Affix, Failure>(Affix::WardAbsorption(b)),
        spec_parse_affix("Ward Power:"@, spec_int_text(b as int)) == Ok::<Affix, Failure>(Affix::WardPower(b)),
        spec_parse_affix("Ward Recovery:"@, spec_int_text(b as int)) == Ok::<Affix, Failure>(Affix::WardRecovery(b)),
        spec_parse_affix("Ward Turns:"@, spec_int_text(b as int)) == Ok::<Affix, Failure>(Affix::WardTurns(b)),
        spec_parse_affix("Apex:"@, spec_int_text(b as int)) == Ok::<Affix, Failure>(Affix::Apex(b)),
        spec_parse_affix("Apex Rate:"@, spec_int_text(b as int)) == Ok::<Affix, Failure>(Affix::ApexRate(b)),
        spec_parse_affix("Apex Start:"@, spec_int_text(b as int)) == Ok::<Affix, Failure>(Affix::ApexStart(b)),
        spec_parse_affix("Manaflask Charge:"@, spec_int_text(b as int)) == Ok::<Affix, Failure>(Affix::ManaflaskCharge(b)),
        spec_parse_affix("Assassin:"@, spec_int_text(b as int)) == Ok::<Affix, Failure>(Affix::Assassin(b)),
        spec_parse_affix("Buff Duration:"@, spec_int_text(b as int)) == Ok::<Affix, Failure>(Affix::BuffDuration(b)),
        spec_parse_affix("Debuff Duration:"@, spec_int_text(b as int)) == Ok::<Affix, Failure>(Affix::DebuffDuration(b)),
        spec_parse_affix("Debuff Fade:"@, spec_int_text(b as int)) == Ok::<Affix, Failure>(Affix::DebuffFade(b)),
        spec_parse_affix("Effect Damage:"@, spec_int_text(b as int)) == Ok::<Affix, Failure>(Affix::EffectDamage(b)),
{
    lemma_affix_labels();
    crate::num::lemma_parse_int_text(a as int, -128, 127);
    crate::num::lemma_parse_int_text(b as int, 0, 255);
}

/// Each label of the affix table from `Self Damage Reduction:` to `Collateral Chance:` reads its value as the
/// affix it names: the label with the text of an integer of the affix's type gives
/// that affix holding that integer.
pub proof fn law_affix_labels_3(a: i8, b: u8)
    ensures
        spec_parse_affix("Self Damage Reduction:"@, spec_int_text(a as int)) == Ok::<Affix, Failure>(Affix::SelfDamageReduction(a)),
        spec_parse_affix("Status Protection:"@, spec_int_text(b as int)) == Ok::<Affix, Failure>(Affix::StatusProtection(b)),
        spec_parse_affix("Status Reflection:"@, spec_int_text(b as int)) == Ok::<Affix, Failure>(Affix::StatusReflection(b)),
        spec_parse_affix("Beast Taming:"@, spec_int_text(b as int)) == Ok::<Affix, Failure>(Affix::BeastTaming(b)),
        spec_parse_affix("Bestial Bond:"@, spec_int_text(b as int)) == Ok::<Affix, Failure>(Affix::BestialBond(b)),
        spec_parse_affix("Follower Act:"@, spec_int_text(a as int)) == Ok::<Affix, Failure>(Affix::FollowerAct(a)),
        spec_parse_affix("Follower/Summon AI:"@, spec_int_text(b as int)) == Ok::<Affix, Failure>(Affix::FollowerSummonAI(b)),
        spec_parse_affix("Instant Summon:"@, spec_int_text(b as int)) == Ok::<Affix, Failure>(Affix::InstantSummon(b)),
        spec_parse_affix("No Follower Bonus:"@, spec_int_text(b as int)) == Ok::<Affix, Failure>(Affix::NoFollowerBonus(b)),
        spec_parse_affix("Summon Pacts:"@, spec_int_text(b as int)) == Ok::<Affix, Failure>(Affix::SummonPacts(b)),
        spec_parse_affix("Summon Protection:"@, spec_int_text(b as int)) == Ok::<Affix, Failure>(Affix::SummonProtection(b)),
        spec_parse_affix("Summon Stats:"@, spec_int_text(a as int)) == Ok::<Affix, Failure>(Affix::SummonStats(a)),
        spec_parse_affix("Summon Turns:"@, spec_int_text(a as int)) == Ok::<Affix, Failure>(Affix::SummonTurns(a)),
        spec_parse_affix("Accuracy:"@, spec_int_text(b as int)) == Ok::<Affix, Failure>(Affix::Accuracy(b)),
        spec_parse_affix("Area Defense:"@, spec_int_text(b as int)) == Ok::<Affix, Failure>(Affix::AreaDefense(b)),
        spec_parse_affix("Crit damage:"@, spec_int_text(a as int)) == Ok::<Affix, Failure>(Affix::CritDamage(a)),
        spec_parse_affix("Double Handed:"@, spec_int_text(b as int)) == Ok::<Affix, Failure>(Affix::DoubleHanded(b)),
        spec_parse_affix("Hybrid Damage:"@, spec_int_text(b as int)) == Ok::<Affix, Failure>(Affix::HybridDamage(b)),
        spec_parse_affix("Weapon Proficiency:"@, spec_int_text(b as int)) == Ok::<Affix, Failure>(Affix::WeaponProficiency(b)),
        spec_parse_affix("Chain Damage Chance:"@, spec_int_text(b as int)) == Ok::<Affix, Failure>(Affix::ChainDamageChance(b)),
        spec_parse_affix("Collateral Chance:"@, spec_int_text(b as int)) == Ok::<Affix, Failure>(Affix::CollateralChance(b)),
{
    lemma_affix_labels();
    crate::num::lemma_parse_int_text(a as int, -128, 127);
    crate::num::lemma_parse_int_text(b as int, 0, 255);
}

/// Each label of the affix table from `Collateral Damage:` to `View Distance:` reads its value as the
/// affix it names: the label with the text of an integer of the affix's type gives
/// that affix holding that integer.
pub proof fn law_affix_labels_4(b: u8)
    ensures
        spec_parse_affix("Collateral Damage:"@, spec_int_text(b as int)) == Ok::<Affix, Failure>(Affix::CollateralDamage(b)),
        spec_parse_affix("Damage Limit Break:"@, spec_int_text(b as int)) == Ok::<Affix, Failure>(Affix::DamageLimitBreak(b)),
        spec_parse_affix("Damage to Ward:"@, spec_int_text(b as int)) == Ok::<Affix, Failure>(Affix::DamageToWard(b)),
        spec_parse_affix("Def/Res Penetration:"@, spec_int_text(b as int)) == Ok::<Affix, Failure>(Affix::DefresPenetration(b)),
        spec_parse_affix("Elemental Weaknesses:"@, spec_int_text(b as int)) == Ok::<Affix, Failure>(Affix::ElementalWeaknesses(b)),
        spec_parse_affix("Faction Damage:"@, spec_int_text(b as int)) == Ok::<Affix, Failure>(Affix::FactionDamage(b)),
        spec_parse_affix("Multi-target Damage:"@, spec_int_text(b as int)) == Ok::<Affix, Failure>(Affix::MultitargetDamage(b)),
        spec_parse_affix("Defend Power:"@, spec_int_text(b as int)) == Ok::<Affix, Failure>(Affix::DefendPower(b)),
        spec_parse_affix("Healing:"@, spec_int_text(b as int)) == Ok::<Affix, Failure>(Affix::Healing(b)),
        spec_parse_affix("HP Regen:"@, spec_int_text(b as int)) == Ok::<Affix, Failure>(Affix::HpRegen(b)),
        spec_parse_affix("Life Siphon:"@, spec_int_text(b as int)) == Ok::<Affix, Failure>(Affix::LifeSiphon(b)),
        spec_parse_affix("Parapet:"@, spec_int_text(b as int)) == Ok::<Affix, Failure>(Affix::Parapet(b)),
        spec_parse_affix("Turn Reduction:"@, spec_int_text(b as int)) == Ok::<Affix, Failure>(Affix::TurnReduction(b)),
        spec_parse_affix("Ult Defense:"@, spec_int_text(b as int)) == Ok::<Affix, Failure>(Affix::UltDefense(b)),
        spec_parse_affix("Ally Effect Chance:"@, spec_int_text(b as int)) == Ok::<Affix, Failure>(Affix::AllyEffectChance(b)),
        spec_parse_affix("Critical Chain:"@, spec_int_text(b as int)) == Ok::<Affix, Failure>(Affix::CriticalChain(b)),
        spec_parse_affix("View distance:"@, spec_int_text(b as int)) == Ok::<Affix, Failure>(Affix::ViewDistance(b)),
        spec_parse_affix("View Distance:"@, spec_int_text(b as int)) == Ok::<Affix, Failure>(Affix::ViewDistance(b)),
{
    lemma_affix_labels();
    crate::num::lemma_parse_int_text(b as int, 0, 255);
}

/// No character of `s` from index `i` on is `c`: the search for `c` finds nothing.
proof fn lemma_find_char_absent(s: Seq<char>, c: char, i: int)
    requires
        0 <= i,
        forall|j: int| i <= j < s.len() ==> s[j] != c,
    ensures
        crate::text::find_char_from(s, c, i) is None,
    decreases s.len() - i,
{
    if i < s.len() {
        lemma_find_char_absent(s, c, i + 1);
    }
}

/// The decimal text of a number, read as a 10th-percent value, is ten times the number.
proof fn lemma_tenth_of_dec(n: nat)
    requires
        n <= 6553,
    ensures
        spec_tenth_percent(spec_dec(n)) == Ok::<int, Failure>(n as int * 10),
        crate::text::drop_while(spec_dec(n), crate::text::is_char('-')) == spec_dec(n),
{
    let d = spec_dec(n);
    crate::num::lemma_dec_digits(n);
    crate::num::lemma_parse_dec(n, 65535);
    lemma_find_char_absent(d, '.', 0);
    assert(is_digit(d.last()));
    assert(without_percent(d) == d);
    assert(is_digit(d[0]));
}

/// The affixes read as percents or turns: `Avidity:` and `Mana Regen:` with a whole
/// number give ten times it (in tenths of a percent); `Follower Stats:` and
/// `Mana Reduction:` with a number, or `-` and a number, give that number or its
/// opposite; `Ward Start:` with `n turns` gives `n`.
pub proof fn law_percent_affixes(n: u16, m: u8, t: u8)
    requires
        n <= 6553,
        m <= 127,
    ensures
        spec_parse_affix("Avidity:"@, spec_dec(n as nat)) == Ok::<Affix, Failure>(
            Affix::Avidity((n as int * 10) as u16),
        ),
        spec_parse_affix("Mana Regen:"@, spec_dec(n as nat)) == Ok::<Affix, Failure>(
            Affix::ManaRegen((n as int * 10) as u16),
        ),
        spec_parse_affix("Follower Stats:"@, spec_dec(m as nat)) == Ok::<Affix, Failure>(
            Affix::FollowerStats(m as i8),
        ),
        spec_parse_affix("Follower Stats:"@, seq!['-'] + spec_dec(m as nat)) == Ok::<Affix, Failure>(
            Affix::FollowerStats(-(m as int) as i8),
        ),
        spec_parse_affix("Mana Reduction:"@, spec_dec(m as nat)) == Ok::<Affix, Failure>(
            Affix::ManaReduction(m as i8),
        ),
        spec_parse_affix("Mana Reduction:"@, seq!['-'] + spec_dec(m as nat)) == Ok::<Affix, Failure>(
            Affix::ManaReduction(-(m as int) as i8),
        ),
        spec_parse_affix("Ward Start:"@, spec_dec(t as nat) + " turns"@) == Ok::<Affix, Failure>(
            Affix::WardStart(t),
        ),
{
    lemma_affix_labels();
    lemma_tenth_of_dec(n as nat);
    lemma_tenth_of_dec(m as nat);
    let dm = spec_dec(m as nat);
    let neg = seq!['-'] + dm;
    assert(neg.drop_first() =~= dm);
    assert(crate::text::drop_while(neg, crate::text::is_char('-')) == dm);
    reveal_strlit(" turns");
    let dt = spec_dec(t as nat);
    let w = dt + " turns"@;
    assert(w.subrange(w.len() - " turns"@.len(), w.len() as int) =~= " turns"@);
    assert(w.subrange(0, w.len() - " turns"@.len()) =~= dt);
    crate::num::lemma_parse_dec(t as nat, 255);
}

impl Affix {
    /// Parse the HTML text content of the stat node into an [`Affix`].
    ///
    /// Most affixes look like "xxx: x" or "xxx: x%". `stat` refers to the left-most part of the
    /// `:` (with the `:` included) and `value` to the right part (with the `:` excluded).
    ///
    /// # Errors
    /// Returns an error if the stat is unknown or parsing the value failed.
    pub fn parse_from_codex_html(stat: &str, value: &str) -> (r: Result<Self, Error>)
        requires
            spec_affix_kind(stat@) matches Some(k) ==> affix_value_ok(k, value@),
        ensures
            outcome(r, spec_parse_affix(stat@, value@)),
    {
        match affix_kind(stat) {
            Some(k) => read_affix(k, value),
            None => {
                let head = concat3("Failed to parse affix: \"", stat, ":");
                Err(html_error(concat3(head.as_str(), value, "\"")))
            },
        }
    }
}

} // verus!
