use vstd::prelude::*;

use crate::error::Error;
use crate::reader::{EsoLogReaderLine, spec_next_token};
use crate::scalars::{chop, sep_ok};
use crate::strutil::str_eq;
use crate::tokens::{clean_atom, lemma_clean_atom_is_atom, lemma_next_token_atom};

verus! {

/// Outcome kind of a combat event.
#[derive(Debug, Clone, Copy, PartialEq, Eq, Structural)]
pub enum ActionResult {
    AbilityOnCooldown,
    Absorbed,
    BadTarget,
    BattleStandardsDisabled,
    BattleStandardAlreadyExistsForGuild,
    BattleStandardLimit,
    BattleStandardNoPermission,
    BattleStandardTabardMismatch,
    BattleStandardTooCloseToCapturable,
    Bladeturn,
    Blocked,
    BlockedDamage,
    Busy,
    CannotUse,
    CantSeeTarget,
    CantSwapHotbarIsOverridden,
    CantSwapWhileChangingGear,
    CasterDead,
    CriticalDamage,
    CriticalHeal,
    Damage,
    DamageShielded,
    Defended,
    Died,
    DiedCompanionXp,
    DiedXp,
    Disarmed,
    Disoriented,
    Dodged,
    DotTick,
    DotTickCritical,
    Failed,
    FailedRequirements,
    FailedSiegeCreationRequirements,
    Falling,
    FallDamage,
    Feared,
    ForwardCampAlreadyExistsForGuild,
    ForwardCampNoPermission,
    ForwardCampTabardMismatch,
    GraveyardDisallowedInInstance,
    GraveyardTooClose,
    Heal,
    HealAbsorbed,
    HotTick,
    HotTickCritical,
    Immune,
    InsufficientResource,
    Intercepted,
    Interrupt,
    Invalid,
    InvalidFixture,
    InvalidJusticeTarget,
    InvalidTerrain,
    InAir,
    InCombat,
    InEnemyKeep,
    InEnemyOutpost,
    InEnemyResource,
    InEnemyTown,
    InHideyhole,
    KilledByDaedricWeapon,
    KilledBySubzone,
    KillingBlow,
    Knockback,
    Levitated,
    MercenaryLimit,
    Miss,
    MissingEmptySoulGem,
    MissingFilledSoulGem,
    MobileGraveyardLimit,
    Mounted,
    MustBeInOwnKeep,
    NotEnoughInventorySpace,
    NotEnoughInventorySpaceSoulGem,
    NotEnoughSpaceForSiege,
    NoLocationFound,
    NoRamAttackableTargetWithinRange,
    NoWeaponsToSwapTo,
    NpcTooClose,
    Offbalance,
    Pacified,
    Parried,
    PartialResist,
    PowerDrain,
    PowerEnergize,
    PreciseDamage,
    Queued,
    RamAttackableTargetsAllDestroyed,
    RamAttackableTargetsAllOccupied,
    Recalling,
    Reflected,
    Reincarnating,
    Resist,
    Resurrect,
    Rooted,
    SiegeLimit,
    SiegeNotAllowedInZone,
    SiegeTooClose,
    Silenced,
    Snared,
    SoulGemResurrectionAccepted,
    Sprinting,
    Staggered,
    Stunned,
    Swimming,
    TargetDead,
    TargetNotInView,
    TargetNotPvpFlagged,
    TargetOutOfRange,
    TargetTooClose,
    UnevenTerrain,
    Weaponswap,
    WreckingDamage,
    WrongWeapon,
    LinkedCast,
}

impl ActionResult {
    /// Wire spelling of this variant.
    pub open spec fn spec_name(self) -> Seq<char> {
        match self {
            ActionResult::AbilityOnCooldown => "ABILITY_ON_COOLDOWN"@,
            ActionResult::Absorbed => "ABSORBED"@,
            ActionResult::BadTarget => "BAD_TARGET"@,
            ActionResult::BattleStandardsDisabled => "BATTLE_STANDARDS_DISABLED"@,
            ActionResult::BattleStandardAlreadyExistsForGuild => "BATTLE_STANDARD_ALREADY_EXISTS_FOR_GUILD"@,
            ActionResult::BattleStandardLimit => "BATTLE_STANDARD_LIMIT"@,
            ActionResult::BattleStandardNoPermission => "BATTLE_STANDARD_NO_PERMISSION"@,
            ActionResult::BattleStandardTabardMismatch => "BATTLE_STANDARD_TABARD_MISMATCH"@,
            ActionResult::BattleStandardTooCloseToCapturable => "BATTLE_STANDARD_TOO_CLOSE_TO_CAPTURABLE"@,
            ActionResult::Bladeturn => "BLADETURN"@,
            ActionResult::Blocked => "BLOCKED"@,
            ActionResult::BlockedDamage => "BLOCKED_DAMAGE"@,
            ActionResult::Busy => "BUSY"@,
            ActionResult::CannotUse => "CANNOT_USE"@,
            ActionResult::CantSeeTarget => "CANT_SEE_TARGET"@,
            ActionResult::CantSwapHotbarIsOverridden => "CANT_SWAP_HOTBAR_IS_OVERRIDDEN"@,
            ActionResult::CantSwapWhileChangingGear => "CANT_SWAP_WHILE_CHANGING_GEAR"@,
            ActionResult::CasterDead => "CASTER_DEAD"@,
            ActionResult::CriticalDamage => "CRITICAL_DAMAGE"@,
            ActionResult::CriticalHeal => "CRITICAL_HEAL"@,
            ActionResult::Damage => "DAMAGE"@,
            ActionResult::DamageShielded => "DAMAGE_SHIELDED"@,
            ActionResult::Defended => "DEFENDED"@,
            ActionResult::Died => "DIED"@,
            ActionResult::DiedCompanionXp => "DIED_COMPANION_XP"@,
            ActionResult::DiedXp => "DIED_XP"@,
            ActionResult::Disarmed => "DISARMED"@,
            ActionResult::Disoriented => "DISORIENTED"@,
            ActionResult::Dodged => "DODGED"@,
            ActionResult::DotTick => "DOT_TICK"@,
            ActionResult::DotTickCritical => "DOT_TICK_CRITICAL"@,
            ActionResult::Failed => "FAILED"@,
            ActionResult::FailedRequirements => "FAILED_REQUIREMENTS"@,
            ActionResult::FailedSiegeCreationRequirements => "FAILED_SIEGE_CREATION_REQUIREMENTS"@,
            ActionResult::Falling => "FALLING"@,
            ActionResult::FallDamage => "FALL_DAMAGE"@,
            ActionResult::Feared => "FEARED"@,
            ActionResult::ForwardCampAlreadyExistsForGuild => "FORWARD_CAMP_ALREADY_EXISTS_FOR_GUILD"@,
            ActionResult::ForwardCampNoPermission => "FORWARD_CAMP_NO_PERMISSION"@,
            ActionResult::ForwardCampTabardMismatch => "FORWARD_CAMP_TABARD_MISMATCH"@,
            ActionResult::GraveyardDisallowedInInstance => "GRAVEYARD_DISALLOWED_IN_INSTANCE"@,
            ActionResult::GraveyardTooClose => "GRAVEYARD_TOO_CLOSE"@,
            ActionResult::Heal => "HEAL"@,
            ActionResult::HealAbsorbed => "HEAL_ABSORBED"@,
            ActionResult::HotTick => "HOT_TICK"@,
            ActionResult::HotTickCritical => "HOT_TICK_CRITICAL"@,
            ActionResult::Immune => "IMMUNE"@,
            ActionResult::InsufficientResource => "INSUFFICIENT_RESOURCE"@,
            ActionResult::Intercepted => "INTERCEPTED"@,
            ActionResult::Interrupt => "INTERRUPT"@,
            ActionResult::Invalid => "INVALID"@,
            ActionResult::InvalidFixture => "INVALID_FIXTURE"@,
            ActionResult::InvalidJusticeTarget => "INVALID_JUSTICE_TARGET"@,
            ActionResult::InvalidTerrain => "INVALID_TERRAIN"@,
            ActionResult::InAir => "IN_AIR"@,
            ActionResult::InCombat => "IN_COMBAT"@,
            ActionResult::InEnemyKeep => "IN_ENEMY_KEEP"@,
            ActionResult::InEnemyOutpost => "IN_ENEMY_OUTPOST"@,
            ActionResult::InEnemyResource => "IN_ENEMY_RESOURCE"@,
            ActionResult::InEnemyTown => "IN_ENEMY_TOWN"@,
            ActionResult::InHideyhole => "IN_HIDEYHOLE"@,
            ActionResult::KilledByDaedricWeapon => "KILLED_BY_DAEDRIC_WEAPON"@,
            ActionResult::KilledBySubzone => "KILLED_BY_SUBZONE"@,
            ActionResult::KillingBlow => "KILLING_BLOW"@,
            ActionResult::Knockback => "KNOCKBACK"@,
            ActionResult::Levitated => "LEVITATED"@,
            ActionResult::MercenaryLimit => "MERCENARY_LIMIT"@,
            ActionResult::Miss => "MISS"@,
            ActionResult::MissingEmptySoulGem => "MISSING_EMPTY_SOUL_GEM"@,
            ActionResult::MissingFilledSoulGem => "MISSING_FILLED_SOUL_GEM"@,
            ActionResult::MobileGraveyardLimit => "MOBILE_GRAVEYARD_LIMIT"@,
            ActionResult::Mounted => "MOUNTED"@,
            ActionResult::MustBeInOwnKeep => "MUST_BE_IN_OWN_KEEP"@,
            ActionResult::NotEnoughInventorySpace => "NOT_ENOUGH_INVENTORY_SPACE"@,
            ActionResult::NotEnoughInventorySpaceSoulGem => "NOT_ENOUGH_INVENTORY_SPACE_SOUL_GEM"@,
            ActionResult::NotEnoughSpaceForSiege => "NOT_ENOUGH_SPACE_FOR_SIEGE"@,
            ActionResult::NoLocationFound => "NO_LOCATION_FOUND"@,
            ActionResult::NoRamAttackableTargetWithinRange => "NO_RAM_ATTACKABLE_TARGET_WITHIN_RANGE"@,
            ActionResult::NoWeaponsToSwapTo => "NO_WEAPONS_TO_SWAP_TO"@,
            ActionResult::NpcTooClose => "NPC_TOO_CLOSE"@,
            ActionResult::Offbalance => "OFFBALANCE"@,
            ActionResult::Pacified => "PACIFIED"@,
            ActionResult::Parried => "PARRIED"@,
            ActionResult::PartialResist => "PARTIAL_RESIST"@,
            ActionResult::PowerDrain => "POWER_DRAIN"@,
            ActionResult::PowerEnergize => "POWER_ENERGIZE"@,
            ActionResult::PreciseDamage => "PRECISE_DAMAGE"@,
            ActionResult::Queued => "QUEUED"@,
            ActionResult::RamAttackableTargetsAllDestroyed => "RAM_ATTACKABLE_TARGETS_ALL_DESTROYED"@,
            ActionResult::RamAttackableTargetsAllOccupied => "RAM_ATTACKABLE_TARGETS_ALL_OCCUPIED"@,
            ActionResult::Recalling => "RECALLING"@,
            ActionResult::Reflected => "REFLECTED"@,
            ActionResult::Reincarnating => "REINCARNATING"@,
            ActionResult::Resist => "RESIST"@,
            ActionResult::Resurrect => "RESURRECT"@,
            ActionResult::Rooted => "ROOTED"@,
            ActionResult::SiegeLimit => "SIEGE_LIMIT"@,
            ActionResult::SiegeNotAllowedInZone => "SIEGE_NOT_ALLOWED_IN_ZONE"@,
            ActionResult::SiegeTooClose => "SIEGE_TOO_CLOSE"@,
            ActionResult::Silenced => "SILENCED"@,
            ActionResult::Snared => "SNARED"@,
            ActionResult::SoulGemResurrectionAccepted => "SOUL_GEM_RESURRECTION_ACCEPTED"@,
            ActionResult::Sprinting => "SPRINTING"@,
            ActionResult::Staggered => "STAGGERED"@,
            ActionResult::Stunned => "STUNNED"@,
            ActionResult::Swimming => "SWIMMING"@,
            ActionResult::TargetDead => "TARGET_DEAD"@,
            ActionResult::TargetNotInView => "TARGET_NOT_IN_VIEW"@,
            ActionResult::TargetNotPvpFlagged => "TARGET_NOT_PVP_FLAGGED"@,
            ActionResult::TargetOutOfRange => "TARGET_OUT_OF_RANGE"@,
            ActionResult::TargetTooClose => "TARGET_TOO_CLOSE"@,
            ActionResult::UnevenTerrain => "UNEVEN_TERRAIN"@,
            ActionResult::Weaponswap => "WEAPONSWAP"@,
            ActionResult::WreckingDamage => "WRECKING_DAMAGE"@,
            ActionResult::WrongWeapon => "WRONG_WEAPON"@,
            ActionResult::LinkedCast => "LINKED_CAST"@,
        }
    }

    /// The variant spelled by the given token, if any.
    pub open spec fn spec_from_name(t: Seq<char>) -> Option<ActionResult> {
        if t.len() == 4 {
            if t == "BUSY"@ {
                Some(ActionResult::Busy)
            } else if t == "DIED"@ {
                Some(ActionResult::Died)
            } else if t == "HEAL"@ {
                Some(ActionResult::Heal)
            } else if t == "MISS"@ {
                Some(ActionResult::Miss)
            } else {
                None
            }
        } else if t.len() == 6 {
            if t == "DAMAGE"@ {
                Some(ActionResult::Damage)
            } else if t == "DODGED"@ {
                Some(ActionResult::Dodged)
            } else if t == "FAILED"@ {
                Some(ActionResult::Failed)
            } else if t == "FEARED"@ {
                Some(ActionResult::Feared)
            } else if t == "IMMUNE"@ {
                Some(ActionResult::Immune)
            } else if t == "IN_AIR"@ {
                Some(ActionResult::InAir)
            } else if t == "QUEUED"@ {
                Some(ActionResult::Queued)
            } else if t == "RESIST"@ {
                Some(ActionResult::Resist)
            } else if t == "ROOTED"@ {
                Some(ActionResult::Rooted)
            } else if t == "SNARED"@ {
                Some(ActionResult::Snared)
            } else {
                None
            }
        } else if t.len() == 7 {
            if t == "BLOCKED"@ {
                Some(ActionResult::Blocked)
            } else if t == "DIED_XP"@ {
                Some(ActionResult::DiedXp)
            } else if t == "FALLING"@ {
                Some(ActionResult::Falling)
            } else if t == "INVALID"@ {
                Some(ActionResult::Invalid)
            } else if t == "MOUNTED"@ {
                Some(ActionResult::Mounted)
            } else if t == "PARRIED"@ {
                Some(ActionResult::Parried)
            } else if t == "STUNNED"@ {
                Some(ActionResult::Stunned)
            } else {
                None
            }
        } else if t.len() == 8 {
            if t == "ABSORBED"@ {
                Some(ActionResult::Absorbed)
            } else if t == "DEFENDED"@ {
                Some(ActionResult::Defended)
            } else if t == "DISARMED"@ {
                Some(ActionResult::Disarmed)
            } else if t == "DOT_TICK"@ {
                Some(ActionResult::DotTick)
            } else if t == "HOT_TICK"@ {
                Some(ActionResult::HotTick)
            } else if t == "PACIFIED"@ {
                Some(ActionResult::Pacified)
            } else if t == "SILENCED"@ {
                Some(ActionResult::Silenced)
            } else if t == "SWIMMING"@ {
                Some(ActionResult::Swimming)
            } else {
                None
            }
        } else if t.len() == 9 {
            if t == "BLADETURN"@ {
                Some(ActionResult::Bladeturn)
            } else if t == "INTERRUPT"@ {
                Some(ActionResult::Interrupt)
            } else if t == "IN_COMBAT"@ {
                Some(ActionResult::InCombat)
            } else if t == "KNOCKBACK"@ {
                Some(ActionResult::Knockback)
            } else if t == "LEVITATED"@ {
                Some(ActionResult::Levitated)
            } else if t == "RECALLING"@ {
                Some(ActionResult::Recalling)
            } else if t == "REFLECTED"@ {
                Some(ActionResult::Reflected)
            } else if t == "RESURRECT"@ {
                Some(ActionResult::Resurrect)
            } else if t == "SPRINTING"@ {
                Some(ActionResult::Sprinting)
            } else if t == "STAGGERED"@ {
                Some(ActionResult::Staggered)
            } else {
                None
            }
        } else if t.len() == 10 {
            if t == "BAD_TARGET"@ {
                Some(ActionResult::BadTarget)
            } else if t == "CANNOT_USE"@ {
                Some(ActionResult::CannotUse)
            } else if t == "OFFBALANCE"@ {
                Some(ActionResult::Offbalance)
            } else if t == "WEAPONSWAP"@ {
                Some(ActionResult::Weaponswap)
            } else {
                None
            }
        } else if t.len() == 11 {
            if t == "CASTER_DEAD"@ {
                Some(ActionResult::CasterDead)
            } else if t == "DISORIENTED"@ {
                Some(ActionResult::Disoriented)
            } else if t == "FALL_DAMAGE"@ {
                Some(ActionResult::FallDamage)
            } else if t == "INTERCEPTED"@ {
                Some(ActionResult::Intercepted)
            } else if t == "POWER_DRAIN"@ {
                Some(ActionResult::PowerDrain)
            } else if t == "SIEGE_LIMIT"@ {
                Some(ActionResult::SiegeLimit)
            } else if t == "TARGET_DEAD"@ {
                Some(ActionResult::TargetDead)
            } else if t == "LINKED_CAST"@ {
                Some(ActionResult::LinkedCast)
            } else {
                None
            }
        } else if t.len() == 12 {
            if t == "IN_HIDEYHOLE"@ {
                Some(ActionResult::InHideyhole)
            } else if t == "KILLING_BLOW"@ {
                Some(ActionResult::KillingBlow)
            } else if t == "WRONG_WEAPON"@ {
                Some(ActionResult::WrongWeapon)
            } else {
                None
            }
        } else if t.len() == 13 {
            if t == "CRITICAL_HEAL"@ {
                Some(ActionResult::CriticalHeal)
            } else if t == "HEAL_ABSORBED"@ {
                Some(ActionResult::HealAbsorbed)
            } else if t == "IN_ENEMY_KEEP"@ {
                Some(ActionResult::InEnemyKeep)
            } else if t == "IN_ENEMY_TOWN"@ {
                Some(ActionResult::InEnemyTown)
            } else if t == "NPC_TOO_CLOSE"@ {
                Some(ActionResult::NpcTooClose)
            } else if t == "REINCARNATING"@ {
                Some(ActionResult::Reincarnating)
            } else {
                None
            }
        } else if t.len() == 14 {
            if t == "BLOCKED_DAMAGE"@ {
                Some(ActionResult::BlockedDamage)
            } else if t == "PARTIAL_RESIST"@ {
                Some(ActionResult::PartialResist)
            } else if t == "POWER_ENERGIZE"@ {
                Some(ActionResult::PowerEnergize)
            } else if t == "PRECISE_DAMAGE"@ {
                Some(ActionResult::PreciseDamage)
            } else if t == "UNEVEN_TERRAIN"@ {
                Some(ActionResult::UnevenTerrain)
            } else {
                None
            }
        } else if t.len() == 15 {
            if t == "CANT_SEE_TARGET"@ {
                Some(ActionResult::CantSeeTarget)
            } else if t == "CRITICAL_DAMAGE"@ {
                Some(ActionResult::CriticalDamage)
            } else if t == "DAMAGE_SHIELDED"@ {
                Some(ActionResult::DamageShielded)
            } else if t == "INVALID_FIXTURE"@ {
                Some(ActionResult::InvalidFixture)
            } else if t == "INVALID_TERRAIN"@ {
                Some(ActionResult::InvalidTerrain)
            } else if t == "MERCENARY_LIMIT"@ {
                Some(ActionResult::MercenaryLimit)
            } else if t == "SIEGE_TOO_CLOSE"@ {
                Some(ActionResult::SiegeTooClose)
            } else if t == "WRECKING_DAMAGE"@ {
                Some(ActionResult::WreckingDamage)
            } else {
                None
            }
        } else if t.len() == 16 {
            if t == "IN_ENEMY_OUTPOST"@ {
                Some(ActionResult::InEnemyOutpost)
            } else if t == "TARGET_TOO_CLOSE"@ {
                Some(ActionResult::TargetTooClose)
            } else {
                None
            }
        } else if t.len() == 17 {
            if t == "DIED_COMPANION_XP"@ {
                Some(ActionResult::DiedCompanionXp)
            } else if t == "DOT_TICK_CRITICAL"@ {
                Some(ActionResult::DotTickCritical)
            } else if t == "HOT_TICK_CRITICAL"@ {
                Some(ActionResult::HotTickCritical)
            } else if t == "IN_ENEMY_RESOURCE"@ {
                Some(ActionResult::InEnemyResource)
            } else if t == "KILLED_BY_SUBZONE"@ {
                Some(ActionResult::KilledBySubzone)
            } else if t == "NO_LOCATION_FOUND"@ {
                Some(ActionResult::NoLocationFound)
            } else {
                None
            }
        } else if t.len() == 18 {
            if t == "TARGET_NOT_IN_VIEW"@ {
                Some(ActionResult::TargetNotInView)
            } else {
                None
            }
        } else if t.len() == 19 {
            if t == "ABILITY_ON_COOLDOWN"@ {
                Some(ActionResult::AbilityOnCooldown)
            } else if t == "FAILED_REQUIREMENTS"@ {
                Some(ActionResult::FailedRequirements)
            } else if t == "GRAVEYARD_TOO_CLOSE"@ {
                Some(ActionResult::GraveyardTooClose)
            } else if t == "MUST_BE_IN_OWN_KEEP"@ {
                Some(ActionResult::MustBeInOwnKeep)
            } else if t == "TARGET_OUT_OF_RANGE"@ {
                Some(ActionResult::TargetOutOfRange)
            } else {
                None
            }
        } else if t.len() == 21 {
            if t == "BATTLE_STANDARD_LIMIT"@ {
                Some(ActionResult::BattleStandardLimit)
            } else if t == "INSUFFICIENT_RESOURCE"@ {
                Some(ActionResult::InsufficientResource)
            } else if t == "NO_WEAPONS_TO_SWAP_TO"@ {
                Some(ActionResult::NoWeaponsToSwapTo)
            } else {
                None
            }
        } else if t.len() == 22 {
            if t == "INVALID_JUSTICE_TARGET"@ {
                Some(ActionResult::InvalidJusticeTarget)
            } else if t == "MISSING_EMPTY_SOUL_GEM"@ {
                Some(ActionResult::MissingEmptySoulGem)
            } else if t == "MOBILE_GRAVEYARD_LIMIT"@ {
                Some(ActionResult::MobileGraveyardLimit)
            } else if t == "TARGET_NOT_PVP_FLAGGED"@ {
                Some(ActionResult::TargetNotPvpFlagged)
            } else {
                None
            }
        } else if t.len() == 23 {
            if t == "MISSING_FILLED_SOUL_GEM"@ {
                Some(ActionResult::MissingFilledSoulGem)
            } else {
                None
            }
        } else if t.len() == 24 {
            if t == "KILLED_BY_DAEDRIC_WEAPON"@ {
                Some(ActionResult::KilledByDaedricWeapon)
            } else {
                None
            }
        } else if t.len() == 25 {
            if t == "BATTLE_STANDARDS_DISABLED"@ {
                Some(ActionResult::BattleStandardsDisabled)
            } else if t == "SIEGE_NOT_ALLOWED_IN_ZONE"@ {
                Some(ActionResult::SiegeNotAllowedInZone)
            } else {
                None
            }
        } else if t.len() == 26 {
            if t == "FORWARD_CAMP_NO_PERMISSION"@ {
                Some(ActionResult::ForwardCampNoPermission)
            } else if t == "NOT_ENOUGH_INVENTORY_SPACE"@ {
                Some(ActionResult::NotEnoughInventorySpace)
            } else if t == "NOT_ENOUGH_SPACE_FOR_SIEGE"@ {
                Some(ActionResult::NotEnoughSpaceForSiege)
            } else {
                None
            }
        } else if t.len() == 28 {
            if t == "FORWARD_CAMP_TABARD_MISMATCH"@ {
                Some(ActionResult::ForwardCampTabardMismatch)
            } else {
                None
            }
        } else if t.len() == 29 {
            if t == "BATTLE_STANDARD_NO_PERMISSION"@ {
                Some(ActionResult::BattleStandardNoPermission)
            } else if t == "CANT_SWAP_WHILE_CHANGING_GEAR"@ {
                Some(ActionResult::CantSwapWhileChangingGear)
            } else {
                None
            }
        } else if t.len() == 30 {
            if t == "CANT_SWAP_HOTBAR_IS_OVERRIDDEN"@ {
                Some(ActionResult::CantSwapHotbarIsOverridden)
            } else if t == "SOUL_GEM_RESURRECTION_ACCEPTED"@ {
                Some(ActionResult::SoulGemResurrectionAccepted)
            } else {
                None
            }
        } else if t.len() == 31 {
            if t == "BATTLE_STANDARD_TABARD_MISMATCH"@ {
                Some(ActionResult::BattleStandardTabardMismatch)
            } else {
                None
            }
        } else if t.len() == 32 {
            if t == "GRAVEYARD_DISALLOWED_IN_INSTANCE"@ {
                Some(ActionResult::GraveyardDisallowedInInstance)
            } else {
                None
            }
        } else if t.len() == 34 {
            if t == "FAILED_SIEGE_CREATION_REQUIREMENTS"@ {
                Some(ActionResult::FailedSiegeCreationRequirements)
            } else {
                None
            }
        } else if t.len() == 35 {
            if t == "NOT_ENOUGH_INVENTORY_SPACE_SOUL_GEM"@ {
                Some(ActionResult::NotEnoughInventorySpaceSoulGem)
            } else if t == "RAM_ATTACKABLE_TARGETS_ALL_OCCUPIED"@ {
                Some(ActionResult::RamAttackableTargetsAllOccupied)
            } else {
                None
            }
        } else if t.len() == 36 {
            if t == "RAM_ATTACKABLE_TARGETS_ALL_DESTROYED"@ {
                Some(ActionResult::RamAttackableTargetsAllDestroyed)
            } else {
                None
            }
        } else if t.len() == 37 {
            if t == "FORWARD_CAMP_ALREADY_EXISTS_FOR_GUILD"@ {
                Some(ActionResult::ForwardCampAlreadyExistsForGuild)
            } else if t == "NO_RAM_ATTACKABLE_TARGET_WITHIN_RANGE"@ {
                Some(ActionResult::NoRamAttackableTargetWithinRange)
            } else {
                None
            }
        } else if t.len() == 39 {
            if t == "BATTLE_STANDARD_TOO_CLOSE_TO_CAPTURABLE"@ {
                Some(ActionResult::BattleStandardTooCloseToCapturable)
            } else {
                None
            }
        } else if t.len() == 40 {
            if t == "BATTLE_STANDARD_ALREADY_EXISTS_FOR_GUILD"@ {
                Some(ActionResult::BattleStandardAlreadyExistsForGuild)
            } else {
                None
            }
        } else {
            None
        }
    }

    pub fn name(&self) -> (r: &'static str)
        ensures
            r@ == self.spec_name(),
    {
        match self {
            ActionResult::AbilityOnCooldown => "ABILITY_ON_COOLDOWN",
            ActionResult::Absorbed => "ABSORBED",
            ActionResult::BadTarget => "BAD_TARGET",
            ActionResult::BattleStandardsDisabled => "BATTLE_STANDARDS_DISABLED",
            ActionResult::BattleStandardAlreadyExistsForGuild => "BATTLE_STANDARD_ALREADY_EXISTS_FOR_GUILD",
            ActionResult::BattleStandardLimit => "BATTLE_STANDARD_LIMIT",
            ActionResult::BattleStandardNoPermission => "BATTLE_STANDARD_NO_PERMISSION",
            ActionResult::BattleStandardTabardMismatch => "BATTLE_STANDARD_TABARD_MISMATCH",
            ActionResult::BattleStandardTooCloseToCapturable => "BATTLE_STANDARD_TOO_CLOSE_TO_CAPTURABLE",
            ActionResult::Bladeturn => "BLADETURN",
            ActionResult::Blocked => "BLOCKED",
            ActionResult::BlockedDamage => "BLOCKED_DAMAGE",
            ActionResult::Busy => "BUSY",
            ActionResult::CannotUse => "CANNOT_USE",
            ActionResult::CantSeeTarget => "CANT_SEE_TARGET",
            ActionResult::CantSwapHotbarIsOverridden => "CANT_SWAP_HOTBAR_IS_OVERRIDDEN",
            ActionResult::CantSwapWhileChangingGear => "CANT_SWAP_WHILE_CHANGING_GEAR",
            ActionResult::CasterDead => "CASTER_DEAD",
            ActionResult::CriticalDamage => "CRITICAL_DAMAGE",
            ActionResult::CriticalHeal => "CRITICAL_HEAL",
            ActionResult::Damage => "DAMAGE",
            ActionResult::DamageShielded => "DAMAGE_SHIELDED",
            ActionResult::Defended => "DEFENDED",
            ActionResult::Died => "DIED",
            ActionResult::DiedCompanionXp => "DIED_COMPANION_XP",
            ActionResult::DiedXp => "DIED_XP",
            ActionResult::Disarmed => "DISARMED",
            ActionResult::Disoriented => "DISORIENTED",
            ActionResult::Dodged => "DODGED",
            ActionResult::DotTick => "DOT_TICK",
            ActionResult::DotTickCritical => "DOT_TICK_CRITICAL",
            ActionResult::Failed => "FAILED",
            ActionResult::FailedRequirements => "FAILED_REQUIREMENTS",
            ActionResult::FailedSiegeCreationRequirements => "FAILED_SIEGE_CREATION_REQUIREMENTS",
            ActionResult::Falling => "FALLING",
            ActionResult::FallDamage => "FALL_DAMAGE",
            ActionResult::Feared => "FEARED",
            ActionResult::ForwardCampAlreadyExistsForGuild => "FORWARD_CAMP_ALREADY_EXISTS_FOR_GUILD",
            ActionResult::ForwardCampNoPermission => "FORWARD_CAMP_NO_PERMISSION",
            ActionResult::ForwardCampTabardMismatch => "FORWARD_CAMP_TABARD_MISMATCH",
            ActionResult::GraveyardDisallowedInInstance => "GRAVEYARD_DISALLOWED_IN_INSTANCE",
            ActionResult::GraveyardTooClose => "GRAVEYARD_TOO_CLOSE",
            ActionResult::Heal => "HEAL",
            ActionResult::HealAbsorbed => "HEAL_ABSORBED",
            ActionResult::HotTick => "HOT_TICK",
            ActionResult::HotTickCritical => "HOT_TICK_CRITICAL",
            ActionResult::Immune => "IMMUNE",
            ActionResult::InsufficientResource => "INSUFFICIENT_RESOURCE",
            ActionResult::Intercepted => "INTERCEPTED",
            ActionResult::Interrupt => "INTERRUPT",
            ActionResult::Invalid => "INVALID",
            ActionResult::InvalidFixture => "INVALID_FIXTURE",
            ActionResult::InvalidJusticeTarget => "INVALID_JUSTICE_TARGET",
            ActionResult::InvalidTerrain => "INVALID_TERRAIN",
            ActionResult::InAir => "IN_AIR",
            ActionResult::InCombat => "IN_COMBAT",
            ActionResult::InEnemyKeep => "IN_ENEMY_KEEP",
            ActionResult::InEnemyOutpost => "IN_ENEMY_OUTPOST",
            ActionResult::InEnemyResource => "IN_ENEMY_RESOURCE",
            ActionResult::InEnemyTown => "IN_ENEMY_TOWN",
            ActionResult::InHideyhole => "IN_HIDEYHOLE",
            ActionResult::KilledByDaedricWeapon => "KILLED_BY_DAEDRIC_WEAPON",
            ActionResult::KilledBySubzone => "KILLED_BY_SUBZONE",
            ActionResult::KillingBlow => "KILLING_BLOW",
            ActionResult::Knockback => "KNOCKBACK",
            ActionResult::Levitated => "LEVITATED",
            ActionResult::MercenaryLimit => "MERCENARY_LIMIT",
            ActionResult::Miss => "MISS",
            ActionResult::MissingEmptySoulGem => "MISSING_EMPTY_SOUL_GEM",
            ActionResult::MissingFilledSoulGem => "MISSING_FILLED_SOUL_GEM",
            ActionResult::MobileGraveyardLimit => "MOBILE_GRAVEYARD_LIMIT",
            ActionResult::Mounted => "MOUNTED",
            ActionResult::MustBeInOwnKeep => "MUST_BE_IN_OWN_KEEP",
            ActionResult::NotEnoughInventorySpace => "NOT_ENOUGH_INVENTORY_SPACE",
            ActionResult::NotEnoughInventorySpaceSoulGem => "NOT_ENOUGH_INVENTORY_SPACE_SOUL_GEM",
            ActionResult::NotEnoughSpaceForSiege => "NOT_ENOUGH_SPACE_FOR_SIEGE",
            ActionResult::NoLocationFound => "NO_LOCATION_FOUND",
            ActionResult::NoRamAttackableTargetWithinRange => "NO_RAM_ATTACKABLE_TARGET_WITHIN_RANGE",
            ActionResult::NoWeaponsToSwapTo => "NO_WEAPONS_TO_SWAP_TO",
            ActionResult::NpcTooClose => "NPC_TOO_CLOSE",
            ActionResult::Offbalance => "OFFBALANCE",
            ActionResult::Pacified => "PACIFIED",
            ActionResult::Parried => "PARRIED",
            ActionResult::PartialResist => "PARTIAL_RESIST",
            ActionResult::PowerDrain => "POWER_DRAIN",
            ActionResult::PowerEnergize => "POWER_ENERGIZE",
            ActionResult::PreciseDamage => "PRECISE_DAMAGE",
            ActionResult::Queued => "QUEUED",
            ActionResult::RamAttackableTargetsAllDestroyed => "RAM_ATTACKABLE_TARGETS_ALL_DESTROYED",
            ActionResult::RamAttackableTargetsAllOccupied => "RAM_ATTACKABLE_TARGETS_ALL_OCCUPIED",
            ActionResult::Recalling => "RECALLING",
            ActionResult::Reflected => "REFLECTED",
            ActionResult::Reincarnating => "REINCARNATING",
            ActionResult::Resist => "RESIST",
            ActionResult::Resurrect => "RESURRECT",
            ActionResult::Rooted => "ROOTED",
            ActionResult::SiegeLimit => "SIEGE_LIMIT",
            ActionResult::SiegeNotAllowedInZone => "SIEGE_NOT_ALLOWED_IN_ZONE",
            ActionResult::SiegeTooClose => "SIEGE_TOO_CLOSE",
            ActionResult::Silenced => "SILENCED",
            ActionResult::Snared => "SNARED",
            ActionResult::SoulGemResurrectionAccepted => "SOUL_GEM_RESURRECTION_ACCEPTED",
            ActionResult::Sprinting => "SPRINTING",
            ActionResult::Staggered => "STAGGERED",
            ActionResult::Stunned => "STUNNED",
            ActionResult::Swimming => "SWIMMING",
            ActionResult::TargetDead => "TARGET_DEAD",
            ActionResult::TargetNotInView => "TARGET_NOT_IN_VIEW",
            ActionResult::TargetNotPvpFlagged => "TARGET_NOT_PVP_FLAGGED",
            ActionResult::TargetOutOfRange => "TARGET_OUT_OF_RANGE",
            ActionResult::TargetTooClose => "TARGET_TOO_CLOSE",
            ActionResult::UnevenTerrain => "UNEVEN_TERRAIN",
            ActionResult::Weaponswap => "WEAPONSWAP",
            ActionResult::WreckingDamage => "WRECKING_DAMAGE",
            ActionResult::WrongWeapon => "WRONG_WEAPON",
            ActionResult::LinkedCast => "LINKED_CAST",
        }
    }

    pub fn from_token(t: &str) -> (r: Option<ActionResult>)
        ensures
            r == Self::spec_from_name(t@),
    {
        let n = t.unicode_len();
        if n == 4 {
            if str_eq(t, "BUSY") {
                Some(ActionResult::Busy)
            } else if str_eq(t, "DIED") {
                Some(ActionResult::Died)
            } else if str_eq(t, "HEAL") {
                Some(ActionResult::Heal)
            } else if str_eq(t, "MISS") {
                Some(ActionResult::Miss)
            } else {
                None
            }
        } else if n == 6 {
            if str_eq(t, "DAMAGE") {
                Some(ActionResult::Damage)
            } else if str_eq(t, "DODGED") {
                Some(ActionResult::Dodged)
            } else if str_eq(t, "FAILED") {
                Some(ActionResult::Failed)
            } else if str_eq(t, "FEARED") {
                Some(ActionResult::Feared)
            } else if str_eq(t, "IMMUNE") {
                Some(ActionResult::Immune)
            } else if str_eq(t, "IN_AIR") {
                Some(ActionResult::InAir)
            } else if str_eq(t, "QUEUED") {
                Some(ActionResult::Queued)
            } else if str_eq(t, "RESIST") {
                Some(ActionResult::Resist)
            } else if str_eq(t, "ROOTED") {
                Some(ActionResult::Rooted)
            } else if str_eq(t, "SNARED") {
                Some(ActionResult::Snared)
            } else {
                None
            }
        } else if n == 7 {
            if str_eq(t, "BLOCKED") {
                Some(ActionResult::Blocked)
            } else if str_eq(t, "DIED_XP") {
                Some(ActionResult::DiedXp)
            } else if str_eq(t, "FALLING") {
                Some(ActionResult::Falling)
            } else if str_eq(t, "INVALID") {
                Some(ActionResult::Invalid)
            } else if str_eq(t, "MOUNTED") {
                Some(ActionResult::Mounted)
            } else if str_eq(t, "PARRIED") {
                Some(ActionResult::Parried)
            } else if str_eq(t, "STUNNED") {
                Some(ActionResult::Stunned)
            } else {
                None
            }
        } else if n == 8 {
            if str_eq(t, "ABSORBED") {
                Some(ActionResult::Absorbed)
            } else if str_eq(t, "DEFENDED") {
                Some(ActionResult::Defended)
            } else if str_eq(t, "DISARMED") {
                Some(ActionResult::Disarmed)
            } else if str_eq(t, "DOT_TICK") {
                Some(ActionResult::DotTick)
            } else if str_eq(t, "HOT_TICK") {
                Some(ActionResult::HotTick)
            } else if str_eq(t, "PACIFIED") {
                Some(ActionResult::Pacified)
            } else if str_eq(t, "SILENCED") {
                Some(ActionResult::Silenced)
            } else if str_eq(t, "SWIMMING") {
                Some(ActionResult::Swimming)
            } else {
                None
            }
        } else if n == 9 {
            if str_eq(t, "BLADETURN") {
                Some(ActionResult::Bladeturn)
            } else if str_eq(t, "INTERRUPT") {
                Some(ActionResult::Interrupt)
            } else if str_eq(t, "IN_COMBAT") {
                Some(ActionResult::InCombat)
            } else if str_eq(t, "KNOCKBACK") {
                Some(ActionResult::Knockback)
            } else if str_eq(t, "LEVITATED") {
                Some(ActionResult::Levitated)
            } else if str_eq(t, "RECALLING") {
                Some(ActionResult::Recalling)
            } else if str_eq(t, "REFLECTED") {
                Some(ActionResult::Reflected)
            } else if str_eq(t, "RESURRECT") {
                Some(ActionResult::Resurrect)
            } else if str_eq(t, "SPRINTING") {
                Some(ActionResult::Sprinting)
            } else if str_eq(t, "STAGGERED") {
                Some(ActionResult::Staggered)
            } else {
                None
            }
        } else if n == 10 {
            if str_eq(t, "BAD_TARGET") {
                Some(ActionResult::BadTarget)
            } else if str_eq(t, "CANNOT_USE") {
                Some(ActionResult::CannotUse)
            } else if str_eq(t, "OFFBALANCE") {
                Some(ActionResult::Offbalance)
            } else if str_eq(t, "WEAPONSWAP") {
                Some(ActionResult::Weaponswap)
            } else {
                None
            }
        } else if n == 11 {
            if str_eq(t, "CASTER_DEAD") {
                Some(ActionResult::CasterDead)
            } else if str_eq(t, "DISORIENTED") {
                Some(ActionResult::Disoriented)
            } else if str_eq(t, "FALL_DAMAGE") {
                Some(ActionResult::FallDamage)
            } else if str_eq(t, "INTERCEPTED") {
                Some(ActionResult::Intercepted)
            } else if str_eq(t, "POWER_DRAIN") {
                Some(ActionResult::PowerDrain)
            } else if str_eq(t, "SIEGE_LIMIT") {
                Some(ActionResult::SiegeLimit)
            } else if str_eq(t, "TARGET_DEAD") {
                Some(ActionResult::TargetDead)
            } else if str_eq(t, "LINKED_CAST") {
                Some(ActionResult::LinkedCast)
            } else {
                None
            }
        } else if n == 12 {
            if str_eq(t, "IN_HIDEYHOLE") {
                Some(ActionResult::InHideyhole)
            } else if str_eq(t, "KILLING_BLOW") {
                Some(ActionResult::KillingBlow)
            } else if str_eq(t, "WRONG_WEAPON") {
                Some(ActionResult::WrongWeapon)
            } else {
                None
            }
        } else if n == 13 {
            if str_eq(t, "CRITICAL_HEAL") {
                Some(ActionResult::CriticalHeal)
            } else if str_eq(t, "HEAL_ABSORBED") {
                Some(ActionResult::HealAbsorbed)
            } else if str_eq(t, "IN_ENEMY_KEEP") {
                Some(ActionResult::InEnemyKeep)
            } else if str_eq(t, "IN_ENEMY_TOWN") {
                Some(ActionResult::InEnemyTown)
            } else if str_eq(t, "NPC_TOO_CLOSE") {
                Some(ActionResult::NpcTooClose)
            } else if str_eq(t, "REINCARNATING") {
                Some(ActionResult::Reincarnating)
            } else {
                None
            }
        } else if n == 14 {
            if str_eq(t, "BLOCKED_DAMAGE") {
                Some(ActionResult::BlockedDamage)
            } else if str_eq(t, "PARTIAL_RESIST") {
                Some(ActionResult::PartialResist)
            } else if str_eq(t, "POWER_ENERGIZE") {
                Some(ActionResult::PowerEnergize)
            } else if str_eq(t, "PRECISE_DAMAGE") {
                Some(ActionResult::PreciseDamage)
            } else if str_eq(t, "UNEVEN_TERRAIN") {
                Some(ActionResult::UnevenTerrain)
            } else {
                None
            }
        } else if n == 15 {
            if str_eq(t, "CANT_SEE_TARGET") {
                Some(ActionResult::CantSeeTarget)
            } else if str_eq(t, "CRITICAL_DAMAGE") {
                Some(ActionResult::CriticalDamage)
            } else if str_eq(t, "DAMAGE_SHIELDED") {
                Some(ActionResult::DamageShielded)
            } else if str_eq(t, "INVALID_FIXTURE") {
                Some(ActionResult::InvalidFixture)
            } else if str_eq(t, "INVALID_TERRAIN") {
                Some(ActionResult::InvalidTerrain)
            } else if str_eq(t, "MERCENARY_LIMIT") {
                Some(ActionResult::MercenaryLimit)
            } else if str_eq(t, "SIEGE_TOO_CLOSE") {
                Some(ActionResult::SiegeTooClose)
            } else if str_eq(t, "WRECKING_DAMAGE") {
                Some(ActionResult::WreckingDamage)
            } else {
                None
            }
        } else if n == 16 {
            if str_eq(t, "IN_ENEMY_OUTPOST") {
                Some(ActionResult::InEnemyOutpost)
            } else if str_eq(t, "TARGET_TOO_CLOSE") {
                Some(ActionResult::TargetTooClose)
            } else {
                None
            }
        } else if n == 17 {
            if str_eq(t, "DIED_COMPANION_XP") {
                Some(ActionResult::DiedCompanionXp)
            } else if str_eq(t, "DOT_TICK_CRITICAL") {
                Some(ActionResult::DotTickCritical)
            } else if str_eq(t, "HOT_TICK_CRITICAL") {
                Some(ActionResult::HotTickCritical)
            } else if str_eq(t, "IN_ENEMY_RESOURCE") {
                Some(ActionResult::InEnemyResource)
            } else if str_eq(t, "KILLED_BY_SUBZONE") {
                Some(ActionResult::KilledBySubzone)
            } else if str_eq(t, "NO_LOCATION_FOUND") {
                Some(ActionResult::NoLocationFound)
            } else {
                None
            }
        } else if n == 18 {
            if str_eq(t, "TARGET_NOT_IN_VIEW") {
                Some(ActionResult::TargetNotInView)
            } else {
                None
            }
        } else if n == 19 {
            if str_eq(t, "ABILITY_ON_COOLDOWN") {
                Some(ActionResult::AbilityOnCooldown)
            } else if str_eq(t, "FAILED_REQUIREMENTS") {
                Some(ActionResult::FailedRequirements)
            } else if str_eq(t, "GRAVEYARD_TOO_CLOSE") {
                Some(ActionResult::GraveyardTooClose)
            } else if str_eq(t, "MUST_BE_IN_OWN_KEEP") {
                Some(ActionResult::MustBeInOwnKeep)
            } else if str_eq(t, "TARGET_OUT_OF_RANGE") {
                Some(ActionResult::TargetOutOfRange)
            } else {
                None
            }
        } else if n == 21 {
            if str_eq(t, "BATTLE_STANDARD_LIMIT") {
                Some(ActionResult::BattleStandardLimit)
            } else if str_eq(t, "INSUFFICIENT_RESOURCE") {
                Some(ActionResult::InsufficientResource)
            } else if str_eq(t, "NO_WEAPONS_TO_SWAP_TO") {
                Some(ActionResult::NoWeaponsToSwapTo)
            } else {
                None
            }
        } else if n == 22 {
            if str_eq(t, "INVALID_JUSTICE_TARGET") {
                Some(ActionResult::InvalidJusticeTarget)
            } else if str_eq(t, "MISSING_EMPTY_SOUL_GEM") {
                Some(ActionResult::MissingEmptySoulGem)
            } else if str_eq(t, "MOBILE_GRAVEYARD_LIMIT") {
                Some(ActionResult::MobileGraveyardLimit)
            } else if str_eq(t, "TARGET_NOT_PVP_FLAGGED") {
                Some(ActionResult::TargetNotPvpFlagged)
            } else {
                None
            }
        } else if n == 23 {
            if str_eq(t, "MISSING_FILLED_SOUL_GEM") {
                Some(ActionResult::MissingFilledSoulGem)
            } else {
                None
            }
        } else if n == 24 {
            if str_eq(t, "KILLED_BY_DAEDRIC_WEAPON") {
                Some(ActionResult::KilledByDaedricWeapon)
            } else {
                None
            }
        } else if n == 25 {
            if str_eq(t, "BATTLE_STANDARDS_DISABLED") {
                Some(ActionResult::BattleStandardsDisabled)
            } else if str_eq(t, "SIEGE_NOT_ALLOWED_IN_ZONE") {
                Some(ActionResult::SiegeNotAllowedInZone)
            } else {
                None
            }
        } else if n == 26 {
            if str_eq(t, "FORWARD_CAMP_NO_PERMISSION") {
                Some(ActionResult::ForwardCampNoPermission)
            } else if str_eq(t, "NOT_ENOUGH_INVENTORY_SPACE") {
                Some(ActionResult::NotEnoughInventorySpace)
            } else if str_eq(t, "NOT_ENOUGH_SPACE_FOR_SIEGE") {
                Some(ActionResult::NotEnoughSpaceForSiege)
            } else {
                None
            }
        } else if n == 28 {
            if str_eq(t, "FORWARD_CAMP_TABARD_MISMATCH") {
                Some(ActionResult::ForwardCampTabardMismatch)
            } else {
                None
            }
        } else if n == 29 {
            if str_eq(t, "BATTLE_STANDARD_NO_PERMISSION") {
                Some(ActionResult::BattleStandardNoPermission)
            } else if str_eq(t, "CANT_SWAP_WHILE_CHANGING_GEAR") {
                Some(ActionResult::CantSwapWhileChangingGear)
            } else {
                None
            }
        } else if n == 30 {
            if str_eq(t, "CANT_SWAP_HOTBAR_IS_OVERRIDDEN") {
                Some(ActionResult::CantSwapHotbarIsOverridden)
            } else if str_eq(t, "SOUL_GEM_RESURRECTION_ACCEPTED") {
                Some(ActionResult::SoulGemResurrectionAccepted)
            } else {
                None
            }
        } else if n == 31 {
            if str_eq(t, "BATTLE_STANDARD_TABARD_MISMATCH") {
                Some(ActionResult::BattleStandardTabardMismatch)
            } else {
                None
            }
        } else if n == 32 {
            if str_eq(t, "GRAVEYARD_DISALLOWED_IN_INSTANCE") {
                Some(ActionResult::GraveyardDisallowedInInstance)
            } else {
                None
            }
        } else if n == 34 {
            if str_eq(t, "FAILED_SIEGE_CREATION_REQUIREMENTS") {
                Some(ActionResult::FailedSiegeCreationRequirements)
            } else {
                None
            }
        } else if n == 35 {
            if str_eq(t, "NOT_ENOUGH_INVENTORY_SPACE_SOUL_GEM") {
                Some(ActionResult::NotEnoughInventorySpaceSoulGem)
            } else if str_eq(t, "RAM_ATTACKABLE_TARGETS_ALL_OCCUPIED") {
                Some(ActionResult::RamAttackableTargetsAllOccupied)
            } else {
                None
            }
        } else if n == 36 {
            if str_eq(t, "RAM_ATTACKABLE_TARGETS_ALL_DESTROYED") {
                Some(ActionResult::RamAttackableTargetsAllDestroyed)
            } else {
                None
            }
        } else if n == 37 {
            if str_eq(t, "FORWARD_CAMP_ALREADY_EXISTS_FOR_GUILD") {
                Some(ActionResult::ForwardCampAlreadyExistsForGuild)
            } else if str_eq(t, "NO_RAM_ATTACKABLE_TARGET_WITHIN_RANGE") {
                Some(ActionResult::NoRamAttackableTargetWithinRange)
            } else {
                None
            }
        } else if n == 39 {
            if str_eq(t, "BATTLE_STANDARD_TOO_CLOSE_TO_CAPTURABLE") {
                Some(ActionResult::BattleStandardTooCloseToCapturable)
            } else {
                None
            }
        } else if n == 40 {
            if str_eq(t, "BATTLE_STANDARD_ALREADY_EXISTS_FOR_GUILD") {
                Some(ActionResult::BattleStandardAlreadyExistsForGuild)
            } else {
                None
            }
        } else {
            None
        }
    }

    /// Reading back a spelled variant yields the variant.
    pub proof fn lemma_name_roundtrip(self)
        ensures
            Self::spec_from_name(self.spec_name()) == Some(self),
    {
        reveal_strlit("ABILITY_ON_COOLDOWN");
        reveal_strlit("ABSORBED");
        reveal_strlit("BAD_TARGET");
        reveal_strlit("BATTLE_STANDARDS_DISABLED");
        reveal_strlit("BATTLE_STANDARD_ALREADY_EXISTS_FOR_GUILD");
        reveal_strlit("BATTLE_STANDARD_LIMIT");
        reveal_strlit("BATTLE_STANDARD_NO_PERMISSION");
        reveal_strlit("BATTLE_STANDARD_TABARD_MISMATCH");
        reveal_strlit("BATTLE_STANDARD_TOO_CLOSE_TO_CAPTURABLE");
        reveal_strlit("BLADETURN");
        reveal_strlit("BLOCKED");
        reveal_strlit("BLOCKED_DAMAGE");
        reveal_strlit("BUSY");
        reveal_strlit("CANNOT_USE");
        reveal_strlit("CANT_SEE_TARGET");
        reveal_strlit("CANT_SWAP_HOTBAR_IS_OVERRIDDEN");
        reveal_strlit("CANT_SWAP_WHILE_CHANGING_GEAR");
        reveal_strlit("CASTER_DEAD");
        reveal_strlit("CRITICAL_DAMAGE");
        reveal_strlit("CRITICAL_HEAL");
        reveal_strlit("DAMAGE");
        reveal_strlit("DAMAGE_SHIELDED");
        reveal_strlit("DEFENDED");
        reveal_strlit("DIED");
        reveal_strlit("DIED_COMPANION_XP");
        reveal_strlit("DIED_XP");
        reveal_strlit("DISARMED");
        reveal_strlit("DISORIENTED");
        reveal_strlit("DODGED");
        reveal_strlit("DOT_TICK");
        reveal_strlit("DOT_TICK_CRITICAL");
        reveal_strlit("FAILED");
        reveal_strlit("FAILED_REQUIREMENTS");
        reveal_strlit("FAILED_SIEGE_CREATION_REQUIREMENTS");
        reveal_strlit("FALLING");
        reveal_strlit("FALL_DAMAGE");
        reveal_strlit("FEARED");
        reveal_strlit("FORWARD_CAMP_ALREADY_EXISTS_FOR_GUILD");
        reveal_strlit("FORWARD_CAMP_NO_PERMISSION");
        reveal_strlit("FORWARD_CAMP_TABARD_MISMATCH");
        reveal_strlit("GRAVEYARD_DISALLOWED_IN_INSTANCE");
        reveal_strlit("GRAVEYARD_TOO_CLOSE");
        reveal_strlit("HEAL");
        reveal_strlit("HEAL_ABSORBED");
        reveal_strlit("HOT_TICK");
        reveal_strlit("HOT_TICK_CRITICAL");
        reveal_strlit("IMMUNE");
        reveal_strlit("INSUFFICIENT_RESOURCE");
        reveal_strlit("INTERCEPTED");
        reveal_strlit("INTERRUPT");
        reveal_strlit("INVALID");
        reveal_strlit("INVALID_FIXTURE");
        reveal_strlit("INVALID_JUSTICE_TARGET");
        reveal_strlit("INVALID_TERRAIN");
        reveal_strlit("IN_AIR");
        reveal_strlit("IN_COMBAT");
        reveal_strlit("IN_ENEMY_KEEP");
        reveal_strlit("IN_ENEMY_OUTPOST");
        reveal_strlit("IN_ENEMY_RESOURCE");
        reveal_strlit("IN_ENEMY_TOWN");
        reveal_strlit("IN_HIDEYHOLE");
        reveal_strlit("KILLED_BY_DAEDRIC_WEAPON");
        reveal_strlit("KILLED_BY_SUBZONE");
        reveal_strlit("KILLING_BLOW");
        reveal_strlit("KNOCKBACK");
        reveal_strlit("LEVITATED");
        reveal_strlit("LINKED_CAST");
        reveal_strlit("MERCENARY_LIMIT");
        reveal_strlit("MISS");
        reveal_strlit("MISSING_EMPTY_SOUL_GEM");
        reveal_strlit("MISSING_FILLED_SOUL_GEM");
        reveal_strlit("MOBILE_GRAVEYARD_LIMIT");
        reveal_strlit("MOUNTED");
        reveal_strlit("MUST_BE_IN_OWN_KEEP");
        reveal_strlit("NOT_ENOUGH_INVENTORY_SPACE");
        reveal_strlit("NOT_ENOUGH_INVENTORY_SPACE_SOUL_GEM");
        reveal_strlit("NOT_ENOUGH_SPACE_FOR_SIEGE");
        reveal_strlit("NO_LOCATION_FOUND");
        reveal_strlit("NO_RAM_ATTACKABLE_TARGET_WITHIN_RANGE");
        reveal_strlit("NO_WEAPONS_TO_SWAP_TO");
        reveal_strlit("NPC_TOO_CLOSE");
        reveal_strlit("OFFBALANCE");
        reveal_strlit("PACIFIED");
        reveal_strlit("PARRIED");
        reveal_strlit("PARTIAL_RESIST");
        reveal_strlit("POWER_DRAIN");
        reveal_strlit("POWER_ENERGIZE");
        reveal_strlit("PRECISE_DAMAGE");
        reveal_strlit("QUEUED");
        reveal_strlit("RAM_ATTACKABLE_TARGETS_ALL_DESTROYED");
        reveal_strlit("RAM_ATTACKABLE_TARGETS_ALL_OCCUPIED");
        reveal_strlit("RECALLING");
        reveal_strlit("REFLECTED");
        reveal_strlit("REINCARNATING");
        reveal_strlit("RESIST");
        reveal_strlit("RESURRECT");
        reveal_strlit("ROOTED");
        reveal_strlit("SIEGE_LIMIT");
        reveal_strlit("SIEGE_NOT_ALLOWED_IN_ZONE");
        reveal_strlit("SIEGE_TOO_CLOSE");
        reveal_strlit("SILENCED");
        reveal_strlit("SNARED");
        reveal_strlit("SOUL_GEM_RESURRECTION_ACCEPTED");
        reveal_strlit("SPRINTING");
        reveal_strlit("STAGGERED");
        reveal_strlit("STUNNED");
        reveal_strlit("SWIMMING");
        reveal_strlit("TARGET_DEAD");
        reveal_strlit("TARGET_NOT_IN_VIEW");
        reveal_strlit("TARGET_NOT_PVP_FLAGGED");
        reveal_strlit("TARGET_OUT_OF_RANGE");
        reveal_strlit("TARGET_TOO_CLOSE");
        reveal_strlit("UNEVEN_TERRAIN");
        reveal_strlit("WEAPONSWAP");
        reveal_strlit("WRECKING_DAMAGE");
        reveal_strlit("WRONG_WEAPON");
        assert("ABILITY_ON_COOLDOWN"@.len() == 19);
        assert("ABSORBED"@.len() == 8);
        assert("BAD_TARGET"@.len() == 10);
        assert("BATTLE_STANDARDS_DISABLED"@.len() == 25);
        assert("BATTLE_STANDARD_ALREADY_EXISTS_FOR_GUILD"@.len() == 40);
        assert("BATTLE_STANDARD_LIMIT"@.len() == 21);
        assert("BATTLE_STANDARD_NO_PERMISSION"@.len() == 29);
        assert("BATTLE_STANDARD_TABARD_MISMATCH"@.len() == 31);
        assert("BATTLE_STANDARD_TOO_CLOSE_TO_CAPTURABLE"@.len() == 39);
        assert("BLADETURN"@.len() == 9);
        assert("BLOCKED"@.len() == 7);
        assert("BLOCKED_DAMAGE"@.len() == 14);
        assert("BUSY"@.len() == 4);
        assert("CANNOT_USE"@.len() == 10);
        assert("CANT_SEE_TARGET"@.len() == 15);
        assert("CANT_SWAP_HOTBAR_IS_OVERRIDDEN"@.len() == 30);
        assert("CANT_SWAP_WHILE_CHANGING_GEAR"@.len() == 29);
        assert("CASTER_DEAD"@.len() == 11);
        assert("CRITICAL_DAMAGE"@.len() == 15);
        assert("CRITICAL_HEAL"@.len() == 13);
        assert("DAMAGE"@.len() == 6);
        assert("DAMAGE_SHIELDED"@.len() == 15);
        assert("DEFENDED"@.len() == 8);
        assert("DIED"@.len() == 4);
        assert("DIED_COMPANION_XP"@.len() == 17);
        assert("DIED_XP"@.len() == 7);
        assert("DISARMED"@.len() == 8);
        assert("DISORIENTED"@.len() == 11);
        assert("DODGED"@.len() == 6);
        assert("DOT_TICK"@.len() == 8);
        assert("DOT_TICK_CRITICAL"@.len() == 17);
        assert("FAILED"@.len() == 6);
        assert("FAILED_REQUIREMENTS"@.len() == 19);
        assert("FAILED_SIEGE_CREATION_REQUIREMENTS"@.len() == 34);
        assert("FALLING"@.len() == 7);
        assert("FALL_DAMAGE"@.len() == 11);
        assert("FEARED"@.len() == 6);
        assert("FORWARD_CAMP_ALREADY_EXISTS_FOR_GUILD"@.len() == 37);
        assert("FORWARD_CAMP_NO_PERMISSION"@.len() == 26);
        assert("FORWARD_CAMP_TABARD_MISMATCH"@.len() == 28);
        assert("GRAVEYARD_DISALLOWED_IN_INSTANCE"@.len() == 32);
        assert("GRAVEYARD_TOO_CLOSE"@.len() == 19);
        assert("HEAL"@.len() == 4);
        assert("HEAL_ABSORBED"@.len() == 13);
        assert("HOT_TICK"@.len() == 8);
        assert("HOT_TICK_CRITICAL"@.len() == 17);
        assert("IMMUNE"@.len() == 6);
        assert("INSUFFICIENT_RESOURCE"@.len() == 21);
        assert("INTERCEPTED"@.len() == 11);
        assert("INTERRUPT"@.len() == 9);
        assert("INVALID"@.len() == 7);
        assert("INVALID_FIXTURE"@.len() == 15);
        assert("INVALID_JUSTICE_TARGET"@.len() == 22);
        assert("INVALID_TERRAIN"@.len() == 15);
        assert("IN_AIR"@.len() == 6);
        assert("IN_COMBAT"@.len() == 9);
        assert("IN_ENEMY_KEEP"@.len() == 13);
        assert("IN_ENEMY_OUTPOST"@.len() == 16);
        assert("IN_ENEMY_RESOURCE"@.len() == 17);
        assert("IN_ENEMY_TOWN"@.len() == 13);
        assert("IN_HIDEYHOLE"@.len() == 12);
        assert("KILLED_BY_DAEDRIC_WEAPON"@.len() == 24);
        assert("KILLED_BY_SUBZONE"@.len() == 17);
        assert("KILLING_BLOW"@.len() == 12);
        assert("KNOCKBACK"@.len() == 9);
        assert("LEVITATED"@.len() == 9);
        assert("LINKED_CAST"@.len() == 11);
        assert("MERCENARY_LIMIT"@.len() == 15);
        assert("MISS"@.len() == 4);
        assert("MISSING_EMPTY_SOUL_GEM"@.len() == 22);
        assert("MISSING_FILLED_SOUL_GEM"@.len() == 23);
        assert("MOBILE_GRAVEYARD_LIMIT"@.len() == 22);
        assert("MOUNTED"@.len() == 7);
        assert("MUST_BE_IN_OWN_KEEP"@.len() == 19);
        assert("NOT_ENOUGH_INVENTORY_SPACE"@.len() == 26);
        assert("NOT_ENOUGH_INVENTORY_SPACE_SOUL_GEM"@.len() == 35);
        assert("NOT_ENOUGH_SPACE_FOR_SIEGE"@.len() == 26);
        assert("NO_LOCATION_FOUND"@.len() == 17);
        assert("NO_RAM_ATTACKABLE_TARGET_WITHIN_RANGE"@.len() == 37);
        assert("NO_WEAPONS_TO_SWAP_TO"@.len() == 21);
        assert("NPC_TOO_CLOSE"@.len() == 13);
        assert("OFFBALANCE"@.len() == 10);
        assert("PACIFIED"@.len() == 8);
        assert("PARRIED"@.len() == 7);
        assert("PARTIAL_RESIST"@.len() == 14);
        assert("POWER_DRAIN"@.len() == 11);
        assert("POWER_ENERGIZE"@.len() == 14);
        assert("PRECISE_DAMAGE"@.len() == 14);
        assert("QUEUED"@.len() == 6);
        assert("RAM_ATTACKABLE_TARGETS_ALL_DESTROYED"@.len() == 36);
        assert("RAM_ATTACKABLE_TARGETS_ALL_OCCUPIED"@.len() == 35);
        assert("RECALLING"@.len() == 9);
        assert("REFLECTED"@.len() == 9);
        assert("REINCARNATING"@.len() == 13);
        assert("RESIST"@.len() == 6);
        assert("RESURRECT"@.len() == 9);
        assert("ROOTED"@.len() == 6);
        assert("SIEGE_LIMIT"@.len() == 11);
        assert("SIEGE_NOT_ALLOWED_IN_ZONE"@.len() == 25);
        assert("SIEGE_TOO_CLOSE"@.len() == 15);
        assert("SILENCED"@.len() == 8);
        assert("SNARED"@.len() == 6);
        assert("SOUL_GEM_RESURRECTION_ACCEPTED"@.len() == 30);
        assert("SPRINTING"@.len() == 9);
        assert("STAGGERED"@.len() == 9);
        assert("STUNNED"@.len() == 7);
        assert("SWIMMING"@.len() == 8);
        assert("TARGET_DEAD"@.len() == 11);
        assert("TARGET_NOT_IN_VIEW"@.len() == 18);
        assert("TARGET_NOT_PVP_FLAGGED"@.len() == 22);
        assert("TARGET_OUT_OF_RANGE"@.len() == 19);
        assert("TARGET_TOO_CLOSE"@.len() == 16);
        assert("UNEVEN_TERRAIN"@.len() == 14);
        assert("WEAPONSWAP"@.len() == 10);
        assert("WRECKING_DAMAGE"@.len() == 15);
        assert("WRONG_WEAPON"@.len() == 12);
        assert("ABILITY_ON_COOLDOWN"@[0] == 'A');
        assert("ABSORBED"@[0] == 'A');
        assert("BAD_TARGET"@[0] == 'B');
        assert("BATTLE_STANDARDS_DISABLED"@[0] == 'B');
        assert("BATTLE_STANDARD_LIMIT"@[0] == 'B');
        assert("BATTLE_STANDARD_NO_PERMISSION"@[0] == 'B');
        assert("BLADETURN"@[0] == 'B');
        assert("BLOCKED"@[0] == 'B');
        assert("BLOCKED_DAMAGE"@[0] == 'B');
        assert("BUSY"@[0] == 'B');
        assert("CANNOT_USE"@[0] == 'C');
        assert("CANT_SEE_TARGET"@[0] == 'C');
        assert("CANT_SEE_TARGET"@[1] == 'A');
        assert("CANT_SWAP_HOTBAR_IS_OVERRIDDEN"@[0] == 'C');
        assert("CANT_SWAP_WHILE_CHANGING_GEAR"@[0] == 'C');
        assert("CASTER_DEAD"@[0] == 'C');
        assert("CRITICAL_DAMAGE"@[0] == 'C');
        assert("CRITICAL_DAMAGE"@[1] == 'R');
        assert("CRITICAL_HEAL"@[0] == 'C');
        assert("DAMAGE"@[0] == 'D');
        assert("DAMAGE"@[1] == 'A');
        assert("DAMAGE_SHIELDED"@[0] == 'D');
        assert("DEFENDED"@[0] == 'D');
        assert("DEFENDED"@[1] == 'E');
        assert("DIED"@[0] == 'D');
        assert("DIED_COMPANION_XP"@[0] == 'D');
        assert("DIED_COMPANION_XP"@[1] == 'I');
        assert("DIED_XP"@[0] == 'D');
        assert("DISARMED"@[0] == 'D');
        assert("DISARMED"@[1] == 'I');
        assert("DISORIENTED"@[0] == 'D');
        assert("DODGED"@[0] == 'D');
        assert("DODGED"@[1] == 'O');
        assert("DOT_TICK"@[0] == 'D');
        assert("DOT_TICK"@[1] == 'O');
        assert("DOT_TICK_CRITICAL"@[0] == 'D');
        assert("DOT_TICK_CRITICAL"@[1] == 'O');
        assert("FAILED"@[0] == 'F');
        assert("FAILED"@[1] == 'A');
        assert("FAILED_REQUIREMENTS"@[0] == 'F');
        assert("FALLING"@[0] == 'F');
        assert("FALL_DAMAGE"@[0] == 'F');
        assert("FEARED"@[0] == 'F');
        assert("FEARED"@[1] == 'E');
        assert("FORWARD_CAMP_ALREADY_EXISTS_FOR_GUILD"@[0] == 'F');
        assert("FORWARD_CAMP_NO_PERMISSION"@[0] == 'F');
        assert("GRAVEYARD_TOO_CLOSE"@[0] == 'G');
        assert("HEAL"@[0] == 'H');
        assert("HEAL_ABSORBED"@[0] == 'H');
        assert("HOT_TICK"@[0] == 'H');
        assert("HOT_TICK_CRITICAL"@[0] == 'H');
        assert("IMMUNE"@[0] == 'I');
        assert("IMMUNE"@[1] == 'M');
        assert("INSUFFICIENT_RESOURCE"@[0] == 'I');
        assert("INTERCEPTED"@[0] == 'I');
        assert("INTERRUPT"@[0] == 'I');
        assert("INTERRUPT"@[2] == 'T');
        assert("INVALID"@[0] == 'I');
        assert("INVALID_FIXTURE"@[0] == 'I');
        assert("INVALID_FIXTURE"@[8] == 'F');
        assert("INVALID_JUSTICE_TARGET"@[0] == 'I');
        assert("INVALID_TERRAIN"@[0] == 'I');
        assert("INVALID_TERRAIN"@[8] == 'T');
        assert("IN_AIR"@[0] == 'I');
        assert("IN_AIR"@[1] == 'N');
        assert("IN_COMBAT"@[0] == 'I');
        assert("IN_COMBAT"@[2] == '_');
        assert("IN_ENEMY_KEEP"@[0] == 'I');
        assert("IN_ENEMY_KEEP"@[9] == 'K');
        assert("IN_ENEMY_OUTPOST"@[0] == 'I');
        assert("IN_ENEMY_RESOURCE"@[0] == 'I');
        assert("IN_ENEMY_TOWN"@[0] == 'I');
        assert("IN_ENEMY_TOWN"@[9] == 'T');
        assert("IN_HIDEYHOLE"@[0] == 'I');
        assert("KILLED_BY_SUBZONE"@[0] == 'K');
        assert("KILLING_BLOW"@[0] == 'K');
        assert("KNOCKBACK"@[0] == 'K');
        assert("LEVITATED"@[0] == 'L');
        assert("LINKED_CAST"@[0] == 'L');
        assert("MERCENARY_LIMIT"@[0] == 'M');
        assert("MISS"@[0] == 'M');
        assert("MISSING_EMPTY_SOUL_GEM"@[0] == 'M');
        assert("MISSING_EMPTY_SOUL_GEM"@[1] == 'I');
        assert("MOBILE_GRAVEYARD_LIMIT"@[0] == 'M');
        assert("MOBILE_GRAVEYARD_LIMIT"@[1] == 'O');
        assert("MOUNTED"@[0] == 'M');
        assert("MUST_BE_IN_OWN_KEEP"@[0] == 'M');
        assert("NOT_ENOUGH_INVENTORY_SPACE"@[0] == 'N');
        assert("NOT_ENOUGH_INVENTORY_SPACE"@[11] == 'I');
        assert("NOT_ENOUGH_INVENTORY_SPACE_SOUL_GEM"@[0] == 'N');
        assert("NOT_ENOUGH_SPACE_FOR_SIEGE"@[0] == 'N');
        assert("NOT_ENOUGH_SPACE_FOR_SIEGE"@[11] == 'S');
        assert("NO_LOCATION_FOUND"@[0] == 'N');
        assert("NO_RAM_ATTACKABLE_TARGET_WITHIN_RANGE"@[0] == 'N');
        assert("NO_WEAPONS_TO_SWAP_TO"@[0] == 'N');
        assert("NPC_TOO_CLOSE"@[0] == 'N');
        assert("OFFBALANCE"@[0] == 'O');
        assert("PACIFIED"@[0] == 'P');
        assert("PARRIED"@[0] == 'P');
        assert("PARTIAL_RESIST"@[0] == 'P');
        assert("PARTIAL_RESIST"@[1] == 'A');
        assert("POWER_DRAIN"@[0] == 'P');
        assert("POWER_ENERGIZE"@[0] == 'P');
        assert("POWER_ENERGIZE"@[1] == 'O');
        assert("PRECISE_DAMAGE"@[0] == 'P');
        assert("PRECISE_DAMAGE"@[1] == 'R');
        assert("QUEUED"@[0] == 'Q');
        assert("RAM_ATTACKABLE_TARGETS_ALL_OCCUPIED"@[0] == 'R');
        assert("RECALLING"@[0] == 'R');
        assert("RECALLING"@[2] == 'C');
        assert("REFLECTED"@[0] == 'R');
        assert("REFLECTED"@[2] == 'F');
        assert("REINCARNATING"@[0] == 'R');
        assert("RESIST"@[0] == 'R');
        assert("RESIST"@[1] == 'E');
        assert("RESURRECT"@[0] == 'R');
        assert("RESURRECT"@[2] == 'S');
        assert("ROOTED"@[0] == 'R');
        assert("ROOTED"@[1] == 'O');
        assert("SIEGE_LIMIT"@[0] == 'S');
        assert("SIEGE_NOT_ALLOWED_IN_ZONE"@[0] == 'S');
        assert("SIEGE_TOO_CLOSE"@[0] == 'S');
        assert("SILENCED"@[0] == 'S');
        assert("SILENCED"@[1] == 'I');
        assert("SNARED"@[0] == 'S');
        assert("SOUL_GEM_RESURRECTION_ACCEPTED"@[0] == 'S');
        assert("SPRINTING"@[0] == 'S');
        assert("SPRINTING"@[1] == 'P');
        assert("STAGGERED"@[0] == 'S');
        assert("STAGGERED"@[1] == 'T');
        assert("STUNNED"@[0] == 'S');
        assert("SWIMMING"@[0] == 'S');
        assert("SWIMMING"@[1] == 'W');
        assert("TARGET_DEAD"@[0] == 'T');
        assert("TARGET_NOT_PVP_FLAGGED"@[0] == 'T');
        assert("TARGET_OUT_OF_RANGE"@[0] == 'T');
        assert("TARGET_TOO_CLOSE"@[0] == 'T');
        assert("UNEVEN_TERRAIN"@[0] == 'U');
        assert("WEAPONSWAP"@[0] == 'W');
        assert("WRECKING_DAMAGE"@[0] == 'W');
        assert("WRONG_WEAPON"@[0] == 'W');
        match self {
            ActionResult::AbilityOnCooldown => assert(Self::spec_from_name(self.spec_name()) == Some(self)),
            ActionResult::Absorbed => assert(Self::spec_from_name(self.spec_name()) == Some(self)),
            ActionResult::BadTarget => assert(Self::spec_from_name(self.spec_name()) == Some(self)),
            ActionResult::BattleStandardsDisabled => assert(Self::spec_from_name(self.spec_name()) == Some(self)),
            ActionResult::BattleStandardAlreadyExistsForGuild => assert(Self::spec_from_name(self.spec_name()) == Some(self)),
            ActionResult::BattleStandardLimit => assert(Self::spec_from_name(self.spec_name()) == Some(self)),
            ActionResult::BattleStandardNoPermission => assert(Self::spec_from_name(self.spec_name()) == Some(self)),
            ActionResult::BattleStandardTabardMismatch => assert(Self::spec_from_name(self.spec_name()) == Some(self)),
            ActionResult::BattleStandardTooCloseToCapturable => assert(Self::spec_from_name(self.spec_name()) == Some(self)),
            ActionResult::Bladeturn => assert(Self::spec_from_name(self.spec_name()) == Some(self)),
            ActionResult::Blocked => assert(Self::spec_from_name(self.spec_name()) == Some(self)),
            ActionResult::BlockedDamage => assert(Self::spec_from_name(self.spec_name()) == Some(self)),
            ActionResult::Busy => assert(Self::spec_from_name(self.spec_name()) == Some(self)),
            ActionResult::CannotUse => assert(Self::spec_from_name(self.spec_name()) == Some(self)),
            ActionResult::CantSeeTarget => assert(Self::spec_from_name(self.spec_name()) == Some(self)),
            ActionResult::CantSwapHotbarIsOverridden => assert(Self::spec_from_name(self.spec_name()) == Some(self)),
            ActionResult::CantSwapWhileChangingGear => assert(Self::spec_from_name(self.spec_name()) == Some(self)),
            ActionResult::CasterDead => assert(Self::spec_from_name(self.spec_name()) == Some(self)),
            ActionResult::CriticalDamage => assert(Self::spec_from_name(self.spec_name()) == Some(self)),
            ActionResult::CriticalHeal => assert(Self::spec_from_name(self.spec_name()) == Some(self)),
            ActionResult::Damage => assert(Self::spec_from_name(self.spec_name()) == Some(self)),
            ActionResult::DamageShielded => assert(Self::spec_from_name(self.spec_name()) == Some(self)),
            ActionResult::Defended => assert(Self::spec_from_name(self.spec_name()) == Some(self)),
            ActionResult::Died => assert(Self::spec_from_name(self.spec_name()) == Some(self)),
            ActionResult::DiedCompanionXp => assert(Self::spec_from_name(self.spec_name()) == Some(self)),
            ActionResult::DiedXp => assert(Self::spec_from_name(self.spec_name()) == Some(self)),
            ActionResult::Disarmed => assert(Self::spec_from_name(self.spec_name()) == Some(self)),
            ActionResult::Disoriented => assert(Self::spec_from_name(self.spec_name()) == Some(self)),
            ActionResult::Dodged => assert(Self::spec_from_name(self.spec_name()) == Some(self)),
            ActionResult::DotTick => assert(Self::spec_from_name(self.spec_name()) == Some(self)),
            ActionResult::DotTickCritical => assert(Self::spec_from_name(self.spec_name()) == Some(self)),
            ActionResult::Failed => assert(Self::spec_from_name(self.spec_name()) == Some(self)),
            ActionResult::FailedRequirements => assert(Self::spec_from_name(self.spec_name()) == Some(self)),
            ActionResult::FailedSiegeCreationRequirements => assert(Self::spec_from_name(self.spec_name()) == Some(self)),
            ActionResult::Falling => assert(Self::spec_from_name(self.spec_name()) == Some(self)),
            ActionResult::FallDamage => assert(Self::spec_from_name(self.spec_name()) == Some(self)),
            ActionResult::Feared => assert(Self::spec_from_name(self.spec_name()) == Some(self)),
            ActionResult::ForwardCampAlreadyExistsForGuild => assert(Self::spec_from_name(self.spec_name()) == Some(self)),
            ActionResult::ForwardCampNoPermission => assert(Self::spec_from_name(self.spec_name()) == Some(self)),
            ActionResult::ForwardCampTabardMismatch => assert(Self::spec_from_name(self.spec_name()) == Some(self)),
            ActionResult::GraveyardDisallowedInInstance => assert(Self::spec_from_name(self.spec_name()) == Some(self)),
            ActionResult::GraveyardTooClose => assert(Self::spec_from_name(self.spec_name()) == Some(self)),
            ActionResult::Heal => assert(Self::spec_from_name(self.spec_name()) == Some(self)),
            ActionResult::HealAbsorbed => assert(Self::spec_from_name(self.spec_name()) == Some(self)),
            ActionResult::HotTick => assert(Self::spec_from_name(self.spec_name()) == Some(self)),
            ActionResult::HotTickCritical => assert(Self::spec_from_name(self.spec_name()) == Some(self)),
            ActionResult::Immune => assert(Self::spec_from_name(self.spec_name()) == Some(self)),
            ActionResult::InsufficientResource => assert(Self::spec_from_name(self.spec_name()) == Some(self)),
            ActionResult::Intercepted => assert(Self::spec_from_name(self.spec_name()) == Some(self)),
            ActionResult::Interrupt => assert(Self::spec_from_name(self.spec_name()) == Some(self)),
            ActionResult::Invalid => assert(Self::spec_from_name(self.spec_name()) == Some(self)),
            ActionResult::InvalidFixture => assert(Self::spec_from_name(self.spec_name()) == Some(self)),
            ActionResult::InvalidJusticeTarget => assert(Self::spec_from_name(self.spec_name()) == Some(self)),
            ActionResult::InvalidTerrain => assert(Self::spec_from_name(self.spec_name()) == Some(self)),
            ActionResult::InAir => assert(Self::spec_from_name(self.spec_name()) == Some(self)),
            ActionResult::InCombat => assert(Self::spec_from_name(self.spec_name()) == Some(self)),
            ActionResult::InEnemyKeep => assert(Self::spec_from_name(self.spec_name()) == Some(self)),
            ActionResult::InEnemyOutpost => assert(Self::spec_from_name(self.spec_name()) == Some(self)),
            ActionResult::InEnemyResource => assert(Self::spec_from_name(self.spec_name()) == Some(self)),
            ActionResult::InEnemyTown => assert(Self::spec_from_name(self.spec_name()) == Some(self)),
            ActionResult::InHideyhole => assert(Self::spec_from_name(self.spec_name()) == Some(self)),
            ActionResult::KilledByDaedricWeapon => assert(Self::spec_from_name(self.spec_name()) == Some(self)),
            ActionResult::KilledBySubzone => assert(Self::spec_from_name(self.spec_name()) == Some(self)),
            ActionResult::KillingBlow => assert(Self::spec_from_name(self.spec_name()) == Some(self)),
            ActionResult::Knockback => assert(Self::spec_from_name(self.spec_name()) == Some(self)),
            ActionResult::Levitated => assert(Self::spec_from_name(self.spec_name()) == Some(self)),
            ActionResult::MercenaryLimit => assert(Self::spec_from_name(self.spec_name()) == Some(self)),
            ActionResult::Miss => assert(Self::spec_from_name(self.spec_name()) == Some(self)),
            ActionResult::MissingEmptySoulGem => assert(Self::spec_from_name(self.spec_name()) == Some(self)),
            ActionResult::MissingFilledSoulGem => assert(Self::spec_from_name(self.spec_name()) == Some(self)),
            ActionResult::MobileGraveyardLimit => assert(Self::spec_from_name(self.spec_name()) == Some(self)),
            ActionResult::Mounted => assert(Self::spec_from_name(self.spec_name()) == Some(self)),
            ActionResult::MustBeInOwnKeep => assert(Self::spec_from_name(self.spec_name()) == Some(self)),
            ActionResult::NotEnoughInventorySpace => assert(Self::spec_from_name(self.spec_name()) == Some(self)),
            ActionResult::NotEnoughInventorySpaceSoulGem => assert(Self::spec_from_name(self.spec_name()) == Some(self)),
            ActionResult::NotEnoughSpaceForSiege => assert(Self::spec_from_name(self.spec_name()) == Some(self)),
            ActionResult::NoLocationFound => assert(Self::spec_from_name(self.spec_name()) == Some(self)),
            ActionResult::NoRamAttackableTargetWithinRange => assert(Self::spec_from_name(self.spec_name()) == Some(self)),
            ActionResult::NoWeaponsToSwapTo => assert(Self::spec_from_name(self.spec_name()) == Some(self)),
            ActionResult::NpcTooClose => assert(Self::spec_from_name(self.spec_name()) == Some(self)),
            ActionResult::Offbalance => assert(Self::spec_from_name(self.spec_name()) == Some(self)),
            ActionResult::Pacified => assert(Self::spec_from_name(self.spec_name()) == Some(self)),
            ActionResult::Parried => assert(Self::spec_from_name(self.spec_name()) == Some(self)),
            ActionResult::PartialResist => assert(Self::spec_from_name(self.spec_name()) == Some(self)),
            ActionResult::PowerDrain => assert(Self::spec_from_name(self.spec_name()) == Some(self)),
            ActionResult::PowerEnergize => assert(Self::spec_from_name(self.spec_name()) == Some(self)),
            ActionResult::PreciseDamage => assert(Self::spec_from_name(self.spec_name()) == Some(self)),
            ActionResult::Queued => assert(Self::spec_from_name(self.spec_name()) == Some(self)),
            ActionResult::RamAttackableTargetsAllDestroyed => assert(Self::spec_from_name(self.spec_name()) == Some(self)),
            ActionResult::RamAttackableTargetsAllOccupied => assert(Self::spec_from_name(self.spec_name()) == Some(self)),
            ActionResult::Recalling => assert(Self::spec_from_name(self.spec_name()) == Some(self)),
            ActionResult::Reflected => assert(Self::spec_from_name(self.spec_name()) == Some(self)),
            ActionResult::Reincarnating => assert(Self::spec_from_name(self.spec_name()) == Some(self)),
            ActionResult::Resist => assert(Self::spec_from_name(self.spec_name()) == Some(self)),
            ActionResult::Resurrect => assert(Self::spec_from_name(self.spec_name()) == Some(self)),
            ActionResult::Rooted => assert(Self::spec_from_name(self.spec_name()) == Some(self)),
            ActionResult::SiegeLimit => assert(Self::spec_from_name(self.spec_name()) == Some(self)),
            ActionResult::SiegeNotAllowedInZone => assert(Self::spec_from_name(self.spec_name()) == Some(self)),
            ActionResult::SiegeTooClose => assert(Self::spec_from_name(self.spec_name()) == Some(self)),
            ActionResult::Silenced => assert(Self::spec_from_name(self.spec_name()) == Some(self)),
            ActionResult::Snared => assert(Self::spec_from_name(self.spec_name()) == Some(self)),
            ActionResult::SoulGemResurrectionAccepted => assert(Self::spec_from_name(self.spec_name()) == Some(self)),
            ActionResult::Sprinting => assert(Self::spec_from_name(self.spec_name()) == Some(self)),
            ActionResult::Staggered => assert(Self::spec_from_name(self.spec_name()) == Some(self)),
            ActionResult::Stunned => assert(Self::spec_from_name(self.spec_name()) == Some(self)),
            ActionResult::Swimming => assert(Self::spec_from_name(self.spec_name()) == Some(self)),
            ActionResult::TargetDead => assert(Self::spec_from_name(self.spec_name()) == Some(self)),
            ActionResult::TargetNotInView => assert(Self::spec_from_name(self.spec_name()) == Some(self)),
            ActionResult::TargetNotPvpFlagged => assert(Self::spec_from_name(self.spec_name()) == Some(self)),
            ActionResult::TargetOutOfRange => assert(Self::spec_from_name(self.spec_name()) == Some(self)),
            ActionResult::TargetTooClose => assert(Self::spec_from_name(self.spec_name()) == Some(self)),
            ActionResult::UnevenTerrain => assert(Self::spec_from_name(self.spec_name()) == Some(self)),
            ActionResult::Weaponswap => assert(Self::spec_from_name(self.spec_name()) == Some(self)),
            ActionResult::WreckingDamage => assert(Self::spec_from_name(self.spec_name()) == Some(self)),
            ActionResult::WrongWeapon => assert(Self::spec_from_name(self.spec_name()) == Some(self)),
            ActionResult::LinkedCast => assert(Self::spec_from_name(self.spec_name()) == Some(self)),
        }
    }

    /// The wire spelling is capitals, digits and underscores only.
    pub proof fn lemma_name_clean(self)
        ensures
            clean_atom(self.spec_name()),
    {
        reveal_strlit("ABILITY_ON_COOLDOWN");
        reveal_strlit("ABSORBED");
        reveal_strlit("BAD_TARGET");
        reveal_strlit("BATTLE_STANDARDS_DISABLED");
        reveal_strlit("BATTLE_STANDARD_ALREADY_EXISTS_FOR_GUILD");
        reveal_strlit("BATTLE_STANDARD_LIMIT");
        reveal_strlit("BATTLE_STANDARD_NO_PERMISSION");
        reveal_strlit("BATTLE_STANDARD_TABARD_MISMATCH");
        reveal_strlit("BATTLE_STANDARD_TOO_CLOSE_TO_CAPTURABLE");
        reveal_strlit("BLADETURN");
        reveal_strlit("BLOCKED");
        reveal_strlit("BLOCKED_DAMAGE");
        reveal_strlit("BUSY");
        reveal_strlit("CANNOT_USE");
        reveal_strlit("CANT_SEE_TARGET");
        reveal_strlit("CANT_SWAP_HOTBAR_IS_OVERRIDDEN");
        reveal_strlit("CANT_SWAP_WHILE_CHANGING_GEAR");
        reveal_strlit("CASTER_DEAD");
        reveal_strlit("CRITICAL_DAMAGE");
        reveal_strlit("CRITICAL_HEAL");
        reveal_strlit("DAMAGE");
        reveal_strlit("DAMAGE_SHIELDED");
        reveal_strlit("DEFENDED");
        reveal_strlit("DIED");
        reveal_strlit("DIED_COMPANION_XP");
        reveal_strlit("DIED_XP");
        reveal_strlit("DISARMED");
        reveal_strlit("DISORIENTED");
        reveal_strlit("DODGED");
        reveal_strlit("DOT_TICK");
        reveal_strlit("DOT_TICK_CRITICAL");
        reveal_strlit("FAILED");
        reveal_strlit("FAILED_REQUIREMENTS");
        reveal_strlit("FAILED_SIEGE_CREATION_REQUIREMENTS");
        reveal_strlit("FALLING");
        reveal_strlit("FALL_DAMAGE");
        reveal_strlit("FEARED");
        reveal_strlit("FORWARD_CAMP_ALREADY_EXISTS_FOR_GUILD");
        reveal_strlit("FORWARD_CAMP_NO_PERMISSION");
        reveal_strlit("FORWARD_CAMP_TABARD_MISMATCH");
        reveal_strlit("GRAVEYARD_DISALLOWED_IN_INSTANCE");
        reveal_strlit("GRAVEYARD_TOO_CLOSE");
        reveal_strlit("HEAL");
        reveal_strlit("HEAL_ABSORBED");
        reveal_strlit("HOT_TICK");
        reveal_strlit("HOT_TICK_CRITICAL");
        reveal_strlit("IMMUNE");
        reveal_strlit("INSUFFICIENT_RESOURCE");
        reveal_strlit("INTERCEPTED");
        reveal_strlit("INTERRUPT");
        reveal_strlit("INVALID");
        reveal_strlit("INVALID_FIXTURE");
        reveal_strlit("INVALID_JUSTICE_TARGET");
        reveal_strlit("INVALID_TERRAIN");
        reveal_strlit("IN_AIR");
        reveal_strlit("IN_COMBAT");
        reveal_strlit("IN_ENEMY_KEEP");
        reveal_strlit("IN_ENEMY_OUTPOST");
        reveal_strlit("IN_ENEMY_RESOURCE");
        reveal_strlit("IN_ENEMY_TOWN");
        reveal_strlit("IN_HIDEYHOLE");
        reveal_strlit("KILLED_BY_DAEDRIC_WEAPON");
        reveal_strlit("KILLED_BY_SUBZONE");
        reveal_strlit("KILLING_BLOW");
        reveal_strlit("KNOCKBACK");
        reveal_strlit("LEVITATED");
        reveal_strlit("LINKED_CAST");
        reveal_strlit("MERCENARY_LIMIT");
        reveal_strlit("MISS");
        reveal_strlit("MISSING_EMPTY_SOUL_GEM");
        reveal_strlit("MISSING_FILLED_SOUL_GEM");
        reveal_strlit("MOBILE_GRAVEYARD_LIMIT");
        reveal_strlit("MOUNTED");
        reveal_strlit("MUST_BE_IN_OWN_KEEP");
        reveal_strlit("NOT_ENOUGH_INVENTORY_SPACE");
        reveal_strlit("NOT_ENOUGH_INVENTORY_SPACE_SOUL_GEM");
        reveal_strlit("NOT_ENOUGH_SPACE_FOR_SIEGE");
        reveal_strlit("NO_LOCATION_FOUND");
        reveal_strlit("NO_RAM_ATTACKABLE_TARGET_WITHIN_RANGE");
        reveal_strlit("NO_WEAPONS_TO_SWAP_TO");
        reveal_strlit("NPC_TOO_CLOSE");
        reveal_strlit("OFFBALANCE");
        reveal_strlit("PACIFIED");
        reveal_strlit("PARRIED");
        reveal_strlit("PARTIAL_RESIST");
        reveal_strlit("POWER_DRAIN");
        reveal_strlit("POWER_ENERGIZE");
        reveal_strlit("PRECISE_DAMAGE");
        reveal_strlit("QUEUED");
        reveal_strlit("RAM_ATTACKABLE_TARGETS_ALL_DESTROYED");
        reveal_strlit("RAM_ATTACKABLE_TARGETS_ALL_OCCUPIED");
        reveal_strlit("RECALLING");
        reveal_strlit("REFLECTED");
        reveal_strlit("REINCARNATING");
        reveal_strlit("RESIST");
        reveal_strlit("RESURRECT");
        reveal_strlit("ROOTED");
        reveal_strlit("SIEGE_LIMIT");
        reveal_strlit("SIEGE_NOT_ALLOWED_IN_ZONE");
        reveal_strlit("SIEGE_TOO_CLOSE");
        reveal_strlit("SILENCED");
        reveal_strlit("SNARED");
        reveal_strlit("SOUL_GEM_RESURRECTION_ACCEPTED");
        reveal_strlit("SPRINTING");
        reveal_strlit("STAGGERED");
        reveal_strlit("STUNNED");
        reveal_strlit("SWIMMING");
        reveal_strlit("TARGET_DEAD");
        reveal_strlit("TARGET_NOT_IN_VIEW");
        reveal_strlit("TARGET_NOT_PVP_FLAGGED");
        reveal_strlit("TARGET_OUT_OF_RANGE");
        reveal_strlit("TARGET_TOO_CLOSE");
        reveal_strlit("UNEVEN_TERRAIN");
        reveal_strlit("WEAPONSWAP");
        reveal_strlit("WRECKING_DAMAGE");
        reveal_strlit("WRONG_WEAPON");
        match self {
            ActionResult::AbilityOnCooldown => {
                assert("ABILITY_ON_COOLDOWN"@.len() == 19);
                assert("ABILITY_ON_COOLDOWN"@[0] == 'A');
                assert("ABILITY_ON_COOLDOWN"@[1] == 'B');
                assert("ABILITY_ON_COOLDOWN"@[2] == 'I');
                assert("ABILITY_ON_COOLDOWN"@[3] == 'L');
                assert("ABILITY_ON_COOLDOWN"@[4] == 'I');
                assert("ABILITY_ON_COOLDOWN"@[5] == 'T');
                assert("ABILITY_ON_COOLDOWN"@[6] == 'Y');
                assert("ABILITY_ON_COOLDOWN"@[7] == '_');
                assert("ABILITY_ON_COOLDOWN"@[8] == 'O');
                assert("ABILITY_ON_COOLDOWN"@[9] == 'N');
                assert("ABILITY_ON_COOLDOWN"@[10] == '_');
                assert("ABILITY_ON_COOLDOWN"@[11] == 'C');
                assert("ABILITY_ON_COOLDOWN"@[12] == 'O');
                assert("ABILITY_ON_COOLDOWN"@[13] == 'O');
                assert("ABILITY_ON_COOLDOWN"@[14] == 'L');
                assert("ABILITY_ON_COOLDOWN"@[15] == 'D');
                assert("ABILITY_ON_COOLDOWN"@[16] == 'O');
                assert("ABILITY_ON_COOLDOWN"@[17] == 'W');
                assert("ABILITY_ON_COOLDOWN"@[18] == 'N');
                assert(clean_atom("ABILITY_ON_COOLDOWN"@));
            },
            ActionResult::Absorbed => {
                assert("ABSORBED"@.len() == 8);
                assert("ABSORBED"@[0] == 'A');
                assert("ABSORBED"@[1] == 'B');
                assert("ABSORBED"@[2] == 'S');
                assert("ABSORBED"@[3] == 'O');
                assert("ABSORBED"@[4] == 'R');
                assert("ABSORBED"@[5] == 'B');
                assert("ABSORBED"@[6] == 'E');
                assert("ABSORBED"@[7] == 'D');
                assert(clean_atom("ABSORBED"@));
            },
            ActionResult::BadTarget => {
                assert("BAD_TARGET"@.len() == 10);
                assert("BAD_TARGET"@[0] == 'B');
                assert("BAD_TARGET"@[1] == 'A');
                assert("BAD_TARGET"@[2] == 'D');
                assert("BAD_TARGET"@[3] == '_');
                assert("BAD_TARGET"@[4] == 'T');
                assert("BAD_TARGET"@[5] == 'A');
                assert("BAD_TARGET"@[6] == 'R');
                assert("BAD_TARGET"@[7] == 'G');
                assert("BAD_TARGET"@[8] == 'E');
                assert("BAD_TARGET"@[9] == 'T');
                assert(clean_atom("BAD_TARGET"@));
            },
            ActionResult::BattleStandardsDisabled => {
                assert("BATTLE_STANDARDS_DISABLED"@.len() == 25);
                assert("BATTLE_STANDARDS_DISABLED"@[0] == 'B');
                assert("BATTLE_STANDARDS_DISABLED"@[1] == 'A');
                assert("BATTLE_STANDARDS_DISABLED"@[2] == 'T');
                assert("BATTLE_STANDARDS_DISABLED"@[3] == 'T');
                assert("BATTLE_STANDARDS_DISABLED"@[4] == 'L');
                assert("BATTLE_STANDARDS_DISABLED"@[5] == 'E');
                assert("BATTLE_STANDARDS_DISABLED"@[6] == '_');
                assert("BATTLE_STANDARDS_DISABLED"@[7] == 'S');
                assert("BATTLE_STANDARDS_DISABLED"@[8] == 'T');
                assert("BATTLE_STANDARDS_DISABLED"@[9] == 'A');
                assert("BATTLE_STANDARDS_DISABLED"@[10] == 'N');
                assert("BATTLE_STANDARDS_DISABLED"@[11] == 'D');
                assert("BATTLE_STANDARDS_DISABLED"@[12] == 'A');
                assert("BATTLE_STANDARDS_DISABLED"@[13] == 'R');
                assert("BATTLE_STANDARDS_DISABLED"@[14] == 'D');
                assert("BATTLE_STANDARDS_DISABLED"@[15] == 'S');
                assert("BATTLE_STANDARDS_DISABLED"@[16] == '_');
                assert("BATTLE_STANDARDS_DISABLED"@[17] == 'D');
                assert("BATTLE_STANDARDS_DISABLED"@[18] == 'I');
                assert("BATTLE_STANDARDS_DISABLED"@[19] == 'S');
                assert("BATTLE_STANDARDS_DISABLED"@[20] == 'A');
                assert("BATTLE_STANDARDS_DISABLED"@[21] == 'B');
                assert("BATTLE_STANDARDS_DISABLED"@[22] == 'L');
                assert("BATTLE_STANDARDS_DISABLED"@[23] == 'E');
                assert("BATTLE_STANDARDS_DISABLED"@[24] == 'D');
                assert(clean_atom("BATTLE_STANDARDS_DISABLED"@));
            },
            ActionResult::BattleStandardAlreadyExistsForGuild => {
                assert("BATTLE_STANDARD_ALREADY_EXISTS_FOR_GUILD"@.len() == 40);
                assert("BATTLE_STANDARD_ALREADY_EXISTS_FOR_GUILD"@[0] == 'B');
                assert("BATTLE_STANDARD_ALREADY_EXISTS_FOR_GUILD"@[1] == 'A');
                assert("BATTLE_STANDARD_ALREADY_EXISTS_FOR_GUILD"@[2] == 'T');
                assert("BATTLE_STANDARD_ALREADY_EXISTS_FOR_GUILD"@[3] == 'T');
                assert("BATTLE_STANDARD_ALREADY_EXISTS_FOR_GUILD"@[4] == 'L');
                assert("BATTLE_STANDARD_ALREADY_EXISTS_FOR_GUILD"@[5] == 'E');
                assert("BATTLE_STANDARD_ALREADY_EXISTS_FOR_GUILD"@[6] == '_');
                assert("BATTLE_STANDARD_ALREADY_EXISTS_FOR_GUILD"@[7] == 'S');
                assert("BATTLE_STANDARD_ALREADY_EXISTS_FOR_GUILD"@[8] == 'T');
                assert("BATTLE_STANDARD_ALREADY_EXISTS_FOR_GUILD"@[9] == 'A');
                assert("BATTLE_STANDARD_ALREADY_EXISTS_FOR_GUILD"@[10] == 'N');
                assert("BATTLE_STANDARD_ALREADY_EXISTS_FOR_GUILD"@[11] == 'D');
                assert("BATTLE_STANDARD_ALREADY_EXISTS_FOR_GUILD"@[12] == 'A');
                assert("BATTLE_STANDARD_ALREADY_EXISTS_FOR_GUILD"@[13] == 'R');
                assert("BATTLE_STANDARD_ALREADY_EXISTS_FOR_GUILD"@[14] == 'D');
                assert("BATTLE_STANDARD_ALREADY_EXISTS_FOR_GUILD"@[15] == '_');
                assert("BATTLE_STANDARD_ALREADY_EXISTS_FOR_GUILD"@[16] == 'A');
                assert("BATTLE_STANDARD_ALREADY_EXISTS_FOR_GUILD"@[17] == 'L');
                assert("BATTLE_STANDARD_ALREADY_EXISTS_FOR_GUILD"@[18] == 'R');
                assert("BATTLE_STANDARD_ALREADY_EXISTS_FOR_GUILD"@[19] == 'E');
                assert("BATTLE_STANDARD_ALREADY_EXISTS_FOR_GUILD"@[20] == 'A');
                assert("BATTLE_STANDARD_ALREADY_EXISTS_FOR_GUILD"@[21] == 'D');
                assert("BATTLE_STANDARD_ALREADY_EXISTS_FOR_GUILD"@[22] == 'Y');
                assert("BATTLE_STANDARD_ALREADY_EXISTS_FOR_GUILD"@[23] == '_');
                assert("BATTLE_STANDARD_ALREADY_EXISTS_FOR_GUILD"@[24] == 'E');
                assert("BATTLE_STANDARD_ALREADY_EXISTS_FOR_GUILD"@[25] == 'X');
                assert("BATTLE_STANDARD_ALREADY_EXISTS_FOR_GUILD"@[26] == 'I');
                assert("BATTLE_STANDARD_ALREADY_EXISTS_FOR_GUILD"@[27] == 'S');
                assert("BATTLE_STANDARD_ALREADY_EXISTS_FOR_GUILD"@[28] == 'T');
                assert("BATTLE_STANDARD_ALREADY_EXISTS_FOR_GUILD"@[29] == 'S');
                assert("BATTLE_STANDARD_ALREADY_EXISTS_FOR_GUILD"@[30] == '_');
                assert("BATTLE_STANDARD_ALREADY_EXISTS_FOR_GUILD"@[31] == 'F');
                assert("BATTLE_STANDARD_ALREADY_EXISTS_FOR_GUILD"@[32] == 'O');
                assert("BATTLE_STANDARD_ALREADY_EXISTS_FOR_GUILD"@[33] == 'R');
                assert("BATTLE_STANDARD_ALREADY_EXISTS_FOR_GUILD"@[34] == '_');
                assert("BATTLE_STANDARD_ALREADY_EXISTS_FOR_GUILD"@[35] == 'G');
                assert("BATTLE_STANDARD_ALREADY_EXISTS_FOR_GUILD"@[36] == 'U');
                assert("BATTLE_STANDARD_ALREADY_EXISTS_FOR_GUILD"@[37] == 'I');
                assert("BATTLE_STANDARD_ALREADY_EXISTS_FOR_GUILD"@[38] == 'L');
                assert("BATTLE_STANDARD_ALREADY_EXISTS_FOR_GUILD"@[39] == 'D');
                assert(clean_atom("BATTLE_STANDARD_ALREADY_EXISTS_FOR_GUILD"@));
            },
            ActionResult::BattleStandardLimit => {
                assert("BATTLE_STANDARD_LIMIT"@.len() == 21);
                assert("BATTLE_STANDARD_LIMIT"@[0] == 'B');
                assert("BATTLE_STANDARD_LIMIT"@[1] == 'A');
                assert("BATTLE_STANDARD_LIMIT"@[2] == 'T');
                assert("BATTLE_STANDARD_LIMIT"@[3] == 'T');
                assert("BATTLE_STANDARD_LIMIT"@[4] == 'L');
                assert("BATTLE_STANDARD_LIMIT"@[5] == 'E');
                assert("BATTLE_STANDARD_LIMIT"@[6] == '_');
                assert("BATTLE_STANDARD_LIMIT"@[7] == 'S');
                assert("BATTLE_STANDARD_LIMIT"@[8] == 'T');
                assert("BATTLE_STANDARD_LIMIT"@[9] == 'A');
                assert("BATTLE_STANDARD_LIMIT"@[10] == 'N');
                assert("BATTLE_STANDARD_LIMIT"@[11] == 'D');
                assert("BATTLE_STANDARD_LIMIT"@[12] == 'A');
                assert("BATTLE_STANDARD_LIMIT"@[13] == 'R');
                assert("BATTLE_STANDARD_LIMIT"@[14] == 'D');
                assert("BATTLE_STANDARD_LIMIT"@[15] == '_');
                assert("BATTLE_STANDARD_LIMIT"@[16] == 'L');
                assert("BATTLE_STANDARD_LIMIT"@[17] == 'I');
                assert("BATTLE_STANDARD_LIMIT"@[18] == 'M');
                assert("BATTLE_STANDARD_LIMIT"@[19] == 'I');
                assert("BATTLE_STANDARD_LIMIT"@[20] == 'T');
                assert(clean_atom("BATTLE_STANDARD_LIMIT"@));
            },
            ActionResult::BattleStandardNoPermission => {
                assert("BATTLE_STANDARD_NO_PERMISSION"@.len() == 29);
                assert("BATTLE_STANDARD_NO_PERMISSION"@[0] == 'B');
                assert("BATTLE_STANDARD_NO_PERMISSION"@[1] == 'A');
                assert("BATTLE_STANDARD_NO_PERMISSION"@[2] == 'T');
                assert("BATTLE_STANDARD_NO_PERMISSION"@[3] == 'T');
                assert("BATTLE_STANDARD_NO_PERMISSION"@[4] == 'L');
                assert("BATTLE_STANDARD_NO_PERMISSION"@[5] == 'E');
                assert("BATTLE_STANDARD_NO_PERMISSION"@[6] == '_');
                assert("BATTLE_STANDARD_NO_PERMISSION"@[7] == 'S');
                assert("BATTLE_STANDARD_NO_PERMISSION"@[8] == 'T');
                assert("BATTLE_STANDARD_NO_PERMISSION"@[9] == 'A');
                assert("BATTLE_STANDARD_NO_PERMISSION"@[10] == 'N');
                assert("BATTLE_STANDARD_NO_PERMISSION"@[11] == 'D');
                assert("BATTLE_STANDARD_NO_PERMISSION"@[12] == 'A');
                assert("BATTLE_STANDARD_NO_PERMISSION"@[13] == 'R');
                assert("BATTLE_STANDARD_NO_PERMISSION"@[14] == 'D');
                assert("BATTLE_STANDARD_NO_PERMISSION"@[15] == '_');
                assert("BATTLE_STANDARD_NO_PERMISSION"@[16] == 'N');
                assert("BATTLE_STANDARD_NO_PERMISSION"@[17] == 'O');
                assert("BATTLE_STANDARD_NO_PERMISSION"@[18] == '_');
                assert("BATTLE_STANDARD_NO_PERMISSION"@[19] == 'P');
                assert("BATTLE_STANDARD_NO_PERMISSION"@[20] == 'E');
                assert("BATTLE_STANDARD_NO_PERMISSION"@[21] == 'R');
                assert("BATTLE_STANDARD_NO_PERMISSION"@[22] == 'M');
                assert("BATTLE_STANDARD_NO_PERMISSION"@[23] == 'I');
                assert("BATTLE_STANDARD_NO_PERMISSION"@[24] == 'S');
                assert("BATTLE_STANDARD_NO_PERMISSION"@[25] == 'S');
                assert("BATTLE_STANDARD_NO_PERMISSION"@[26] == 'I');
                assert("BATTLE_STANDARD_NO_PERMISSION"@[27] == 'O');
                assert("BATTLE_STANDARD_NO_PERMISSION"@[28] == 'N');
                assert(clean_atom("BATTLE_STANDARD_NO_PERMISSION"@));
            },
            ActionResult::BattleStandardTabardMismatch => {
                assert("BATTLE_STANDARD_TABARD_MISMATCH"@.len() == 31);
                assert("BATTLE_STANDARD_TABARD_MISMATCH"@[0] == 'B');
                assert("BATTLE_STANDARD_TABARD_MISMATCH"@[1] == 'A');
                assert("BATTLE_STANDARD_TABARD_MISMATCH"@[2] == 'T');
                assert("BATTLE_STANDARD_TABARD_MISMATCH"@[3] == 'T');
                assert("BATTLE_STANDARD_TABARD_MISMATCH"@[4] == 'L');
                assert("BATTLE_STANDARD_TABARD_MISMATCH"@[5] == 'E');
                assert("BATTLE_STANDARD_TABARD_MISMATCH"@[6] == '_');
                assert("BATTLE_STANDARD_TABARD_MISMATCH"@[7] == 'S');
                assert("BATTLE_STANDARD_TABARD_MISMATCH"@[8] == 'T');
                assert("BATTLE_STANDARD_TABARD_MISMATCH"@[9] == 'A');
                assert("BATTLE_STANDARD_TABARD_MISMATCH"@[10] == 'N');
                assert("BATTLE_STANDARD_TABARD_MISMATCH"@[11] == 'D');
                assert("BATTLE_STANDARD_TABARD_MISMATCH"@[12] == 'A');
                assert("BATTLE_STANDARD_TABARD_MISMATCH"@[13] == 'R');
                assert("BATTLE_STANDARD_TABARD_MISMATCH"@[14] == 'D');
                assert("BATTLE_STANDARD_TABARD_MISMATCH"@[15] == '_');
                assert("BATTLE_STANDARD_TABARD_MISMATCH"@[16] == 'T');
                assert("BATTLE_STANDARD_TABARD_MISMATCH"@[17] == 'A');
                assert("BATTLE_STANDARD_TABARD_MISMATCH"@[18] == 'B');
                assert("BATTLE_STANDARD_TABARD_MISMATCH"@[19] == 'A');
                assert("BATTLE_STANDARD_TABARD_MISMATCH"@[20] == 'R');
                assert("BATTLE_STANDARD_TABARD_MISMATCH"@[21] == 'D');
                assert("BATTLE_STANDARD_TABARD_MISMATCH"@[22] == '_');
                assert("BATTLE_STANDARD_TABARD_MISMATCH"@[23] == 'M');
                assert("BATTLE_STANDARD_TABARD_MISMATCH"@[24] == 'I');
                assert("BATTLE_STANDARD_TABARD_MISMATCH"@[25] == 'S');
                assert("BATTLE_STANDARD_TABARD_MISMATCH"@[26] == 'M');
                assert("BATTLE_STANDARD_TABARD_MISMATCH"@[27] == 'A');
                assert("BATTLE_STANDARD_TABARD_MISMATCH"@[28] == 'T');
                assert("BATTLE_STANDARD_TABARD_MISMATCH"@[29] == 'C');
                assert("BATTLE_STANDARD_TABARD_MISMATCH"@[30] == 'H');
                assert(clean_atom("BATTLE_STANDARD_TABARD_MISMATCH"@));
            },
            ActionResult::BattleStandardTooCloseToCapturable => {
                assert("BATTLE_STANDARD_TOO_CLOSE_TO_CAPTURABLE"@.len() == 39);
                assert("BATTLE_STANDARD_TOO_CLOSE_TO_CAPTURABLE"@[0] == 'B');
                assert("BATTLE_STANDARD_TOO_CLOSE_TO_CAPTURABLE"@[1] == 'A');
                assert("BATTLE_STANDARD_TOO_CLOSE_TO_CAPTURABLE"@[2] == 'T');
                assert("BATTLE_STANDARD_TOO_CLOSE_TO_CAPTURABLE"@[3] == 'T');
                assert("BATTLE_STANDARD_TOO_CLOSE_TO_CAPTURABLE"@[4] == 'L');
                assert("BATTLE_STANDARD_TOO_CLOSE_TO_CAPTURABLE"@[5] == 'E');
                assert("BATTLE_STANDARD_TOO_CLOSE_TO_CAPTURABLE"@[6] == '_');
                assert("BATTLE_STANDARD_TOO_CLOSE_TO_CAPTURABLE"@[7] == 'S');
                assert("BATTLE_STANDARD_TOO_CLOSE_TO_CAPTURABLE"@[8] == 'T');
                assert("BATTLE_STANDARD_TOO_CLOSE_TO_CAPTURABLE"@[9] == 'A');
                assert("BATTLE_STANDARD_TOO_CLOSE_TO_CAPTURABLE"@[10] == 'N');
                assert("BATTLE_STANDARD_TOO_CLOSE_TO_CAPTURABLE"@[11] == 'D');
                assert("BATTLE_STANDARD_TOO_CLOSE_TO_CAPTURABLE"@[12] == 'A');
                assert("BATTLE_STANDARD_TOO_CLOSE_TO_CAPTURABLE"@[13] == 'R');
                assert("BATTLE_STANDARD_TOO_CLOSE_TO_CAPTURABLE"@[14] == 'D');
                assert("BATTLE_STANDARD_TOO_CLOSE_TO_CAPTURABLE"@[15] == '_');
                assert("BATTLE_STANDARD_TOO_CLOSE_TO_CAPTURABLE"@[16] == 'T');
                assert("BATTLE_STANDARD_TOO_CLOSE_TO_CAPTURABLE"@[17] == 'O');
                assert("BATTLE_STANDARD_TOO_CLOSE_TO_CAPTURABLE"@[18] == 'O');
                assert("BATTLE_STANDARD_TOO_CLOSE_TO_CAPTURABLE"@[19] == '_');
                assert("BATTLE_STANDARD_TOO_CLOSE_TO_CAPTURABLE"@[20] == 'C');
                assert("BATTLE_STANDARD_TOO_CLOSE_TO_CAPTURABLE"@[21] == 'L');
                assert("BATTLE_STANDARD_TOO_CLOSE_TO_CAPTURABLE"@[22] == 'O');
                assert("BATTLE_STANDARD_TOO_CLOSE_TO_CAPTURABLE"@[23] == 'S');
                assert("BATTLE_STANDARD_TOO_CLOSE_TO_CAPTURABLE"@[24] == 'E');
                assert("BATTLE_STANDARD_TOO_CLOSE_TO_CAPTURABLE"@[25] == '_');
                assert("BATTLE_STANDARD_TOO_CLOSE_TO_CAPTURABLE"@[26] == 'T');
                assert("BATTLE_STANDARD_TOO_CLOSE_TO_CAPTURABLE"@[27] == 'O');
                assert("BATTLE_STANDARD_TOO_CLOSE_TO_CAPTURABLE"@[28] == '_');
                assert("BATTLE_STANDARD_TOO_CLOSE_TO_CAPTURABLE"@[29] == 'C');
                assert("BATTLE_STANDARD_TOO_CLOSE_TO_CAPTURABLE"@[30] == 'A');
                assert("BATTLE_STANDARD_TOO_CLOSE_TO_CAPTURABLE"@[31] == 'P');
                assert("BATTLE_STANDARD_TOO_CLOSE_TO_CAPTURABLE"@[32] == 'T');
                assert("BATTLE_STANDARD_TOO_CLOSE_TO_CAPTURABLE"@[33] == 'U');
                assert("BATTLE_STANDARD_TOO_CLOSE_TO_CAPTURABLE"@[34] == 'R');
                assert("BATTLE_STANDARD_TOO_CLOSE_TO_CAPTURABLE"@[35] == 'A');
                assert("BATTLE_STANDARD_TOO_CLOSE_TO_CAPTURABLE"@[36] == 'B');
                assert("BATTLE_STANDARD_TOO_CLOSE_TO_CAPTURABLE"@[37] == 'L');
                assert("BATTLE_STANDARD_TOO_CLOSE_TO_CAPTURABLE"@[38] == 'E');
                assert(clean_atom("BATTLE_STANDARD_TOO_CLOSE_TO_CAPTURABLE"@));
            },
            ActionResult::Bladeturn => {
                assert("BLADETURN"@.len() == 9);
                assert("BLADETURN"@[0] == 'B');
                assert("BLADETURN"@[1] == 'L');
                assert("BLADETURN"@[2] == 'A');
                assert("BLADETURN"@[3] == 'D');
                assert("BLADETURN"@[4] == 'E');
                assert("BLADETURN"@[5] == 'T');
                assert("BLADETURN"@[6] == 'U');
                assert("BLADETURN"@[7] == 'R');
                assert("BLADETURN"@[8] == 'N');
                assert(clean_atom("BLADETURN"@));
            },
            ActionResult::Blocked => {
                assert("BLOCKED"@.len() == 7);
                assert("BLOCKED"@[0] == 'B');
                assert("BLOCKED"@[1] == 'L');
                assert("BLOCKED"@[2] == 'O');
                assert("BLOCKED"@[3] == 'C');
                assert("BLOCKED"@[4] == 'K');
                assert("BLOCKED"@[5] == 'E');
                assert("BLOCKED"@[6] == 'D');
                assert(clean_atom("BLOCKED"@));
            },
            ActionResult::BlockedDamage => {
                assert("BLOCKED_DAMAGE"@.len() == 14);
                assert("BLOCKED_DAMAGE"@[0] == 'B');
                assert("BLOCKED_DAMAGE"@[1] == 'L');
                assert("BLOCKED_DAMAGE"@[2] == 'O');
                assert("BLOCKED_DAMAGE"@[3] == 'C');
                assert("BLOCKED_DAMAGE"@[4] == 'K');
                assert("BLOCKED_DAMAGE"@[5] == 'E');
                assert("BLOCKED_DAMAGE"@[6] == 'D');
                assert("BLOCKED_DAMAGE"@[7] == '_');
                assert("BLOCKED_DAMAGE"@[8] == 'D');
                assert("BLOCKED_DAMAGE"@[9] == 'A');
                assert("BLOCKED_DAMAGE"@[10] == 'M');
                assert("BLOCKED_DAMAGE"@[11] == 'A');
                assert("BLOCKED_DAMAGE"@[12] == 'G');
                assert("BLOCKED_DAMAGE"@[13] == 'E');
                assert(clean_atom("BLOCKED_DAMAGE"@));
            },
            ActionResult::Busy => {
                assert("BUSY"@.len() == 4);
                assert("BUSY"@[0] == 'B');
                assert("BUSY"@[1] == 'U');
                assert("BUSY"@[2] == 'S');
                assert("BUSY"@[3] == 'Y');
                assert(clean_atom("BUSY"@));
            },
            ActionResult::CannotUse => {
                assert("CANNOT_USE"@.len() == 10);
                assert("CANNOT_USE"@[0] == 'C');
                assert("CANNOT_USE"@[1] == 'A');
                assert("CANNOT_USE"@[2] == 'N');
                assert("CANNOT_USE"@[3] == 'N');
                assert("CANNOT_USE"@[4] == 'O');
                assert("CANNOT_USE"@[5] == 'T');
                assert("CANNOT_USE"@[6] == '_');
                assert("CANNOT_USE"@[7] == 'U');
                assert("CANNOT_USE"@[8] == 'S');
                assert("CANNOT_USE"@[9] == 'E');
                assert(clean_atom("CANNOT_USE"@));
            },
            ActionResult::CantSeeTarget => {
                assert("CANT_SEE_TARGET"@.len() == 15);
                assert("CANT_SEE_TARGET"@[0] == 'C');
                assert("CANT_SEE_TARGET"@[1] == 'A');
                assert("CANT_SEE_TARGET"@[2] == 'N');
                assert("CANT_SEE_TARGET"@[3] == 'T');
                assert("CANT_SEE_TARGET"@[4] == '_');
                assert("CANT_SEE_TARGET"@[5] == 'S');
                assert("CANT_SEE_TARGET"@[6] == 'E');
                assert("CANT_SEE_TARGET"@[7] == 'E');
                assert("CANT_SEE_TARGET"@[8] == '_');
                assert("CANT_SEE_TARGET"@[9] == 'T');
                assert("CANT_SEE_TARGET"@[10] == 'A');
                assert("CANT_SEE_TARGET"@[11] == 'R');
                assert("CANT_SEE_TARGET"@[12] == 'G');
                assert("CANT_SEE_TARGET"@[13] == 'E');
                assert("CANT_SEE_TARGET"@[14] == 'T');
                assert(clean_atom("CANT_SEE_TARGET"@));
            },
            ActionResult::CantSwapHotbarIsOverridden => {
                assert("CANT_SWAP_HOTBAR_IS_OVERRIDDEN"@.len() == 30);
                assert("CANT_SWAP_HOTBAR_IS_OVERRIDDEN"@[0] == 'C');
                assert("CANT_SWAP_HOTBAR_IS_OVERRIDDEN"@[1] == 'A');
                assert("CANT_SWAP_HOTBAR_IS_OVERRIDDEN"@[2] == 'N');
                assert("CANT_SWAP_HOTBAR_IS_OVERRIDDEN"@[3] == 'T');
                assert("CANT_SWAP_HOTBAR_IS_OVERRIDDEN"@[4] == '_');
                assert("CANT_SWAP_HOTBAR_IS_OVERRIDDEN"@[5] == 'S');
                assert("CANT_SWAP_HOTBAR_IS_OVERRIDDEN"@[6] == 'W');
                assert("CANT_SWAP_HOTBAR_IS_OVERRIDDEN"@[7] == 'A');
                assert("CANT_SWAP_HOTBAR_IS_OVERRIDDEN"@[8] == 'P');
                assert("CANT_SWAP_HOTBAR_IS_OVERRIDDEN"@[9] == '_');
                assert("CANT_SWAP_HOTBAR_IS_OVERRIDDEN"@[10] == 'H');
                assert("CANT_SWAP_HOTBAR_IS_OVERRIDDEN"@[11] == 'O');
                assert("CANT_SWAP_HOTBAR_IS_OVERRIDDEN"@[12] == 'T');
                assert("CANT_SWAP_HOTBAR_IS_OVERRIDDEN"@[13] == 'B');
                assert("CANT_SWAP_HOTBAR_IS_OVERRIDDEN"@[14] == 'A');
                assert("CANT_SWAP_HOTBAR_IS_OVERRIDDEN"@[15] == 'R');
                assert("CANT_SWAP_HOTBAR_IS_OVERRIDDEN"@[16] == '_');
                assert("CANT_SWAP_HOTBAR_IS_OVERRIDDEN"@[17] == 'I');
                assert("CANT_SWAP_HOTBAR_IS_OVERRIDDEN"@[18] == 'S');
                assert("CANT_SWAP_HOTBAR_IS_OVERRIDDEN"@[19] == '_');
                assert("CANT_SWAP_HOTBAR_IS_OVERRIDDEN"@[20] == 'O');
                assert("CANT_SWAP_HOTBAR_IS_OVERRIDDEN"@[21] == 'V');
                assert("CANT_SWAP_HOTBAR_IS_OVERRIDDEN"@[22] == 'E');
                assert("CANT_SWAP_HOTBAR_IS_OVERRIDDEN"@[23] == 'R');
                assert("CANT_SWAP_HOTBAR_IS_OVERRIDDEN"@[24] == 'R');
                assert("CANT_SWAP_HOTBAR_IS_OVERRIDDEN"@[25] == 'I');
                assert("CANT_SWAP_HOTBAR_IS_OVERRIDDEN"@[26] == 'D');
                assert("CANT_SWAP_HOTBAR_IS_OVERRIDDEN"@[27] == 'D');
                assert("CANT_SWAP_HOTBAR_IS_OVERRIDDEN"@[28] == 'E');
                assert("CANT_SWAP_HOTBAR_IS_OVERRIDDEN"@[29] == 'N');
                assert(clean_atom("CANT_SWAP_HOTBAR_IS_OVERRIDDEN"@));
            },
            ActionResult::CantSwapWhileChangingGear => {
                assert("CANT_SWAP_WHILE_CHANGING_GEAR"@.len() == 29);
                assert("CANT_SWAP_WHILE_CHANGING_GEAR"@[0] == 'C');
                assert("CANT_SWAP_WHILE_CHANGING_GEAR"@[1] == 'A');
                assert("CANT_SWAP_WHILE_CHANGING_GEAR"@[2] == 'N');
                assert("CANT_SWAP_WHILE_CHANGING_GEAR"@[3] == 'T');
                assert("CANT_SWAP_WHILE_CHANGING_GEAR"@[4] == '_');
                assert("CANT_SWAP_WHILE_CHANGING_GEAR"@[5] == 'S');
                assert("CANT_SWAP_WHILE_CHANGING_GEAR"@[6] == 'W');
                assert("CANT_SWAP_WHILE_CHANGING_GEAR"@[7] == 'A');
                assert("CANT_SWAP_WHILE_CHANGING_GEAR"@[8] == 'P');
                assert("CANT_SWAP_WHILE_CHANGING_GEAR"@[9] == '_');
                assert("CANT_SWAP_WHILE_CHANGING_GEAR"@[10] == 'W');
                assert("CANT_SWAP_WHILE_CHANGING_GEAR"@[11] == 'H');
                assert("CANT_SWAP_WHILE_CHANGING_GEAR"@[12] == 'I');
                assert("CANT_SWAP_WHILE_CHANGING_GEAR"@[13] == 'L');
                assert("CANT_SWAP_WHILE_CHANGING_GEAR"@[14] == 'E');
                assert("CANT_SWAP_WHILE_CHANGING_GEAR"@[15] == '_');
                assert("CANT_SWAP_WHILE_CHANGING_GEAR"@[16] == 'C');
                assert("CANT_SWAP_WHILE_CHANGING_GEAR"@[17] == 'H');
                assert("CANT_SWAP_WHILE_CHANGING_GEAR"@[18] == 'A');
                assert("CANT_SWAP_WHILE_CHANGING_GEAR"@[19] == 'N');
                assert("CANT_SWAP_WHILE_CHANGING_GEAR"@[20] == 'G');
                assert("CANT_SWAP_WHILE_CHANGING_GEAR"@[21] == 'I');
                assert("CANT_SWAP_WHILE_CHANGING_GEAR"@[22] == 'N');
                assert("CANT_SWAP_WHILE_CHANGING_GEAR"@[23] == 'G');
                assert("CANT_SWAP_WHILE_CHANGING_GEAR"@[24] == '_');
                assert("CANT_SWAP_WHILE_CHANGING_GEAR"@[25] == 'G');
                assert("CANT_SWAP_WHILE_CHANGING_GEAR"@[26] == 'E');
                assert("CANT_SWAP_WHILE_CHANGING_GEAR"@[27] == 'A');
                assert("CANT_SWAP_WHILE_CHANGING_GEAR"@[28] == 'R');
                assert(clean_atom("CANT_SWAP_WHILE_CHANGING_GEAR"@));
            },
            ActionResult::CasterDead => {
                assert("CASTER_DEAD"@.len() == 11);
                assert("CASTER_DEAD"@[0] == 'C');
                assert("CASTER_DEAD"@[1] == 'A');
                assert("CASTER_DEAD"@[2] == 'S');
                assert("CASTER_DEAD"@[3] == 'T');
                assert("CASTER_DEAD"@[4] == 'E');
                assert("CASTER_DEAD"@[5] == 'R');
                assert("CASTER_DEAD"@[6] == '_');
                assert("CASTER_DEAD"@[7] == 'D');
                assert("CASTER_DEAD"@[8] == 'E');
                assert("CASTER_DEAD"@[9] == 'A');
                assert("CASTER_DEAD"@[10] == 'D');
                assert(clean_atom("CASTER_DEAD"@));
            },
            ActionResult::CriticalDamage => {
                assert("CRITICAL_DAMAGE"@.len() == 15);
                assert("CRITICAL_DAMAGE"@[0] == 'C');
                assert("CRITICAL_DAMAGE"@[1] == 'R');
                assert("CRITICAL_DAMAGE"@[2] == 'I');
                assert("CRITICAL_DAMAGE"@[3] == 'T');
                assert("CRITICAL_DAMAGE"@[4] == 'I');
                assert("CRITICAL_DAMAGE"@[5] == 'C');
                assert("CRITICAL_DAMAGE"@[6] == 'A');
                assert("CRITICAL_DAMAGE"@[7] == 'L');
                assert("CRITICAL_DAMAGE"@[8] == '_');
                assert("CRITICAL_DAMAGE"@[9] == 'D');
                assert("CRITICAL_DAMAGE"@[10] == 'A');
                assert("CRITICAL_DAMAGE"@[11] == 'M');
                assert("CRITICAL_DAMAGE"@[12] == 'A');
                assert("CRITICAL_DAMAGE"@[13] == 'G');
                assert("CRITICAL_DAMAGE"@[14] == 'E');
                assert(clean_atom("CRITICAL_DAMAGE"@));
            },
            ActionResult::CriticalHeal => {
                assert("CRITICAL_HEAL"@.len() == 13);
                assert("CRITICAL_HEAL"@[0] == 'C');
                assert("CRITICAL_HEAL"@[1] == 'R');
                assert("CRITICAL_HEAL"@[2] == 'I');
                assert("CRITICAL_HEAL"@[3] == 'T');
                assert("CRITICAL_HEAL"@[4] == 'I');
                assert("CRITICAL_HEAL"@[5] == 'C');
                assert("CRITICAL_HEAL"@[6] == 'A');
                assert("CRITICAL_HEAL"@[7] == 'L');
                assert("CRITICAL_HEAL"@[8] == '_');
                assert("CRITICAL_HEAL"@[9] == 'H');
                assert("CRITICAL_HEAL"@[10] == 'E');
                assert("CRITICAL_HEAL"@[11] == 'A');
                assert("CRITICAL_HEAL"@[12] == 'L');
                assert(clean_atom("CRITICAL_HEAL"@));
            },
            ActionResult::Damage => {
                assert("DAMAGE"@.len() == 6);
                assert("DAMAGE"@[0] == 'D');
                assert("DAMAGE"@[1] == 'A');
                assert("DAMAGE"@[2] == 'M');
                assert("DAMAGE"@[3] == 'A');
                assert("DAMAGE"@[4] == 'G');
                assert("DAMAGE"@[5] == 'E');
                assert(clean_atom("DAMAGE"@));
            },
            ActionResult::DamageShielded => {
                assert("DAMAGE_SHIELDED"@.len() == 15);
                assert("DAMAGE_SHIELDED"@[0] == 'D');
                assert("DAMAGE_SHIELDED"@[1] == 'A');
                assert("DAMAGE_SHIELDED"@[2] == 'M');
                assert("DAMAGE_SHIELDED"@[3] == 'A');
                assert("DAMAGE_SHIELDED"@[4] == 'G');
                assert("DAMAGE_SHIELDED"@[5] == 'E');
                assert("DAMAGE_SHIELDED"@[6] == '_');
                assert("DAMAGE_SHIELDED"@[7] == 'S');
                assert("DAMAGE_SHIELDED"@[8] == 'H');
                assert("DAMAGE_SHIELDED"@[9] == 'I');
                assert("DAMAGE_SHIELDED"@[10] == 'E');
                assert("DAMAGE_SHIELDED"@[11] == 'L');
                assert("DAMAGE_SHIELDED"@[12] == 'D');
                assert("DAMAGE_SHIELDED"@[13] == 'E');
                assert("DAMAGE_SHIELDED"@[14] == 'D');
                assert(clean_atom("DAMAGE_SHIELDED"@));
            },
            ActionResult::Defended => {
                assert("DEFENDED"@.len() == 8);
                assert("DEFENDED"@[0] == 'D');
                assert("DEFENDED"@[1] == 'E');
                assert("DEFENDED"@[2] == 'F');
                assert("DEFENDED"@[3] == 'E');
                assert("DEFENDED"@[4] == 'N');
                assert("DEFENDED"@[5] == 'D');
                assert("DEFENDED"@[6] == 'E');
                assert("DEFENDED"@[7] == 'D');
                assert(clean_atom("DEFENDED"@));
            },
            ActionResult::Died => {
                assert("DIED"@.len() == 4);
                assert("DIED"@[0] == 'D');
                assert("DIED"@[1] == 'I');
                assert("DIED"@[2] == 'E');
                assert("DIED"@[3] == 'D');
                assert(clean_atom("DIED"@));
            },
            ActionResult::DiedCompanionXp => {
                assert("DIED_COMPANION_XP"@.len() == 17);
                assert("DIED_COMPANION_XP"@[0] == 'D');
                assert("DIED_COMPANION_XP"@[1] == 'I');
                assert("DIED_COMPANION_XP"@[2] == 'E');
                assert("DIED_COMPANION_XP"@[3] == 'D');
                assert("DIED_COMPANION_XP"@[4] == '_');
                assert("DIED_COMPANION_XP"@[5] == 'C');
                assert("DIED_COMPANION_XP"@[6] == 'O');
                assert("DIED_COMPANION_XP"@[7] == 'M');
                assert("DIED_COMPANION_XP"@[8] == 'P');
                assert("DIED_COMPANION_XP"@[9] == 'A');
                assert("DIED_COMPANION_XP"@[10] == 'N');
                assert("DIED_COMPANION_XP"@[11] == 'I');
                assert("DIED_COMPANION_XP"@[12] == 'O');
                assert("DIED_COMPANION_XP"@[13] == 'N');
                assert("DIED_COMPANION_XP"@[14] == '_');
                assert("DIED_COMPANION_XP"@[15] == 'X');
                assert("DIED_COMPANION_XP"@[16] == 'P');
                assert(clean_atom("DIED_COMPANION_XP"@));
            },
            ActionResult::DiedXp => {
                assert("DIED_XP"@.len() == 7);
                assert("DIED_XP"@[0] == 'D');
                assert("DIED_XP"@[1] == 'I');
                assert("DIED_XP"@[2] == 'E');
                assert("DIED_XP"@[3] == 'D');
                assert("DIED_XP"@[4] == '_');
                assert("DIED_XP"@[5] == 'X');
                assert("DIED_XP"@[6] == 'P');
                assert(clean_atom("DIED_XP"@));
            },
            ActionResult::Disarmed => {
                assert("DISARMED"@.len() == 8);
                assert("DISARMED"@[0] == 'D');
                assert("DISARMED"@[1] == 'I');
                assert("DISARMED"@[2] == 'S');
                assert("DISARMED"@[3] == 'A');
                assert("DISARMED"@[4] == 'R');
                assert("DISARMED"@[5] == 'M');
                assert("DISARMED"@[6] == 'E');
                assert("DISARMED"@[7] == 'D');
                assert(clean_atom("DISARMED"@));
            },
            ActionResult::Disoriented => {
                assert("DISORIENTED"@.len() == 11);
                assert("DISORIENTED"@[0] == 'D');
                assert("DISORIENTED"@[1] == 'I');
                assert("DISORIENTED"@[2] == 'S');
                assert("DISORIENTED"@[3] == 'O');
                assert("DISORIENTED"@[4] == 'R');
                assert("DISORIENTED"@[5] == 'I');
                assert("DISORIENTED"@[6] == 'E');
                assert("DISORIENTED"@[7] == 'N');
                assert("DISORIENTED"@[8] == 'T');
                assert("DISORIENTED"@[9] == 'E');
                assert("DISORIENTED"@[10] == 'D');
                assert(clean_atom("DISORIENTED"@));
            },
            ActionResult::Dodged => {
                assert("DODGED"@.len() == 6);
                assert("DODGED"@[0] == 'D');
                assert("DODGED"@[1] == 'O');
                assert("DODGED"@[2] == 'D');
                assert("DODGED"@[3] == 'G');
                assert("DODGED"@[4] == 'E');
                assert("DODGED"@[5] == 'D');
                assert(clean_atom("DODGED"@));
            },
            ActionResult::DotTick => {
                assert("DOT_TICK"@.len() == 8);
                assert("DOT_TICK"@[0] == 'D');
                assert("DOT_TICK"@[1] == 'O');
                assert("DOT_TICK"@[2] == 'T');
                assert("DOT_TICK"@[3] == '_');
                assert("DOT_TICK"@[4] == 'T');
                assert("DOT_TICK"@[5] == 'I');
                assert("DOT_TICK"@[6] == 'C');
                assert("DOT_TICK"@[7] == 'K');
                assert(clean_atom("DOT_TICK"@));
            },
            ActionResult::DotTickCritical => {
                assert("DOT_TICK_CRITICAL"@.len() == 17);
                assert("DOT_TICK_CRITICAL"@[0] == 'D');
                assert("DOT_TICK_CRITICAL"@[1] == 'O');
                assert("DOT_TICK_CRITICAL"@[2] == 'T');
                assert("DOT_TICK_CRITICAL"@[3] == '_');
                assert("DOT_TICK_CRITICAL"@[4] == 'T');
                assert("DOT_TICK_CRITICAL"@[5] == 'I');
                assert("DOT_TICK_CRITICAL"@[6] == 'C');
                assert("DOT_TICK_CRITICAL"@[7] == 'K');
                assert("DOT_TICK_CRITICAL"@[8] == '_');
                assert("DOT_TICK_CRITICAL"@[9] == 'C');
                assert("DOT_TICK_CRITICAL"@[10] == 'R');
                assert("DOT_TICK_CRITICAL"@[11] == 'I');
                assert("DOT_TICK_CRITICAL"@[12] == 'T');
                assert("DOT_TICK_CRITICAL"@[13] == 'I');
                assert("DOT_TICK_CRITICAL"@[14] == 'C');
                assert("DOT_TICK_CRITICAL"@[15] == 'A');
                assert("DOT_TICK_CRITICAL"@[16] == 'L');
                assert(clean_atom("DOT_TICK_CRITICAL"@));
            },
            ActionResult::Failed => {
                assert("FAILED"@.len() == 6);
                assert("FAILED"@[0] == 'F');
                assert("FAILED"@[1] == 'A');
                assert("FAILED"@[2] == 'I');
                assert("FAILED"@[3] == 'L');
                assert("FAILED"@[4] == 'E');
                assert("FAILED"@[5] == 'D');
                assert(clean_atom("FAILED"@));
            },
            ActionResult::FailedRequirements => {
                assert("FAILED_REQUIREMENTS"@.len() == 19);
                assert("FAILED_REQUIREMENTS"@[0] == 'F');
                assert("FAILED_REQUIREMENTS"@[1] == 'A');
                assert("FAILED_REQUIREMENTS"@[2] == 'I');
                assert("FAILED_REQUIREMENTS"@[3] == 'L');
                assert("FAILED_REQUIREMENTS"@[4] == 'E');
                assert("FAILED_REQUIREMENTS"@[5] == 'D');
                assert("FAILED_REQUIREMENTS"@[6] == '_');
                assert("FAILED_REQUIREMENTS"@[7] == 'R');
                assert("FAILED_REQUIREMENTS"@[8] == 'E');
                assert("FAILED_REQUIREMENTS"@[9] == 'Q');
                assert("FAILED_REQUIREMENTS"@[10] == 'U');
                assert("FAILED_REQUIREMENTS"@[11] == 'I');
                assert("FAILED_REQUIREMENTS"@[12] == 'R');
                assert("FAILED_REQUIREMENTS"@[13] == 'E');
                assert("FAILED_REQUIREMENTS"@[14] == 'M');
                assert("FAILED_REQUIREMENTS"@[15] == 'E');
                assert("FAILED_REQUIREMENTS"@[16] == 'N');
                assert("FAILED_REQUIREMENTS"@[17] == 'T');
                assert("FAILED_REQUIREMENTS"@[18] == 'S');
                assert(clean_atom("FAILED_REQUIREMENTS"@));
            },
            ActionResult::FailedSiegeCreationRequirements => {
                assert("FAILED_SIEGE_CREATION_REQUIREMENTS"@.len() == 34);
                assert("FAILED_SIEGE_CREATION_REQUIREMENTS"@[0] == 'F');
                assert("FAILED_SIEGE_CREATION_REQUIREMENTS"@[1] == 'A');
                assert("FAILED_SIEGE_CREATION_REQUIREMENTS"@[2] == 'I');
                assert("FAILED_SIEGE_CREATION_REQUIREMENTS"@[3] == 'L');
                assert("FAILED_SIEGE_CREATION_REQUIREMENTS"@[4] == 'E');
                assert("FAILED_SIEGE_CREATION_REQUIREMENTS"@[5] == 'D');
                assert("FAILED_SIEGE_CREATION_REQUIREMENTS"@[6] == '_');
                assert("FAILED_SIEGE_CREATION_REQUIREMENTS"@[7] == 'S');
                assert("FAILED_SIEGE_CREATION_REQUIREMENTS"@[8] == 'I');
                assert("FAILED_SIEGE_CREATION_REQUIREMENTS"@[9] == 'E');
                assert("FAILED_SIEGE_CREATION_REQUIREMENTS"@[10] == 'G');
                assert("FAILED_SIEGE_CREATION_REQUIREMENTS"@[11] == 'E');
                assert("FAILED_SIEGE_CREATION_REQUIREMENTS"@[12] == '_');
                assert("FAILED_SIEGE_CREATION_REQUIREMENTS"@[13] == 'C');
                assert("FAILED_SIEGE_CREATION_REQUIREMENTS"@[14] == 'R');
                assert("FAILED_SIEGE_CREATION_REQUIREMENTS"@[15] == 'E');
                assert("FAILED_SIEGE_CREATION_REQUIREMENTS"@[16] == 'A');
                assert("FAILED_SIEGE_CREATION_REQUIREMENTS"@[17] == 'T');
                assert("FAILED_SIEGE_CREATION_REQUIREMENTS"@[18] == 'I');
                assert("FAILED_SIEGE_CREATION_REQUIREMENTS"@[19] == 'O');
                assert("FAILED_SIEGE_CREATION_REQUIREMENTS"@[20] == 'N');
                assert("FAILED_SIEGE_CREATION_REQUIREMENTS"@[21] == '_');
                assert("FAILED_SIEGE_CREATION_REQUIREMENTS"@[22] == 'R');
                assert("FAILED_SIEGE_CREATION_REQUIREMENTS"@[23] == 'E');
                assert("FAILED_SIEGE_CREATION_REQUIREMENTS"@[24] == 'Q');
                assert("FAILED_SIEGE_CREATION_REQUIREMENTS"@[25] == 'U');
                assert("FAILED_SIEGE_CREATION_REQUIREMENTS"@[26] == 'I');
                assert("FAILED_SIEGE_CREATION_REQUIREMENTS"@[27] == 'R');
                assert("FAILED_SIEGE_CREATION_REQUIREMENTS"@[28] == 'E');
                assert("FAILED_SIEGE_CREATION_REQUIREMENTS"@[29] == 'M');
                assert("FAILED_SIEGE_CREATION_REQUIREMENTS"@[30] == 'E');
                assert("FAILED_SIEGE_CREATION_REQUIREMENTS"@[31] == 'N');
                assert("FAILED_SIEGE_CREATION_REQUIREMENTS"@[32] == 'T');
                assert("FAILED_SIEGE_CREATION_REQUIREMENTS"@[33] == 'S');
                assert(clean_atom("FAILED_SIEGE_CREATION_REQUIREMENTS"@));
            },
            ActionResult::Falling => {
                assert("FALLING"@.len() == 7);
                assert("FALLING"@[0] == 'F');
                assert("FALLING"@[1] == 'A');
                assert("FALLING"@[2] == 'L');
                assert("FALLING"@[3] == 'L');
                assert("FALLING"@[4] == 'I');
                assert("FALLING"@[5] == 'N');
                assert("FALLING"@[6] == 'G');
                assert(clean_atom("FALLING"@));
            },
            ActionResult::FallDamage => {
                assert("FALL_DAMAGE"@.len() == 11);
                assert("FALL_DAMAGE"@[0] == 'F');
                assert("FALL_DAMAGE"@[1] == 'A');
                assert("FALL_DAMAGE"@[2] == 'L');
                assert("FALL_DAMAGE"@[3] == 'L');
                assert("FALL_DAMAGE"@[4] == '_');
                assert("FALL_DAMAGE"@[5] == 'D');
                assert("FALL_DAMAGE"@[6] == 'A');
                assert("FALL_DAMAGE"@[7] == 'M');
                assert("FALL_DAMAGE"@[8] == 'A');
                assert("FALL_DAMAGE"@[9] == 'G');
                assert("FALL_DAMAGE"@[10] == 'E');
                assert(clean_atom("FALL_DAMAGE"@));
            },
            ActionResult::Feared => {
                assert("FEARED"@.len() == 6);
                assert("FEARED"@[0] == 'F');
                assert("FEARED"@[1] == 'E');
                assert("FEARED"@[2] == 'A');
                assert("FEARED"@[3] == 'R');
                assert("FEARED"@[4] == 'E');
                assert("FEARED"@[5] == 'D');
                assert(clean_atom("FEARED"@));
            },
            ActionResult::ForwardCampAlreadyExistsForGuild => {
                assert("FORWARD_CAMP_ALREADY_EXISTS_FOR_GUILD"@.len() == 37);
                assert("FORWARD_CAMP_ALREADY_EXISTS_FOR_GUILD"@[0] == 'F');
                assert("FORWARD_CAMP_ALREADY_EXISTS_FOR_GUILD"@[1] == 'O');
                assert("FORWARD_CAMP_ALREADY_EXISTS_FOR_GUILD"@[2] == 'R');
                assert("FORWARD_CAMP_ALREADY_EXISTS_FOR_GUILD"@[3] == 'W');
                assert("FORWARD_CAMP_ALREADY_EXISTS_FOR_GUILD"@[4] == 'A');
                assert("FORWARD_CAMP_ALREADY_EXISTS_FOR_GUILD"@[5] == 'R');
                assert("FORWARD_CAMP_ALREADY_EXISTS_FOR_GUILD"@[6] == 'D');
                assert("FORWARD_CAMP_ALREADY_EXISTS_FOR_GUILD"@[7] == '_');
                assert("FORWARD_CAMP_ALREADY_EXISTS_FOR_GUILD"@[8] == 'C');
                assert("FORWARD_CAMP_ALREADY_EXISTS_FOR_GUILD"@[9] == 'A');
                assert("FORWARD_CAMP_ALREADY_EXISTS_FOR_GUILD"@[10] == 'M');
                assert("FORWARD_CAMP_ALREADY_EXISTS_FOR_GUILD"@[11] == 'P');
                assert("FORWARD_CAMP_ALREADY_EXISTS_FOR_GUILD"@[12] == '_');
                assert("FORWARD_CAMP_ALREADY_EXISTS_FOR_GUILD"@[13] == 'A');
                assert("FORWARD_CAMP_ALREADY_EXISTS_FOR_GUILD"@[14] == 'L');
                assert("FORWARD_CAMP_ALREADY_EXISTS_FOR_GUILD"@[15] == 'R');
                assert("FORWARD_CAMP_ALREADY_EXISTS_FOR_GUILD"@[16] == 'E');
                assert("FORWARD_CAMP_ALREADY_EXISTS_FOR_GUILD"@[17] == 'A');
                assert("FORWARD_CAMP_ALREADY_EXISTS_FOR_GUILD"@[18] == 'D');
                assert("FORWARD_CAMP_ALREADY_EXISTS_FOR_GUILD"@[19] == 'Y');
                assert("FORWARD_CAMP_ALREADY_EXISTS_FOR_GUILD"@[20] == '_');
                assert("FORWARD_CAMP_ALREADY_EXISTS_FOR_GUILD"@[21] == 'E');
                assert("FORWARD_CAMP_ALREADY_EXISTS_FOR_GUILD"@[22] == 'X');
                assert("FORWARD_CAMP_ALREADY_EXISTS_FOR_GUILD"@[23] == 'I');
                assert("FORWARD_CAMP_ALREADY_EXISTS_FOR_GUILD"@[24] == 'S');
                assert("FORWARD_CAMP_ALREADY_EXISTS_FOR_GUILD"@[25] == 'T');
                assert("FORWARD_CAMP_ALREADY_EXISTS_FOR_GUILD"@[26] == 'S');
                assert("FORWARD_CAMP_ALREADY_EXISTS_FOR_GUILD"@[27] == '_');
                assert("FORWARD_CAMP_ALREADY_EXISTS_FOR_GUILD"@[28] == 'F');
                assert("FORWARD_CAMP_ALREADY_EXISTS_FOR_GUILD"@[29] == 'O');
                assert("FORWARD_CAMP_ALREADY_EXISTS_FOR_GUILD"@[30] == 'R');
                assert("FORWARD_CAMP_ALREADY_EXISTS_FOR_GUILD"@[31] == '_');
                assert("FORWARD_CAMP_ALREADY_EXISTS_FOR_GUILD"@[32] == 'G');
                assert("FORWARD_CAMP_ALREADY_EXISTS_FOR_GUILD"@[33] == 'U');
                assert("FORWARD_CAMP_ALREADY_EXISTS_FOR_GUILD"@[34] == 'I');
                assert("FORWARD_CAMP_ALREADY_EXISTS_FOR_GUILD"@[35] == 'L');
                assert("FORWARD_CAMP_ALREADY_EXISTS_FOR_GUILD"@[36] == 'D');
                assert(clean_atom("FORWARD_CAMP_ALREADY_EXISTS_FOR_GUILD"@));
            },
            ActionResult::ForwardCampNoPermission => {
                assert("FORWARD_CAMP_NO_PERMISSION"@.len() == 26);
                assert("FORWARD_CAMP_NO_PERMISSION"@[0] == 'F');
                assert("FORWARD_CAMP_NO_PERMISSION"@[1] == 'O');
                assert("FORWARD_CAMP_NO_PERMISSION"@[2] == 'R');
                assert("FORWARD_CAMP_NO_PERMISSION"@[3] == 'W');
                assert("FORWARD_CAMP_NO_PERMISSION"@[4] == 'A');
                assert("FORWARD_CAMP_NO_PERMISSION"@[5] == 'R');
                assert("FORWARD_CAMP_NO_PERMISSION"@[6] == 'D');
                assert("FORWARD_CAMP_NO_PERMISSION"@[7] == '_');
                assert("FORWARD_CAMP_NO_PERMISSION"@[8] == 'C');
                assert("FORWARD_CAMP_NO_PERMISSION"@[9] == 'A');
                assert("FORWARD_CAMP_NO_PERMISSION"@[10] == 'M');
                assert("FORWARD_CAMP_NO_PERMISSION"@[11] == 'P');
                assert("FORWARD_CAMP_NO_PERMISSION"@[12] == '_');
                assert("FORWARD_CAMP_NO_PERMISSION"@[13] == 'N');
                assert("FORWARD_CAMP_NO_PERMISSION"@[14] == 'O');
                assert("FORWARD_CAMP_NO_PERMISSION"@[15] == '_');
                assert("FORWARD_CAMP_NO_PERMISSION"@[16] == 'P');
                assert("FORWARD_CAMP_NO_PERMISSION"@[17] == 'E');
                assert("FORWARD_CAMP_NO_PERMISSION"@[18] == 'R');
                assert("FORWARD_CAMP_NO_PERMISSION"@[19] == 'M');
                assert("FORWARD_CAMP_NO_PERMISSION"@[20] == 'I');
                assert("FORWARD_CAMP_NO_PERMISSION"@[21] == 'S');
                assert("FORWARD_CAMP_NO_PERMISSION"@[22] == 'S');
                assert("FORWARD_CAMP_NO_PERMISSION"@[23] == 'I');
                assert("FORWARD_CAMP_NO_PERMISSION"@[24] == 'O');
                assert("FORWARD_CAMP_NO_PERMISSION"@[25] == 'N');
                assert(clean_atom("FORWARD_CAMP_NO_PERMISSION"@));
            },
            ActionResult::ForwardCampTabardMismatch => {
                assert("FORWARD_CAMP_TABARD_MISMATCH"@.len() == 28);
                assert("FORWARD_CAMP_TABARD_MISMATCH"@[0] == 'F');
                assert("FORWARD_CAMP_TABARD_MISMATCH"@[1] == 'O');
                assert("FORWARD_CAMP_TABARD_MISMATCH"@[2] == 'R');
                assert("FORWARD_CAMP_TABARD_MISMATCH"@[3] == 'W');
                assert("FORWARD_CAMP_TABARD_MISMATCH"@[4] == 'A');
                assert("FORWARD_CAMP_TABARD_MISMATCH"@[5] == 'R');
                assert("FORWARD_CAMP_TABARD_MISMATCH"@[6] == 'D');
                assert("FORWARD_CAMP_TABARD_MISMATCH"@[7] == '_');
                assert("FORWARD_CAMP_TABARD_MISMATCH"@[8] == 'C');
                assert("FORWARD_CAMP_TABARD_MISMATCH"@[9] == 'A');
                assert("FORWARD_CAMP_TABARD_MISMATCH"@[10] == 'M');
                assert("FORWARD_CAMP_TABARD_MISMATCH"@[11] == 'P');
                assert("FORWARD_CAMP_TABARD_MISMATCH"@[12] == '_');
                assert("FORWARD_CAMP_TABARD_MISMATCH"@[13] == 'T');
                assert("FORWARD_CAMP_TABARD_MISMATCH"@[14] == 'A');
                assert("FORWARD_CAMP_TABARD_MISMATCH"@[15] == 'B');
                assert("FORWARD_CAMP_TABARD_MISMATCH"@[16] == 'A');
                assert("FORWARD_CAMP_TABARD_MISMATCH"@[17] == 'R');
                assert("FORWARD_CAMP_TABARD_MISMATCH"@[18] == 'D');
                assert("FORWARD_CAMP_TABARD_MISMATCH"@[19] == '_');
                assert("FORWARD_CAMP_TABARD_MISMATCH"@[20] == 'M');
                assert("FORWARD_CAMP_TABARD_MISMATCH"@[21] == 'I');
                assert("FORWARD_CAMP_TABARD_MISMATCH"@[22] == 'S');
                assert("FORWARD_CAMP_TABARD_MISMATCH"@[23] == 'M');
                assert("FORWARD_CAMP_TABARD_MISMATCH"@[24] == 'A');
                assert("FORWARD_CAMP_TABARD_MISMATCH"@[25] == 'T');
                assert("FORWARD_CAMP_TABARD_MISMATCH"@[26] == 'C');
                assert("FORWARD_CAMP_TABARD_MISMATCH"@[27] == 'H');
                assert(clean_atom("FORWARD_CAMP_TABARD_MISMATCH"@));
            },
            ActionResult::GraveyardDisallowedInInstance => {
                assert("GRAVEYARD_DISALLOWED_IN_INSTANCE"@.len() == 32);
                assert("GRAVEYARD_DISALLOWED_IN_INSTANCE"@[0] == 'G');
                assert("GRAVEYARD_DISALLOWED_IN_INSTANCE"@[1] == 'R');
                assert("GRAVEYARD_DISALLOWED_IN_INSTANCE"@[2] == 'A');
                assert("GRAVEYARD_DISALLOWED_IN_INSTANCE"@[3] == 'V');
                assert("GRAVEYARD_DISALLOWED_IN_INSTANCE"@[4] == 'E');
                assert("GRAVEYARD_DISALLOWED_IN_INSTANCE"@[5] == 'Y');
                assert("GRAVEYARD_DISALLOWED_IN_INSTANCE"@[6] == 'A');
                assert("GRAVEYARD_DISALLOWED_IN_INSTANCE"@[7] == 'R');
                assert("GRAVEYARD_DISALLOWED_IN_INSTANCE"@[8] == 'D');
                assert("GRAVEYARD_DISALLOWED_IN_INSTANCE"@[9] == '_');
                assert("GRAVEYARD_DISALLOWED_IN_INSTANCE"@[10] == 'D');
                assert("GRAVEYARD_DISALLOWED_IN_INSTANCE"@[11] == 'I');
                assert("GRAVEYARD_DISALLOWED_IN_INSTANCE"@[12] == 'S');
                assert("GRAVEYARD_DISALLOWED_IN_INSTANCE"@[13] == 'A');
                assert("GRAVEYARD_DISALLOWED_IN_INSTANCE"@[14] == 'L');
                assert("GRAVEYARD_DISALLOWED_IN_INSTANCE"@[15] == 'L');
                assert("GRAVEYARD_DISALLOWED_IN_INSTANCE"@[16] == 'O');
                assert("GRAVEYARD_DISALLOWED_IN_INSTANCE"@[17] == 'W');
                assert("GRAVEYARD_DISALLOWED_IN_INSTANCE"@[18] == 'E');
                assert("GRAVEYARD_DISALLOWED_IN_INSTANCE"@[19] == 'D');
                assert("GRAVEYARD_DISALLOWED_IN_INSTANCE"@[20] == '_');
                assert("GRAVEYARD_DISALLOWED_IN_INSTANCE"@[21] == 'I');
                assert("GRAVEYARD_DISALLOWED_IN_INSTANCE"@[22] == 'N');
                assert("GRAVEYARD_DISALLOWED_IN_INSTANCE"@[23] == '_');
                assert("GRAVEYARD_DISALLOWED_IN_INSTANCE"@[24] == 'I');
                assert("GRAVEYARD_DISALLOWED_IN_INSTANCE"@[25] == 'N');
                assert("GRAVEYARD_DISALLOWED_IN_INSTANCE"@[26] == 'S');
                assert("GRAVEYARD_DISALLOWED_IN_INSTANCE"@[27] == 'T');
                assert("GRAVEYARD_DISALLOWED_IN_INSTANCE"@[28] == 'A');
                assert("GRAVEYARD_DISALLOWED_IN_INSTANCE"@[29] == 'N');
                assert("GRAVEYARD_DISALLOWED_IN_INSTANCE"@[30] == 'C');
                assert("GRAVEYARD_DISALLOWED_IN_INSTANCE"@[31] == 'E');
                assert(clean_atom("GRAVEYARD_DISALLOWED_IN_INSTANCE"@));
            },
            ActionResult::GraveyardTooClose => {
                assert("GRAVEYARD_TOO_CLOSE"@.len() == 19);
                assert("GRAVEYARD_TOO_CLOSE"@[0] == 'G');
                assert("GRAVEYARD_TOO_CLOSE"@[1] == 'R');
                assert("GRAVEYARD_TOO_CLOSE"@[2] == 'A');
                assert("GRAVEYARD_TOO_CLOSE"@[3] == 'V');
                assert("GRAVEYARD_TOO_CLOSE"@[4] == 'E');
                assert("GRAVEYARD_TOO_CLOSE"@[5] == 'Y');
                assert("GRAVEYARD_TOO_CLOSE"@[6] == 'A');
                assert("GRAVEYARD_TOO_CLOSE"@[7] == 'R');
                assert("GRAVEYARD_TOO_CLOSE"@[8] == 'D');
                assert("GRAVEYARD_TOO_CLOSE"@[9] == '_');
                assert("GRAVEYARD_TOO_CLOSE"@[10] == 'T');
                assert("GRAVEYARD_TOO_CLOSE"@[11] == 'O');
                assert("GRAVEYARD_TOO_CLOSE"@[12] == 'O');
                assert("GRAVEYARD_TOO_CLOSE"@[13] == '_');
                assert("GRAVEYARD_TOO_CLOSE"@[14] == 'C');
                assert("GRAVEYARD_TOO_CLOSE"@[15] == 'L');
                assert("GRAVEYARD_TOO_CLOSE"@[16] == 'O');
                assert("GRAVEYARD_TOO_CLOSE"@[17] == 'S');
                assert("GRAVEYARD_TOO_CLOSE"@[18] == 'E');
                assert(clean_atom("GRAVEYARD_TOO_CLOSE"@));
            },
            ActionResult::Heal => {
                assert("HEAL"@.len() == 4);
                assert("HEAL"@[0] == 'H');
                assert("HEAL"@[1] == 'E');
                assert("HEAL"@[2] == 'A');
                assert("HEAL"@[3] == 'L');
                assert(clean_atom("HEAL"@));
            },
            ActionResult::HealAbsorbed => {
                assert("HEAL_ABSORBED"@.len() == 13);
                assert("HEAL_ABSORBED"@[0] == 'H');
                assert("HEAL_ABSORBED"@[1] == 'E');
                assert("HEAL_ABSORBED"@[2] == 'A');
                assert("HEAL_ABSORBED"@[3] == 'L');
                assert("HEAL_ABSORBED"@[4] == '_');
                assert("HEAL_ABSORBED"@[5] == 'A');
                assert("HEAL_ABSORBED"@[6] == 'B');
                assert("HEAL_ABSORBED"@[7] == 'S');
                assert("HEAL_ABSORBED"@[8] == 'O');
                assert("HEAL_ABSORBED"@[9] == 'R');
                assert("HEAL_ABSORBED"@[10] == 'B');
                assert("HEAL_ABSORBED"@[11] == 'E');
                assert("HEAL_ABSORBED"@[12] == 'D');
                assert(clean_atom("HEAL_ABSORBED"@));
            },
            ActionResult::HotTick => {
                assert("HOT_TICK"@.len() == 8);
                assert("HOT_TICK"@[0] == 'H');
                assert("HOT_TICK"@[1] == 'O');
                assert("HOT_TICK"@[2] == 'T');
                assert("HOT_TICK"@[3] == '_');
                assert("HOT_TICK"@[4] == 'T');
                assert("HOT_TICK"@[5] == 'I');
                assert("HOT_TICK"@[6] == 'C');
                assert("HOT_TICK"@[7] == 'K');
                assert(clean_atom("HOT_TICK"@));
            },
            ActionResult::HotTickCritical => {
                assert("HOT_TICK_CRITICAL"@.len() == 17);
                assert("HOT_TICK_CRITICAL"@[0] == 'H');
                assert("HOT_TICK_CRITICAL"@[1] == 'O');
                assert("HOT_TICK_CRITICAL"@[2] == 'T');
                assert("HOT_TICK_CRITICAL"@[3] == '_');
                assert("HOT_TICK_CRITICAL"@[4] == 'T');
                assert("HOT_TICK_CRITICAL"@[5] == 'I');
                assert("HOT_TICK_CRITICAL"@[6] == 'C');
                assert("HOT_TICK_CRITICAL"@[7] == 'K');
                assert("HOT_TICK_CRITICAL"@[8] == '_');
                assert("HOT_TICK_CRITICAL"@[9] == 'C');
                assert("HOT_TICK_CRITICAL"@[10] == 'R');
                assert("HOT_TICK_CRITICAL"@[11] == 'I');
                assert("HOT_TICK_CRITICAL"@[12] == 'T');
                assert("HOT_TICK_CRITICAL"@[13] == 'I');
                assert("HOT_TICK_CRITICAL"@[14] == 'C');
                assert("HOT_TICK_CRITICAL"@[15] == 'A');
                assert("HOT_TICK_CRITICAL"@[16] == 'L');
                assert(clean_atom("HOT_TICK_CRITICAL"@));
            },
            ActionResult::Immune => {
                assert("IMMUNE"@.len() == 6);
                assert("IMMUNE"@[0] == 'I');
                assert("IMMUNE"@[1] == 'M');
                assert("IMMUNE"@[2] == 'M');
                assert("IMMUNE"@[3] == 'U');
                assert("IMMUNE"@[4] == 'N');
                assert("IMMUNE"@[5] == 'E');
                assert(clean_atom("IMMUNE"@));
            },
            ActionResult::InsufficientResource => {
                assert("INSUFFICIENT_RESOURCE"@.len() == 21);
                assert("INSUFFICIENT_RESOURCE"@[0] == 'I');
                assert("INSUFFICIENT_RESOURCE"@[1] == 'N');
                assert("INSUFFICIENT_RESOURCE"@[2] == 'S');
                assert("INSUFFICIENT_RESOURCE"@[3] == 'U');
                assert("INSUFFICIENT_RESOURCE"@[4] == 'F');
                assert("INSUFFICIENT_RESOURCE"@[5] == 'F');
                assert("INSUFFICIENT_RESOURCE"@[6] == 'I');
                assert("INSUFFICIENT_RESOURCE"@[7] == 'C');
                assert("INSUFFICIENT_RESOURCE"@[8] == 'I');
                assert("INSUFFICIENT_RESOURCE"@[9] == 'E');
                assert("INSUFFICIENT_RESOURCE"@[10] == 'N');
                assert("INSUFFICIENT_RESOURCE"@[11] == 'T');
                assert("INSUFFICIENT_RESOURCE"@[12] == '_');
                assert("INSUFFICIENT_RESOURCE"@[13] == 'R');
                assert("INSUFFICIENT_RESOURCE"@[14] == 'E');
                assert("INSUFFICIENT_RESOURCE"@[15] == 'S');
                assert("INSUFFICIENT_RESOURCE"@[16] == 'O');
                assert("INSUFFICIENT_RESOURCE"@[17] == 'U');
                assert("INSUFFICIENT_RESOURCE"@[18] == 'R');
                assert("INSUFFICIENT_RESOURCE"@[19] == 'C');
                assert("INSUFFICIENT_RESOURCE"@[20] == 'E');
                assert(clean_atom("INSUFFICIENT_RESOURCE"@));
            },
            ActionResult::Intercepted => {
                assert("INTERCEPTED"@.len() == 11);
                assert("INTERCEPTED"@[0] == 'I');
                assert("INTERCEPTED"@[1] == 'N');
                assert("INTERCEPTED"@[2] == 'T');
                assert("INTERCEPTED"@[3] == 'E');
                assert("INTERCEPTED"@[4] == 'R');
                assert("INTERCEPTED"@[5] == 'C');
                assert("INTERCEPTED"@[6] == 'E');
                assert("INTERCEPTED"@[7] == 'P');
                assert("INTERCEPTED"@[8] == 'T');
                assert("INTERCEPTED"@[9] == 'E');
                assert("INTERCEPTED"@[10] == 'D');
                assert(clean_atom("INTERCEPTED"@));
            },
            ActionResult::Interrupt => {
                assert("INTERRUPT"@.len() == 9);
                assert("INTERRUPT"@[0] == 'I');
                assert("INTERRUPT"@[1] == 'N');
                assert("INTERRUPT"@[2] == 'T');
                assert("INTERRUPT"@[3] == 'E');
                assert("INTERRUPT"@[4] == 'R');
                assert("INTERRUPT"@[5] == 'R');
                assert("INTERRUPT"@[6] == 'U');
                assert("INTERRUPT"@[7] == 'P');
                assert("INTERRUPT"@[8] == 'T');
                assert(clean_atom("INTERRUPT"@));
            },
            ActionResult::Invalid => {
                assert("INVALID"@.len() == 7);
                assert("INVALID"@[0] == 'I');
                assert("INVALID"@[1] == 'N');
                assert("INVALID"@[2] == 'V');
                assert("INVALID"@[3] == 'A');
                assert("INVALID"@[4] == 'L');
                assert("INVALID"@[5] == 'I');
                assert("INVALID"@[6] == 'D');
                assert(clean_atom("INVALID"@));
            },
            ActionResult::InvalidFixture => {
                assert("INVALID_FIXTURE"@.len() == 15);
                assert("INVALID_FIXTURE"@[0] == 'I');
                assert("INVALID_FIXTURE"@[1] == 'N');
                assert("INVALID_FIXTURE"@[2] == 'V');
                assert("INVALID_FIXTURE"@[3] == 'A');
                assert("INVALID_FIXTURE"@[4] == 'L');
                assert("INVALID_FIXTURE"@[5] == 'I');
                assert("INVALID_FIXTURE"@[6] == 'D');
                assert("INVALID_FIXTURE"@[7] == '_');
                assert("INVALID_FIXTURE"@[8] == 'F');
                assert("INVALID_FIXTURE"@[9] == 'I');
                assert("INVALID_FIXTURE"@[10] == 'X');
                assert("INVALID_FIXTURE"@[11] == 'T');
                assert("INVALID_FIXTURE"@[12] == 'U');
                assert("INVALID_FIXTURE"@[13] == 'R');
                assert("INVALID_FIXTURE"@[14] == 'E');
                assert(clean_atom("INVALID_FIXTURE"@));
            },
            ActionResult::InvalidJusticeTarget => {
                assert("INVALID_JUSTICE_TARGET"@.len() == 22);
                assert("INVALID_JUSTICE_TARGET"@[0] == 'I');
                assert("INVALID_JUSTICE_TARGET"@[1] == 'N');
                assert("INVALID_JUSTICE_TARGET"@[2] == 'V');
                assert("INVALID_JUSTICE_TARGET"@[3] == 'A');
                assert("INVALID_JUSTICE_TARGET"@[4] == 'L');
                assert("INVALID_JUSTICE_TARGET"@[5] == 'I');
                assert("INVALID_JUSTICE_TARGET"@[6] == 'D');
                assert("INVALID_JUSTICE_TARGET"@[7] == '_');
                assert("INVALID_JUSTICE_TARGET"@[8] == 'J');
                assert("INVALID_JUSTICE_TARGET"@[9] == 'U');
                assert("INVALID_JUSTICE_TARGET"@[10] == 'S');
                assert("INVALID_JUSTICE_TARGET"@[11] == 'T');
                assert("INVALID_JUSTICE_TARGET"@[12] == 'I');
                assert("INVALID_JUSTICE_TARGET"@[13] == 'C');
                assert("INVALID_JUSTICE_TARGET"@[14] == 'E');
                assert("INVALID_JUSTICE_TARGET"@[15] == '_');
                assert("INVALID_JUSTICE_TARGET"@[16] == 'T');
                assert("INVALID_JUSTICE_TARGET"@[17] == 'A');
                assert("INVALID_JUSTICE_TARGET"@[18] == 'R');
                assert("INVALID_JUSTICE_TARGET"@[19] == 'G');
                assert("INVALID_JUSTICE_TARGET"@[20] == 'E');
                assert("INVALID_JUSTICE_TARGET"@[21] == 'T');
                assert(clean_atom("INVALID_JUSTICE_TARGET"@));
            },
            ActionResult::InvalidTerrain => {
                assert("INVALID_TERRAIN"@.len() == 15);
                assert("INVALID_TERRAIN"@[0] == 'I');
                assert("INVALID_TERRAIN"@[1] == 'N');
                assert("INVALID_TERRAIN"@[2] == 'V');
                assert("INVALID_TERRAIN"@[3] == 'A');
                assert("INVALID_TERRAIN"@[4] == 'L');
                assert("INVALID_TERRAIN"@[5] == 'I');
                assert("INVALID_TERRAIN"@[6] == 'D');
                assert("INVALID_TERRAIN"@[7] == '_');
                assert("INVALID_TERRAIN"@[8] == 'T');
                assert("INVALID_TERRAIN"@[9] == 'E');
                assert("INVALID_TERRAIN"@[10] == 'R');
                assert("INVALID_TERRAIN"@[11] == 'R');
                assert("INVALID_TERRAIN"@[12] == 'A');
                assert("INVALID_TERRAIN"@[13] == 'I');
                assert("INVALID_TERRAIN"@[14] == 'N');
                assert(clean_atom("INVALID_TERRAIN"@));
            },
            ActionResult::InAir => {
                assert("IN_AIR"@.len() == 6);
                assert("IN_AIR"@[0] == 'I');
                assert("IN_AIR"@[1] == 'N');
                assert("IN_AIR"@[2] == '_');
                assert("IN_AIR"@[3] == 'A');
                assert("IN_AIR"@[4] == 'I');
                assert("IN_AIR"@[5] == 'R');
                assert(clean_atom("IN_AIR"@));
            },
            ActionResult::InCombat => {
                assert("IN_COMBAT"@.len() == 9);
                assert("IN_COMBAT"@[0] == 'I');
                assert("IN_COMBAT"@[1] == 'N');
                assert("IN_COMBAT"@[2] == '_');
                assert("IN_COMBAT"@[3] == 'C');
                assert("IN_COMBAT"@[4] == 'O');
                assert("IN_COMBAT"@[5] == 'M');
                assert("IN_COMBAT"@[6] == 'B');
                assert("IN_COMBAT"@[7] == 'A');
                assert("IN_COMBAT"@[8] == 'T');
                assert(clean_atom("IN_COMBAT"@));
            },
            ActionResult::InEnemyKeep => {
                assert("IN_ENEMY_KEEP"@.len() == 13);
                assert("IN_ENEMY_KEEP"@[0] == 'I');
                assert("IN_ENEMY_KEEP"@[1] == 'N');
                assert("IN_ENEMY_KEEP"@[2] == '_');
                assert("IN_ENEMY_KEEP"@[3] == 'E');
                assert("IN_ENEMY_KEEP"@[4] == 'N');
                assert("IN_ENEMY_KEEP"@[5] == 'E');
                assert("IN_ENEMY_KEEP"@[6] == 'M');
                assert("IN_ENEMY_KEEP"@[7] == 'Y');
                assert("IN_ENEMY_KEEP"@[8] == '_');
                assert("IN_ENEMY_KEEP"@[9] == 'K');
                assert("IN_ENEMY_KEEP"@[10] == 'E');
                assert("IN_ENEMY_KEEP"@[11] == 'E');
                assert("IN_ENEMY_KEEP"@[12] == 'P');
                assert(clean_atom("IN_ENEMY_KEEP"@));
            },
            ActionResult::InEnemyOutpost => {
                assert("IN_ENEMY_OUTPOST"@.len() == 16);
                assert("IN_ENEMY_OUTPOST"@[0] == 'I');
                assert("IN_ENEMY_OUTPOST"@[1] == 'N');
                assert("IN_ENEMY_OUTPOST"@[2] == '_');
                assert("IN_ENEMY_OUTPOST"@[3] == 'E');
                assert("IN_ENEMY_OUTPOST"@[4] == 'N');
                assert("IN_ENEMY_OUTPOST"@[5] == 'E');
                assert("IN_ENEMY_OUTPOST"@[6] == 'M');
                assert("IN_ENEMY_OUTPOST"@[7] == 'Y');
                assert("IN_ENEMY_OUTPOST"@[8] == '_');
                assert("IN_ENEMY_OUTPOST"@[9] == 'O');
                assert("IN_ENEMY_OUTPOST"@[10] == 'U');
                assert("IN_ENEMY_OUTPOST"@[11] == 'T');
                assert("IN_ENEMY_OUTPOST"@[12] == 'P');
                assert("IN_ENEMY_OUTPOST"@[13] == 'O');
                assert("IN_ENEMY_OUTPOST"@[14] == 'S');
                assert("IN_ENEMY_OUTPOST"@[15] == 'T');
                assert(clean_atom("IN_ENEMY_OUTPOST"@));
            },
            ActionResult::InEnemyResource => {
                assert("IN_ENEMY_RESOURCE"@.len() == 17);
                assert("IN_ENEMY_RESOURCE"@[0] == 'I');
                assert("IN_ENEMY_RESOURCE"@[1] == 'N');
                assert("IN_ENEMY_RESOURCE"@[2] == '_');
                assert("IN_ENEMY_RESOURCE"@[3] == 'E');
                assert("IN_ENEMY_RESOURCE"@[4] == 'N');
                assert("IN_ENEMY_RESOURCE"@[5] == 'E');
                assert("IN_ENEMY_RESOURCE"@[6] == 'M');
                assert("IN_ENEMY_RESOURCE"@[7] == 'Y');
                assert("IN_ENEMY_RESOURCE"@[8] == '_');
                assert("IN_ENEMY_RESOURCE"@[9] == 'R');
                assert("IN_ENEMY_RESOURCE"@[10] == 'E');
                assert("IN_ENEMY_RESOURCE"@[11] == 'S');
                assert("IN_ENEMY_RESOURCE"@[12] == 'O');
                assert("IN_ENEMY_RESOURCE"@[13] == 'U');
                assert("IN_ENEMY_RESOURCE"@[14] == 'R');
                assert("IN_ENEMY_RESOURCE"@[15] == 'C');
                assert("IN_ENEMY_RESOURCE"@[16] == 'E');
                assert(clean_atom("IN_ENEMY_RESOURCE"@));
            },
            ActionResult::InEnemyTown => {
                assert("IN_ENEMY_TOWN"@.len() == 13);
                assert("IN_ENEMY_TOWN"@[0] == 'I');
                assert("IN_ENEMY_TOWN"@[1] == 'N');
                assert("IN_ENEMY_TOWN"@[2] == '_');
                assert("IN_ENEMY_TOWN"@[3] == 'E');
                assert("IN_ENEMY_TOWN"@[4] == 'N');
                assert("IN_ENEMY_TOWN"@[5] == 'E');
                assert("IN_ENEMY_TOWN"@[6] == 'M');
                assert("IN_ENEMY_TOWN"@[7] == 'Y');
                assert("IN_ENEMY_TOWN"@[8] == '_');
                assert("IN_ENEMY_TOWN"@[9] == 'T');
                assert("IN_ENEMY_TOWN"@[10] == 'O');
                assert("IN_ENEMY_TOWN"@[11] == 'W');
                assert("IN_ENEMY_TOWN"@[12] == 'N');
                assert(clean_atom("IN_ENEMY_TOWN"@));
            },
            ActionResult::InHideyhole => {
                assert("IN_HIDEYHOLE"@.len() == 12);
                assert("IN_HIDEYHOLE"@[0] == 'I');
                assert("IN_HIDEYHOLE"@[1] == 'N');
                assert("IN_HIDEYHOLE"@[2] == '_');
                assert("IN_HIDEYHOLE"@[3] == 'H');
                assert("IN_HIDEYHOLE"@[4] == 'I');
                assert("IN_HIDEYHOLE"@[5] == 'D');
                assert("IN_HIDEYHOLE"@[6] == 'E');
                assert("IN_HIDEYHOLE"@[7] == 'Y');
                assert("IN_HIDEYHOLE"@[8] == 'H');
                assert("IN_HIDEYHOLE"@[9] == 'O');
                assert("IN_HIDEYHOLE"@[10] == 'L');
                assert("IN_HIDEYHOLE"@[11] == 'E');
                assert(clean_atom("IN_HIDEYHOLE"@));
            },
            ActionResult::KilledByDaedricWeapon => {
                assert("KILLED_BY_DAEDRIC_WEAPON"@.len() == 24);
                assert("KILLED_BY_DAEDRIC_WEAPON"@[0] == 'K');
                assert("KILLED_BY_DAEDRIC_WEAPON"@[1] == 'I');
                assert("KILLED_BY_DAEDRIC_WEAPON"@[2] == 'L');
                assert("KILLED_BY_DAEDRIC_WEAPON"@[3] == 'L');
                assert("KILLED_BY_DAEDRIC_WEAPON"@[4] == 'E');
                assert("KILLED_BY_DAEDRIC_WEAPON"@[5] == 'D');
                assert("KILLED_BY_DAEDRIC_WEAPON"@[6] == '_');
                assert("KILLED_BY_DAEDRIC_WEAPON"@[7] == 'B');
                assert("KILLED_BY_DAEDRIC_WEAPON"@[8] == 'Y');
                assert("KILLED_BY_DAEDRIC_WEAPON"@[9] == '_');
                assert("KILLED_BY_DAEDRIC_WEAPON"@[10] == 'D');
                assert("KILLED_BY_DAEDRIC_WEAPON"@[11] == 'A');
                assert("KILLED_BY_DAEDRIC_WEAPON"@[12] == 'E');
                assert("KILLED_BY_DAEDRIC_WEAPON"@[13] == 'D');
                assert("KILLED_BY_DAEDRIC_WEAPON"@[14] == 'R');
                assert("KILLED_BY_DAEDRIC_WEAPON"@[15] == 'I');
                assert("KILLED_BY_DAEDRIC_WEAPON"@[16] == 'C');
                assert("KILLED_BY_DAEDRIC_WEAPON"@[17] == '_');
                assert("KILLED_BY_DAEDRIC_WEAPON"@[18] == 'W');
                assert("KILLED_BY_DAEDRIC_WEAPON"@[19] == 'E');
                assert("KILLED_BY_DAEDRIC_WEAPON"@[20] == 'A');
                assert("KILLED_BY_DAEDRIC_WEAPON"@[21] == 'P');
                assert("KILLED_BY_DAEDRIC_WEAPON"@[22] == 'O');
                assert("KILLED_BY_DAEDRIC_WEAPON"@[23] == 'N');
                assert(clean_atom("KILLED_BY_DAEDRIC_WEAPON"@));
            },
            ActionResult::KilledBySubzone => {
                assert("KILLED_BY_SUBZONE"@.len() == 17);
                assert("KILLED_BY_SUBZONE"@[0] == 'K');
                assert("KILLED_BY_SUBZONE"@[1] == 'I');
                assert("KILLED_BY_SUBZONE"@[2] == 'L');
                assert("KILLED_BY_SUBZONE"@[3] == 'L');
                assert("KILLED_BY_SUBZONE"@[4] == 'E');
                assert("KILLED_BY_SUBZONE"@[5] == 'D');
                assert("KILLED_BY_SUBZONE"@[6] == '_');
                assert("KILLED_BY_SUBZONE"@[7] == 'B');
                assert("KILLED_BY_SUBZONE"@[8] == 'Y');
                assert("KILLED_BY_SUBZONE"@[9] == '_');
                assert("KILLED_BY_SUBZONE"@[10] == 'S');
                assert("KILLED_BY_SUBZONE"@[11] == 'U');
                assert("KILLED_BY_SUBZONE"@[12] == 'B');
                assert("KILLED_BY_SUBZONE"@[13] == 'Z');
                assert("KILLED_BY_SUBZONE"@[14] == 'O');
                assert("KILLED_BY_SUBZONE"@[15] == 'N');
                assert("KILLED_BY_SUBZONE"@[16] == 'E');
                assert(clean_atom("KILLED_BY_SUBZONE"@));
            },
            ActionResult::KillingBlow => {
                assert("KILLING_BLOW"@.len() == 12);
                assert("KILLING_BLOW"@[0] == 'K');
                assert("KILLING_BLOW"@[1] == 'I');
                assert("KILLING_BLOW"@[2] == 'L');
                assert("KILLING_BLOW"@[3] == 'L');
                assert("KILLING_BLOW"@[4] == 'I');
                assert("KILLING_BLOW"@[5] == 'N');
                assert("KILLING_BLOW"@[6] == 'G');
                assert("KILLING_BLOW"@[7] == '_');
                assert("KILLING_BLOW"@[8] == 'B');
                assert("KILLING_BLOW"@[9] == 'L');
                assert("KILLING_BLOW"@[10] == 'O');
                assert("KILLING_BLOW"@[11] == 'W');
                assert(clean_atom("KILLING_BLOW"@));
            },
            ActionResult::Knockback => {
                assert("KNOCKBACK"@.len() == 9);
                assert("KNOCKBACK"@[0] == 'K');
                assert("KNOCKBACK"@[1] == 'N');
                assert("KNOCKBACK"@[2] == 'O');
                assert("KNOCKBACK"@[3] == 'C');
                assert("KNOCKBACK"@[4] == 'K');
                assert("KNOCKBACK"@[5] == 'B');
                assert("KNOCKBACK"@[6] == 'A');
                assert("KNOCKBACK"@[7] == 'C');
                assert("KNOCKBACK"@[8] == 'K');
                assert(clean_atom("KNOCKBACK"@));
            },
            ActionResult::Levitated => {
                assert("LEVITATED"@.len() == 9);
                assert("LEVITATED"@[0] == 'L');
                assert("LEVITATED"@[1] == 'E');
                assert("LEVITATED"@[2] == 'V');
                assert("LEVITATED"@[3] == 'I');
                assert("LEVITATED"@[4] == 'T');
                assert("LEVITATED"@[5] == 'A');
                assert("LEVITATED"@[6] == 'T');
                assert("LEVITATED"@[7] == 'E');
                assert("LEVITATED"@[8] == 'D');
                assert(clean_atom("LEVITATED"@));
            },
            ActionResult::MercenaryLimit => {
                assert("MERCENARY_LIMIT"@.len() == 15);
                assert("MERCENARY_LIMIT"@[0] == 'M');
                assert("MERCENARY_LIMIT"@[1] == 'E');
                assert("MERCENARY_LIMIT"@[2] == 'R');
                assert("MERCENARY_LIMIT"@[3] == 'C');
                assert("MERCENARY_LIMIT"@[4] == 'E');
                assert("MERCENARY_LIMIT"@[5] == 'N');
                assert("MERCENARY_LIMIT"@[6] == 'A');
                assert("MERCENARY_LIMIT"@[7] == 'R');
                assert("MERCENARY_LIMIT"@[8] == 'Y');
                assert("MERCENARY_LIMIT"@[9] == '_');
                assert("MERCENARY_LIMIT"@[10] == 'L');
                assert("MERCENARY_LIMIT"@[11] == 'I');
                assert("MERCENARY_LIMIT"@[12] == 'M');
                assert("MERCENARY_LIMIT"@[13] == 'I');
                assert("MERCENARY_LIMIT"@[14] == 'T');
                assert(clean_atom("MERCENARY_LIMIT"@));
            },
            ActionResult::Miss => {
                assert("MISS"@.len() == 4);
                assert("MISS"@[0] == 'M');
                assert("MISS"@[1] == 'I');
                assert("MISS"@[2] == 'S');
                assert("MISS"@[3] == 'S');
                assert(clean_atom("MISS"@));
            },
            ActionResult::MissingEmptySoulGem => {
                assert("MISSING_EMPTY_SOUL_GEM"@.len() == 22);
                assert("MISSING_EMPTY_SOUL_GEM"@[0] == 'M');
                assert("MISSING_EMPTY_SOUL_GEM"@[1] == 'I');
                assert("MISSING_EMPTY_SOUL_GEM"@[2] == 'S');
                assert("MISSING_EMPTY_SOUL_GEM"@[3] == 'S');
                assert("MISSING_EMPTY_SOUL_GEM"@[4] == 'I');
                assert("MISSING_EMPTY_SOUL_GEM"@[5] == 'N');
                assert("MISSING_EMPTY_SOUL_GEM"@[6] == 'G');
                assert("MISSING_EMPTY_SOUL_GEM"@[7] == '_');
                assert("MISSING_EMPTY_SOUL_GEM"@[8] == 'E');
                assert("MISSING_EMPTY_SOUL_GEM"@[9] == 'M');
                assert("MISSING_EMPTY_SOUL_GEM"@[10] == 'P');
                assert("MISSING_EMPTY_SOUL_GEM"@[11] == 'T');
                assert("MISSING_EMPTY_SOUL_GEM"@[12] == 'Y');
                assert("MISSING_EMPTY_SOUL_GEM"@[13] == '_');
                assert("MISSING_EMPTY_SOUL_GEM"@[14] == 'S');
                assert("MISSING_EMPTY_SOUL_GEM"@[15] == 'O');
                assert("MISSING_EMPTY_SOUL_GEM"@[16] == 'U');
                assert("MISSING_EMPTY_SOUL_GEM"@[17] == 'L');
                assert("MISSING_EMPTY_SOUL_GEM"@[18] == '_');
                assert("MISSING_EMPTY_SOUL_GEM"@[19] == 'G');
                assert("MISSING_EMPTY_SOUL_GEM"@[20] == 'E');
                assert("MISSING_EMPTY_SOUL_GEM"@[21] == 'M');
                assert(clean_atom("MISSING_EMPTY_SOUL_GEM"@));
            },
            ActionResult::MissingFilledSoulGem => {
                assert("MISSING_FILLED_SOUL_GEM"@.len() == 23);
                assert("MISSING_FILLED_SOUL_GEM"@[0] == 'M');
                assert("MISSING_FILLED_SOUL_GEM"@[1] == 'I');
                assert("MISSING_FILLED_SOUL_GEM"@[2] == 'S');
                assert("MISSING_FILLED_SOUL_GEM"@[3] == 'S');
                assert("MISSING_FILLED_SOUL_GEM"@[4] == 'I');
                assert("MISSING_FILLED_SOUL_GEM"@[5] == 'N');
                assert("MISSING_FILLED_SOUL_GEM"@[6] == 'G');
                assert("MISSING_FILLED_SOUL_GEM"@[7] == '_');
                assert("MISSING_FILLED_SOUL_GEM"@[8] == 'F');
                assert("MISSING_FILLED_SOUL_GEM"@[9] == 'I');
                assert("MISSING_FILLED_SOUL_GEM"@[10] == 'L');
                assert("MISSING_FILLED_SOUL_GEM"@[11] == 'L');
                assert("MISSING_FILLED_SOUL_GEM"@[12] == 'E');
                assert("MISSING_FILLED_SOUL_GEM"@[13] == 'D');
                assert("MISSING_FILLED_SOUL_GEM"@[14] == '_');
                assert("MISSING_FILLED_SOUL_GEM"@[15] == 'S');
                assert("MISSING_FILLED_SOUL_GEM"@[16] == 'O');
                assert("MISSING_FILLED_SOUL_GEM"@[17] == 'U');
                assert("MISSING_FILLED_SOUL_GEM"@[18] == 'L');
                assert("MISSING_FILLED_SOUL_GEM"@[19] == '_');
                assert("MISSING_FILLED_SOUL_GEM"@[20] == 'G');
                assert("MISSING_FILLED_SOUL_GEM"@[21] == 'E');
                assert("MISSING_FILLED_SOUL_GEM"@[22] == 'M');
                assert(clean_atom("MISSING_FILLED_SOUL_GEM"@));
            },
            ActionResult::MobileGraveyardLimit => {
                assert("MOBILE_GRAVEYARD_LIMIT"@.len() == 22);
                assert("MOBILE_GRAVEYARD_LIMIT"@[0] == 'M');
                assert("MOBILE_GRAVEYARD_LIMIT"@[1] == 'O');
                assert("MOBILE_GRAVEYARD_LIMIT"@[2] == 'B');
                assert("MOBILE_GRAVEYARD_LIMIT"@[3] == 'I');
                assert("MOBILE_GRAVEYARD_LIMIT"@[4] == 'L');
                assert("MOBILE_GRAVEYARD_LIMIT"@[5] == 'E');
                assert("MOBILE_GRAVEYARD_LIMIT"@[6] == '_');
                assert("MOBILE_GRAVEYARD_LIMIT"@[7] == 'G');
                assert("MOBILE_GRAVEYARD_LIMIT"@[8] == 'R');
                assert("MOBILE_GRAVEYARD_LIMIT"@[9] == 'A');
                assert("MOBILE_GRAVEYARD_LIMIT"@[10] == 'V');
                assert("MOBILE_GRAVEYARD_LIMIT"@[11] == 'E');
                assert("MOBILE_GRAVEYARD_LIMIT"@[12] == 'Y');
                assert("MOBILE_GRAVEYARD_LIMIT"@[13] == 'A');
                assert("MOBILE_GRAVEYARD_LIMIT"@[14] == 'R');
                assert("MOBILE_GRAVEYARD_LIMIT"@[15] == 'D');
                assert("MOBILE_GRAVEYARD_LIMIT"@[16] == '_');
                assert("MOBILE_GRAVEYARD_LIMIT"@[17] == 'L');
                assert("MOBILE_GRAVEYARD_LIMIT"@[18] == 'I');
                assert("MOBILE_GRAVEYARD_LIMIT"@[19] == 'M');
                assert("MOBILE_GRAVEYARD_LIMIT"@[20] == 'I');
                assert("MOBILE_GRAVEYARD_LIMIT"@[21] == 'T');
                assert(clean_atom("MOBILE_GRAVEYARD_LIMIT"@));
            },
            ActionResult::Mounted => {
                assert("MOUNTED"@.len() == 7);
                assert("MOUNTED"@[0] == 'M');
                assert("MOUNTED"@[1] == 'O');
                assert("MOUNTED"@[2] == 'U');
                assert("MOUNTED"@[3] == 'N');
                assert("MOUNTED"@[4] == 'T');
                assert("MOUNTED"@[5] == 'E');
                assert("MOUNTED"@[6] == 'D');
                assert(clean_atom("MOUNTED"@));
            },
            ActionResult::MustBeInOwnKeep => {
                assert("MUST_BE_IN_OWN_KEEP"@.len() == 19);
                assert("MUST_BE_IN_OWN_KEEP"@[0] == 'M');
                assert("MUST_BE_IN_OWN_KEEP"@[1] == 'U');
                assert("MUST_BE_IN_OWN_KEEP"@[2] == 'S');
                assert("MUST_BE_IN_OWN_KEEP"@[3] == 'T');
                assert("MUST_BE_IN_OWN_KEEP"@[4] == '_');
                assert("MUST_BE_IN_OWN_KEEP"@[5] == 'B');
                assert("MUST_BE_IN_OWN_KEEP"@[6] == 'E');
                assert("MUST_BE_IN_OWN_KEEP"@[7] == '_');
                assert("MUST_BE_IN_OWN_KEEP"@[8] == 'I');
                assert("MUST_BE_IN_OWN_KEEP"@[9] == 'N');
                assert("MUST_BE_IN_OWN_KEEP"@[10] == '_');
                assert("MUST_BE_IN_OWN_KEEP"@[11] == 'O');
                assert("MUST_BE_IN_OWN_KEEP"@[12] == 'W');
                assert("MUST_BE_IN_OWN_KEEP"@[13] == 'N');
                assert("MUST_BE_IN_OWN_KEEP"@[14] == '_');
                assert("MUST_BE_IN_OWN_KEEP"@[15] == 'K');
                assert("MUST_BE_IN_OWN_KEEP"@[16] == 'E');
                assert("MUST_BE_IN_OWN_KEEP"@[17] == 'E');
                assert("MUST_BE_IN_OWN_KEEP"@[18] == 'P');
                assert(clean_atom("MUST_BE_IN_OWN_KEEP"@));
            },
            ActionResult::NotEnoughInventorySpace => {
                assert("NOT_ENOUGH_INVENTORY_SPACE"@.len() == 26);
                assert("NOT_ENOUGH_INVENTORY_SPACE"@[0] == 'N');
                assert("NOT_ENOUGH_INVENTORY_SPACE"@[1] == 'O');
                assert("NOT_ENOUGH_INVENTORY_SPACE"@[2] == 'T');
                assert("NOT_ENOUGH_INVENTORY_SPACE"@[3] == '_');
                assert("NOT_ENOUGH_INVENTORY_SPACE"@[4] == 'E');
                assert("NOT_ENOUGH_INVENTORY_SPACE"@[5] == 'N');
                assert("NOT_ENOUGH_INVENTORY_SPACE"@[6] == 'O');
                assert("NOT_ENOUGH_INVENTORY_SPACE"@[7] == 'U');
                assert("NOT_ENOUGH_INVENTORY_SPACE"@[8] == 'G');
                assert("NOT_ENOUGH_INVENTORY_SPACE"@[9] == 'H');
                assert("NOT_ENOUGH_INVENTORY_SPACE"@[10] == '_');
                assert("NOT_ENOUGH_INVENTORY_SPACE"@[11] == 'I');
                assert("NOT_ENOUGH_INVENTORY_SPACE"@[12] == 'N');
                assert("NOT_ENOUGH_INVENTORY_SPACE"@[13] == 'V');
                assert("NOT_ENOUGH_INVENTORY_SPACE"@[14] == 'E');
                assert("NOT_ENOUGH_INVENTORY_SPACE"@[15] == 'N');
                assert("NOT_ENOUGH_INVENTORY_SPACE"@[16] == 'T');
                assert("NOT_ENOUGH_INVENTORY_SPACE"@[17] == 'O');
                assert("NOT_ENOUGH_INVENTORY_SPACE"@[18] == 'R');
                assert("NOT_ENOUGH_INVENTORY_SPACE"@[19] == 'Y');
                assert("NOT_ENOUGH_INVENTORY_SPACE"@[20] == '_');
                assert("NOT_ENOUGH_INVENTORY_SPACE"@[21] == 'S');
                assert("NOT_ENOUGH_INVENTORY_SPACE"@[22] == 'P');
                assert("NOT_ENOUGH_INVENTORY_SPACE"@[23] == 'A');
                assert("NOT_ENOUGH_INVENTORY_SPACE"@[24] == 'C');
                assert("NOT_ENOUGH_INVENTORY_SPACE"@[25] == 'E');
                assert(clean_atom("NOT_ENOUGH_INVENTORY_SPACE"@));
            },
            ActionResult::NotEnoughInventorySpaceSoulGem => {
                assert("NOT_ENOUGH_INVENTORY_SPACE_SOUL_GEM"@.len() == 35);
                assert("NOT_ENOUGH_INVENTORY_SPACE_SOUL_GEM"@[0] == 'N');
                assert("NOT_ENOUGH_INVENTORY_SPACE_SOUL_GEM"@[1] == 'O');
                assert("NOT_ENOUGH_INVENTORY_SPACE_SOUL_GEM"@[2] == 'T');
                assert("NOT_ENOUGH_INVENTORY_SPACE_SOUL_GEM"@[3] == '_');
                assert("NOT_ENOUGH_INVENTORY_SPACE_SOUL_GEM"@[4] == 'E');
                assert("NOT_ENOUGH_INVENTORY_SPACE_SOUL_GEM"@[5] == 'N');
                assert("NOT_ENOUGH_INVENTORY_SPACE_SOUL_GEM"@[6] == 'O');
                assert("NOT_ENOUGH_INVENTORY_SPACE_SOUL_GEM"@[7] == 'U');
                assert("NOT_ENOUGH_INVENTORY_SPACE_SOUL_GEM"@[8] == 'G');
                assert("NOT_ENOUGH_INVENTORY_SPACE_SOUL_GEM"@[9] == 'H');
                assert("NOT_ENOUGH_INVENTORY_SPACE_SOUL_GEM"@[10] == '_');
                assert("NOT_ENOUGH_INVENTORY_SPACE_SOUL_GEM"@[11] == 'I');
                assert("NOT_ENOUGH_INVENTORY_SPACE_SOUL_GEM"@[12] == 'N');
                assert("NOT_ENOUGH_INVENTORY_SPACE_SOUL_GEM"@[13] == 'V');
                assert("NOT_ENOUGH_INVENTORY_SPACE_SOUL_GEM"@[14] == 'E');
                assert("NOT_ENOUGH_INVENTORY_SPACE_SOUL_GEM"@[15] == 'N');
                assert("NOT_ENOUGH_INVENTORY_SPACE_SOUL_GEM"@[16] == 'T');
                assert("NOT_ENOUGH_INVENTORY_SPACE_SOUL_GEM"@[17] == 'O');
                assert("NOT_ENOUGH_INVENTORY_SPACE_SOUL_GEM"@[18] == 'R');
                assert("NOT_ENOUGH_INVENTORY_SPACE_SOUL_GEM"@[19] == 'Y');
                assert("NOT_ENOUGH_INVENTORY_SPACE_SOUL_GEM"@[20] == '_');
                assert("NOT_ENOUGH_INVENTORY_SPACE_SOUL_GEM"@[21] == 'S');
                assert("NOT_ENOUGH_INVENTORY_SPACE_SOUL_GEM"@[22] == 'P');
                assert("NOT_ENOUGH_INVENTORY_SPACE_SOUL_GEM"@[23] == 'A');
                assert("NOT_ENOUGH_INVENTORY_SPACE_SOUL_GEM"@[24] == 'C');
                assert("NOT_ENOUGH_INVENTORY_SPACE_SOUL_GEM"@[25] == 'E');
                assert("NOT_ENOUGH_INVENTORY_SPACE_SOUL_GEM"@[26] == '_');
                assert("NOT_ENOUGH_INVENTORY_SPACE_SOUL_GEM"@[27] == 'S');
                assert("NOT_ENOUGH_INVENTORY_SPACE_SOUL_GEM"@[28] == 'O');
                assert("NOT_ENOUGH_INVENTORY_SPACE_SOUL_GEM"@[29] == 'U');
                assert("NOT_ENOUGH_INVENTORY_SPACE_SOUL_GEM"@[30] == 'L');
                assert("NOT_ENOUGH_INVENTORY_SPACE_SOUL_GEM"@[31] == '_');
                assert("NOT_ENOUGH_INVENTORY_SPACE_SOUL_GEM"@[32] == 'G');
                assert("NOT_ENOUGH_INVENTORY_SPACE_SOUL_GEM"@[33] == 'E');
                assert("NOT_ENOUGH_INVENTORY_SPACE_SOUL_GEM"@[34] == 'M');
                assert(clean_atom("NOT_ENOUGH_INVENTORY_SPACE_SOUL_GEM"@));
            },
            ActionResult::NotEnoughSpaceForSiege => {
                assert("NOT_ENOUGH_SPACE_FOR_SIEGE"@.len() == 26);
                assert("NOT_ENOUGH_SPACE_FOR_SIEGE"@[0] == 'N');
                assert("NOT_ENOUGH_SPACE_FOR_SIEGE"@[1] == 'O');
                assert("NOT_ENOUGH_SPACE_FOR_SIEGE"@[2] == 'T');
                assert("NOT_ENOUGH_SPACE_FOR_SIEGE"@[3] == '_');
                assert("NOT_ENOUGH_SPACE_FOR_SIEGE"@[4] == 'E');
                assert("NOT_ENOUGH_SPACE_FOR_SIEGE"@[5] == 'N');
                assert("NOT_ENOUGH_SPACE_FOR_SIEGE"@[6] == 'O');
                assert("NOT_ENOUGH_SPACE_FOR_SIEGE"@[7] == 'U');
                assert("NOT_ENOUGH_SPACE_FOR_SIEGE"@[8] == 'G');
                assert("NOT_ENOUGH_SPACE_FOR_SIEGE"@[9] == 'H');
                assert("NOT_ENOUGH_SPACE_FOR_SIEGE"@[10] == '_');
                assert("NOT_ENOUGH_SPACE_FOR_SIEGE"@[11] == 'S');
                assert("NOT_ENOUGH_SPACE_FOR_SIEGE"@[12] == 'P');
                assert("NOT_ENOUGH_SPACE_FOR_SIEGE"@[13] == 'A');
                assert("NOT_ENOUGH_SPACE_FOR_SIEGE"@[14] == 'C');
                assert("NOT_ENOUGH_SPACE_FOR_SIEGE"@[15] == 'E');
                assert("NOT_ENOUGH_SPACE_FOR_SIEGE"@[16] == '_');
                assert("NOT_ENOUGH_SPACE_FOR_SIEGE"@[17] == 'F');
                assert("NOT_ENOUGH_SPACE_FOR_SIEGE"@[18] == 'O');
                assert("NOT_ENOUGH_SPACE_FOR_SIEGE"@[19] == 'R');
                assert("NOT_ENOUGH_SPACE_FOR_SIEGE"@[20] == '_');
                assert("NOT_ENOUGH_SPACE_FOR_SIEGE"@[21] == 'S');
                assert("NOT_ENOUGH_SPACE_FOR_SIEGE"@[22] == 'I');
                assert("NOT_ENOUGH_SPACE_FOR_SIEGE"@[23] == 'E');
                assert("NOT_ENOUGH_SPACE_FOR_SIEGE"@[24] == 'G');
                assert("NOT_ENOUGH_SPACE_FOR_SIEGE"@[25] == 'E');
                assert(clean_atom("NOT_ENOUGH_SPACE_FOR_SIEGE"@));
            },
            ActionResult::NoLocationFound => {
                assert("NO_LOCATION_FOUND"@.len() == 17);
                assert("NO_LOCATION_FOUND"@[0] == 'N');
                assert("NO_LOCATION_FOUND"@[1] == 'O');
                assert("NO_LOCATION_FOUND"@[2] == '_');
                assert("NO_LOCATION_FOUND"@[3] == 'L');
                assert("NO_LOCATION_FOUND"@[4] == 'O');
                assert("NO_LOCATION_FOUND"@[5] == 'C');
                assert("NO_LOCATION_FOUND"@[6] == 'A');
                assert("NO_LOCATION_FOUND"@[7] == 'T');
                assert("NO_LOCATION_FOUND"@[8] == 'I');
                assert("NO_LOCATION_FOUND"@[9] == 'O');
                assert("NO_LOCATION_FOUND"@[10] == 'N');
                assert("NO_LOCATION_FOUND"@[11] == '_');
                assert("NO_LOCATION_FOUND"@[12] == 'F');
                assert("NO_LOCATION_FOUND"@[13] == 'O');
                assert("NO_LOCATION_FOUND"@[14] == 'U');
                assert("NO_LOCATION_FOUND"@[15] == 'N');
                assert("NO_LOCATION_FOUND"@[16] == 'D');
                assert(clean_atom("NO_LOCATION_FOUND"@));
            },
            ActionResult::NoRamAttackableTargetWithinRange => {
                assert("NO_RAM_ATTACKABLE_TARGET_WITHIN_RANGE"@.len() == 37);
                assert("NO_RAM_ATTACKABLE_TARGET_WITHIN_RANGE"@[0] == 'N');
                assert("NO_RAM_ATTACKABLE_TARGET_WITHIN_RANGE"@[1] == 'O');
                assert("NO_RAM_ATTACKABLE_TARGET_WITHIN_RANGE"@[2] == '_');
                assert("NO_RAM_ATTACKABLE_TARGET_WITHIN_RANGE"@[3] == 'R');
                assert("NO_RAM_ATTACKABLE_TARGET_WITHIN_RANGE"@[4] == 'A');
                assert("NO_RAM_ATTACKABLE_TARGET_WITHIN_RANGE"@[5] == 'M');
                assert("NO_RAM_ATTACKABLE_TARGET_WITHIN_RANGE"@[6] == '_');
                assert("NO_RAM_ATTACKABLE_TARGET_WITHIN_RANGE"@[7] == 'A');
                assert("NO_RAM_ATTACKABLE_TARGET_WITHIN_RANGE"@[8] == 'T');
                assert("NO_RAM_ATTACKABLE_TARGET_WITHIN_RANGE"@[9] == 'T');
                assert("NO_RAM_ATTACKABLE_TARGET_WITHIN_RANGE"@[10] == 'A');
                assert("NO_RAM_ATTACKABLE_TARGET_WITHIN_RANGE"@[11] == 'C');
                assert("NO_RAM_ATTACKABLE_TARGET_WITHIN_RANGE"@[12] == 'K');
                assert("NO_RAM_ATTACKABLE_TARGET_WITHIN_RANGE"@[13] == 'A');
                assert("NO_RAM_ATTACKABLE_TARGET_WITHIN_RANGE"@[14] == 'B');
                assert("NO_RAM_ATTACKABLE_TARGET_WITHIN_RANGE"@[15] == 'L');
                assert("NO_RAM_ATTACKABLE_TARGET_WITHIN_RANGE"@[16] == 'E');
                assert("NO_RAM_ATTACKABLE_TARGET_WITHIN_RANGE"@[17] == '_');
                assert("NO_RAM_ATTACKABLE_TARGET_WITHIN_RANGE"@[18] == 'T');
                assert("NO_RAM_ATTACKABLE_TARGET_WITHIN_RANGE"@[19] == 'A');
                assert("NO_RAM_ATTACKABLE_TARGET_WITHIN_RANGE"@[20] == 'R');
                assert("NO_RAM_ATTACKABLE_TARGET_WITHIN_RANGE"@[21] == 'G');
                assert("NO_RAM_ATTACKABLE_TARGET_WITHIN_RANGE"@[22] == 'E');
                assert("NO_RAM_ATTACKABLE_TARGET_WITHIN_RANGE"@[23] == 'T');
                assert("NO_RAM_ATTACKABLE_TARGET_WITHIN_RANGE"@[24] == '_');
                assert("NO_RAM_ATTACKABLE_TARGET_WITHIN_RANGE"@[25] == 'W');
                assert("NO_RAM_ATTACKABLE_TARGET_WITHIN_RANGE"@[26] == 'I');
                assert("NO_RAM_ATTACKABLE_TARGET_WITHIN_RANGE"@[27] == 'T');
                assert("NO_RAM_ATTACKABLE_TARGET_WITHIN_RANGE"@[28] == 'H');
                assert("NO_RAM_ATTACKABLE_TARGET_WITHIN_RANGE"@[29] == 'I');
                assert("NO_RAM_ATTACKABLE_TARGET_WITHIN_RANGE"@[30] == 'N');
                assert("NO_RAM_ATTACKABLE_TARGET_WITHIN_RANGE"@[31] == '_');
                assert("NO_RAM_ATTACKABLE_TARGET_WITHIN_RANGE"@[32] == 'R');
                assert("NO_RAM_ATTACKABLE_TARGET_WITHIN_RANGE"@[33] == 'A');
                assert("NO_RAM_ATTACKABLE_TARGET_WITHIN_RANGE"@[34] == 'N');
                assert("NO_RAM_ATTACKABLE_TARGET_WITHIN_RANGE"@[35] == 'G');
                assert("NO_RAM_ATTACKABLE_TARGET_WITHIN_RANGE"@[36] == 'E');
                assert(clean_atom("NO_RAM_ATTACKABLE_TARGET_WITHIN_RANGE"@));
            },
            ActionResult::NoWeaponsToSwapTo => {
                assert("NO_WEAPONS_TO_SWAP_TO"@.len() == 21);
                assert("NO_WEAPONS_TO_SWAP_TO"@[0] == 'N');
                assert("NO_WEAPONS_TO_SWAP_TO"@[1] == 'O');
                assert("NO_WEAPONS_TO_SWAP_TO"@[2] == '_');
                assert("NO_WEAPONS_TO_SWAP_TO"@[3] == 'W');
                assert("NO_WEAPONS_TO_SWAP_TO"@[4] == 'E');
                assert("NO_WEAPONS_TO_SWAP_TO"@[5] == 'A');
                assert("NO_WEAPONS_TO_SWAP_TO"@[6] == 'P');
                assert("NO_WEAPONS_TO_SWAP_TO"@[7] == 'O');
                assert("NO_WEAPONS_TO_SWAP_TO"@[8] == 'N');
                assert("NO_WEAPONS_TO_SWAP_TO"@[9] == 'S');
                assert("NO_WEAPONS_TO_SWAP_TO"@[10] == '_');
                assert("NO_WEAPONS_TO_SWAP_TO"@[11] == 'T');
                assert("NO_WEAPONS_TO_SWAP_TO"@[12] == 'O');
                assert("NO_WEAPONS_TO_SWAP_TO"@[13] == '_');
                assert("NO_WEAPONS_TO_SWAP_TO"@[14] == 'S');
                assert("NO_WEAPONS_TO_SWAP_TO"@[15] == 'W');
                assert("NO_WEAPONS_TO_SWAP_TO"@[16] == 'A');
                assert("NO_WEAPONS_TO_SWAP_TO"@[17] == 'P');
                assert("NO_WEAPONS_TO_SWAP_TO"@[18] == '_');
                assert("NO_WEAPONS_TO_SWAP_TO"@[19] == 'T');
                assert("NO_WEAPONS_TO_SWAP_TO"@[20] == 'O');
                assert(clean_atom("NO_WEAPONS_TO_SWAP_TO"@));
            },
            ActionResult::NpcTooClose => {
                assert("NPC_TOO_CLOSE"@.len() == 13);
                assert("NPC_TOO_CLOSE"@[0] == 'N');
                assert("NPC_TOO_CLOSE"@[1] == 'P');
                assert("NPC_TOO_CLOSE"@[2] == 'C');
                assert("NPC_TOO_CLOSE"@[3] == '_');
                assert("NPC_TOO_CLOSE"@[4] == 'T');
                assert("NPC_TOO_CLOSE"@[5] == 'O');
                assert("NPC_TOO_CLOSE"@[6] == 'O');
                assert("NPC_TOO_CLOSE"@[7] == '_');
                assert("NPC_TOO_CLOSE"@[8] == 'C');
                assert("NPC_TOO_CLOSE"@[9] == 'L');
                assert("NPC_TOO_CLOSE"@[10] == 'O');
                assert("NPC_TOO_CLOSE"@[11] == 'S');
                assert("NPC_TOO_CLOSE"@[12] == 'E');
                assert(clean_atom("NPC_TOO_CLOSE"@));
            },
            ActionResult::Offbalance => {
                assert("OFFBALANCE"@.len() == 10);
                assert("OFFBALANCE"@[0] == 'O');
                assert("OFFBALANCE"@[1] == 'F');
                assert("OFFBALANCE"@[2] == 'F');
                assert("OFFBALANCE"@[3] == 'B');
                assert("OFFBALANCE"@[4] == 'A');
                assert("OFFBALANCE"@[5] == 'L');
                assert("OFFBALANCE"@[6] == 'A');
                assert("OFFBALANCE"@[7] == 'N');
                assert("OFFBALANCE"@[8] == 'C');
                assert("OFFBALANCE"@[9] == 'E');
                assert(clean_atom("OFFBALANCE"@));
            },
            ActionResult::Pacified => {
                assert("PACIFIED"@.len() == 8);
                assert("PACIFIED"@[0] == 'P');
                assert("PACIFIED"@[1] == 'A');
                assert("PACIFIED"@[2] == 'C');
                assert("PACIFIED"@[3] == 'I');
                assert("PACIFIED"@[4] == 'F');
                assert("PACIFIED"@[5] == 'I');
                assert("PACIFIED"@[6] == 'E');
                assert("PACIFIED"@[7] == 'D');
                assert(clean_atom("PACIFIED"@));
            },
            ActionResult::Parried => {
                assert("PARRIED"@.len() == 7);
                assert("PARRIED"@[0] == 'P');
                assert("PARRIED"@[1] == 'A');
                assert("PARRIED"@[2] == 'R');
                assert("PARRIED"@[3] == 'R');
                assert("PARRIED"@[4] == 'I');
                assert("PARRIED"@[5] == 'E');
                assert("PARRIED"@[6] == 'D');
                assert(clean_atom("PARRIED"@));
            },
            ActionResult::PartialResist => {
                assert("PARTIAL_RESIST"@.len() == 14);
                assert("PARTIAL_RESIST"@[0] == 'P');
                assert("PARTIAL_RESIST"@[1] == 'A');
                assert("PARTIAL_RESIST"@[2] == 'R');
                assert("PARTIAL_RESIST"@[3] == 'T');
                assert("PARTIAL_RESIST"@[4] == 'I');
                assert("PARTIAL_RESIST"@[5] == 'A');
                assert("PARTIAL_RESIST"@[6] == 'L');
                assert("PARTIAL_RESIST"@[7] == '_');
                assert("PARTIAL_RESIST"@[8] == 'R');
                assert("PARTIAL_RESIST"@[9] == 'E');
                assert("PARTIAL_RESIST"@[10] == 'S');
                assert("PARTIAL_RESIST"@[11] == 'I');
                assert("PARTIAL_RESIST"@[12] == 'S');
                assert("PARTIAL_RESIST"@[13] == 'T');
                assert(clean_atom("PARTIAL_RESIST"@));
            },
            ActionResult::PowerDrain => {
                assert("POWER_DRAIN"@.len() == 11);
                assert("POWER_DRAIN"@[0] == 'P');
                assert("POWER_DRAIN"@[1] == 'O');
                assert("POWER_DRAIN"@[2] == 'W');
                assert("POWER_DRAIN"@[3] == 'E');
                assert("POWER_DRAIN"@[4] == 'R');
                assert("POWER_DRAIN"@[5] == '_');
                assert("POWER_DRAIN"@[6] == 'D');
                assert("POWER_DRAIN"@[7] == 'R');
                assert("POWER_DRAIN"@[8] == 'A');
                assert("POWER_DRAIN"@[9] == 'I');
                assert("POWER_DRAIN"@[10] == 'N');
                assert(clean_atom("POWER_DRAIN"@));
            },
            ActionResult::PowerEnergize => {
                assert("POWER_ENERGIZE"@.len() == 14);
                assert("POWER_ENERGIZE"@[0] == 'P');
                assert("POWER_ENERGIZE"@[1] == 'O');
                assert("POWER_ENERGIZE"@[2] == 'W');
                assert("POWER_ENERGIZE"@[3] == 'E');
                assert("POWER_ENERGIZE"@[4] == 'R');
                assert("POWER_ENERGIZE"@[5] == '_');
                assert("POWER_ENERGIZE"@[6] == 'E');
                assert("POWER_ENERGIZE"@[7] == 'N');
                assert("POWER_ENERGIZE"@[8] == 'E');
                assert("POWER_ENERGIZE"@[9] == 'R');
                assert("POWER_ENERGIZE"@[10] == 'G');
                assert("POWER_ENERGIZE"@[11] == 'I');
                assert("POWER_ENERGIZE"@[12] == 'Z');
                assert("POWER_ENERGIZE"@[13] == 'E');
                assert(clean_atom("POWER_ENERGIZE"@));
            },
            ActionResult::PreciseDamage => {
                assert("PRECISE_DAMAGE"@.len() == 14);
                assert("PRECISE_DAMAGE"@[0] == 'P');
                assert("PRECISE_DAMAGE"@[1] == 'R');
                assert("PRECISE_DAMAGE"@[2] == 'E');
                assert("PRECISE_DAMAGE"@[3] == 'C');
                assert("PRECISE_DAMAGE"@[4] == 'I');
                assert("PRECISE_DAMAGE"@[5] == 'S');
                assert("PRECISE_DAMAGE"@[6] == 'E');
                assert("PRECISE_DAMAGE"@[7] == '_');
                assert("PRECISE_DAMAGE"@[8] == 'D');
                assert("PRECISE_DAMAGE"@[9] == 'A');
                assert("PRECISE_DAMAGE"@[10] == 'M');
                assert("PRECISE_DAMAGE"@[11] == 'A');
                assert("PRECISE_DAMAGE"@[12] == 'G');
                assert("PRECISE_DAMAGE"@[13] == 'E');
                assert(clean_atom("PRECISE_DAMAGE"@));
            },
            ActionResult::Queued => {
                assert("QUEUED"@.len() == 6);
                assert("QUEUED"@[0] == 'Q');
                assert("QUEUED"@[1] == 'U');
                assert("QUEUED"@[2] == 'E');
                assert("QUEUED"@[3] == 'U');
                assert("QUEUED"@[4] == 'E');
                assert("QUEUED"@[5] == 'D');
                assert(clean_atom("QUEUED"@));
            },
            ActionResult::RamAttackableTargetsAllDestroyed => {
                assert("RAM_ATTACKABLE_TARGETS_ALL_DESTROYED"@.len() == 36);
                assert("RAM_ATTACKABLE_TARGETS_ALL_DESTROYED"@[0] == 'R');
                assert("RAM_ATTACKABLE_TARGETS_ALL_DESTROYED"@[1] == 'A');
                assert("RAM_ATTACKABLE_TARGETS_ALL_DESTROYED"@[2] == 'M');
                assert("RAM_ATTACKABLE_TARGETS_ALL_DESTROYED"@[3] == '_');
                assert("RAM_ATTACKABLE_TARGETS_ALL_DESTROYED"@[4] == 'A');
                assert("RAM_ATTACKABLE_TARGETS_ALL_DESTROYED"@[5] == 'T');
                assert("RAM_ATTACKABLE_TARGETS_ALL_DESTROYED"@[6] == 'T');
                assert("RAM_ATTACKABLE_TARGETS_ALL_DESTROYED"@[7] == 'A');
                assert("RAM_ATTACKABLE_TARGETS_ALL_DESTROYED"@[8] == 'C');
                assert("RAM_ATTACKABLE_TARGETS_ALL_DESTROYED"@[9] == 'K');
                assert("RAM_ATTACKABLE_TARGETS_ALL_DESTROYED"@[10] == 'A');
                assert("RAM_ATTACKABLE_TARGETS_ALL_DESTROYED"@[11] == 'B');
                assert("RAM_ATTACKABLE_TARGETS_ALL_DESTROYED"@[12] == 'L');
                assert("RAM_ATTACKABLE_TARGETS_ALL_DESTROYED"@[13] == 'E');
                assert("RAM_ATTACKABLE_TARGETS_ALL_DESTROYED"@[14] == '_');
                assert("RAM_ATTACKABLE_TARGETS_ALL_DESTROYED"@[15] == 'T');
                assert("RAM_ATTACKABLE_TARGETS_ALL_DESTROYED"@[16] == 'A');
                assert("RAM_ATTACKABLE_TARGETS_ALL_DESTROYED"@[17] == 'R');
                assert("RAM_ATTACKABLE_TARGETS_ALL_DESTROYED"@[18] == 'G');
                assert("RAM_ATTACKABLE_TARGETS_ALL_DESTROYED"@[19] == 'E');
                assert("RAM_ATTACKABLE_TARGETS_ALL_DESTROYED"@[20] == 'T');
                assert("RAM_ATTACKABLE_TARGETS_ALL_DESTROYED"@[21] == 'S');
                assert("RAM_ATTACKABLE_TARGETS_ALL_DESTROYED"@[22] == '_');
                assert("RAM_ATTACKABLE_TARGETS_ALL_DESTROYED"@[23] == 'A');
                assert("RAM_ATTACKABLE_TARGETS_ALL_DESTROYED"@[24] == 'L');
                assert("RAM_ATTACKABLE_TARGETS_ALL_DESTROYED"@[25] == 'L');
                assert("RAM_ATTACKABLE_TARGETS_ALL_DESTROYED"@[26] == '_');
                assert("RAM_ATTACKABLE_TARGETS_ALL_DESTROYED"@[27] == 'D');
                assert("RAM_ATTACKABLE_TARGETS_ALL_DESTROYED"@[28] == 'E');
                assert("RAM_ATTACKABLE_TARGETS_ALL_DESTROYED"@[29] == 'S');
                assert("RAM_ATTACKABLE_TARGETS_ALL_DESTROYED"@[30] == 'T');
                assert("RAM_ATTACKABLE_TARGETS_ALL_DESTROYED"@[31] == 'R');
                assert("RAM_ATTACKABLE_TARGETS_ALL_DESTROYED"@[32] == 'O');
                assert("RAM_ATTACKABLE_TARGETS_ALL_DESTROYED"@[33] == 'Y');
                assert("RAM_ATTACKABLE_TARGETS_ALL_DESTROYED"@[34] == 'E');
                assert("RAM_ATTACKABLE_TARGETS_ALL_DESTROYED"@[35] == 'D');
                assert(clean_atom("RAM_ATTACKABLE_TARGETS_ALL_DESTROYED"@));
            },
            ActionResult::RamAttackableTargetsAllOccupied => {
                assert("RAM_ATTACKABLE_TARGETS_ALL_OCCUPIED"@.len() == 35);
                assert("RAM_ATTACKABLE_TARGETS_ALL_OCCUPIED"@[0] == 'R');
                assert("RAM_ATTACKABLE_TARGETS_ALL_OCCUPIED"@[1] == 'A');
                assert("RAM_ATTACKABLE_TARGETS_ALL_OCCUPIED"@[2] == 'M');
                assert("RAM_ATTACKABLE_TARGETS_ALL_OCCUPIED"@[3] == '_');
                assert("RAM_ATTACKABLE_TARGETS_ALL_OCCUPIED"@[4] == 'A');
                assert("RAM_ATTACKABLE_TARGETS_ALL_OCCUPIED"@[5] == 'T');
                assert("RAM_ATTACKABLE_TARGETS_ALL_OCCUPIED"@[6] == 'T');
                assert("RAM_ATTACKABLE_TARGETS_ALL_OCCUPIED"@[7] == 'A');
                assert("RAM_ATTACKABLE_TARGETS_ALL_OCCUPIED"@[8] == 'C');
                assert("RAM_ATTACKABLE_TARGETS_ALL_OCCUPIED"@[9] == 'K');
                assert("RAM_ATTACKABLE_TARGETS_ALL_OCCUPIED"@[10] == 'A');
                assert("RAM_ATTACKABLE_TARGETS_ALL_OCCUPIED"@[11] == 'B');
                assert("RAM_ATTACKABLE_TARGETS_ALL_OCCUPIED"@[12] == 'L');
                assert("RAM_ATTACKABLE_TARGETS_ALL_OCCUPIED"@[13] == 'E');
                assert("RAM_ATTACKABLE_TARGETS_ALL_OCCUPIED"@[14] == '_');
                assert("RAM_ATTACKABLE_TARGETS_ALL_OCCUPIED"@[15] == 'T');
                assert("RAM_ATTACKABLE_TARGETS_ALL_OCCUPIED"@[16] == 'A');
                assert("RAM_ATTACKABLE_TARGETS_ALL_OCCUPIED"@[17] == 'R');
                assert("RAM_ATTACKABLE_TARGETS_ALL_OCCUPIED"@[18] == 'G');
                assert("RAM_ATTACKABLE_TARGETS_ALL_OCCUPIED"@[19] == 'E');
                assert("RAM_ATTACKABLE_TARGETS_ALL_OCCUPIED"@[20] == 'T');
                assert("RAM_ATTACKABLE_TARGETS_ALL_OCCUPIED"@[21] == 'S');
                assert("RAM_ATTACKABLE_TARGETS_ALL_OCCUPIED"@[22] == '_');
                assert("RAM_ATTACKABLE_TARGETS_ALL_OCCUPIED"@[23] == 'A');
                assert("RAM_ATTACKABLE_TARGETS_ALL_OCCUPIED"@[24] == 'L');
                assert("RAM_ATTACKABLE_TARGETS_ALL_OCCUPIED"@[25] == 'L');
                assert("RAM_ATTACKABLE_TARGETS_ALL_OCCUPIED"@[26] == '_');
                assert("RAM_ATTACKABLE_TARGETS_ALL_OCCUPIED"@[27] == 'O');
                assert("RAM_ATTACKABLE_TARGETS_ALL_OCCUPIED"@[28] == 'C');
                assert("RAM_ATTACKABLE_TARGETS_ALL_OCCUPIED"@[29] == 'C');
                assert("RAM_ATTACKABLE_TARGETS_ALL_OCCUPIED"@[30] == 'U');
                assert("RAM_ATTACKABLE_TARGETS_ALL_OCCUPIED"@[31] == 'P');
                assert("RAM_ATTACKABLE_TARGETS_ALL_OCCUPIED"@[32] == 'I');
                assert("RAM_ATTACKABLE_TARGETS_ALL_OCCUPIED"@[33] == 'E');
                assert("RAM_ATTACKABLE_TARGETS_ALL_OCCUPIED"@[34] == 'D');
                assert(clean_atom("RAM_ATTACKABLE_TARGETS_ALL_OCCUPIED"@));
            },
            ActionResult::Recalling => {
                assert("RECALLING"@.len() == 9);
                assert("RECALLING"@[0] == 'R');
                assert("RECALLING"@[1] == 'E');
                assert("RECALLING"@[2] == 'C');
                assert("RECALLING"@[3] == 'A');
                assert("RECALLING"@[4] == 'L');
                assert("RECALLING"@[5] == 'L');
                assert("RECALLING"@[6] == 'I');
                assert("RECALLING"@[7] == 'N');
                assert("RECALLING"@[8] == 'G');
                assert(clean_atom("RECALLING"@));
            },
            ActionResult::Reflected => {
                assert("REFLECTED"@.len() == 9);
                assert("REFLECTED"@[0] == 'R');
                assert("REFLECTED"@[1] == 'E');
                assert("REFLECTED"@[2] == 'F');
                assert("REFLECTED"@[3] == 'L');
                assert("REFLECTED"@[4] == 'E');
                assert("REFLECTED"@[5] == 'C');
                assert("REFLECTED"@[6] == 'T');
                assert("REFLECTED"@[7] == 'E');
                assert("REFLECTED"@[8] == 'D');
                assert(clean_atom("REFLECTED"@));
            },
            ActionResult::Reincarnating => {
                assert("REINCARNATING"@.len() == 13);
                assert("REINCARNATING"@[0] == 'R');
                assert("REINCARNATING"@[1] == 'E');
                assert("REINCARNATING"@[2] == 'I');
                assert("REINCARNATING"@[3] == 'N');
                assert("REINCARNATING"@[4] == 'C');
                assert("REINCARNATING"@[5] == 'A');
                assert("REINCARNATING"@[6] == 'R');
                assert("REINCARNATING"@[7] == 'N');
                assert("REINCARNATING"@[8] == 'A');
                assert("REINCARNATING"@[9] == 'T');
                assert("REINCARNATING"@[10] == 'I');
                assert("REINCARNATING"@[11] == 'N');
                assert("REINCARNATING"@[12] == 'G');
                assert(clean_atom("REINCARNATING"@));
            },
            ActionResult::Resist => {
                assert("RESIST"@.len() == 6);
                assert("RESIST"@[0] == 'R');
                assert("RESIST"@[1] == 'E');
                assert("RESIST"@[2] == 'S');
                assert("RESIST"@[3] == 'I');
                assert("RESIST"@[4] == 'S');
                assert("RESIST"@[5] == 'T');
                assert(clean_atom("RESIST"@));
            },
            ActionResult::Resurrect => {
                assert("RESURRECT"@.len() == 9);
                assert("RESURRECT"@[0] == 'R');
                assert("RESURRECT"@[1] == 'E');
                assert("RESURRECT"@[2] == 'S');
                assert("RESURRECT"@[3] == 'U');
                assert("RESURRECT"@[4] == 'R');
                assert("RESURRECT"@[5] == 'R');
                assert("RESURRECT"@[6] == 'E');
                assert("RESURRECT"@[7] == 'C');
                assert("RESURRECT"@[8] == 'T');
                assert(clean_atom("RESURRECT"@));
            },
            ActionResult::Rooted => {
                assert("ROOTED"@.len() == 6);
                assert("ROOTED"@[0] == 'R');
                assert("ROOTED"@[1] == 'O');
                assert("ROOTED"@[2] == 'O');
                assert("ROOTED"@[3] == 'T');
                assert("ROOTED"@[4] == 'E');
                assert("ROOTED"@[5] == 'D');
                assert(clean_atom("ROOTED"@));
            },
            ActionResult::SiegeLimit => {
                assert("SIEGE_LIMIT"@.len() == 11);
                assert("SIEGE_LIMIT"@[0] == 'S');
                assert("SIEGE_LIMIT"@[1] == 'I');
                assert("SIEGE_LIMIT"@[2] == 'E');
                assert("SIEGE_LIMIT"@[3] == 'G');
                assert("SIEGE_LIMIT"@[4] == 'E');
                assert("SIEGE_LIMIT"@[5] == '_');
                assert("SIEGE_LIMIT"@[6] == 'L');
                assert("SIEGE_LIMIT"@[7] == 'I');
                assert("SIEGE_LIMIT"@[8] == 'M');
                assert("SIEGE_LIMIT"@[9] == 'I');
                assert("SIEGE_LIMIT"@[10] == 'T');
                assert(clean_atom("SIEGE_LIMIT"@));
            },
            ActionResult::SiegeNotAllowedInZone => {
                assert("SIEGE_NOT_ALLOWED_IN_ZONE"@.len() == 25);
                assert("SIEGE_NOT_ALLOWED_IN_ZONE"@[0] == 'S');
                assert("SIEGE_NOT_ALLOWED_IN_ZONE"@[1] == 'I');
                assert("SIEGE_NOT_ALLOWED_IN_ZONE"@[2] == 'E');
                assert("SIEGE_NOT_ALLOWED_IN_ZONE"@[3] == 'G');
                assert("SIEGE_NOT_ALLOWED_IN_ZONE"@[4] == 'E');
                assert("SIEGE_NOT_ALLOWED_IN_ZONE"@[5] == '_');
                assert("SIEGE_NOT_ALLOWED_IN_ZONE"@[6] == 'N');
                assert("SIEGE_NOT_ALLOWED_IN_ZONE"@[7] == 'O');
                assert("SIEGE_NOT_ALLOWED_IN_ZONE"@[8] == 'T');
                assert("SIEGE_NOT_ALLOWED_IN_ZONE"@[9] == '_');
                assert("SIEGE_NOT_ALLOWED_IN_ZONE"@[10] == 'A');
                assert("SIEGE_NOT_ALLOWED_IN_ZONE"@[11] == 'L');
                assert("SIEGE_NOT_ALLOWED_IN_ZONE"@[12] == 'L');
                assert("SIEGE_NOT_ALLOWED_IN_ZONE"@[13] == 'O');
                assert("SIEGE_NOT_ALLOWED_IN_ZONE"@[14] == 'W');
                assert("SIEGE_NOT_ALLOWED_IN_ZONE"@[15] == 'E');
                assert("SIEGE_NOT_ALLOWED_IN_ZONE"@[16] == 'D');
                assert("SIEGE_NOT_ALLOWED_IN_ZONE"@[17] == '_');
                assert("SIEGE_NOT_ALLOWED_IN_ZONE"@[18] == 'I');
                assert("SIEGE_NOT_ALLOWED_IN_ZONE"@[19] == 'N');
                assert("SIEGE_NOT_ALLOWED_IN_ZONE"@[20] == '_');
                assert("SIEGE_NOT_ALLOWED_IN_ZONE"@[21] == 'Z');
                assert("SIEGE_NOT_ALLOWED_IN_ZONE"@[22] == 'O');
                assert("SIEGE_NOT_ALLOWED_IN_ZONE"@[23] == 'N');
                assert("SIEGE_NOT_ALLOWED_IN_ZONE"@[24] == 'E');
                assert(clean_atom("SIEGE_NOT_ALLOWED_IN_ZONE"@));
            },
            ActionResult::SiegeTooClose => {
                assert("SIEGE_TOO_CLOSE"@.len() == 15);
                assert("SIEGE_TOO_CLOSE"@[0] == 'S');
                assert("SIEGE_TOO_CLOSE"@[1] == 'I');
                assert("SIEGE_TOO_CLOSE"@[2] == 'E');
                assert("SIEGE_TOO_CLOSE"@[3] == 'G');
                assert("SIEGE_TOO_CLOSE"@[4] == 'E');
                assert("SIEGE_TOO_CLOSE"@[5] == '_');
                assert("SIEGE_TOO_CLOSE"@[6] == 'T');
                assert("SIEGE_TOO_CLOSE"@[7] == 'O');
                assert("SIEGE_TOO_CLOSE"@[8] == 'O');
                assert("SIEGE_TOO_CLOSE"@[9] == '_');
                assert("SIEGE_TOO_CLOSE"@[10] == 'C');
                assert("SIEGE_TOO_CLOSE"@[11] == 'L');
                assert("SIEGE_TOO_CLOSE"@[12] == 'O');
                assert("SIEGE_TOO_CLOSE"@[13] == 'S');
                assert("SIEGE_TOO_CLOSE"@[14] == 'E');
                assert(clean_atom("SIEGE_TOO_CLOSE"@));
            },
            ActionResult::Silenced => {
                assert("SILENCED"@.len() == 8);
                assert("SILENCED"@[0] == 'S');
                assert("SILENCED"@[1] == 'I');
                assert("SILENCED"@[2] == 'L');
                assert("SILENCED"@[3] == 'E');
                assert("SILENCED"@[4] == 'N');
                assert("SILENCED"@[5] == 'C');
                assert("SILENCED"@[6] == 'E');
                assert("SILENCED"@[7] == 'D');
                assert(clean_atom("SILENCED"@));
            },
            ActionResult::Snared => {
                assert("SNARED"@.len() == 6);
                assert("SNARED"@[0] == 'S');
                assert("SNARED"@[1] == 'N');
                assert("SNARED"@[2] == 'A');
                assert("SNARED"@[3] == 'R');
                assert("SNARED"@[4] == 'E');
                assert("SNARED"@[5] == 'D');
                assert(clean_atom("SNARED"@));
            },
            ActionResult::SoulGemResurrectionAccepted => {
                assert("SOUL_GEM_RESURRECTION_ACCEPTED"@.len() == 30);
                assert("SOUL_GEM_RESURRECTION_ACCEPTED"@[0] == 'S');
                assert("SOUL_GEM_RESURRECTION_ACCEPTED"@[1] == 'O');
                assert("SOUL_GEM_RESURRECTION_ACCEPTED"@[2] == 'U');
                assert("SOUL_GEM_RESURRECTION_ACCEPTED"@[3] == 'L');
                assert("SOUL_GEM_RESURRECTION_ACCEPTED"@[4] == '_');
                assert("SOUL_GEM_RESURRECTION_ACCEPTED"@[5] == 'G');
                assert("SOUL_GEM_RESURRECTION_ACCEPTED"@[6] == 'E');
                assert("SOUL_GEM_RESURRECTION_ACCEPTED"@[7] == 'M');
                assert("SOUL_GEM_RESURRECTION_ACCEPTED"@[8] == '_');
                assert("SOUL_GEM_RESURRECTION_ACCEPTED"@[9] == 'R');
                assert("SOUL_GEM_RESURRECTION_ACCEPTED"@[10] == 'E');
                assert("SOUL_GEM_RESURRECTION_ACCEPTED"@[11] == 'S');
                assert("SOUL_GEM_RESURRECTION_ACCEPTED"@[12] == 'U');
                assert("SOUL_GEM_RESURRECTION_ACCEPTED"@[13] == 'R');
                assert("SOUL_GEM_RESURRECTION_ACCEPTED"@[14] == 'R');
                assert("SOUL_GEM_RESURRECTION_ACCEPTED"@[15] == 'E');
                assert("SOUL_GEM_RESURRECTION_ACCEPTED"@[16] == 'C');
                assert("SOUL_GEM_RESURRECTION_ACCEPTED"@[17] == 'T');
                assert("SOUL_GEM_RESURRECTION_ACCEPTED"@[18] == 'I');
                assert("SOUL_GEM_RESURRECTION_ACCEPTED"@[19] == 'O');
                assert("SOUL_GEM_RESURRECTION_ACCEPTED"@[20] == 'N');
                assert("SOUL_GEM_RESURRECTION_ACCEPTED"@[21] == '_');
                assert("SOUL_GEM_RESURRECTION_ACCEPTED"@[22] == 'A');
                assert("SOUL_GEM_RESURRECTION_ACCEPTED"@[23] == 'C');
                assert("SOUL_GEM_RESURRECTION_ACCEPTED"@[24] == 'C');
                assert("SOUL_GEM_RESURRECTION_ACCEPTED"@[25] == 'E');
                assert("SOUL_GEM_RESURRECTION_ACCEPTED"@[26] == 'P');
                assert("SOUL_GEM_RESURRECTION_ACCEPTED"@[27] == 'T');
                assert("SOUL_GEM_RESURRECTION_ACCEPTED"@[28] == 'E');
                assert("SOUL_GEM_RESURRECTION_ACCEPTED"@[29] == 'D');
                assert(clean_atom("SOUL_GEM_RESURRECTION_ACCEPTED"@));
            },
            ActionResult::Sprinting => {
                assert("SPRINTING"@.len() == 9);
                assert("SPRINTING"@[0] == 'S');
                assert("SPRINTING"@[1] == 'P');
                assert("SPRINTING"@[2] == 'R');
                assert("SPRINTING"@[3] == 'I');
                assert("SPRINTING"@[4] == 'N');
                assert("SPRINTING"@[5] == 'T');
                assert("SPRINTING"@[6] == 'I');
                assert("SPRINTING"@[7] == 'N');
                assert("SPRINTING"@[8] == 'G');
                assert(clean_atom("SPRINTING"@));
            },
            ActionResult::Staggered => {
                assert("STAGGERED"@.len() == 9);
                assert("STAGGERED"@[0] == 'S');
                assert("STAGGERED"@[1] == 'T');
                assert("STAGGERED"@[2] == 'A');
                assert("STAGGERED"@[3] == 'G');
                assert("STAGGERED"@[4] == 'G');
                assert("STAGGERED"@[5] == 'E');
                assert("STAGGERED"@[6] == 'R');
                assert("STAGGERED"@[7] == 'E');
                assert("STAGGERED"@[8] == 'D');
                assert(clean_atom("STAGGERED"@));
            },
            ActionResult::Stunned => {
                assert("STUNNED"@.len() == 7);
                assert("STUNNED"@[0] == 'S');
                assert("STUNNED"@[1] == 'T');
                assert("STUNNED"@[2] == 'U');
                assert("STUNNED"@[3] == 'N');
                assert("STUNNED"@[4] == 'N');
                assert("STUNNED"@[5] == 'E');
                assert("STUNNED"@[6] == 'D');
                assert(clean_atom("STUNNED"@));
            },
            ActionResult::Swimming => {
                assert("SWIMMING"@.len() == 8);
                assert("SWIMMING"@[0] == 'S');
                assert("SWIMMING"@[1] == 'W');
                assert("SWIMMING"@[2] == 'I');
                assert("SWIMMING"@[3] == 'M');
                assert("SWIMMING"@[4] == 'M');
                assert("SWIMMING"@[5] == 'I');
                assert("SWIMMING"@[6] == 'N');
                assert("SWIMMING"@[7] == 'G');
                assert(clean_atom("SWIMMING"@));
            },
            ActionResult::TargetDead => {
                assert("TARGET_DEAD"@.len() == 11);
                assert("TARGET_DEAD"@[0] == 'T');
                assert("TARGET_DEAD"@[1] == 'A');
                assert("TARGET_DEAD"@[2] == 'R');
                assert("TARGET_DEAD"@[3] == 'G');
                assert("TARGET_DEAD"@[4] == 'E');
                assert("TARGET_DEAD"@[5] == 'T');
                assert("TARGET_DEAD"@[6] == '_');
                assert("TARGET_DEAD"@[7] == 'D');
                assert("TARGET_DEAD"@[8] == 'E');
                assert("TARGET_DEAD"@[9] == 'A');
                assert("TARGET_DEAD"@[10] == 'D');
                assert(clean_atom("TARGET_DEAD"@));
            },
            ActionResult::TargetNotInView => {
                assert("TARGET_NOT_IN_VIEW"@.len() == 18);
                assert("TARGET_NOT_IN_VIEW"@[0] == 'T');
                assert("TARGET_NOT_IN_VIEW"@[1] == 'A');
                assert("TARGET_NOT_IN_VIEW"@[2] == 'R');
                assert("TARGET_NOT_IN_VIEW"@[3] == 'G');
                assert("TARGET_NOT_IN_VIEW"@[4] == 'E');
                assert("TARGET_NOT_IN_VIEW"@[5] == 'T');
                assert("TARGET_NOT_IN_VIEW"@[6] == '_');
                assert("TARGET_NOT_IN_VIEW"@[7] == 'N');
                assert("TARGET_NOT_IN_VIEW"@[8] == 'O');
                assert("TARGET_NOT_IN_VIEW"@[9] == 'T');
                assert("TARGET_NOT_IN_VIEW"@[10] == '_');
                assert("TARGET_NOT_IN_VIEW"@[11] == 'I');
                assert("TARGET_NOT_IN_VIEW"@[12] == 'N');
                assert("TARGET_NOT_IN_VIEW"@[13] == '_');
                assert("TARGET_NOT_IN_VIEW"@[14] == 'V');
                assert("TARGET_NOT_IN_VIEW"@[15] == 'I');
                assert("TARGET_NOT_IN_VIEW"@[16] == 'E');
                assert("TARGET_NOT_IN_VIEW"@[17] == 'W');
                assert(clean_atom("TARGET_NOT_IN_VIEW"@));
            },
            ActionResult::TargetNotPvpFlagged => {
                assert("TARGET_NOT_PVP_FLAGGED"@.len() == 22);
                assert("TARGET_NOT_PVP_FLAGGED"@[0] == 'T');
                assert("TARGET_NOT_PVP_FLAGGED"@[1] == 'A');
                assert("TARGET_NOT_PVP_FLAGGED"@[2] == 'R');
                assert("TARGET_NOT_PVP_FLAGGED"@[3] == 'G');
                assert("TARGET_NOT_PVP_FLAGGED"@[4] == 'E');
                assert("TARGET_NOT_PVP_FLAGGED"@[5] == 'T');
                assert("TARGET_NOT_PVP_FLAGGED"@[6] == '_');
                assert("TARGET_NOT_PVP_FLAGGED"@[7] == 'N');
                assert("TARGET_NOT_PVP_FLAGGED"@[8] == 'O');
                assert("TARGET_NOT_PVP_FLAGGED"@[9] == 'T');
                assert("TARGET_NOT_PVP_FLAGGED"@[10] == '_');
                assert("TARGET_NOT_PVP_FLAGGED"@[11] == 'P');
                assert("TARGET_NOT_PVP_FLAGGED"@[12] == 'V');
                assert("TARGET_NOT_PVP_FLAGGED"@[13] == 'P');
                assert("TARGET_NOT_PVP_FLAGGED"@[14] == '_');
                assert("TARGET_NOT_PVP_FLAGGED"@[15] == 'F');
                assert("TARGET_NOT_PVP_FLAGGED"@[16] == 'L');
                assert("TARGET_NOT_PVP_FLAGGED"@[17] == 'A');
                assert("TARGET_NOT_PVP_FLAGGED"@[18] == 'G');
                assert("TARGET_NOT_PVP_FLAGGED"@[19] == 'G');
                assert("TARGET_NOT_PVP_FLAGGED"@[20] == 'E');
                assert("TARGET_NOT_PVP_FLAGGED"@[21] == 'D');
                assert(clean_atom("TARGET_NOT_PVP_FLAGGED"@));
            },
            ActionResult::TargetOutOfRange => {
                assert("TARGET_OUT_OF_RANGE"@.len() == 19);
                assert("TARGET_OUT_OF_RANGE"@[0] == 'T');
                assert("TARGET_OUT_OF_RANGE"@[1] == 'A');
                assert("TARGET_OUT_OF_RANGE"@[2] == 'R');
                assert("TARGET_OUT_OF_RANGE"@[3] == 'G');
                assert("TARGET_OUT_OF_RANGE"@[4] == 'E');
                assert("TARGET_OUT_OF_RANGE"@[5] == 'T');
                assert("TARGET_OUT_OF_RANGE"@[6] == '_');
                assert("TARGET_OUT_OF_RANGE"@[7] == 'O');
                assert("TARGET_OUT_OF_RANGE"@[8] == 'U');
                assert("TARGET_OUT_OF_RANGE"@[9] == 'T');
                assert("TARGET_OUT_OF_RANGE"@[10] == '_');
                assert("TARGET_OUT_OF_RANGE"@[11] == 'O');
                assert("TARGET_OUT_OF_RANGE"@[12] == 'F');
                assert("TARGET_OUT_OF_RANGE"@[13] == '_');
                assert("TARGET_OUT_OF_RANGE"@[14] == 'R');
                assert("TARGET_OUT_OF_RANGE"@[15] == 'A');
                assert("TARGET_OUT_OF_RANGE"@[16] == 'N');
                assert("TARGET_OUT_OF_RANGE"@[17] == 'G');
                assert("TARGET_OUT_OF_RANGE"@[18] == 'E');
                assert(clean_atom("TARGET_OUT_OF_RANGE"@));
            },
            ActionResult::TargetTooClose => {
                assert("TARGET_TOO_CLOSE"@.len() == 16);
                assert("TARGET_TOO_CLOSE"@[0] == 'T');
                assert("TARGET_TOO_CLOSE"@[1] == 'A');
                assert("TARGET_TOO_CLOSE"@[2] == 'R');
                assert("TARGET_TOO_CLOSE"@[3] == 'G');
                assert("TARGET_TOO_CLOSE"@[4] == 'E');
                assert("TARGET_TOO_CLOSE"@[5] == 'T');
                assert("TARGET_TOO_CLOSE"@[6] == '_');
                assert("TARGET_TOO_CLOSE"@[7] == 'T');
                assert("TARGET_TOO_CLOSE"@[8] == 'O');
                assert("TARGET_TOO_CLOSE"@[9] == 'O');
                assert("TARGET_TOO_CLOSE"@[10] == '_');
                assert("TARGET_TOO_CLOSE"@[11] == 'C');
                assert("TARGET_TOO_CLOSE"@[12] == 'L');
                assert("TARGET_TOO_CLOSE"@[13] == 'O');
                assert("TARGET_TOO_CLOSE"@[14] == 'S');
                assert("TARGET_TOO_CLOSE"@[15] == 'E');
                assert(clean_atom("TARGET_TOO_CLOSE"@));
            },
            ActionResult::UnevenTerrain => {
                assert("UNEVEN_TERRAIN"@.len() == 14);
                assert("UNEVEN_TERRAIN"@[0] == 'U');
                assert("UNEVEN_TERRAIN"@[1] == 'N');
                assert("UNEVEN_TERRAIN"@[2] == 'E');
                assert("UNEVEN_TERRAIN"@[3] == 'V');
                assert("UNEVEN_TERRAIN"@[4] == 'E');
                assert("UNEVEN_TERRAIN"@[5] == 'N');
                assert("UNEVEN_TERRAIN"@[6] == '_');
                assert("UNEVEN_TERRAIN"@[7] == 'T');
                assert("UNEVEN_TERRAIN"@[8] == 'E');
                assert("UNEVEN_TERRAIN"@[9] == 'R');
                assert("UNEVEN_TERRAIN"@[10] == 'R');
                assert("UNEVEN_TERRAIN"@[11] == 'A');
                assert("UNEVEN_TERRAIN"@[12] == 'I');
                assert("UNEVEN_TERRAIN"@[13] == 'N');
                assert(clean_atom("UNEVEN_TERRAIN"@));
            },
            ActionResult::Weaponswap => {
                assert("WEAPONSWAP"@.len() == 10);
                assert("WEAPONSWAP"@[0] == 'W');
                assert("WEAPONSWAP"@[1] == 'E');
                assert("WEAPONSWAP"@[2] == 'A');
                assert("WEAPONSWAP"@[3] == 'P');
                assert("WEAPONSWAP"@[4] == 'O');
                assert("WEAPONSWAP"@[5] == 'N');
                assert("WEAPONSWAP"@[6] == 'S');
                assert("WEAPONSWAP"@[7] == 'W');
                assert("WEAPONSWAP"@[8] == 'A');
                assert("WEAPONSWAP"@[9] == 'P');
                assert(clean_atom("WEAPONSWAP"@));
            },
            ActionResult::WreckingDamage => {
                assert("WRECKING_DAMAGE"@.len() == 15);
                assert("WRECKING_DAMAGE"@[0] == 'W');
                assert("WRECKING_DAMAGE"@[1] == 'R');
                assert("WRECKING_DAMAGE"@[2] == 'E');
                assert("WRECKING_DAMAGE"@[3] == 'C');
                assert("WRECKING_DAMAGE"@[4] == 'K');
                assert("WRECKING_DAMAGE"@[5] == 'I');
                assert("WRECKING_DAMAGE"@[6] == 'N');
                assert("WRECKING_DAMAGE"@[7] == 'G');
                assert("WRECKING_DAMAGE"@[8] == '_');
                assert("WRECKING_DAMAGE"@[9] == 'D');
                assert("WRECKING_DAMAGE"@[10] == 'A');
                assert("WRECKING_DAMAGE"@[11] == 'M');
                assert("WRECKING_DAMAGE"@[12] == 'A');
                assert("WRECKING_DAMAGE"@[13] == 'G');
                assert("WRECKING_DAMAGE"@[14] == 'E');
                assert(clean_atom("WRECKING_DAMAGE"@));
            },
            ActionResult::WrongWeapon => {
                assert("WRONG_WEAPON"@.len() == 12);
                assert("WRONG_WEAPON"@[0] == 'W');
                assert("WRONG_WEAPON"@[1] == 'R');
                assert("WRONG_WEAPON"@[2] == 'O');
                assert("WRONG_WEAPON"@[3] == 'N');
                assert("WRONG_WEAPON"@[4] == 'G');
                assert("WRONG_WEAPON"@[5] == '_');
                assert("WRONG_WEAPON"@[6] == 'W');
                assert("WRONG_WEAPON"@[7] == 'E');
                assert("WRONG_WEAPON"@[8] == 'A');
                assert("WRONG_WEAPON"@[9] == 'P');
                assert("WRONG_WEAPON"@[10] == 'O');
                assert("WRONG_WEAPON"@[11] == 'N');
                assert(clean_atom("WRONG_WEAPON"@));
            },
            ActionResult::LinkedCast => {
                assert("LINKED_CAST"@.len() == 11);
                assert("LINKED_CAST"@[0] == 'L');
                assert("LINKED_CAST"@[1] == 'I');
                assert("LINKED_CAST"@[2] == 'N');
                assert("LINKED_CAST"@[3] == 'K');
                assert("LINKED_CAST"@[4] == 'E');
                assert("LINKED_CAST"@[5] == 'D');
                assert("LINKED_CAST"@[6] == '_');
                assert("LINKED_CAST"@[7] == 'C');
                assert("LINKED_CAST"@[8] == 'A');
                assert("LINKED_CAST"@[9] == 'S');
                assert("LINKED_CAST"@[10] == 'T');
                assert(clean_atom("LINKED_CAST"@));
            },
        }
    }

    /// Parsing the spelled variant yields the variant and consumes one
    /// separator.
    pub proof fn lemma_parse_roundtrip(self, rest: Seq<char>)
        requires
            sep_ok(rest),
        ensures
            spec_parse_action_result(Self::spec_name(self) + rest) == Ok::<(ActionResult, Seq<char>), Error>((self, chop(rest))),
    {
        self.lemma_name_clean();
        lemma_clean_atom_is_atom(self.spec_name());
        lemma_next_token_atom(self.spec_name(), rest);
        self.lemma_name_roundtrip();
    }
}

/// Parses one `ActionResult` token.
pub open spec fn spec_parse_action_result(s: Seq<char>) -> Result<(ActionResult, Seq<char>), Error> {
    match spec_next_token(s) {
        None => Err(Error::UnexpectedEnd),
        Some((tok, rest)) => match ActionResult::spec_from_name(tok) {
            None => Err(Error::InvalidToken),
            Some(v) => Ok((v, rest)),
        },
    }
}

/// Reads one `ActionResult` token from the line.
pub fn parse_action_result(r: &mut EsoLogReaderLine) -> (res: Result<ActionResult, Error>)
    requires
        old(r).wf(),
    ensures
        final(r).wf(),
        match spec_parse_action_result(old(r).remaining()) {
            Ok((v, rest)) => res == Ok::<ActionResult, Error>(v) && final(r).remaining() == rest,
            Err(e) => res == Err::<ActionResult, Error>(e),
        },
{
    let tok = match r.next() {
        Some(t) => t,
        None => {
            return Err(Error::UnexpectedEnd);
        },
    };
    match ActionResult::from_token(tok) {
        Some(v) => Ok(v),
        None => Err(Error::InvalidToken),
    }
}

impl ActionResult {
    /// Whether this outcome is one of the critical hit kinds.
    pub fn is_critical(&self) -> (r: bool)
        ensures
            r == (*self == ActionResult::CriticalDamage || *self == ActionResult::CriticalHeal
                || *self == ActionResult::DotTickCritical || *self == ActionResult::HotTickCritical),
    {
        match self {
            ActionResult::CriticalDamage => true,
            ActionResult::CriticalHeal => true,
            ActionResult::DotTickCritical => true,
            ActionResult::HotTickCritical => true,
            _ => false,
        }
    }
}

} // verus!
