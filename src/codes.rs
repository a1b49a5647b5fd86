//! The one-byte codes of an account's class, weapon and armour.
//!
//! Each table is closed: a code outside it maps to "no class" or to the
//! `NoWeapon` / `NoArmor` variant, so an unknown code never stops a block from decoding.
use vstd::prelude::*;

verus! {

/// An account's character class.
#[derive(Clone, Copy, Debug, PartialEq, Eq, Structural)]
pub enum UserClass {
    Cleric,
    Fighter,
    MagicUser,
    Thief,
}

/// The weapon an account wields.
#[derive(Clone, Copy, Debug, PartialEq, Eq, Structural)]
pub enum Weapon {
    NoWeapon,
    Dagger,
    Club,
    Mace,
    ShortSword,
    LongSword,
    BattleAxe,
    TwoHandedSword,
}

/// The armour an account wears.
#[derive(Clone, Copy, Debug, PartialEq, Eq, Structural)]
pub enum Armor {
    NoArmor,
    Leather,
    StuddedLeather,
    RingMail,
    ScaleMail,
    ChainMail,
    BandedMail,
    PlateMail,
}

/// The class that a class code stands for, if any.
pub open spec fn class_of(code: u8) -> Option<UserClass> {
    match code {
        1 => Some(UserClass::Cleric),
        2 => Some(UserClass::Fighter),
        3 => Some(UserClass::MagicUser),
        4 => Some(UserClass::Thief),
        _ => None,
    }
}

/// The weapon that a weapon code stands for; `Weapon::NoWeapon` for an unknown code.
pub open spec fn weapon_of(code: u8) -> Weapon {
    match code {
        1 => Weapon::Dagger,
        2 => Weapon::Club,
        3 => Weapon::Mace,
        4 => Weapon::ShortSword,
        5 => Weapon::LongSword,
        6 => Weapon::BattleAxe,
        7 => Weapon::TwoHandedSword,
        _ => Weapon::NoWeapon,
    }
}

/// The armour that an armour code stands for; `Armor::NoArmor` for an unknown code.
pub open spec fn armor_of(code: u8) -> Armor {
    match code {
        1 => Armor::Leather,
        2 => Armor::StuddedLeather,
        3 => Armor::RingMail,
        4 => Armor::ScaleMail,
        5 => Armor::ChainMail,
        6 => Armor::BandedMail,
        7 => Armor::PlateMail,
        _ => Armor::NoArmor,
    }
}

impl UserClass {
    /// Looks up a class code.
    pub fn from_u8(code: &u8) -> (r: Option<UserClass>)
        ensures
            r == class_of(*code),
    {
        match *code {
            1 => Some(UserClass::Cleric),
            2 => Some(UserClass::Fighter),
            3 => Some(UserClass::MagicUser),
            4 => Some(UserClass::Thief),
            _ => None,
        }
    }
}

impl Weapon {
    /// Looks up a weapon code.
    pub fn from_u8(code: &u8) -> (r: Weapon)
        ensures
            r == weapon_of(*code),
    {
        match *code {
            1 => Weapon::Dagger,
            2 => Weapon::Club,
            3 => Weapon::Mace,
            4 => Weapon::ShortSword,
            5 => Weapon::LongSword,
            6 => Weapon::BattleAxe,
            7 => Weapon::TwoHandedSword,
            _ => Weapon::NoWeapon,
        }
    }
}

impl Armor {
    /// Looks up an armour code.
    pub fn from_u8(code: &u8) -> (r: Armor)
        ensures
            r == armor_of(*code),
    {
        match *code {
            1 => Armor::Leather,
            2 => Armor::StuddedLeather,
            3 => Armor::RingMail,
            4 => Armor::ScaleMail,
            5 => Armor::ChainMail,
            6 => Armor::BandedMail,
            7 => Armor::PlateMail,
            _ => Armor::NoArmor,
        }
    }
}

} // verus!
