//! One account block: its layout, its decoded record, and the decoder.
use crate::codes::{armor_of, class_of, weapon_of, Armor, UserClass, Weapon};
use crate::experience::{calculate_exp_need, exp_need_value, MAX_TARGET_LEVEL};
use crate::text::{
    decode_windows_1252, lemma_zero_bytes_strip_to_nothing, strip_nuls, trim_nuls, utf8_string, utf8_text, windows_1252_decoded,
};
use vstd::arithmetic::power2::{lemma_pow2_unfold, pow2};
use vstd::prelude::*;
use vstd::slice::{slice_subrange, slice_to_vec};

verus! {

/// Bytes in one account block.
pub const BLOCK_LENGTH: usize = 0x140;

/// Bytes of the handle field, at the start of a block.
pub const HANDLE_LENGTH: usize = 0x1A;

/// Bytes of the display-name field, after the handle.
pub const NAME_LENGTH: usize = 0x1E;

/// Where the data region starts within a block.
pub const DATA_OFFSET: usize = 0x38;

/// Bytes of the data region, the rest of the block.
pub const DATA_LENGTH: usize = 0x108;

// Offsets within the data region. The four money-like fields are big-endian
// IEEE-754 doubles of eight bytes; every other field is a single byte.
/// Offset of the experience double.
pub const EXPERIENCE_AT: usize = 0x6c;

/// Offset of the gold double.
pub const GOLD_AT: usize = 0x74;

/// Offset of the bank-balance double.
pub const BANK_AT: usize = 0x7c;

/// Offset of the loan double.
pub const LOAN_AT: usize = 0x84;

/// Offset of the immortal byte.
pub const IMMORTAL_AT: usize = 0x8d;

/// Offset of the class code.
pub const CLASS_AT: usize = 0x92;

/// Offset of the level byte.
pub const LEVEL_AT: usize = 0x93;

/// Offset of the strength score; intelligence, dexterity and charisma follow.
pub const STRENGTH_AT: usize = 0x95;

/// Offset of the intelligence score.
pub const INTELLIGENCE_AT: usize = 0x96;

/// Offset of the dexterity score.
pub const DEXTERITY_AT: usize = 0x97;

/// Offset of the charisma score.
pub const CHARISMA_AT: usize = 0x98;

/// Offset of the weapon code.
pub const WEAPON_AT: usize = 0x9b;

/// Offset of the armour code.
pub const ARMOR_AT: usize = 0x9c;

/// A decoded account.
///
/// The four money-like fields are kept as the bit patterns of the doubles
/// stored in the block; a caller turns them into numbers with
/// `f64::from_bits(..).floor()`. The experience target is exact, and
/// converts to a double without rounding.
#[derive(Debug)]
pub struct User {
    pub handle: String,
    pub name: String,
    pub immortal: u8,
    pub level: u8,
    pub experience_bits: u64,
    pub experience_needed: Option<u128>,
    pub gold_bits: u64,
    pub bank_bits: u64,
    pub loan_bits: u64,
    pub class: Option<UserClass>,
    pub strength: u8,
    pub intelligence: u8,
    pub dexterity: u8,
    pub charisma: u8,
    pub weapon: Weapon,
    pub armor: Armor,
}

/// The mathematical content of a `User`.
pub struct UserView {
    pub handle: Seq<char>,
    pub name: Seq<char>,
    pub immortal: u8,
    pub level: u8,
    pub experience_bits: u64,
    pub experience_needed: Option<int>,
    pub gold_bits: u64,
    pub bank_bits: u64,
    pub loan_bits: u64,
    pub class: Option<UserClass>,
    pub strength: u8,
    pub intelligence: u8,
    pub dexterity: u8,
    pub charisma: u8,
    pub weapon: Weapon,
    pub armor: Armor,
}

impl View for User {
    type V = UserView;

    open spec fn view(&self) -> UserView {
        UserView {
            handle: self.handle@,
            name: self.name@,
            immortal: self.immortal,
            level: self.level,
            experience_bits: self.experience_bits,
            experience_needed: match self.experience_needed {
                Some(x) => Some(x as int),
                None => None,
            },
            gold_bits: self.gold_bits,
            bank_bits: self.bank_bits,
            loan_bits: self.loan_bits,
            class: self.class,
            strength: self.strength,
            intelligence: self.intelligence,
            dexterity: self.dexterity,
            charisma: self.charisma,
            weapon: self.weapon,
            armor: self.armor,
        }
    }
}

/// What decoding one step of a stream gives.
#[derive(Debug)]
pub enum Decoded {
    /// An occupied slot.
    Record(User),
    /// An unoccupied slot, or one whose handle is not UTF-8.
    EmptySlot,
    /// The stream ended at a block boundary.
    EndOfStream,
}

impl Decoded {
    /// The record, where there is one.
    pub open spec fn record(self) -> Option<UserView> {
        match self {
            Decoded::Record(u) => Some(u@),
            _ => None,
        }
    }
}

/// The unsigned integer that eight bytes from `at` encode, most significant first.
pub open spec fn be_u64_at(d: Seq<u8>, at: int) -> int {
    d[at] * 0x100_0000_0000_0000 + d[at + 1] * 0x1_0000_0000_0000 + d[at + 2] * 0x100_0000_0000
        + d[at + 3] * 0x1_0000_0000 + d[at + 4] * 0x100_0000 + d[at + 5] * 0x1_0000 + d[at + 6]
        * 0x100 + d[at + 7]
}

/// Reads a big-endian 64-bit word.
pub fn read_be_u64(d: &[u8], at: usize) -> (r: u64)
    requires
        at + 8 <= d@.len(),
    ensures
        r == be_u64_at(d@, at as int),
{
    (d[at] as u64) * 0x100_0000_0000_0000 + (d[at + 1] as u64) * 0x1_0000_0000_0000 + (d[at
        + 2] as u64) * 0x100_0000_0000 + (d[at + 3] as u64) * 0x1_0000_0000 + (d[at + 4] as u64)
        * 0x100_0000 + (d[at + 5] as u64) * 0x1_0000 + (d[at + 6] as u64) * 0x100 + (d[at
        + 7] as u64)
}

/// The experience target of an account, present below the level cap.
pub open spec fn experience_needed_of(level: u8, intelligence: u8) -> Option<int> {
    if level <= MAX_TARGET_LEVEL {
        Some(exp_need_value(level as nat, intelligence as nat))
    } else {
        None
    }
}

/// Below the level cap the experience target is `2^(level - 1) * (1100 - 2 *
/// intelligence)` for every level from 1 and every intelligence; from level
/// 100 on there is none.
pub proof fn lemma_experience_needed(level: u8, intelligence: u8)
    ensures
        1 <= level <= 99 ==> experience_needed_of(level, intelligence) == Some(
            pow2((level - 1) as nat) * (1100 - 2 * intelligence),
        ),
        level >= 100 ==> experience_needed_of(level, intelligence) is None,
{
    if 1 <= level <= 99 {
        lemma_pow2_unfold(level as nat);
        assert(pow2(level as nat) * (550 - intelligence) == pow2((level - 1) as nat) * (1100 - 2
            * intelligence)) by (nonlinear_arith)
            requires pow2(level as nat) == 2 * pow2((level - 1) as nat);
    }
}

/// The record that a stripped handle, a stripped name and a data region make.
pub open spec fn record_of(handle: Seq<char>, name: Seq<char>, d: Seq<u8>) -> UserView {
    UserView {
        handle: handle,
        name: name,
        immortal: d[IMMORTAL_AT as int],
        level: d[LEVEL_AT as int],
        experience_bits: be_u64_at(d, EXPERIENCE_AT as int) as u64,
        experience_needed: experience_needed_of(d[LEVEL_AT as int], d[INTELLIGENCE_AT as int]),
        gold_bits: be_u64_at(d, GOLD_AT as int) as u64,
        bank_bits: be_u64_at(d, BANK_AT as int) as u64,
        loan_bits: be_u64_at(d, LOAN_AT as int) as u64,
        class: class_of(d[CLASS_AT as int]),
        strength: d[STRENGTH_AT as int],
        intelligence: d[INTELLIGENCE_AT as int],
        dexterity: d[DEXTERITY_AT as int],
        charisma: d[CHARISMA_AT as int],
        weapon: weapon_of(d[WEAPON_AT as int]),
        armor: armor_of(d[ARMOR_AT as int]),
    }
}

/// The outcome of a block, given the texts of its handle (`None` where the
/// handle bytes are not UTF-8) and of its name, and its data region: no
/// record where the handle is not text or is empty once stripped of NULs.
pub open spec fn outcome_of(handle_text: Option<Seq<char>>, name_text: Seq<char>, d: Seq<u8>) -> Option<UserView> {
    match handle_text {
        Some(h) => if strip_nuls(h).len() == 0 {
            None
        } else {
            Some(record_of(strip_nuls(h), strip_nuls(name_text), d))
        },
        None => None,
    }
}

/// The handle bytes of a block.
pub open spec fn handle_bytes(block: Seq<u8>) -> Seq<u8> {
    block.subrange(0, HANDLE_LENGTH as int)
}

/// The name bytes of a block.
pub open spec fn name_bytes(block: Seq<u8>) -> Seq<u8> {
    block.subrange(HANDLE_LENGTH as int, DATA_OFFSET as int)
}

/// The data region of a block.
pub open spec fn data_bytes(block: Seq<u8>) -> Seq<u8> {
    block.subrange(DATA_OFFSET as int, BLOCK_LENGTH as int)
}

/// The outcome of a whole 320-byte block.
pub open spec fn block_outcome(block: Seq<u8>) -> Option<UserView> {
    outcome_of(
        utf8_text(handle_bytes(block)),
        windows_1252_decoded(name_bytes(block)),
        data_bytes(block),
    )
}

/// A block of zero bytes is an empty slot.
pub proof fn lemma_zero_block_is_empty_slot(block: Seq<u8>)
    requires
        block.len() == BLOCK_LENGTH,
        forall|i: int| 0 <= i < block.len() ==> block[i] == 0,
    ensures
        block_outcome(block) is None,
{
    lemma_zero_bytes_strip_to_nothing(handle_bytes(block));
}

/// Unknown class, weapon and armour codes give no class and the fallback
/// weapon and armour, whatever else the block holds.
pub proof fn lemma_unknown_codes_fall_back(handle: Seq<char>, name: Seq<char>, d: Seq<u8>)
    requires
        d.len() == DATA_LENGTH,
    ensures
        !(1 <= d[CLASS_AT as int] <= 4) ==> record_of(handle, name, d).class is None,
        !(1 <= d[WEAPON_AT as int] <= 7) ==> record_of(handle, name, d).weapon == Weapon::NoWeapon,
        !(1 <= d[ARMOR_AT as int] <= 7) ==> record_of(handle, name, d).armor == Armor::NoArmor,
{
}

/// The option of the text of an optional string.
pub open spec fn text_of(s: Option<String>) -> Option<Seq<char>> {
    match s {
        Some(t) => Some(t@),
        None => None,
    }
}

/// Builds the outcome of a block from the decoded texts of its handle and
/// name and from its data region.
pub fn assemble_record(handle_text: Option<String>, name_text: String, data: &[u8]) -> (r: Decoded)
    requires
        data@.len() == DATA_LENGTH,
    ensures
        !(r is EndOfStream),
        r.record() == outcome_of(text_of(handle_text), name_text@, data@),
{
    let handle = match handle_text {
        Some(h) => trim_nuls(h.as_str()),
        None => return Decoded::EmptySlot,
    };
    if handle.as_str().unicode_len() == 0 {
        return Decoded::EmptySlot;
    }
    let level: u8 = data[LEVEL_AT];
    let intelligence: u8 = data[INTELLIGENCE_AT];
    let experience_needed = if level <= MAX_TARGET_LEVEL {
        Some(calculate_exp_need(level, intelligence))
    } else {
        None
    };
    let user = User {
        handle,
        name: trim_nuls(name_text.as_str()),
        immortal: data[IMMORTAL_AT],
        level,
        experience_bits: read_be_u64(data, EXPERIENCE_AT),
        experience_needed,
        gold_bits: read_be_u64(data, GOLD_AT),
        bank_bits: read_be_u64(data, BANK_AT),
        loan_bits: read_be_u64(data, LOAN_AT),
        class: UserClass::from_u8(&data[CLASS_AT]),
        strength: data[STRENGTH_AT],
        intelligence,
        dexterity: data[DEXTERITY_AT],
        charisma: data[CHARISMA_AT],
        weapon: Weapon::from_u8(&data[WEAPON_AT]),
        armor: Armor::from_u8(&data[ARMOR_AT]),
    };
    Decoded::Record(user)
}

/// Decodes one full block.
pub fn decode_block(block: &[u8]) -> (r: Decoded)
    requires
        block@.len() == BLOCK_LENGTH,
    ensures
        !(r is EndOfStream),
        r.record() == block_outcome(block@),
{
    let handle_raw = slice_subrange(block, 0, HANDLE_LENGTH);
    let name_raw = slice_subrange(block, HANDLE_LENGTH, DATA_OFFSET);
    let data = slice_subrange(block, DATA_OFFSET, BLOCK_LENGTH);
    let handle_text = utf8_string(slice_to_vec(handle_raw));
    let name_text = decode_windows_1252(name_raw);
    assemble_record(handle_text, name_text, data)
}

} // verus!
