//! Decoding of Hack & Slash user files: fixed 320-byte account blocks
//! turned into structured account records.
pub mod codes;
pub mod experience;
pub mod record;
pub mod stream;
pub mod text;

pub use codes::{Armor, UserClass, Weapon};
pub use experience::calculate_exp_need;
pub use record::{assemble_record, decode_block, read_be_u64, Decoded, User};
pub use stream::{collect_records, DecodeError, RecordDecoder};
