//! Walking a user file block by block, and collecting the accounts it holds.
use crate::record::{block_outcome, decode_block, Decoded, User, UserView, BLOCK_LENGTH};
use crate::text::{is_placeholder_name, placeholder_name};
use vstd::prelude::*;
use vstd::slice::slice_subrange;

verus! {

/// Why a user file could not be read into accounts.
#[derive(Clone, Copy, Debug, PartialEq, Eq, Structural)]
pub enum DecodeError {
    /// The file ends part-way through a block.
    TruncatedBlock,
    /// No account survived decoding and filtering.
    NoRecords,
}

/// What the next decoding step at `pos` meets.
pub enum Step {
    /// A full block, with its record if it holds one.
    Block(Option<UserView>),
    /// Nothing: the stream ends at a block boundary.
    End,
    /// Some bytes, but fewer than a block.
    Truncated,
}

/// The block of `bytes` that starts at `pos`.
pub open spec fn block_at(bytes: Seq<u8>, pos: int) -> Seq<u8> {
    bytes.subrange(pos, pos + BLOCK_LENGTH)
}

/// The step that decoding at `pos` takes.
pub open spec fn step_at(bytes: Seq<u8>, pos: int) -> Step {
    if pos >= bytes.len() {
        Step::End
    } else if bytes.len() - pos < BLOCK_LENGTH {
        Step::Truncated
    } else {
        Step::Block(block_outcome(block_at(bytes, pos)))
    }
}

/// The state of a decoder: the whole stream and how far it has been read.
pub struct DecoderView {
    pub bytes: Seq<u8>,
    pub pos: int,
}

/// A forward-only decoder over the bytes of a user file.
pub struct RecordDecoder {
    bytes: Vec<u8>,
    pos: usize,
}

impl View for RecordDecoder {
    type V = DecoderView;

    closed spec fn view(&self) -> DecoderView {
        DecoderView { bytes: self.bytes@, pos: self.pos as int }
    }
}

impl RecordDecoder {
    /// The read position lies within the stream.
    pub open spec fn wf(&self) -> bool {
        0 <= self@.pos <= self@.bytes.len()
    }

    /// A decoder at the start of `bytes`.
    pub fn new(bytes: Vec<u8>) -> (r: RecordDecoder)
        ensures
            r.wf(),
            r@.bytes == bytes@,
            r@.pos == 0,
    {
        RecordDecoder { bytes, pos: 0 }
    }

    /// Decodes the next block: a record or an empty slot where a full block
    /// follows, the end of the stream where nothing does, and an error where
    /// only part of a block is left.
    pub fn decode_next(&mut self) -> (r: Result<Decoded, DecodeError>)
        requires
            old(self).wf(),
        ensures
            final(self).wf(),
            final(self)@.bytes == old(self)@.bytes,
            match step_at(old(self)@.bytes, old(self)@.pos) {
                Step::End => r == Ok::<Decoded, DecodeError>(Decoded::EndOfStream)
                    && final(self)@.pos == old(self)@.pos,
                Step::Truncated => r == Err::<Decoded, DecodeError>(DecodeError::TruncatedBlock)
                    && final(self)@.pos == old(self)@.pos,
                Step::Block(o) => r is Ok && !(r->Ok_0 is EndOfStream) && r->Ok_0.record() == o
                    && final(self)@.pos == old(self)@.pos + BLOCK_LENGTH,
            },
    {
        let left: usize = self.bytes.len() - self.pos;
        if left == 0 {
            return Ok(Decoded::EndOfStream);
        }
        if left < BLOCK_LENGTH {
            return Err(DecodeError::TruncatedBlock);
        }
        let block = slice_subrange(self.bytes.as_slice(), self.pos, self.pos + BLOCK_LENGTH);
        let d = decode_block(block);
        self.pos = self.pos + BLOCK_LENGTH;
        Ok(d)
    }
}

/// The records kept from the first `k` blocks of `bytes`, in order: empty
/// slots and the reserved dummy account are left out.
pub open spec fn kept_records(bytes: Seq<u8>, k: nat) -> Seq<UserView>
    decreases k,
{
    if k == 0 {
        seq![]
    } else {
        let prev = kept_records(bytes, (k - 1) as nat);
        match block_outcome(block_at(bytes, (k - 1) * BLOCK_LENGTH)) {
            Some(u) => if u.name == placeholder_name() {
                prev
            } else {
                prev.push(u)
            },
            None => prev,
        }
    }
}

/// No kept record is the reserved dummy account, even where its block holds
/// a valid record.
pub proof fn lemma_placeholder_never_kept(bytes: Seq<u8>, k: nat)
    ensures
        forall|i: int|
            0 <= i < kept_records(bytes, k).len() ==> kept_records(bytes, k)[i].name
                != placeholder_name(),
    decreases k,
{
    if k > 0 {
        lemma_placeholder_never_kept(bytes, (k - 1) as nat);
    }
}

/// A stream of exactly `n` full blocks gives a block at each of the first `n`
/// steps and then the end of the stream.
pub proof fn lemma_full_blocks_then_end(bytes: Seq<u8>, n: nat)
    requires
        bytes.len() == n * BLOCK_LENGTH,
    ensures
        forall|k: nat| k < n ==> #[trigger] step_at(bytes, k * BLOCK_LENGTH) is Block,
        step_at(bytes, n * BLOCK_LENGTH) is End,
{
    assert forall|k: nat| k < n implies #[trigger] step_at(bytes, k * BLOCK_LENGTH) is Block by {
        assert(k * 320 + 320 <= n * 320) by (nonlinear_arith)
            requires k < n;
    }
}

/// A stream of `n` full blocks and one byte more gives a block at each of the
/// first `n` steps and then a truncated block.
pub proof fn lemma_trailing_byte_truncates(bytes: Seq<u8>, n: nat)
    requires
        bytes.len() == n * BLOCK_LENGTH + 1,
    ensures
        forall|k: nat| k < n ==> #[trigger] step_at(bytes, k * BLOCK_LENGTH) is Block,
        step_at(bytes, n * BLOCK_LENGTH) is Truncated,
{
    assert forall|k: nat| k < n implies #[trigger] step_at(bytes, k * BLOCK_LENGTH) is Block by {
        assert(k * 320 + 320 <= n * 320) by (nonlinear_arith)
            requires k < n;
    }
}

/// The views of a sequence of users.
pub open spec fn user_views(v: Seq<User>) -> Seq<UserView> {
    v.map_values(|u: User| u@)
}

/// Decodes a whole user file into its accounts, in file order, leaving out
/// empty slots and the reserved dummy account. Fails where the file ends
/// part-way through a block, or where no account is left.
pub fn collect_records(bytes: Vec<u8>) -> (r: Result<Vec<User>, DecodeError>)
    ensures
        (r == Err::<Vec<User>, DecodeError>(DecodeError::TruncatedBlock)) <==> bytes@.len()
            % (BLOCK_LENGTH as nat) != 0,
        (r == Err::<Vec<User>, DecodeError>(DecodeError::NoRecords)) <==> (bytes@.len()
            % (BLOCK_LENGTH as nat) == 0 && kept_records(bytes@, bytes@.len() / (BLOCK_LENGTH as nat)).len() == 0),
        r is Ok ==> user_views(r->Ok_0@) == kept_records(bytes@, bytes@.len() / (BLOCK_LENGTH as nat)),
{
    let ghost all = bytes@;
    let mut decoder = RecordDecoder::new(bytes);
    let mut users: Vec<User> = Vec::new();
    let ghost mut k: nat = 0;
    loop
        invariant
            decoder.wf(),
            decoder@.bytes == all,
            all == bytes@,
            decoder@.pos == k * BLOCK_LENGTH,
            user_views(users@) == kept_records(all, k),
        ensures
            all == bytes@,
            all.len() == k * BLOCK_LENGTH,
            user_views(users@) == kept_records(all, k),
        decreases all.len() - decoder@.pos,
    {
        let ghost before = decoder@.pos;
        match decoder.decode_next() {
            Ok(Decoded::Record(user)) => {
                if !is_placeholder_name(user.name.as_str()) {
                    users.push(user);
                }
                proof {
                    assert(user_views(users@) =~= kept_records(all, k + 1));
                    k = k + 1;
                }
            },
            Ok(Decoded::EmptySlot) => {
                proof {
                    k = k + 1;
                }
            },
            Ok(Decoded::EndOfStream) => {
                break ;
            },
            Err(e) => {
                proof {
                    assert(e == DecodeError::TruncatedBlock);
                    let n: nat = all.len();
                    assert(n % 320 != 0) by (nonlinear_arith)
                        requires k * 320 < n < k * 320 + 320;
                }
                return Err(e);
            },
        }
    }
    proof {
        assert(all.len() % (BLOCK_LENGTH as nat) == 0 && all.len() / (BLOCK_LENGTH as nat) == k)
            by (nonlinear_arith)
            requires all.len() == k * 320;
    }
    if users.len() == 0 {
        return Err(DecodeError::NoRecords);
    }
    Ok(users)
}

} // verus!
