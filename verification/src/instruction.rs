//! Instruction descriptors and the storage they take up.
use vstd::prelude::*;
use crate::pubkey::{PUBKEY_BYTES, Pubkey};

verus! {

/// Bytes taken up by one account entry of an instruction.
pub const ACCOUNT_META_BYTES: usize = 34;

/// Bytes taken up by one partial signer of an instruction.
pub const PARTIAL_SIGNER_BYTES: usize = 16;

/// An account that an instruction is handed, with its permissions.
#[derive(Clone, Copy, Debug, PartialEq, Eq, Default)]
pub struct TXAccountMeta {
    /// The account's address.
    pub pubkey: Pubkey,
    /// Whether the instruction needs this account's signature.
    pub is_signer: bool,
    /// Whether the instruction may write to this account.
    pub is_writable: bool,
}

/// A derived authority that co-signs an instruction for the wallet.
/// It carries no approval weight.
#[derive(Clone, Copy, Debug, PartialEq, Eq, Default)]
pub struct PartialSigner {
    /// Index from which the authority is derived.
    pub index: u64,
    /// Nonce that makes the derivation valid.
    pub bump: u8,
}

/// One instruction that a wallet may dispatch.
#[derive(Debug, PartialEq, Default)]
pub struct TXInstruction {
    /// The program that runs the instruction.
    pub program_id: Pubkey,
    /// The accounts handed to the program.
    pub keys: Vec<TXAccountMeta>,
    /// Opaque payload handed to the program.
    pub data: Vec<u8>,
    /// Derived authorities that co-sign the instruction.
    pub partial_signers: Vec<PartialSigner>,
}

/// What an instruction holds, as mathematical values.
pub struct TXInstructionView {
    pub program_id: Pubkey,
    pub keys: Seq<TXAccountMeta>,
    pub data: Seq<u8>,
    pub partial_signers: Seq<PartialSigner>,
}

impl TXInstructionView {
    /// Bytes that the instruction takes up: the program's address, then each
    /// account entry, each payload byte and each partial signer.
    pub open spec fn space(self) -> int {
        32 + (self.keys.len() as int) * 34 + (self.data.len() as int)
            + (self.partial_signers.len() as int) * 16
    }
}

impl View for TXInstruction {
    type V = TXInstructionView;

    open spec fn view(&self) -> TXInstructionView {
        TXInstructionView {
            program_id: self.program_id,
            keys: self.keys@,
            data: self.data@,
            partial_signers: self.partial_signers@,
        }
    }
}

/// The instructions of a sequence, each by its view.
pub open spec fn instructions_view(s: Seq<TXInstruction>) -> Seq<TXInstructionView> {
    Seq::new(s.len(), |i: int| s[i]@)
}

/// Bytes that a sequence of instructions takes up, one after the other.
pub open spec fn instructions_space(s: Seq<TXInstructionView>) -> int
    decreases s.len(),
{
    if s.len() == 0 {
        0
    } else {
        instructions_space(s.drop_last()) + s.last().space()
    }
}

/// The space of a prefix never exceeds the space of the whole sequence.
pub proof fn lemma_instructions_space_prefix(s: Seq<TXInstructionView>, n: int)
    requires
        0 <= n <= s.len(),
    ensures
        0 <= instructions_space(s.take(n)) <= instructions_space(s),
    decreases s.len() - n,
{
    if n == s.len() {
        assert(s.take(n) =~= s);
        lemma_instructions_space_nonnegative(s);
    } else {
        lemma_instructions_space_prefix(s, n + 1);
        assert(s.take(n + 1).drop_last() =~= s.take(n));
        lemma_instructions_space_nonnegative(s.take(n));
    }
}

/// No sequence of instructions takes up a negative number of bytes.
pub proof fn lemma_instructions_space_nonnegative(s: Seq<TXInstructionView>)
    ensures
        instructions_space(s) >= 0,
    decreases s.len(),
{
    if s.len() > 0 {
        lemma_instructions_space_nonnegative(s.drop_last());
    }
}

/// A copy of a list of plain values: the same values in the same order.
pub fn copy_of<T: Copy>(v: &Vec<T>) -> (r: Vec<T>)
    ensures
        r@ == v@,
{
    let mut out: Vec<T> = Vec::new();
    let mut i: usize = 0;
    while i < v.len()
        invariant
            i <= v.len(),
            out@ == v@.take(i as int),
        decreases v.len() - i,
    {
        out.push(v[i]);
        assert(v@.take(i + 1) =~= v@.take(i as int).push(v@[i as int]));
        i += 1;
    }
    assert(v@.take(v.len() as int) =~= v@);
    out
}

/// A copy of a list of instructions: the same instructions in the same order.
pub fn clone_instructions(v: &Vec<TXInstruction>) -> (r: Vec<TXInstruction>)
    ensures
        instructions_view(r@) == instructions_view(v@),
{
    let mut out: Vec<TXInstruction> = Vec::new();
    let mut i: usize = 0;
    while i < v.len()
        invariant
            i <= v.len(),
            out@.len() == i,
            forall|j: int| 0 <= j < i ==> out@[j]@ == v@[j]@,
        decreases v.len() - i,
    {
        out.push(v[i].clone());
        i += 1;
    }
    assert(instructions_view(out@) =~= instructions_view(v@));
    out
}

impl Clone for TXInstruction {
    fn clone(&self) -> (r: TXInstruction)
        ensures
            r@ == self@,
    {
        TXInstruction {
            program_id: self.program_id,
            keys: copy_of(&self.keys),
            data: copy_of(&self.data),
            partial_signers: copy_of(&self.partial_signers),
        }
    }
}

impl TXInstruction {
    /// Bytes that this instruction takes up in a stored record, or nothing
    /// where that number is beyond what the machine can address.
    pub fn checked_space(&self) -> (r: Option<usize>)
        ensures
            match r {
                Some(n) => n == self@.space(),
                None => self@.space() > usize::MAX,
            },
    {
        let keys: u128 = (self.keys.len() as u128) * (ACCOUNT_META_BYTES as u128);
        let data: u128 = self.data.len() as u128;
        let signers: u128 = (self.partial_signers.len() as u128) * (PARTIAL_SIGNER_BYTES as u128);
        let wide: u128 = PUBKEY_BYTES as u128 + keys + data + signers;
        if wide <= usize::MAX as u128 {
            Some(wide as usize)
        } else {
            None
        }
    }

    /// Bytes that this instruction takes up in a stored record.
    pub fn space(&self) -> (r: usize)
        requires
            self@.space() <= usize::MAX,
        ensures
            r == self@.space(),
    {
        PUBKEY_BYTES + self.keys.len() * ACCOUNT_META_BYTES + self.data.len()
            + self.partial_signers.len() * PARTIAL_SIGNER_BYTES
    }
}

/// Bytes that a list of instructions takes up in a stored record, or nothing
/// where that number is beyond what the machine can address.
pub fn checked_instructions_space(instructions: &Vec<TXInstruction>) -> (r: Option<usize>)
    ensures
        match r {
            Some(n) => n == instructions_space(instructions_view(instructions@)),
            None => instructions_space(instructions_view(instructions@)) > usize::MAX,
        },
{
    let ghost all = instructions_view(instructions@);
    let mut total: usize = 0;
    let mut i: usize = 0;
    while i < instructions.len()
        invariant
            i <= instructions.len(),
            all == instructions_view(instructions@),
            total == instructions_space(all.take(i as int)),
        decreases instructions.len() - i,
    {
        proof {
            lemma_instructions_space_prefix(all, i + 1);
            assert(all.take(i + 1).drop_last() =~= all.take(i as int));
            assert(all.take(i + 1).last() == instructions@[i as int]@);
        }
        let next: usize = match instructions[i].checked_space() {
            Some(n) => n,
            None => {
                return None;
            },
        };
        if next > usize::MAX - total {
            return None;
        }
        total = total + next;
        i += 1;
    }
    assert(all.take(instructions.len() as int) =~= all);
    Some(total)
}

} // verus!
