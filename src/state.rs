use vstd::prelude::*;

use crate::constants::CAMPAIGN_AUTHORITY_SEED;

verus! {

/// A 32-byte account identity.
#[derive(Clone, Copy, Debug)]
pub struct Pubkey {
    pub bytes: [u8; 32],
}

impl View for Pubkey {
    type V = Seq<u8>;

    open spec fn view(&self) -> Seq<u8> {
        self.bytes@
    }
}

impl Pubkey {
    pub fn new(bytes: [u8; 32]) -> (r: Pubkey)
        ensures
            r.bytes == bytes,
    {
        Pubkey { bytes }
    }

    pub fn to_bytes(&self) -> (r: [u8; 32])
        ensures
            r == self.bytes,
    {
        self.bytes
    }
}

impl PartialEq for Pubkey {
    fn eq(&self, other: &Pubkey) -> (r: bool) {
        let mut i: usize = 0;
        while i < 32
            invariant
                0 <= i <= 32,
                self.bytes@.len() == 32,
                other.bytes@.len() == 32,
                forall|j: int| 0 <= j < i ==> self.bytes@[j] == other.bytes@[j],
            decreases 32 - i,
        {
            if self.bytes[i] != other.bytes[i] {
                return false;
            }
            i = i + 1;
        }
        assert(self.bytes@ =~= other.bytes@);
        true
    }
}

impl vstd::std_specs::cmp::PartialEqSpecImpl for Pubkey {
    open spec fn obeys_eq_spec() -> bool {
        true
    }

    open spec fn eq_spec(&self, other: &Pubkey) -> bool {
        self@ == other@
    }
}

impl Eq for Pubkey {
}

/// The platform registry: one per program.
#[derive(Clone, Copy, Debug, PartialEq, Eq)]
pub struct Platform {
    pub admin: Pubkey,
    /// Fee rate in basis points; stored, not charged by any handler.
    pub fee: u64,
    /// Collected fees; stored, never incremented by any handler.
    pub fee_accumulated: u64,
    pub authority: Pubkey,
    pub authority_bump: u8,
}

/// One fundraising campaign, keyed by its creator.
#[derive(Clone, Copy, Debug, PartialEq, Eq)]
pub struct Campaign {
    pub creator: Pubkey,
    pub goal: u64,
    /// Deadline, in seconds since the epoch.
    pub ending_timestamp: i64,
    pub minimum_deposit_amount: u64,
    /// Sum of the contributions that the escrow currently holds.
    pub raised_amount: u64,
    pub is_withdrawn: bool,
    /// True while fundraising is active; false once refunds are open.
    pub is_locked: bool,
    pub campaign_authority: Pubkey,
    pub campaign_authority_bump: u8,
}

/// What one donor currently has in one campaign.
#[derive(Clone, Copy, Debug, PartialEq, Eq)]
pub struct Donor {
    pub donor: Pubkey,
    pub campaign: Pubkey,
    pub amount: u64,
    pub donor_bump: u8,
}

/// Who authorizes a transfer.
#[derive(Clone, Copy, Debug, PartialEq, Eq)]
pub enum TransferSigner {
    /// The authority account signs for itself.
    Owner,
    /// The escrow authority of the campaign of `creator`, proven by the seeds
    /// `[CAMPAIGN_AUTHORITY_SEED, creator, [bump]]` instead of a signature.
    CampaignEscrow { creator: Pubkey, bump: u8 },
}

/// A movement of `amount` units from `from` to `to`, authorized by `authority`.
#[derive(Clone, Copy, Debug, PartialEq, Eq)]
pub struct TransferRequest {
    pub from: Pubkey,
    pub to: Pubkey,
    pub authority: Pubkey,
    pub signer: TransferSigner,
    pub amount: u64,
}

/// The address derived from the seeds `[tag, owner, [bump]]` under
/// `program_id`, or none where no such address exists.
pub uninterp spec fn program_address(tag: Seq<char>, owner: Seq<u8>, bump: u8, program_id: Seq<u8>) -> Option<Seq<u8>>;

/// Relies on `Pubkey::create_program_address` of solana-program (re-exported by
/// anchor-lang): the address that the seeds `[tag, owner, [bump]]` and the
/// program id give, or an error where none exists. The result depends on its
/// inputs alone.
#[verifier::external_body]
fn create_program_address(tag: &str, owner: &Pubkey, bump: u8, program_id: &Pubkey) -> (r: Option<Pubkey>)
    ensures
        match r {
            Some(k) => program_address(tag@, owner@, bump, program_id@) == Some(k@),
            None => program_address(tag@, owner@, bump, program_id@) is None,
        },
{
    let program = anchor_lang::prelude::Pubkey::new_from_array(program_id.bytes);
    let seeds: &[&[u8]] = &[tag.as_bytes(), &owner.bytes, &[bump]];
    match anchor_lang::prelude::Pubkey::create_program_address(seeds, &program) {
        Ok(k) => Some(Pubkey { bytes: k.to_bytes() }),
        Err(_) => None,
    }
}

/// `key` is the escrow authority of the campaign of `creator`: the one that
/// the campaign seed, the creator's key and `bump` derive under `program_id`.
pub open spec fn is_campaign_authority(key: Pubkey, creator: Pubkey, bump: u8, program_id: Pubkey) -> bool {
    program_address(CAMPAIGN_AUTHORITY_SEED@, creator@, bump, program_id@) == Some(key@)
}

/// Checks that `key` is the escrow authority of the campaign of `creator`,
/// derived from the campaign seed, the creator's key and `bump` under
/// `program_id`.
pub fn verify_campaign_authority(key: &Pubkey, creator: &Pubkey, bump: u8, program_id: &Pubkey) -> (r: bool)
    ensures
        r == is_campaign_authority(*key, *creator, bump, *program_id),
{
    match create_program_address(CAMPAIGN_AUTHORITY_SEED, creator, bump, program_id) {
        Some(derived) => derived == *key,
        None => false,
    }
}

impl Campaign {
    /// The presented authority is this campaign's stored escrow authority, and
    /// the stored derivation nonce proves it.
    pub open spec fn escrow_authority_valid(self, presented: Pubkey, program_id: Pubkey) -> bool {
        &&& presented@ == self.campaign_authority@
        &&& is_campaign_authority(presented, self.creator, self.campaign_authority_bump, program_id)
    }

    pub fn check_escrow_authority(&self, presented: &Pubkey, program_id: &Pubkey) -> (r: bool)
        ensures
            r == self.escrow_authority_valid(*presented, *program_id),
    {
        *presented == self.campaign_authority && verify_campaign_authority(
            presented,
            &self.creator,
            self.campaign_authority_bump,
            program_id,
        )
    }

    /// An outbound transfer from the campaign's escrow, signed by the
    /// campaign's own escrow authority, which its creator's key derives.
    pub fn transfer_tokens(&self, from: Pubkey, to: Pubkey, authority: Pubkey, amount: u64) -> (r:
        TransferRequest)
        ensures
            r == (TransferRequest {
                from,
                to,
                authority,
                signer: TransferSigner::CampaignEscrow {
                    creator: self.creator,
                    bump: self.campaign_authority_bump,
                },
                amount,
            }),
    {
        TransferRequest {
            from,
            to,
            authority,
            signer: TransferSigner::CampaignEscrow {
                creator: self.creator,
                bump: self.campaign_authority_bump,
            },
            amount,
        }
    }

    /// An inbound transfer, signed by the sender itself.
    pub fn transfer_tokens_from_user(
        &self,
        from: Pubkey,
        to: Pubkey,
        authority: Pubkey,
        amount: u64,
    ) -> (r: TransferRequest)
        ensures
            r == (TransferRequest { from, to, authority, signer: TransferSigner::Owner, amount }),
    {
        TransferRequest { from, to, authority, signer: TransferSigner::Owner, amount }
    }
}

} // verus!
