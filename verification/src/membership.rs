use crate::governance::MAX_ADDRESS_LEN;
use crate::governance::MAX_NAME_LEN;
use crate::identity::Pubkey;
use vstd::prelude::*;

verus! {

/// Size budget (in characters) for a tax identifier (SSN for individuals,
/// EIN for entities).
pub const MAX_TAX_ID_LEN: usize = 64;

/// Per-organization membership registry: the authority and the monotonic
/// member counter. No removal operation exists, so the counter equals the
/// number of member records ever committed for this registry.
pub struct MemberRegistry {
    pub authority: Pubkey,
    pub member_count: u64,
}

/// The kind of participant behind a membership record.
#[derive(Clone, Copy, PartialEq, Eq, Structural, Debug)]
pub enum MemberType {
    Human,
    AI,
    Organization,
}

/// Per-participant compliance and voting-power record. Created once via
/// `add_member` and never mutated afterward: `is_active` is set true at
/// creation, and `kyc_verified` starts false (flipping it requires an
/// external verification process with no code path here).
pub struct Member {
    pub pubkey: Pubkey,
    pub member_type: MemberType,
    pub voting_power: u64,
    pub joined_at: i64,
    pub is_active: bool,
    pub legal_name: String,
    pub address: String,
    pub tax_id: String,
    pub kyc_verified: bool,
}

/// Creates the registry for a new organization with no members yet.
pub fn initialize(authority: Pubkey) -> (registry: MemberRegistry)
    ensures
        registry.authority == authority,
        registry.member_count == 0,
{
    MemberRegistry { authority, member_count: 0 }
}

/// Registers a participant: builds the member record bound to
/// `member_pubkey` with `is_active` true and `kyc_verified` false, and
/// moves the registry's member counter up by exactly one. No
/// duplicate-member check exists — registering the same identity twice is
/// permitted, faithfully to the permissive design.
pub fn add_member(
    registry: &mut MemberRegistry,
    member_pubkey: Pubkey,
    member_type: MemberType,
    voting_power: u64,
    legal_name: String,
    address: String,
    tax_id: String,
    joined_at: i64,
) -> (member: Member)
    requires
        old(registry).member_count < u64::MAX,
        legal_name@.len() <= MAX_NAME_LEN,
        address@.len() <= MAX_ADDRESS_LEN,
        tax_id@.len() <= MAX_TAX_ID_LEN,
    ensures
        final(registry).member_count == old(registry).member_count + 1,
        final(registry).authority == old(registry).authority,
        member.pubkey == member_pubkey,
        member.member_type == member_type,
        member.voting_power == voting_power,
        member.joined_at == joined_at,
        member.is_active,
        !member.kyc_verified,
        member.legal_name == legal_name,
        member.address == address,
        member.tax_id == tax_id,
{
    registry.member_count = registry.member_count + 1;
    Member {
        pubkey: member_pubkey,
        member_type,
        voting_power,
        joined_at,
        is_active: true,
        legal_name,
        address,
        tax_id,
        kyc_verified: false,
    }
}

/// The full membership state of one organization: the registry record
/// together with every member record committed under it, in order of
/// registration.
pub struct RegistryLedger {
    pub registry: MemberRegistry,
    pub members: Vec<Member>,
}

impl RegistryLedger {
    /// Well-formedness, established at initialization and preserved by every
    /// operation: the registry counter equals the number of committed member
    /// records (no removal operation exists), and every committed record has
    /// `is_active` set.
    pub open spec fn wf(self) -> bool {
        &&& self.registry.member_count == self.members@.len()
        &&& forall|i: int| 0 <= i < self.members@.len() ==> (#[trigger] self.members@[i]).is_active
    }

    /// Creates the membership state for a new organization: a fresh registry
    /// with no members.
    pub fn init_registry(authority: Pubkey) -> (ledger: RegistryLedger)
        ensures
            ledger.wf(),
            ledger.registry.authority == authority,
            ledger.registry.member_count == 0,
            ledger.members@ =~= Seq::<Member>::empty(),
    {
        RegistryLedger { registry: initialize(authority), members: Vec::new() }
    }

    /// Registers a participant and returns the index of the new record. The
    /// counter moves up by exactly one and every earlier record is untouched;
    /// there is no failure path, faithfully to the permissive design that
    /// never rejects a duplicate identity.
    pub fn add_member(
        &mut self,
        member_pubkey: Pubkey,
        member_type: MemberType,
        voting_power: u64,
        legal_name: String,
        address: String,
        tax_id: String,
        joined_at: i64,
    ) -> (index: usize)
        requires
            old(self).wf(),
            old(self).members@.len() < u64::MAX,
            legal_name@.len() <= MAX_NAME_LEN,
            address@.len() <= MAX_ADDRESS_LEN,
            tax_id@.len() <= MAX_TAX_ID_LEN,
        ensures
            final(self).wf(),
            index == old(self).members@.len(),
            final(self).registry.member_count == old(self).registry.member_count + 1,
            final(self).registry.authority == old(self).registry.authority,
            final(self).members@ =~= old(self).members@.push(
                (Member {
                    pubkey: member_pubkey,
                    member_type,
                    voting_power,
                    joined_at,
                    is_active: true,
                    legal_name,
                    address,
                    tax_id,
                    kyc_verified: false,
                }),
            ),
    {
        let index = self.members.len();
        let member = add_member(
            &mut self.registry,
            member_pubkey,
            member_type,
            voting_power,
            legal_name,
            address,
            tax_id,
            joined_at,
        );
        self.members.push(member);
        index
    }
}

} // verus!
