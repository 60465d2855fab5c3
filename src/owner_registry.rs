//! A registry controlled by a single owner. Control passes to another
//! identity only through a two-phase handover (propose, then accept), and may
//! be given up for good. Claims are keyed by a digest of their identifier.
use crate::digest::{claim_id_digest, hash_claim_id};
use crate::error::ErrorCode;
use crate::principal::{keys_equal, Principal};
use vstd::prelude::*;

verus! {

broadcast use vstd::array::group_array_axioms;

/// Who controls the registry: an owner, or nobody after renouncement.
#[derive(Clone, Copy, Debug)]
pub enum Ownership {
    Owned(Principal),
    /// Terminal state: no identity controls the registry any more.
    Renounced,
}

/// A recorded claim of the owner registry.
#[derive(Clone, Debug)]
pub struct Claim {
    /// Digest of the claim identifier; the raw identifier is never stored.
    pub claim_id_hash: [u8; 32],
    pub json_url: String,
    /// Caller-supplied digest of the referenced document, never inspected.
    pub data_hash: [u8; 32],
    pub creator: Principal,
    pub created_at: i64,
}

/// The persistent state of the owner registry.
#[derive(Clone, Debug)]
pub struct ProgramData {
    pub owner: Ownership,
    pub pending_owner: Option<Principal>,
    pub claims: Vec<Claim>,
}

/// The state of the registry as a mathematical value.
pub struct RegistryView {
    pub owner: Ownership,
    pub pending_owner: Option<Principal>,
    pub claims: Seq<Claim>,
}

impl View for ProgramData {
    type V = RegistryView;

    open spec fn view(&self) -> RegistryView {
        RegistryView { owner: self.owner, pending_owner: self.pending_owner, claims: self.claims@ }
    }
}

/// Request to create the registry, signed by `creator`.
pub struct Initialize {
    pub program_data: ProgramData,
    pub creator: Principal,
}

/// Request to propose a new owner, signed by `owner`.
pub struct TransferOwnership {
    pub program_data: ProgramData,
    pub owner: Principal,
}

/// Request to take over a proposed ownership, signed by `new_owner`.
pub struct AcceptOwnership {
    pub program_data: ProgramData,
    pub new_owner: Principal,
}

/// Request to give up ownership for good, signed by `owner`.
pub struct RenounceOwnership {
    pub program_data: ProgramData,
    pub owner: Principal,
}

/// Request to record a claim, signed by `creator`.
pub struct AddClaim {
    pub program_data: ProgramData,
    pub creator: Principal,
}

/// Request to read all claims, signed by `requester`.
pub struct GetClaims {
    pub program_data: ProgramData,
    pub requester: Principal,
}

/// `caller` currently controls the registry.
pub open spec fn owned_by(v: RegistryView, caller: Principal) -> bool {
    v.owner == Ownership::Owned(caller)
}

/// Some stored claim has identifier digest `h`.
pub open spec fn has_claim_hash(v: RegistryView, h: [u8; 32]) -> bool {
    exists|i: int| 0 <= i < v.claims.len() && #[trigger] v.claims[i].claim_id_hash == h
}

/// No two stored claims share an identifier digest.
pub open spec fn claim_hashes_unique(v: RegistryView) -> bool {
    forall|i: int, j: int|
        0 <= i < v.claims.len() && 0 <= j < v.claims.len() && i != j ==> v.claims[i].claim_id_hash
            != v.claims[j].claim_id_hash
}

/// A pending transfer can exist only while someone owns the registry.
pub open spec fn pending_consistent(v: RegistryView) -> bool {
    v.owner is Renounced ==> v.pending_owner is None
}

/// The state invariant of the owner registry.
pub open spec fn registry_wf(v: RegistryView) -> bool {
    claim_hashes_unique(v) && pending_consistent(v)
}

/// Outcome of a transfer proposal by `caller` towards `new_owner`.
pub open spec fn transfer_outcome(v: RegistryView, caller: Principal, new_owner: Principal) -> Result<
    RegistryView,
    ErrorCode,
> {
    if !owned_by(v, caller) {
        Err(ErrorCode::Unauthorized)
    } else if new_owner == caller {
        Err(ErrorCode::InvalidTransferTarget)
    } else {
        Ok(RegistryView { owner: v.owner, pending_owner: Some(new_owner), claims: v.claims })
    }
}

/// Outcome of an acceptance by `caller`.
pub open spec fn accept_outcome(v: RegistryView, caller: Principal) -> Result<RegistryView, ErrorCode> {
    if v.pending_owner == Some(caller) {
        Ok(RegistryView { owner: Ownership::Owned(caller), pending_owner: None, claims: v.claims })
    } else {
        Err(ErrorCode::NoPendingTransfer)
    }
}

/// Outcome of a renouncement by `caller`.
pub open spec fn renounce_outcome(v: RegistryView, caller: Principal) -> Result<RegistryView, ErrorCode> {
    if owned_by(v, caller) {
        Ok(RegistryView { owner: Ownership::Renounced, pending_owner: None, claims: v.claims })
    } else {
        Err(ErrorCode::Unauthorized)
    }
}

/// Outcome of recording a claim whose identifier digest is `h`.
pub open spec fn record_outcome(
    v: RegistryView,
    caller: Principal,
    h: [u8; 32],
    json_url: String,
    data_hash: [u8; 32],
    now: i64,
) -> Result<RegistryView, ErrorCode> {
    if json_url@.len() == 0 {
        Err(ErrorCode::InvalidInput)
    } else if !owned_by(v, caller) {
        Err(ErrorCode::Unauthorized)
    } else if has_claim_hash(v, h) {
        Err(ErrorCode::AlreadyExists)
    } else {
        Ok(
            RegistryView {
                owner: v.owner,
                pending_owner: v.pending_owner,
                claims: v.claims.push(
                    Claim { claim_id_hash: h, json_url, data_hash, creator: caller, created_at: now },
                ),
            },
        )
    }
}

/// Outcome of recording a claim with identifier `claim_id`.
pub open spec fn add_claim_outcome(
    v: RegistryView,
    caller: Principal,
    claim_id: Seq<char>,
    json_url: String,
    data_hash: [u8; 32],
    now: i64,
) -> Result<RegistryView, ErrorCode> {
    if claim_id.len() == 0 {
        Err(ErrorCode::InvalidInput)
    } else {
        record_outcome(v, caller, claim_id_digest(claim_id), json_url, data_hash, now)
    }
}

/// The request's result and new state agree with the expected `outcome`;
/// on failure the state is unchanged.
pub open spec fn applied(
    outcome: Result<RegistryView, ErrorCode>,
    r: Result<(), ErrorCode>,
    before: RegistryView,
    after: RegistryView,
) -> bool {
    match outcome {
        Ok(v) => r is Ok && after == v,
        Err(e) => r == Err::<(), ErrorCode>(e) && after == before,
    }
}

fn is_owner(data: &ProgramData, caller: &Principal) -> (r: bool)
    ensures
        r == owned_by(data@, *caller),
{
    match &data.owner {
        Ownership::Owned(p) => p.same_as(caller),
        Ownership::Renounced => false,
    }
}

/// Creates the registry: the owner is `initial_owner` when given, else the
/// creator; no transfer is pending and no claim is stored.
pub fn initialize(ctx: &mut Initialize, initial_owner: Option<Principal>) -> (r: Result<(), ErrorCode>)
    ensures
        r is Ok,
        final(ctx).creator == old(ctx).creator,
        final(ctx).program_data@ == (RegistryView {
            owner: Ownership::Owned(
                match initial_owner {
                    Some(p) => p,
                    None => old(ctx).creator,
                },
            ),
            pending_owner: None,
            claims: Seq::empty(),
        }),
        registry_wf(final(ctx).program_data@),
{
    ctx.program_data.claims = Vec::new();
    let owner = match initial_owner {
        Some(p) => p,
        None => ctx.creator,
    };
    ctx.program_data.owner = Ownership::Owned(owner);
    ctx.program_data.pending_owner = None;
    Ok(())
}

/// Proposes `new_owner` as the next owner, replacing any earlier proposal.
/// Only the owner may propose, and not themselves.
pub fn transfer_ownership(ctx: &mut TransferOwnership, new_owner: Principal) -> (r: Result<
    (),
    ErrorCode,
>)
    ensures
        final(ctx).owner == old(ctx).owner,
        applied(
            transfer_outcome(old(ctx).program_data@, old(ctx).owner, new_owner),
            r,
            old(ctx).program_data@,
            final(ctx).program_data@,
        ),
        registry_wf(old(ctx).program_data@) ==> registry_wf(final(ctx).program_data@),
{
    if !is_owner(&ctx.program_data, &ctx.owner) {
        return Err(ErrorCode::Unauthorized);
    }
    if new_owner.same_as(&ctx.owner) {
        return Err(ErrorCode::InvalidTransferTarget);
    }
    ctx.program_data.pending_owner = Some(new_owner);
    Ok(())
}

/// Completes a handover: the proposed owner becomes the owner.
pub fn accept_ownership(ctx: &mut AcceptOwnership) -> (r: Result<(), ErrorCode>)
    ensures
        final(ctx).new_owner == old(ctx).new_owner,
        applied(
            accept_outcome(old(ctx).program_data@, old(ctx).new_owner),
            r,
            old(ctx).program_data@,
            final(ctx).program_data@,
        ),
        registry_wf(old(ctx).program_data@) ==> registry_wf(final(ctx).program_data@),
{
    let pending_matches = match &ctx.program_data.pending_owner {
        Some(p) => p.same_as(&ctx.new_owner),
        None => false,
    };
    if !pending_matches {
        return Err(ErrorCode::NoPendingTransfer);
    }
    ctx.program_data.owner = Ownership::Owned(ctx.new_owner);
    ctx.program_data.pending_owner = None;
    Ok(())
}

/// Gives up ownership for good and cancels any pending transfer.
pub fn renounce_ownership(ctx: &mut RenounceOwnership) -> (r: Result<(), ErrorCode>)
    ensures
        final(ctx).owner == old(ctx).owner,
        applied(
            renounce_outcome(old(ctx).program_data@, old(ctx).owner),
            r,
            old(ctx).program_data@,
            final(ctx).program_data@,
        ),
        registry_wf(old(ctx).program_data@) ==> registry_wf(final(ctx).program_data@),
{
    if !is_owner(&ctx.program_data, &ctx.owner) {
        return Err(ErrorCode::Unauthorized);
    }
    ctx.program_data.owner = Ownership::Renounced;
    ctx.program_data.pending_owner = None;
    Ok(())
}

fn contains_claim_hash(claims: &Vec<Claim>, h: &[u8; 32]) -> (r: bool)
    ensures
        r == exists|i: int| 0 <= i < claims@.len() && #[trigger] claims@[i].claim_id_hash == *h,
{
    let mut i: usize = 0;
    while i < claims.len()
        invariant
            0 <= i <= claims@.len(),
            forall|j: int| 0 <= j < i ==> #[trigger] claims@[j].claim_id_hash != *h,
        decreases claims@.len() - i,
    {
        if keys_equal(&claims[i].claim_id_hash, h) {
            return true;
        }
        i = i + 1;
    }
    false
}

/// Records a claim whose identifier digest `claim_id_hash` is already
/// computed. Fails on an empty URL, a caller other than the owner, or a
/// digest already stored; otherwise appends the claim, stamped with `now`.
pub fn record_claim(
    ctx: &mut AddClaim,
    claim_id_hash: [u8; 32],
    json_url: String,
    data_hash: [u8; 32],
    now: i64,
) -> (r: Result<(), ErrorCode>)
    ensures
        final(ctx).creator == old(ctx).creator,
        applied(
            record_outcome(old(ctx).program_data@, old(ctx).creator, claim_id_hash, json_url, data_hash, now),
            r,
            old(ctx).program_data@,
            final(ctx).program_data@,
        ),
        registry_wf(old(ctx).program_data@) ==> registry_wf(final(ctx).program_data@),
{
    if json_url.as_str().is_empty() {
        return Err(ErrorCode::InvalidInput);
    }
    if !is_owner(&ctx.program_data, &ctx.creator) {
        return Err(ErrorCode::Unauthorized);
    }
    if contains_claim_hash(&ctx.program_data.claims, &claim_id_hash) {
        return Err(ErrorCode::AlreadyExists);
    }
    let claim = Claim {
        claim_id_hash,
        json_url,
        data_hash,
        creator: ctx.creator,
        created_at: now,
    };
    ctx.program_data.claims.push(claim);
    Ok(())
}

/// Records a claim under the digest of `claim_id`. Fails on an empty
/// identifier or URL, a caller other than the owner, or an identifier whose
/// digest is already stored; otherwise appends the claim, stamped with `now`.
pub fn add_claim(
    ctx: &mut AddClaim,
    claim_id: String,
    json_url: String,
    data_hash: [u8; 32],
    now: i64,
) -> (r: Result<(), ErrorCode>)
    ensures
        final(ctx).creator == old(ctx).creator,
        applied(
            add_claim_outcome(old(ctx).program_data@, old(ctx).creator, claim_id@, json_url, data_hash, now),
            r,
            old(ctx).program_data@,
            final(ctx).program_data@,
        ),
        registry_wf(old(ctx).program_data@) ==> registry_wf(final(ctx).program_data@),
{
    if claim_id.as_str().is_empty() {
        return Err(ErrorCode::InvalidInput);
    }
    let claim_id_hash = hash_claim_id(&claim_id);
    record_claim(ctx, claim_id_hash, json_url, data_hash, now)
}

fn copy_claim(c: &Claim) -> (r: Claim)
    ensures
        r == *c,
{
    Claim {
        claim_id_hash: c.claim_id_hash,
        json_url: c.json_url.clone(),
        data_hash: c.data_hash,
        creator: c.creator,
        created_at: c.created_at,
    }
}

/// Returns every stored claim in insertion order. Only the owner may read.
pub fn get_claims(ctx: &GetClaims) -> (r: Result<Vec<Claim>, ErrorCode>)
    ensures
        owned_by(ctx.program_data@, ctx.requester) ==> r is Ok && r->Ok_0@ == ctx.program_data.claims@,
        !owned_by(ctx.program_data@, ctx.requester) ==> r == Err::<Vec<Claim>, ErrorCode>(
            ErrorCode::Unauthorized,
        ),
{
    if !is_owner(&ctx.program_data, &ctx.requester) {
        return Err(ErrorCode::Unauthorized);
    }
    let claims = &ctx.program_data.claims;
    let mut out: Vec<Claim> = Vec::new();
    let mut i: usize = 0;
    while i < claims.len()
        invariant
            0 <= i <= claims@.len(),
            out@ == claims@.subrange(0, i as int),
        decreases claims@.len() - i,
    {
        out.push(copy_claim(&claims[i]));
        i = i + 1;
        assert(out@ =~= claims@.subrange(0, i as int));
    }
    assert(out@ =~= claims@);
    Ok(out)
}

/// Ownership transfer is two-phase: after the owner `a` proposes `b`, `a`
/// is still the owner; an acceptance by anyone other than `b` fails with
/// `NoPendingTransfer`; an acceptance by `b` makes `b` the owner and leaves no
/// transfer pending.
pub proof fn lemma_transfer_is_two_phase(v: RegistryView, a: Principal, b: Principal, c: Principal)
    requires
        owned_by(v, a),
        b != a,
    ensures
        transfer_outcome(v, a, b) is Ok,
        transfer_outcome(v, a, b)->Ok_0.owner == Ownership::Owned(a),
        c != b ==> accept_outcome(transfer_outcome(v, a, b)->Ok_0, c) == Err::<RegistryView, ErrorCode>(
            ErrorCode::NoPendingTransfer,
        ),
        accept_outcome(transfer_outcome(v, a, b)->Ok_0, b) is Ok,
        accept_outcome(transfer_outcome(v, a, b)->Ok_0, b)->Ok_0.owner == Ownership::Owned(b),
        accept_outcome(transfer_outcome(v, a, b)->Ok_0, b)->Ok_0.pending_owner is None,
        accept_outcome(transfer_outcome(v, a, b)->Ok_0, b)->Ok_0.claims == v.claims,
{
}

/// A second proposal replaces the first: after the owner `a` proposes `b`
/// and then `c`, only `c` can accept; `b`'s acceptance fails.
pub proof fn lemma_second_transfer_replaces_first(
    v: RegistryView,
    a: Principal,
    b: Principal,
    c: Principal,
)
    requires
        owned_by(v, a),
        b != a,
        c != a,
        b != c,
    ensures
        transfer_outcome(v, a, b) is Ok,
        transfer_outcome(transfer_outcome(v, a, b)->Ok_0, a, c) is Ok,
        accept_outcome(transfer_outcome(transfer_outcome(v, a, b)->Ok_0, a, c)->Ok_0, b)
            == Err::<RegistryView, ErrorCode>(ErrorCode::NoPendingTransfer),
        accept_outcome(transfer_outcome(transfer_outcome(v, a, b)->Ok_0, a, c)->Ok_0, c) is Ok,
        accept_outcome(transfer_outcome(transfer_outcome(v, a, b)->Ok_0, a, c)->Ok_0, c)->Ok_0.owner
            == Ownership::Owned(c),
{
}

/// Renouncement is irreversible: once it succeeded, the registry is in a
/// state where every request fails, whoever makes it, so no later request
/// changes the state or reads the claims.
pub proof fn lemma_renounce_is_final(v: RegistryView, owner: Principal)
    requires
        renounce_outcome(v, owner) is Ok,
    ensures
        renounced_is_locked(renounce_outcome(v, owner)->Ok_0),
{
    lemma_renounced_state_is_locked(renounce_outcome(v, owner)->Ok_0);
}

/// Every request fails on `v`, whoever makes it.
pub open spec fn renounced_is_locked(v: RegistryView) -> bool {
    &&& forall|caller: Principal, new_owner: Principal| #[trigger]
        transfer_outcome(v, caller, new_owner) == Err::<RegistryView, ErrorCode>(
            ErrorCode::Unauthorized,
        )
    &&& forall|caller: Principal| #[trigger]
        accept_outcome(v, caller) == Err::<RegistryView, ErrorCode>(ErrorCode::NoPendingTransfer)
    &&& forall|caller: Principal| #[trigger]
        renounce_outcome(v, caller) == Err::<RegistryView, ErrorCode>(ErrorCode::Unauthorized)
    &&& forall|
        caller: Principal,
        claim_id: Seq<char>,
        json_url: String,
        data_hash: [u8; 32],
        now: i64,
    | #[trigger]
        add_claim_outcome(v, caller, claim_id, json_url, data_hash, now) is Err
    &&& forall|caller: Principal| !#[trigger] owned_by(v, caller)
}

/// A renounced registry with no pending transfer is locked for good. Every
/// operation keeps `pending_consistent`, so this covers every renounced state
/// that the operations reach.
pub proof fn lemma_renounced_state_is_locked(v: RegistryView)
    requires
        v.owner is Renounced,
        pending_consistent(v),
    ensures
        renounced_is_locked(v),
{
}

/// A claim identifier whose digest is already stored is refused with
/// `AlreadyExists`, and nothing is appended.
pub proof fn lemma_duplicate_claim_id_rejected(
    v: RegistryView,
    caller: Principal,
    claim_id: Seq<char>,
    json_url: String,
    data_hash: [u8; 32],
    now: i64,
)
    requires
        claim_id.len() > 0,
        json_url@.len() > 0,
        owned_by(v, caller),
        has_claim_hash(v, claim_id_digest(claim_id)),
    ensures
        add_claim_outcome(v, caller, claim_id, json_url, data_hash, now) == Err::<
            RegistryView,
            ErrorCode,
        >(ErrorCode::AlreadyExists),
{
}

} // verus!
