use bio_hack::{
    accept_ownership, add_claim, get_claims, initialize, record_claim, renounce_ownership,
    transfer_ownership, AcceptOwnership, AddClaim, Claim, ErrorCode, GetClaims, Initialize,
    Ownership, Principal, ProgramData, RenounceOwnership, TransferOwnership,
};

fn who(b: u8) -> Principal {
    Principal::new([b; 32])
}

fn empty_data() -> ProgramData {
    ProgramData { owner: Ownership::Renounced, pending_owner: None, claims: Vec::new() }
}

fn init(creator: Principal, initial_owner: Option<Principal>) -> ProgramData {
    let mut ctx = Initialize { program_data: empty_data(), creator };
    assert_eq!(initialize(&mut ctx, initial_owner), Ok(()));
    ctx.program_data
}

fn owner_of(d: &ProgramData) -> Option<Principal> {
    match d.owner {
        Ownership::Owned(p) => Some(p),
        Ownership::Renounced => None,
    }
}

fn transfer(d: ProgramData, caller: Principal, to: Principal) -> (ProgramData, Result<(), ErrorCode>) {
    let mut ctx = TransferOwnership { program_data: d, owner: caller };
    let r = transfer_ownership(&mut ctx, to);
    (ctx.program_data, r)
}

fn accept(d: ProgramData, caller: Principal) -> (ProgramData, Result<(), ErrorCode>) {
    let mut ctx = AcceptOwnership { program_data: d, new_owner: caller };
    let r = accept_ownership(&mut ctx);
    (ctx.program_data, r)
}

fn renounce(d: ProgramData, caller: Principal) -> (ProgramData, Result<(), ErrorCode>) {
    let mut ctx = RenounceOwnership { program_data: d, owner: caller };
    let r = renounce_ownership(&mut ctx);
    (ctx.program_data, r)
}

fn claim(d: ProgramData, caller: Principal, id: &str, url: &str) -> (ProgramData, Result<(), ErrorCode>) {
    let mut ctx = AddClaim { program_data: d, creator: caller };
    let r = add_claim(&mut ctx, id.to_string(), url.to_string(), [7u8; 32], 1_700_000_000);
    (ctx.program_data, r)
}

fn read(d: ProgramData, caller: Principal) -> (ProgramData, Result<Vec<Claim>, ErrorCode>) {
    let ctx = GetClaims { program_data: d, requester: caller };
    let r = get_claims(&ctx);
    (ctx.program_data, r)
}

#[test]
fn initialize_defaults_to_creator() {
    let d = init(who(1), None);
    assert_eq!(owner_of(&d), Some(who(1)));
    assert_eq!(d.pending_owner, None);
    assert!(d.claims.is_empty());
}

#[test]
fn initialize_with_explicit_owner() {
    let d = init(who(1), Some(who(2)));
    assert_eq!(owner_of(&d), Some(who(2)));
}

#[test]
fn add_claim_then_duplicate_then_foreign_read() {
    let a = who(1);
    let b = who(2);
    let d = init(a, None);
    let (d, r) = claim(d, a, "c1", "http://x");
    assert_eq!(r, Ok(()));
    assert_eq!(d.claims.len(), 1);
    let expected: [u8; 32] = [
        208, 246, 49, 202, 29, 219, 168, 219, 59, 207, 203, 158, 5, 124, 220, 152, 208, 55, 159,
        27, 238, 0, 231, 90, 84, 81, 71, 162, 125, 173, 217, 130,
    ];
    assert_eq!(d.claims[0].claim_id_hash, expected);
    assert_eq!(d.claims[0].json_url, "http://x");
    assert_eq!(d.claims[0].data_hash, [7u8; 32]);
    assert_eq!(d.claims[0].creator, a);
    assert_eq!(d.claims[0].created_at, 1_700_000_000);
    let (d, r) = claim(d, a, "c1", "http://y");
    assert_eq!(r, Err(ErrorCode::AlreadyExists));
    assert_eq!(d.claims.len(), 1);
    let (d, r) = read(d, b);
    assert_eq!(r.err(), Some(ErrorCode::Unauthorized));
    let (_, r) = read(d, a);
    let claims = r.ok().unwrap();
    assert_eq!(claims.len(), 1);
    assert_eq!(claims[0].claim_id_hash, expected);
}

#[test]
fn claim_id_is_stored_as_digest() {
    let a = who(1);
    let (d, r) = claim(init(a, None), a, "c1", "http://x");
    assert_eq!(r, Ok(()));
    let mut raw = [0u8; 32];
    raw[0] = b'c';
    raw[1] = b'1';
    assert_ne!(d.claims[0].claim_id_hash, raw);
    let (d, r) = claim(d, a, "c2", "http://x");
    assert_eq!(r, Ok(()));
    assert_ne!(d.claims[0].claim_id_hash, d.claims[1].claim_id_hash);
}

#[test]
fn add_claim_rejects_empty_fields() {
    let a = who(1);
    let (d, r) = claim(init(a, None), a, "", "http://x");
    assert_eq!(r, Err(ErrorCode::InvalidInput));
    let (d, r) = claim(d, a, "c1", "");
    assert_eq!(r, Err(ErrorCode::InvalidInput));
    let (d, r) = claim(d, who(9), "", "");
    assert_eq!(r, Err(ErrorCode::InvalidInput));
    assert!(d.claims.is_empty());
}

#[test]
fn add_claim_by_non_owner_is_unauthorized() {
    let (d, r) = claim(init(who(1), None), who(2), "c1", "http://x");
    assert_eq!(r, Err(ErrorCode::Unauthorized));
    assert!(d.claims.is_empty());
}

#[test]
fn record_claim_takes_a_computed_digest() {
    let a = who(1);
    let mut ctx = AddClaim { program_data: init(a, None), creator: a };
    assert_eq!(record_claim(&mut ctx, [3u8; 32], "u".to_string(), [0u8; 32], 5), Ok(()));
    assert_eq!(
        record_claim(&mut ctx, [3u8; 32], "v".to_string(), [0u8; 32], 6),
        Err(ErrorCode::AlreadyExists)
    );
    assert_eq!(
        record_claim(&mut ctx, [4u8; 32], String::new(), [0u8; 32], 6),
        Err(ErrorCode::InvalidInput)
    );
    assert_eq!(ctx.program_data.claims.len(), 1);
    assert_eq!(ctx.program_data.claims[0].created_at, 5);
}

#[test]
fn transfer_is_two_phase() {
    let (a, b, c) = (who(1), who(2), who(3));
    let (d, r) = transfer(init(a, None), a, b);
    assert_eq!(r, Ok(()));
    assert_eq!(owner_of(&d), Some(a));
    assert_eq!(d.pending_owner, Some(b));
    let (d, r) = accept(d, c);
    assert_eq!(r, Err(ErrorCode::NoPendingTransfer));
    let (d, r) = accept(d, a);
    assert_eq!(r, Err(ErrorCode::NoPendingTransfer));
    let (d, r) = accept(d, b);
    assert_eq!(r, Ok(()));
    assert_eq!(owner_of(&d), Some(b));
    assert_eq!(d.pending_owner, None);
}

#[test]
fn second_transfer_replaces_first() {
    let (a, b, c) = (who(1), who(2), who(3));
    let (d, r) = transfer(init(a, None), a, b);
    assert_eq!(r, Ok(()));
    let (d, r) = transfer(d, a, c);
    assert_eq!(r, Ok(()));
    let (d, r) = accept(d, b);
    assert_eq!(r, Err(ErrorCode::NoPendingTransfer));
    let (d, r) = accept(d, c);
    assert_eq!(r, Ok(()));
    assert_eq!(owner_of(&d), Some(c));
}

#[test]
fn transfer_errors() {
    let (a, b) = (who(1), who(2));
    let (d, r) = transfer(init(a, None), b, b);
    assert_eq!(r, Err(ErrorCode::Unauthorized));
    let (d, r) = transfer(d, a, a);
    assert_eq!(r, Err(ErrorCode::InvalidTransferTarget));
    assert_eq!(d.pending_owner, None);
    let (_, r) = accept(d, b);
    assert_eq!(r, Err(ErrorCode::NoPendingTransfer));
}

#[test]
fn renounce_is_irreversible() {
    let (a, b) = (who(1), who(2));
    let (d, r) = transfer(init(a, None), a, b);
    assert_eq!(r, Ok(()));
    let (d, r) = renounce(d, b);
    assert_eq!(r, Err(ErrorCode::Unauthorized));
    let (d, r) = renounce(d, a);
    assert_eq!(r, Ok(()));
    assert_eq!(owner_of(&d), None);
    assert_eq!(d.pending_owner, None);
    for caller in [a, b, who(0)] {
        let (d2, r) = transfer(d.clone(), caller, who(5));
        assert_eq!(r, Err(ErrorCode::Unauthorized));
        let (d2, r) = accept(d2, caller);
        assert_eq!(r, Err(ErrorCode::NoPendingTransfer));
        let (d2, r) = claim(d2, caller, "c1", "http://x");
        assert_eq!(r, Err(ErrorCode::Unauthorized));
        let (d2, r) = read(d2, caller);
        assert_eq!(r.err(), Some(ErrorCode::Unauthorized));
        let (_, r) = renounce(d2, caller);
        assert_eq!(r, Err(ErrorCode::Unauthorized));
    }
}

#[test]
fn error_messages_are_distinct() {
    let all = [
        ErrorCode::Unauthorized,
        ErrorCode::NotFound,
        ErrorCode::AlreadyExists,
        ErrorCode::InvalidInput,
        ErrorCode::InvalidTransferTarget,
        ErrorCode::NoPendingTransfer,
    ];
    for i in 0..all.len() {
        for j in 0..all.len() {
            assert_eq!(i == j, all[i].message() == all[j].message());
        }
    }
}
