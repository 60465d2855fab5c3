//! A registry of named organizations. Any current member of an organization
//! may add members or claims to it; there is no removal.
use crate::error::ErrorCode;
use crate::principal::{keys_equal, Principal};
use vstd::prelude::*;

verus! {

/// A recorded claim of an organization, keyed by its plain identifier.
#[derive(Clone, Debug)]
pub struct OrgClaim {
    pub claim_id: String,
    pub json_url: String,
    /// Caller-supplied digest of the referenced document, never inspected.
    pub data_hash: [u8; 32],
    pub creator: Principal,
    pub created_at: i64,
}

/// An organization: its creator, its unique name, its members in order of
/// admission, and its claims in order of insertion.
#[derive(Clone, Debug)]
pub struct Organization {
    pub creator: Principal,
    pub name: String,
    pub members: Vec<Principal>,
    pub claims: Vec<OrgClaim>,
}

/// An organization as a mathematical value.
pub struct OrgView {
    pub creator: Principal,
    pub name: Seq<char>,
    pub members: Seq<Principal>,
    pub claims: Seq<OrgClaim>,
}

impl View for Organization {
    type V = OrgView;

    open spec fn view(&self) -> OrgView {
        OrgView {
            creator: self.creator,
            name: self.name@,
            members: self.members@,
            claims: self.claims@,
        }
    }
}

/// The persistent state of the organization registry.
#[derive(Clone, Debug)]
pub struct OrgRegistry {
    pub organizations: Vec<Organization>,
}

impl View for OrgRegistry {
    type V = Seq<OrgView>;

    open spec fn view(&self) -> Seq<OrgView> {
        Seq::new(self.organizations@.len(), |i: int| self.organizations@[i]@)
    }
}

/// Some organization of `v` is named `name`.
pub open spec fn has_org(v: Seq<OrgView>, name: Seq<char>) -> bool {
    exists|i: int| 0 <= i < v.len() && #[trigger] v[i].name == name
}

/// The position of the organization named `name` (meaningful when
/// `has_org(v, name)`).
pub open spec fn org_index(v: Seq<OrgView>, name: Seq<char>) -> int {
    choose|i: int| 0 <= i < v.len() && #[trigger] v[i].name == name
}

/// Some claim of `o` has identifier `claim_id`.
pub open spec fn has_claim_id(o: OrgView, claim_id: Seq<char>) -> bool {
    exists|k: int| 0 <= k < o.claims.len() && #[trigger] o.claims[k].claim_id@ == claim_id
}

/// The invariant of one organization: a non-empty name, the creator among
/// the members, no member twice, no claim identifier twice.
pub open spec fn org_wf(o: OrgView) -> bool {
    &&& o.name.len() > 0
    &&& o.members.contains(o.creator)
    &&& o.members.no_duplicates()
    &&& forall|k: int, l: int|
        #![trigger o.claims[k].claim_id, o.claims[l].claim_id]
        0 <= k < o.claims.len() && 0 <= l < o.claims.len() && k != l
            ==> o.claims[k].claim_id@ != o.claims[l].claim_id@
}

/// The invariant of the registry: every organization is well formed and no
/// two share a name.
pub open spec fn registry_wf(v: Seq<OrgView>) -> bool {
    &&& forall|i: int| 0 <= i < v.len() ==> org_wf(#[trigger] v[i])
    &&& forall|i: int, j: int|
        #![trigger v[i].name, v[j].name]
        0 <= i < v.len() && 0 <= j < v.len() && i != j ==> v[i].name != v[j].name
}

/// Nothing is lost between `before` and `after`: no organization disappears
/// or changes creator or name, and each one's members and claims only grow,
/// keeping the earlier ones in place.
pub open spec fn only_grows(before: Seq<OrgView>, after: Seq<OrgView>) -> bool {
    &&& after.len() >= before.len()
    &&& forall|i: int|
        0 <= i < before.len() ==> {
            &&& #[trigger] after[i].creator == before[i].creator
            &&& after[i].name == before[i].name
            &&& after[i].members.len() >= before[i].members.len()
            &&& forall|k: int|
                0 <= k < before[i].members.len() ==> #[trigger] after[i].members[k]
                    == before[i].members[k]
            &&& after[i].claims.len() >= before[i].claims.len()
            &&& forall|k: int|
                0 <= k < before[i].claims.len() ==> #[trigger] after[i].claims[k]
                    == before[i].claims[k]
        }
}

/// Outcome of creating an organization named `name` by `caller`.
pub open spec fn create_outcome(v: Seq<OrgView>, name: Seq<char>, caller: Principal) -> Result<
    Seq<OrgView>,
    ErrorCode,
> {
    if name.len() == 0 {
        Err(ErrorCode::InvalidInput)
    } else if has_org(v, name) {
        Err(ErrorCode::AlreadyExists)
    } else {
        Ok(
            v.push(
                OrgView { creator: caller, name, members: seq![caller], claims: Seq::empty() },
            ),
        )
    }
}

/// Outcome of adding `new_member` to the organization `org_name` by `caller`.
pub open spec fn add_member_outcome(
    v: Seq<OrgView>,
    org_name: Seq<char>,
    new_member: Principal,
    caller: Principal,
) -> Result<Seq<OrgView>, ErrorCode> {
    if !has_org(v, org_name) {
        Err(ErrorCode::NotFound)
    } else {
        let i = org_index(v, org_name);
        let o = v[i];
        if !o.members.contains(caller) {
            Err(ErrorCode::Unauthorized)
        } else if o.members.contains(new_member) {
            Err(ErrorCode::AlreadyExists)
        } else {
            Ok(v.update(i, OrgView { members: o.members.push(new_member), ..o }))
        }
    }
}

/// Outcome of adding a claim to the organization `org_name` by `caller`.
pub open spec fn add_org_claim_outcome(
    v: Seq<OrgView>,
    org_name: Seq<char>,
    claim_id: String,
    json_url: String,
    data_hash: [u8; 32],
    caller: Principal,
    now: i64,
) -> Result<Seq<OrgView>, ErrorCode> {
    if !has_org(v, org_name) {
        Err(ErrorCode::NotFound)
    } else {
        let i = org_index(v, org_name);
        let o = v[i];
        if !o.members.contains(caller) {
            Err(ErrorCode::Unauthorized)
        } else if has_claim_id(o, claim_id@) {
            Err(ErrorCode::AlreadyExists)
        } else {
            let c = OrgClaim { claim_id, json_url, data_hash, creator: caller, created_at: now };
            Ok(v.update(i, OrgView { claims: o.claims.push(c), ..o }))
        }
    }
}

/// The request's result and new state agree with the expected `outcome`;
/// on failure the state is unchanged.
pub open spec fn applied(
    outcome: Result<Seq<OrgView>, ErrorCode>,
    r: Result<(), ErrorCode>,
    before: Seq<OrgView>,
    after: Seq<OrgView>,
) -> bool {
    match outcome {
        Ok(v) => r is Ok && after == v,
        Err(e) => r == Err::<(), ErrorCode>(e) && after == before,
    }
}

fn contains_member(members: &Vec<Principal>, p: &Principal) -> (r: bool)
    ensures
        r == members@.contains(*p),
{
    let mut i: usize = 0;
    while i < members.len()
        invariant
            0 <= i <= members@.len(),
            forall|j: int| 0 <= j < i ==> members@[j] != *p,
        decreases members@.len() - i,
    {
        if keys_equal(&members[i].key, &p.key) {
            assert(members@[i as int] == *p);
            return true;
        }
        i = i + 1;
    }
    false
}

fn contains_claim_id(claims: &Vec<OrgClaim>, claim_id: &String) -> (r: bool)
    ensures
        r == exists|k: int| 0 <= k < claims@.len() && #[trigger] claims@[k].claim_id@ == claim_id@,
{
    let mut i: usize = 0;
    while i < claims.len()
        invariant
            0 <= i <= claims@.len(),
            forall|k: int| 0 <= k < i ==> #[trigger] claims@[k].claim_id@ != claim_id@,
        decreases claims@.len() - i,
    {
        if claims[i].claim_id == *claim_id {
            return true;
        }
        i = i + 1;
    }
    false
}

impl OrgRegistry {
    /// Creates a registry with no organization.
    pub fn new() -> (r: OrgRegistry)
        ensures
            r@ == Seq::<OrgView>::empty(),
            registry_wf(r@),
    {
        let r = OrgRegistry { organizations: Vec::new() };
        assert(r@ =~= Seq::<OrgView>::empty());
        r
    }

    /// The position of the organization named `name`, if there is one.
    pub fn find_organization(&self, name: &String) -> (r: Option<usize>)
        requires
            registry_wf(self@),
        ensures
            r is None <==> !has_org(self@, name@),
            r is Some ==> r->Some_0 < self@.len() && r->Some_0 == org_index(self@, name@),
    {
        let mut i: usize = 0;
        while i < self.organizations.len()
            invariant
                0 <= i <= self@.len(),
                registry_wf(self@),
                forall|j: int| 0 <= j < i ==> #[trigger] self@[j].name != name@,
            decreases self@.len() - i,
        {
            if self.organizations[i].name == *name {
                assert(self@[i as int].name == name@);
                assert(has_org(self@, name@));
                let ghost k = org_index(self@, name@);
                assert(0 <= k < self@.len() && self@[k].name == name@);
                assert(k == i);
                return Some(i);
            }
            i = i + 1;
        }
        None
    }

    /// Creates an organization named `name` whose creator and only member is
    /// `caller`. Fails on an empty name or a name already taken (exact,
    /// case-sensitive match).
    pub fn create_organization(&mut self, name: String, caller: Principal) -> (r: Result<
        (),
        ErrorCode,
    >)
        requires
            registry_wf(old(self)@),
        ensures
            applied(create_outcome(old(self)@, name@, caller), r, old(self)@, final(self)@),
            registry_wf(final(self)@),
            only_grows(old(self)@, final(self)@),
    {
        if name.as_str().is_empty() {
            return Err(ErrorCode::InvalidInput);
        }
        match self.find_organization(&name) {
            Some(_) => {
                return Err(ErrorCode::AlreadyExists);
            },
            None => {},
        }
        let ghost before = self@;
        let org = Organization { creator: caller, name, members: vec![caller], claims: Vec::new() };
        assert(org@.members =~= seq![caller]);
        assert(org@.members[0] == caller);
        self.organizations.push(org);
        assert(self@ =~= before.push(
            OrgView { creator: caller, name: org@.name, members: seq![caller], claims: Seq::empty() },
        ));
        assert(org_wf(self@[before.len() as int]));
        Ok(())
    }

    /// Admits `new_member` to the organization `org_name`. Fails when the
    /// organization does not exist, when `caller` is not one of its members,
    /// or when `new_member` already is.
    pub fn add_member(&mut self, org_name: &String, new_member: Principal, caller: Principal) -> (r:
        Result<(), ErrorCode>)
        requires
            registry_wf(old(self)@),
        ensures
            applied(
                add_member_outcome(old(self)@, org_name@, new_member, caller),
                r,
                old(self)@,
                final(self)@,
            ),
            registry_wf(final(self)@),
            only_grows(old(self)@, final(self)@),
    {
        let i = match self.find_organization(org_name) {
            Some(i) => i,
            None => {
                return Err(ErrorCode::NotFound);
            },
        };
        if !contains_member(&self.organizations[i].members, &caller) {
            return Err(ErrorCode::Unauthorized);
        }
        if contains_member(&self.organizations[i].members, &new_member) {
            return Err(ErrorCode::AlreadyExists);
        }
        let ghost before = self@;
        let ghost o = before[i as int];
        self.organizations[i].members.push(new_member);
        assert(self@ =~= before.update(i as int, OrgView { members: o.members.push(new_member), ..o }));
        assert(self@[i as int].members[o.members.len() as int] == new_member);
        assert(o.members.contains(o.creator));
        let ghost c = choose|k: int| 0 <= k < o.members.len() && o.members[k] == o.creator;
        assert(self@[i as int].members[c] == o.creator);
        Ok(())
    }

    /// Adds a claim to the organization `org_name`, stamped with `now`.
    /// Fails when the organization does not exist, when `caller` is not one
    /// of its members, or when the organization already has a claim with
    /// this identifier.
    pub fn add_claim(
        &mut self,
        org_name: &String,
        claim_id: String,
        json_url: String,
        data_hash: [u8; 32],
        caller: Principal,
        now: i64,
    ) -> (r: Result<(), ErrorCode>)
        requires
            registry_wf(old(self)@),
        ensures
            applied(
                add_org_claim_outcome(old(self)@, org_name@, claim_id, json_url, data_hash, caller, now),
                r,
                old(self)@,
                final(self)@,
            ),
            registry_wf(final(self)@),
            only_grows(old(self)@, final(self)@),
    {
        let i = match self.find_organization(org_name) {
            Some(i) => i,
            None => {
                return Err(ErrorCode::NotFound);
            },
        };
        if !contains_member(&self.organizations[i].members, &caller) {
            return Err(ErrorCode::Unauthorized);
        }
        if contains_claim_id(&self.organizations[i].claims, &claim_id) {
            return Err(ErrorCode::AlreadyExists);
        }
        let ghost before = self@;
        let ghost o = before[i as int];
        let c = OrgClaim { claim_id, json_url, data_hash, creator: caller, created_at: now };
        self.organizations[i].claims.push(c);
        assert(self@ =~= before.update(i as int, OrgView { claims: o.claims.push(c), ..o }));
        Ok(())
    }
}

/// A name already taken is refused with `AlreadyExists`, leaving the state
/// unchanged; a successful creation keeps all names distinct.
pub proof fn lemma_organization_names_stay_unique(v: Seq<OrgView>, name: Seq<char>, caller: Principal)
    requires
        registry_wf(v),
    ensures
        has_org(v, name) ==> create_outcome(v, name, caller) == Err::<Seq<OrgView>, ErrorCode>(
            ErrorCode::AlreadyExists,
        ) || name.len() == 0,
        create_outcome(v, name, caller) is Ok ==> {
            let w = create_outcome(v, name, caller)->Ok_0;
            forall|i: int, j: int|
                #![trigger w[i].name, w[j].name]
                0 <= i < w.len() && 0 <= j < w.len() && i != j ==> w[i].name != w[j].name
        },
{
}

/// Every organization keeps its creator among its members, and membership
/// only grows, whichever operation succeeds.
pub proof fn lemma_membership_only_grows(
    v: Seq<OrgView>,
    org_name: Seq<char>,
    new_member: Principal,
    claim_id: String,
    json_url: String,
    data_hash: [u8; 32],
    caller: Principal,
    now: i64,
)
    requires
        registry_wf(v),
    ensures
        create_outcome(v, org_name, caller) is Ok ==> creators_are_members(
            create_outcome(v, org_name, caller)->Ok_0,
        ) && only_grows(v, create_outcome(v, org_name, caller)->Ok_0),
        add_member_outcome(v, org_name, new_member, caller) is Ok ==> creators_are_members(
            add_member_outcome(v, org_name, new_member, caller)->Ok_0,
        ) && only_grows(v, add_member_outcome(v, org_name, new_member, caller)->Ok_0),
        add_org_claim_outcome(v, org_name, claim_id, json_url, data_hash, caller, now) is Ok
            ==> creators_are_members(
            add_org_claim_outcome(v, org_name, claim_id, json_url, data_hash, caller, now)->Ok_0,
        ) && only_grows(
            v,
            add_org_claim_outcome(v, org_name, claim_id, json_url, data_hash, caller, now)->Ok_0,
        ),
{
    if create_outcome(v, org_name, caller) is Ok {
        let w = create_outcome(v, org_name, caller)->Ok_0;
        assert(w[v.len() as int].members[0] == caller);
    }
    if add_member_outcome(v, org_name, new_member, caller) is Ok {
        let i = org_index(v, org_name);
        let o = v[i];
        let w = add_member_outcome(v, org_name, new_member, caller)->Ok_0;
        let c = choose|k: int| 0 <= k < o.members.len() && o.members[k] == o.creator;
        assert(w[i].members[c] == o.creator);
    }
}

/// Each organization counts its creator among its members.
pub open spec fn creators_are_members(v: Seq<OrgView>) -> bool {
    forall|i: int| 0 <= i < v.len() ==> (#[trigger] v[i]).members.contains(v[i].creator)
}

/// A caller who is not a member of an existing organization can neither
/// admit members to it nor add claims to it: both fail with `Unauthorized`.
pub proof fn lemma_non_member_is_refused(
    v: Seq<OrgView>,
    org_name: Seq<char>,
    new_member: Principal,
    claim_id: String,
    json_url: String,
    data_hash: [u8; 32],
    caller: Principal,
    now: i64,
)
    requires
        has_org(v, org_name),
        !v[org_index(v, org_name)].members.contains(caller),
    ensures
        add_member_outcome(v, org_name, new_member, caller) == Err::<Seq<OrgView>, ErrorCode>(
            ErrorCode::Unauthorized,
        ),
        add_org_claim_outcome(v, org_name, claim_id, json_url, data_hash, caller, now) == Err::<
            Seq<OrgView>,
            ErrorCode,
        >(ErrorCode::Unauthorized),
{
}

/// A claim identifier already present in the organization is refused with
/// `AlreadyExists`, and nothing is appended.
pub proof fn lemma_duplicate_org_claim_rejected(
    v: Seq<OrgView>,
    org_name: Seq<char>,
    claim_id: String,
    json_url: String,
    data_hash: [u8; 32],
    caller: Principal,
    now: i64,
)
    requires
        has_org(v, org_name),
        v[org_index(v, org_name)].members.contains(caller),
        has_claim_id(v[org_index(v, org_name)], claim_id@),
    ensures
        add_org_claim_outcome(v, org_name, claim_id, json_url, data_hash, caller, now) == Err::<
            Seq<OrgView>,
            ErrorCode,
        >(ErrorCode::AlreadyExists),
{
}

} // verus!
