//! The store of campaigns and its operations.

use std::collections::HashMap;
use vstd::prelude::*;

use crate::amount::{decimal_u128, parse_amount};
use crate::fundraiser::{ContractError, Field, Fundraiser, FundraiserPurpose, Transfer};

verus! {

/// What `get_fundraiser_by_id` returns on a store whose campaigns are `m`.
pub open spec fn get_outcome(m: Map<u8, Fundraiser>, id: u8) -> Result<Fundraiser, ContractError> {
    if m.contains_key(id) {
        Ok(m[id])
    } else {
        Err(ContractError::NotFound)
    }
}

/// Why a campaign with these fields cannot be created on a store whose
/// counter is `total`, if it cannot. The goal text is read first, then the
/// text fields in order, then the goal's value, then the room for a new id.
pub open spec fn creation_error(
    title: Seq<char>,
    description: Seq<char>,
    banner_image: Seq<char>,
    fundraising_amount: Seq<char>,
    total: u8,
) -> Option<ContractError> {
    if decimal_u128(fundraising_amount) is None {
        Some(ContractError::InvalidAmount)
    } else if title.len() == 0 {
        Some(ContractError::EmptyField(Field::Title))
    } else if description.len() == 0 {
        Some(ContractError::EmptyField(Field::Description))
    } else if banner_image.len() == 0 {
        Some(ContractError::EmptyField(Field::Banner))
    } else if decimal_u128(fundraising_amount) == Some(0u128) {
        Some(ContractError::ZeroGoal)
    } else if total == u8::MAX {
        Some(ContractError::IdSpaceExhausted)
    } else {
        None
    }
}

/// The campaigns and the counter after a creation on a store with campaigns
/// `m` and counter `total`: the new campaign takes the id `total + 1`, the
/// caller as owner, and nothing donated yet.
pub open spec fn create_outcome(
    m: Map<u8, Fundraiser>,
    total: u8,
    title: String,
    description: String,
    banner_image: String,
    fundraising_amount: Seq<char>,
    fundraising_purpose: FundraiserPurpose,
    owner_id: String,
) -> Result<(Map<u8, Fundraiser>, u8), ContractError> {
    match creation_error(title@, description@, banner_image@, fundraising_amount, total) {
        Some(e) => Err(e),
        None => {
            let id = (total + 1) as u8;
            Ok(
                (
                    m.insert(
                        id,
                        Fundraiser {
                            owner_id,
                            title,
                            description,
                            banner_image,
                            total_donated: 0,
                            fundraising_amount: decimal_u128(fundraising_amount)->Some_0,
                            fundraising_purpose,
                        },
                    ),
                    id,
                ),
            )
        },
    }
}

/// The campaigns after a donation of `deposit` to campaign `id` of `m`.
pub open spec fn donate_outcome(m: Map<u8, Fundraiser>, id: u8, deposit: u128) -> Result<
    Map<u8, Fundraiser>,
    ContractError,
> {
    if !m.contains_key(id) {
        Err(ContractError::NotFound)
    } else if m[id].total_donated + deposit > u128::MAX {
        Err(ContractError::Overflow)
    } else {
        Ok(
            m.insert(
                id,
                Fundraiser { total_donated: (m[id].total_donated + deposit) as u128, ..m[id] },
            ),
        )
    }
}

/// The campaigns after donations of `amounts`, in order, to campaign `id` of
/// `m`, or the first rejection.
pub open spec fn donations_outcome(m: Map<u8, Fundraiser>, id: u8, amounts: Seq<u128>) -> Result<
    Map<u8, Fundraiser>,
    ContractError,
>
    decreases amounts.len(),
{
    if amounts.len() == 0 {
        Ok(m)
    } else {
        match donations_outcome(m, id, amounts.drop_last()) {
            Ok(m1) => donate_outcome(m1, id, amounts.last()),
            Err(e) => Err(e),
        }
    }
}

/// The sum of `amounts`.
pub open spec fn sum_of(amounts: Seq<u128>) -> int
    decreases amounts.len(),
{
    if amounts.len() == 0 {
        0
    } else {
        sum_of(amounts.drop_last()) + amounts.last()
    }
}

/// The ledger: campaigns keyed by id, and the number of campaigns ever created.
pub struct Contract {
    pub fundraisers: HashMap<u8, Fundraiser>,
    pub total_fundraisers: u8,
}

impl Contract {
    /// The ids in use are exactly `1..=total_fundraisers`.
    pub open spec fn wf(&self) -> bool {
        forall|id: u8| #[trigger]
            self.fundraisers@.contains_key(id) <==> 1 <= id <= self.total_fundraisers
    }

    /// An empty store.
    pub fn new() -> (r: Self)
        ensures
            r.wf(),
            r.fundraisers@ == Map::<u8, Fundraiser>::empty(),
            r.total_fundraisers == 0,
    {
        Contract { fundraisers: HashMap::new(), total_fundraisers: 0 }
    }

    /// An empty store, unless the host already holds one.
    pub fn init(state_exists: bool) -> (r: Result<Self, ContractError>)
        ensures
            state_exists ==> r == Err::<Self, ContractError>(ContractError::AlreadyInitialized),
            !state_exists ==> r is Ok && r->Ok_0.wf() && r->Ok_0.fundraisers@ == Map::<
                u8,
                Fundraiser,
            >::empty() && r->Ok_0.total_fundraisers == 0,
    {
        if state_exists {
            Err(ContractError::AlreadyInitialized)
        } else {
            Ok(Contract::new())
        }
    }

    /// Every campaign with its id.
    pub fn get_all_fundraisers(&self) -> (r: HashMap<u8, Fundraiser>)
        ensures
            r@ == self.fundraisers@,
    {
        self.fundraisers.clone()
    }

    /// The campaign with id `id`.
    pub fn get_fundraiser_by_id(&self, id: u8) -> (r: Result<Fundraiser, ContractError>)
        ensures
            r == get_outcome(self.fundraisers@, id),
    {
        match self.fundraisers.get(&id) {
            Some(f) => Ok(f.clone()),
            None => Err(ContractError::NotFound),
        }
    }

    /// Adds a campaign owned by `owner_id` under the id `total_fundraisers + 1`,
    /// with the goal that `fundraising_amount` writes in decimal.
    pub fn add_new_fundraiser(
        &mut self,
        title: String,
        description: String,
        banner_image: String,
        fundraising_amount: String,
        fundraising_purpose: FundraiserPurpose,
        owner_id: String,
    ) -> (r: Result<(), ContractError>)
        requires
            old(self).wf(),
        ensures
            final(self).wf(),
            match create_outcome(
                old(self).fundraisers@,
                old(self).total_fundraisers,
                title,
                description,
                banner_image,
                fundraising_amount@,
                fundraising_purpose,
                owner_id,
            ) {
                Ok((m, total)) => r is Ok && final(self).fundraisers@ == m
                    && final(self).total_fundraisers == total,
                Err(e) => r == Err::<(), ContractError>(e) && final(self).fundraisers@ == old(
                    self,
                ).fundraisers@ && final(self).total_fundraisers == old(self).total_fundraisers,
            },
    {
        let goal = match parse_amount(fundraising_amount.as_str()) {
            Some(v) => v,
            None => {
                return Err(ContractError::InvalidAmount);
            },
        };
        if title.as_str().is_empty() {
            return Err(ContractError::EmptyField(Field::Title));
        }
        if description.as_str().is_empty() {
            return Err(ContractError::EmptyField(Field::Description));
        }
        if banner_image.as_str().is_empty() {
            return Err(ContractError::EmptyField(Field::Banner));
        }
        if goal == 0 {
            return Err(ContractError::ZeroGoal);
        }
        if self.total_fundraisers == u8::MAX {
            return Err(ContractError::IdSpaceExhausted);
        }
        let id: u8 = self.total_fundraisers + 1;
        self.total_fundraisers = id;
        self.fundraisers.insert(
            id,
            Fundraiser {
                owner_id,
                title,
                description,
                banner_image,
                total_donated: 0,
                fundraising_amount: goal,
                fundraising_purpose,
            },
        );
        Ok(())
    }

    /// Records a donation of `deposit` to campaign `fundraiser_id` and returns
    /// the transfer of the whole deposit to the campaign's owner.
    pub fn donate(&mut self, fundraiser_id: u8, deposit: u128) -> (r: Result<Transfer, ContractError>)
        requires
            old(self).wf(),
        ensures
            final(self).wf(),
            final(self).total_fundraisers == old(self).total_fundraisers,
            match donate_outcome(old(self).fundraisers@, fundraiser_id, deposit) {
                Ok(m) => r is Ok && r->Ok_0.receiver_id == old(self).fundraisers@[fundraiser_id].owner_id
                    && r->Ok_0.amount == deposit && final(self).fundraisers@ == m,
                Err(e) => r is Err && r->Err_0 == e && final(self).fundraisers@ == old(self).fundraisers@,
            },
    {
        let mut fundraiser = match self.fundraisers.get(&fundraiser_id) {
            Some(f) => f.clone(),
            None => {
                return Err(ContractError::NotFound);
            },
        };
        fundraiser.total_donated = match fundraiser.total_donated.checked_add(deposit) {
            Some(t) => t,
            None => {
                return Err(ContractError::Overflow);
            },
        };
        let receiver_id = fundraiser.owner_id.clone();
        self.fundraisers.insert(fundraiser_id, fundraiser);
        Ok(Transfer { receiver_id, amount: deposit })
    }
}

} // verus!

verus! {

/// After a successful creation the counter has grown by one, and the new
/// campaign is what a lookup of the new counter value returns.
pub proof fn lemma_created_fundraiser_is_retrievable(
    m: Map<u8, Fundraiser>,
    total: u8,
    title: String,
    description: String,
    banner_image: String,
    fundraising_amount: Seq<char>,
    fundraising_purpose: FundraiserPurpose,
    owner_id: String,
)
    requires
        create_outcome(
            m,
            total,
            title,
            description,
            banner_image,
            fundraising_amount,
            fundraising_purpose,
            owner_id,
        ) is Ok,
    ensures
        ({
            let (m2, total2) = create_outcome(
                m,
                total,
                title,
                description,
                banner_image,
                fundraising_amount,
                fundraising_purpose,
                owner_id,
            )->Ok_0;
            &&& total2 == total + 1
            &&& get_outcome(m2, total2) == Ok::<Fundraiser, ContractError>(
                Fundraiser {
                    owner_id,
                    title,
                    description,
                    banner_image,
                    total_donated: 0,
                    fundraising_amount: decimal_u128(fundraising_amount)->Some_0,
                    fundraising_purpose,
                },
            )
        }),
{
}

/// A lookup of an id that no creation has handed out yet (zero, or above the
/// counter) is rejected as not found.
pub proof fn lemma_unknown_id_not_found(c: Contract, id: u8)
    requires
        c.wf(),
        id == 0 || id > c.total_fundraisers,
    ensures
        get_outcome(c.fundraisers@, id) == Err::<Fundraiser, ContractError>(ContractError::NotFound),
{
}

/// With a readable goal, a creation with an empty title, description or
/// banner is rejected for that field, and the store is left as it was.
pub proof fn lemma_empty_field_rejected(
    m: Map<u8, Fundraiser>,
    total: u8,
    title: String,
    description: String,
    banner_image: String,
    fundraising_amount: Seq<char>,
    fundraising_purpose: FundraiserPurpose,
    owner_id: String,
)
    requires
        title@.len() == 0 || description@.len() == 0 || banner_image@.len() == 0,
        decimal_u128(fundraising_amount) is Some,
    ensures
        create_outcome(
            m,
            total,
            title,
            description,
            banner_image,
            fundraising_amount,
            fundraising_purpose,
            owner_id,
        ) is Err,
        create_outcome(
            m,
            total,
            title,
            description,
            banner_image,
            fundraising_amount,
            fundraising_purpose,
            owner_id,
        )->Err_0 is EmptyField,
{
}

/// Donations to one campaign add up: when every donation of `amounts` is
/// accepted, the campaign's total has grown by their sum (so a fresh campaign
/// holds exactly the sum), and no other field or campaign has changed.
pub proof fn lemma_donations_accumulate(m: Map<u8, Fundraiser>, id: u8, amounts: Seq<u128>)
    requires
        donations_outcome(m, id, amounts) is Ok,
    ensures
        ({
            let m2 = donations_outcome(m, id, amounts)->Ok_0;
            &&& m.contains_key(id) || amounts.len() == 0
            &&& m2.dom() == m.dom()
            &&& forall|k: u8| k != id && #[trigger] m.contains_key(k) ==> m2[k] == m[k]
            &&& m.contains_key(id) ==> m2[id].total_donated == m[id].total_donated + sum_of(amounts)
            &&& m.contains_key(id) ==> m2[id] == (Fundraiser {
                total_donated: m2[id].total_donated,
                ..m[id]
            })
        }),
    decreases amounts.len(),
{
    if amounts.len() > 0 {
        lemma_donations_accumulate(m, id, amounts.drop_last());
        let m1 = donations_outcome(m, id, amounts.drop_last())->Ok_0;
        let m2 = donations_outcome(m, id, amounts)->Ok_0;
        assert(m2 == m1.insert(id, Fundraiser { total_donated: (m1[id].total_donated + amounts.last()) as u128, ..m1[id] }));
        assert(m2.dom() =~= m.dom());
    }
}

} // verus!
