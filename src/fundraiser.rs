//! The campaign record and the values that the ledger's operations return.

use vstd::prelude::*;

verus! {

/// The cause that a campaign raises money for.
#[derive(Clone, Copy, Debug, PartialEq, Eq, Structural)]
pub enum FundraiserPurpose {
    Medicine,
    Children,
    Disability,
    Environment,
    Animal,
    Education,
}

/// One campaign. Amounts are in the smallest monetary unit.
#[derive(Debug)]
pub struct Fundraiser {
    /// The account that created the campaign.
    pub owner_id: String,
    pub title: String,
    pub description: String,
    pub banner_image: String,
    /// The sum of all donations accepted for this campaign.
    pub total_donated: u128,
    /// The target amount; informational only.
    pub fundraising_amount: u128,
    pub fundraising_purpose: FundraiserPurpose,
}

impl Clone for Fundraiser {
    fn clone(&self) -> (r: Self)
        ensures
            r == *self,
    {
        Fundraiser {
            owner_id: self.owner_id.clone(),
            title: self.title.clone(),
            description: self.description.clone(),
            banner_image: self.banner_image.clone(),
            total_donated: self.total_donated,
            fundraising_amount: self.fundraising_amount,
            fundraising_purpose: self.fundraising_purpose,
        }
    }
}

/// A text field of a campaign that must not be empty.
#[derive(Clone, Copy, Debug, PartialEq, Eq, Structural)]
pub enum Field {
    Title,
    Description,
    Banner,
}

impl Field {
    /// The field's name as it is reported to callers.
    pub fn name(&self) -> (r: &'static str)
        ensures
            r@ == self.spec_name(),
    {
        match self {
            Field::Title => "title",
            Field::Description => "description",
            Field::Banner => "banner",
        }
    }

    pub open spec fn spec_name(&self) -> Seq<char> {
        match self {
            Field::Title => "title"@,
            Field::Description => "description"@,
            Field::Banner => "banner"@,
        }
    }
}

/// Why an operation of the ledger was rejected. A rejected operation leaves
/// the ledger as it was and requests no transfer.
#[derive(Clone, Copy, Debug, PartialEq, Eq, Structural)]
pub enum ContractError {
    AlreadyInitialized,
    NotFound,
    EmptyField(Field),
    InvalidAmount,
    ZeroGoal,
    IdSpaceExhausted,
    Overflow,
}

/// A request to the host to move `amount` to the account `receiver_id`.
#[derive(Debug)]
pub struct Transfer {
    pub receiver_id: String,
    pub amount: u128,
}

} // verus!
