//! A ledger of crowdfunding campaigns: campaigns are created under sequential
//! 8-bit identifiers, and donations to a campaign are added to its running
//! total and forwarded to its owner.

mod amount;
mod contract;
mod fundraiser;

pub use amount::{decimal_digits_value, decimal_u128, is_decimal_digit, unsigned_digits};
pub use contract::{
    create_outcome, creation_error, donate_outcome, donations_outcome, get_outcome,
    lemma_created_fundraiser_is_retrievable, lemma_donations_accumulate,
    lemma_empty_field_rejected, lemma_unknown_id_not_found, sum_of, Contract,
};
pub use fundraiser::{ContractError, Field, Fundraiser, FundraiserPurpose, Transfer};
