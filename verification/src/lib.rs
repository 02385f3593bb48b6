//! A crowdfunding campaign as a verified state machine.
//!
//! A campaign collects contributions towards a goal until a deadline. Once the
//! goal is reached the creator may withdraw what was raised; if the deadline
//! passes below the goal, every contributor may take back what they put in.
//!
//! - [`model`] says what a campaign is and what each operation does to it, in
//!   mathematical terms, and [`ledger`] what the sum of a ledger is.
//! - [`laws`] proves what holds of every campaign: funds are conserved, a
//!   status once reached is kept, the creator is paid once, a contributor is
//!   refunded once.
//! - [`campaign`] holds the campaign in memory and carries the operations
//!   out, proved against the model. It moves no funds and publishes nothing:
//!   an accepted operation hands back, as a [`receipt`], what the host is to do.
//! - [`host`] is what is trusted of the host: the ledger it keeps and the clock
//!   it reads.

pub mod campaign;
pub mod error;
pub mod host;
pub mod laws;
pub mod ledger;
pub mod model;
pub mod receipt;
pub mod status;

pub use campaign::{Campaign, Crowdfunding};
pub use error::CampaignError;
pub use receipt::{CampaignEvent, Settlement, Transfer};
pub use status::CampaignStatus;
