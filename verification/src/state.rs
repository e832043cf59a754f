pub mod escrow_account;
pub mod escrow_sol_account;
pub mod layout;

pub use escrow_account::EscrowAccount;
pub use escrow_sol_account::EscrowSOLAccount;
