pub mod initialize_transfer;
pub mod redeem_funds;
pub mod refund_funds;

pub use initialize_transfer::{
    initialize_transfer_sol, initialize_transfer_spl, InitializeTransferSOL,
    InitializeTransferSPL,
};
pub use redeem_funds::{redeem_funds_sol, redeem_funds_spl, RedeemFundsSOL, RedeemFundsSPL};
pub use refund_funds::{refund_funds_sol, refund_funds_spl, RefundFundsSOL, RefundFundsSPL};
