pub mod callback;
pub mod channels;
pub mod create_vault;
pub mod deposit;
pub mod ica;
pub mod move_funds;
pub mod withdraw;

pub use withdraw::try_withdraw;
