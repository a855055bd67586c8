pub mod buy;
pub mod new_market;
pub mod sell;
pub mod sponsored_burn;
