pub mod cpi;
pub mod mango_markets_v3;
pub mod spl_governance_v2;
pub mod marinade;
pub mod token;
