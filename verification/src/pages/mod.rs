pub mod campaigns;
pub mod errors;
