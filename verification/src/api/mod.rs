pub mod campaign;
pub mod feedback;
