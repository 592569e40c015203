pub mod echo;
pub mod unique;
pub mod broadcast;
