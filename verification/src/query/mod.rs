pub mod evolution;
pub mod species;
pub mod post_count;
