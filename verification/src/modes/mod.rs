pub mod earthquake;
pub mod flood;
pub mod landslide;
pub mod wildfire;
