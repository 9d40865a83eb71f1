pub mod controller;
