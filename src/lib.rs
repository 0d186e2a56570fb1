pub mod camera;
pub mod clock;
pub mod cmap;
pub mod composite;
pub mod controller;
pub mod viewer;
pub mod volume;
