pub mod continuum;
pub mod custom_widgets;
pub mod game;
