pub mod content;
pub mod player;
pub mod puzzle;
pub mod radio;
pub mod scene;
pub mod shapes;
pub mod transition;
pub mod tv_game;
