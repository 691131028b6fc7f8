pub mod bits;
pub mod board;
pub mod game;
pub mod model;

pub use board::Board;
pub use game::Game;
pub use model::ErrorKind;
pub use model::Mark;
pub use model::Square;
pub use model::Triple;
