//! What the calls of the library come to, each law stated over the arguments and the results of the
//! calls themselves.
pub mod board;
pub mod contexts;
pub mod listings;
pub mod methods;
pub mod presses;
