//! The core of a small web service, with its behaviour stated as contracts
//! and checked by Verus:
//!
//! - `octets`: wrapping arithmetic on IPv4 octets and xor on IPv6 segments;
//! - `limiter`: a token bucket with a capped refill;
//! - `grid`: a four-by-four drop-in game with win detection and random fill;
//! - `orders`: checking a gift-order manifest and listing its orders;
//! - `rng`: the seeded random stream, modelled by its seed and draw count;
//! - `service`: the requests, as transitions of the shared state.

pub mod grid;
pub mod limiter;
pub mod octets;
pub mod orders;
mod parsed;
pub mod reply;
pub mod rng;
pub mod service;
pub mod text;

pub use octets::{add_overflow, sub_overflow, task1, task1_v6, task2, task2_v6, xor, Task1, Task2, Task3};
pub use grid::{Game, GameError, Item, parse_team};
pub use limiter::{RateLimiter, CAPACITY};
pub use orders::{day5_manifest, format_orders, manifest_answer, ManifestCheck, Order};
pub use reply::Reply;
pub use service::{board, game_board, milk, place, random_board, refill, request_unit, reset, AppState, Unit};
