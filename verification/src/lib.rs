//! HexGo: game-session rules, localisation, menu and training-pipeline
//! logic of a Go variant played on the vertices of a hexagonal board graph.

pub mod batch;
pub mod client;
pub mod dummy_network;
pub mod encoder;
pub mod evaluation;
pub mod game;
pub mod i18n;
pub mod layout;
pub mod menu;
pub mod model;
pub mod pipeline;
pub mod rules_summary;
pub mod self_play;
pub mod session;
pub mod sync;
pub mod text;
