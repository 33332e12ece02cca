//! Rule engine for Chinese chess (xiangqi): the board, the legal destinations
//! of every kind of piece, reversible moves with a history, and the turn
//! state machine on top of them.

pub mod chess;
pub mod chess_rule;
pub mod error;
pub mod game;
pub mod network;
pub mod piece;
pub mod point;
pub mod rules;
pub mod server;
pub mod track;
pub mod user;
pub mod xiangqi;
