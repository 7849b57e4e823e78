//! Room reservations: users, rooms and bookings, each kept in a store and
//! mirrored by an in-process cache that answers existence, uniqueness and
//! collision queries.

pub mod book_service;
pub mod booking;
pub mod bootstrap;
pub mod cache;
pub mod config;
pub mod domain;
pub mod dto;
pub mod error;
pub mod laws;
pub mod memory;
pub mod repo;
pub mod room_service;
pub mod text;
pub mod user_service;
