//! Structural patterns: how objects are composed into larger structures.

pub mod adapter;
pub mod bridge;
pub mod composite;
pub mod decorator;
pub mod facade;
pub mod flyweight;
pub mod proxy;
pub mod proxy_nginx;
