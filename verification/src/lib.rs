//! Verified core of the Cooperative Systems: Spaces server.

pub mod text;
pub mod cards;
pub mod stripe;
pub mod errors;
pub mod models;
pub mod auth;
pub mod webhooks;
pub mod smtp;
pub mod groupsio_sink;
pub mod decimal;
pub mod loader;
pub mod toolguard;
pub mod home_links;
pub mod accounts;
pub mod doors;
pub mod devices;
pub mod config;
pub mod membership;
pub mod groupsio;
pub mod toolpass;
pub mod mfa;
pub mod places;
pub mod power;
pub mod rbac;
pub mod tool_modules;
pub mod tool_tiers;
pub mod tools;
pub mod training;
pub mod schedules;
pub mod admin;
pub mod stripe_events;
pub mod bypass;
pub mod cmi5;
pub mod profiles;
pub mod cli;
pub mod backfill;
pub mod stripe_sink;
pub mod calendar;
pub mod pages;
