//! The rules of the web front: errors and their pages, the cookie approval
//! gate, the session token claims, and the decisions of the controllers and
//! pages.

pub mod auth;
pub mod controllers;
pub mod entities;
pub mod error;
pub mod middleware;
pub mod pages;
