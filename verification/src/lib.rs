//! Layered URL-classification engine for suppressing advertising, tracking
//! and analytics requests during automated page loading.
//!
//! The core is a character trie answering "is any stored pattern a literal
//! prefix of this text?", a registry of such tries partitioned by resource
//! type, a router mapping a page origin to a known-site category, and a
//! decision procedure combining the trie verdicts with per-site overrides.

pub mod adblock;
pub mod intercept_manager;
pub mod scripts;
pub mod trie;
pub mod xhr;
