//! Issues, persists and verifies short-lived opaque tokens, as used by an
//! out-of-band mutual-verification handshake. A token is a namespaced string
//! bound to an owning entity ("foreign id") and kept in a backing store.

pub mod error;
pub mod genid;
pub mod token;
