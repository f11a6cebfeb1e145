//! A minimal blog-redirect library: turns a request path into a URL-safe
//! slug and builds the permanent-redirect response pointing at the blog host.

pub mod response;
pub mod slug;
