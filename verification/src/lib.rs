//! Core logic of the LaBerry chat server: input normalisation, content-type
//! detection, text escaping and encoding, hashing, access decisions and the
//! HTML fragments of the administration panel.

pub mod text;
pub mod patterns;
pub mod sha256;
pub mod paths;
pub mod filetype;
pub mod encoding;
pub mod html;
pub mod downloads;
pub mod dm;
pub mod files;
pub mod auth;
pub mod chats;
pub mod embeds;
pub mod admin;
pub mod admin_users;
pub mod admin_content;
pub mod admin_pages;
pub mod e2ee;
pub mod homie;
pub mod sessions;
