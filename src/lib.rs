//! Builds Gravatar and Libravatar image URLs from email addresses.
//!
//! An email address is canonicalised (surrounding whitespace removed, letters
//! lowercased), hashed with MD5 and rendered as 32 lowercase hexadecimal
//! digits. A [`Generator`] then places that identifier in a URL of the form
//! `https://{host}/avatar/{identifier}[.jpg][?d=..&f=y&s=..&r=..]`.

pub mod text;
pub mod canonical;
pub mod percent;
pub mod generator;

pub use generator::Generator;
