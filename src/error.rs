use vstd::prelude::*;

verus! {

/// The fatal conditions of a webring run.
#[derive(Debug)]
pub enum Error {
    /// A site's URL does not have the shape of an absolute http(s) URL.
    UnrecognizedUrl { url: String, slug: String },
    /// A slug that an earlier site in the list already uses.
    DuplicateSlug { slug: String, owner: String },
    /// A URL that an earlier site in the list already uses.
    DuplicateUrl { url: String, owner: String },
    /// The URL pattern itself could not be compiled.
    InvalidUrlPattern,
    /// No site is left to build the ring from.
    NoValidSites,
    /// A list or config file whose extension names no supported format.
    UnsupportedFormat { extension: String },
}

} // verus!
