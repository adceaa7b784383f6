//! Typed row identifiers.

use vstd::prelude::*;

verus! {

/// Identifier of a language known to the site.
#[derive(Clone, Copy, Debug, PartialEq, Eq, Structural, Hash)]
pub struct LanguageId(pub i32);

/// Identifier of a locally registered user.
#[derive(Clone, Copy, Debug, PartialEq, Eq, Structural, Hash)]
pub struct LocalUserId(pub i32);

/// Identifier of a site.
#[derive(Clone, Copy, Debug, PartialEq, Eq, Structural, Hash)]
pub struct SiteId(pub i32);

/// Identifier of a community.
#[derive(Clone, Copy, Debug, PartialEq, Eq, Structural, Hash)]
pub struct CommunityId(pub i32);

} // verus!
