//! Genre lookup for an artist/title pair: a recording search, a harvest of
//! genre and tag labels from the matching recordings, and a fallback harvest
//! over their releases when the recordings carry no labels.

pub mod labels;
pub mod query;
pub mod lookup;
