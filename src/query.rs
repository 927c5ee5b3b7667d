//! The search criteria of one lookup and the recording search query built
//! from them.

use vstd::prelude::*;

verus! {

/// The artist and the track title to look up.
pub struct SearchQuery {
    pub artist: String,
    pub title: String,
}

/// The command line did not name both an artist and a title.
#[derive(PartialEq, Eq, Structural, Clone, Copy, Debug)]
pub enum UsageError {
    MissingArguments,
    EmptyArgument,
}

/// A value as the search syntax writes it: in double quotes when it holds a
/// space, else as it stands.
pub open spec fn quoted_value(v: Seq<char>) -> Seq<char> {
    if v.contains(' ') {
        seq!['"'] + v + seq!['"']
    } else {
        v
    }
}

/// The search for recordings with both the title and the artist.
pub open spec fn recording_query_text(artist: Seq<char>, title: Seq<char>) -> Seq<char> {
    "recording:"@ + quoted_value(title) + " AND artist:"@ + quoted_value(artist)
}

/// Relies on musicbrainz_rs's `RecordingSearchQuery` builder: each field is
/// written `field:value`, the value in double quotes when it holds a space,
/// and `and()` joins two fields with ` AND `.
#[verifier::external_body]
fn build_recording_query(artist: &str, title: &str) -> (r: String)
    ensures
        r@ == recording_query_text(artist@, title@),
{
    musicbrainz_rs::entity::recording::RecordingSearchQuery::query_builder()
        .recording(title)
        .and()
        .artist(artist)
        .build()
}

impl SearchQuery {
    /// The criteria from the program's arguments: the artist, then the title,
    /// after the program's name. Both must be there and non-empty.
    pub fn from_args(args: &Vec<String>) -> (r: Result<SearchQuery, UsageError>)
        ensures
            args@.len() < 3 ==> r == Err::<SearchQuery, UsageError>(UsageError::MissingArguments),
            args@.len() >= 3 && (args@[1]@.len() == 0 || args@[2]@.len() == 0) ==> r == Err::<
                SearchQuery,
                UsageError,
            >(UsageError::EmptyArgument),
            args@.len() >= 3 && args@[1]@.len() > 0 && args@[2]@.len() > 0 ==> r is Ok,
            r matches Ok(q) ==> q.artist@ == args@[1]@ && q.title@ == args@[2]@,
    {
        if args.len() < 3 {
            return Err(UsageError::MissingArguments);
        }
        if args[1].as_str().is_empty() || args[2].as_str().is_empty() {
            return Err(UsageError::EmptyArgument);
        }
        Ok(SearchQuery { artist: args[1].clone(), title: args[2].clone() })
    }

    /// The recording search for these criteria.
    pub fn recording_query(&self) -> (r: String)
        ensures
            r@ == recording_query_text(self.artist@, self.title@),
    {
        build_recording_query(self.artist.as_str(), self.title.as_str())
    }
}

} // verus!
