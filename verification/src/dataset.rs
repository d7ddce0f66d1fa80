use vstd::prelude::*;

use crate::error::Error;
use crate::text::str_eq;

verus! {

/// The dataset varieties the remote store offers for each city.
///
/// The enumeration is closed: resolving a URL dispatches exhaustively over
/// it, so a new variant cannot be added without extending the naming scheme.
#[derive(Debug, Clone, Copy, PartialEq, Eq, Structural, PartialOrd)]
pub enum Dataset {
    NeighborhoodWays,
}

/// The canonical lowercase-with-underscores name of a dataset kind, as it
/// appears in store URLs.
pub open spec fn canonical_name(d: Dataset) -> Seq<char> {
    match d {
        Dataset::NeighborhoodWays => "neighborhood_ways"@,
    }
}

/// What parsing a dataset name yields: the kind whose canonical name the text
/// is, or `UnknownDatasetName` for any other text.
pub open spec fn name_to_dataset(s: Seq<char>) -> Result<Dataset, Error> {
    if s == canonical_name(Dataset::NeighborhoodWays) {
        Ok(Dataset::NeighborhoodWays)
    } else {
        Err(Error::UnknownDatasetName)
    }
}

impl Dataset {
    /// Render the canonical name of this dataset kind.
    pub fn name(&self) -> (r: String)
        ensures
            r@ == canonical_name(*self),
    {
        match self {
            Dataset::NeighborhoodWays => "neighborhood_ways".to_owned(),
        }
    }

    /// Parse a dataset kind from its canonical name; any other text is
    /// rejected with `UnknownDatasetName`, and no value is constructed.
    pub fn parse(s: &str) -> (r: Result<Dataset, Error>)
        ensures
            r == name_to_dataset(s@),
    {
        if str_eq(s, "neighborhood_ways") {
            Ok(Dataset::NeighborhoodWays)
        } else {
            Err(Error::UnknownDatasetName)
        }
    }
}

/// Round-trip law: parsing the canonical name of any dataset kind gives that
/// kind back.
pub proof fn lemma_parse_render_round_trip(d: Dataset)
    ensures
        name_to_dataset(canonical_name(d)) == Ok::<Dataset, Error>(d),
{
    match d {
        Dataset::NeighborhoodWays => {},
    }
}

/// A text that is no dataset kind's canonical name parses to
/// `UnknownDatasetName`, never to a value.
pub proof fn lemma_unknown_name_rejected(s: Seq<char>)
    requires
        forall|d: Dataset| canonical_name(d) != s,
    ensures
        name_to_dataset(s) == Err::<Dataset, Error>(Error::UnknownDatasetName),
{
    assert(canonical_name(Dataset::NeighborhoodWays) != s);
}

} // verus!
