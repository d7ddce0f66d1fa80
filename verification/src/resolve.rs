use vstd::prelude::*;

use vstd::string::StringExecFns;

use crate::city::City;
use crate::dataset::canonical_name;
use crate::dataset::Dataset;
use crate::error::Error;

verus! {

/// What `url::Url::parse` yields for a given text: `None` where the parser
/// rejects the text, and `Some` of the parsed URL's serialization where it
/// accepts it (the serialization may differ from the input, since the parser
/// normalizes and percent-encodes what it accepts leniently).
pub uninterp spec fn parsed_url_text(s: Seq<char>) -> Option<Seq<char>>;

/// The serialization a URL value hands out: what `url::Url::as_str` returns
/// for it, a function of the value alone.
pub uninterp spec fn url_text_of(u: url::Url) -> Seq<char>;

#[verifier::external_type_specification]
#[verifier::external_body]
pub struct ExUrl(url::Url);

/// Relies on `url::Url::parse`, a deterministic function of the input text
/// that accepts exactly the texts it can read as an absolute URL, and on
/// `url::Url::as_str`, which hands out the accepted URL's serialization.
#[verifier::external_body]
fn parse_absolute_url(s: &str) -> (r: Option<(url::Url, String)>)
    ensures
        r is Some <==> parsed_url_text(s@) is Some,
        (r matches Some(p) ==> p.1@ == parsed_url_text(s@).unwrap()),
        (r matches Some(p) ==> url_text_of(p.0) == p.1@),
{
    match url::Url::parse(s) {
        Ok(u) => {
            let text = u.as_str().to_owned();
            Some((u, text))
        },
        Err(_) => None,
    }
}

/// The base URL of the object-store prefix under which the per-city dataset
/// archives are published. Fixed contract with the external store.
pub open spec fn base_url_spec() -> Seq<char> {
    "https://s3.amazonaws.com/production-pfb-storage-us-east-1/results"@
}

/// Return the base URL of the object-store results prefix.
pub fn base_url() -> (r: &'static str)
    ensures
        r@ == base_url_spec(),
{
    "https://s3.amazonaws.com/production-pfb-storage-us-east-1/results"
}

/// The text of a dataset URL: `{base}/{uuid}/{dataset name}.zip`.
pub open spec fn dataset_url_text(base: Seq<char>, uuid: Seq<char>, d: Dataset) -> Seq<char> {
    base + seq!['/'] + uuid + seq!['/'] + canonical_name(d) + seq!['.', 'z', 'i', 'p']
}

/// Whether the dataset URL for this base, uuid and kind resolves: its text
/// must parse as an absolute URL, and the parser must keep the text exactly
/// as composed. A uuid the parser would have to escape or normalize (one
/// holding a space, say) does not resolve.
pub open spec fn resolves(base: Seq<char>, uuid: Seq<char>, d: Dataset) -> bool {
    parsed_url_text(dataset_url_text(base, uuid, d)) == Some(dataset_url_text(base, uuid, d))
}

impl City {
    /// Compose the text of the URL of `dataset` for this city under `base`.
    fn compose_url_text(&self, base: &str, dataset: Dataset) -> (r: String)
        ensures
            r@ == dataset_url_text(base@, self.uuid@, dataset),
    {
        proof {
            reveal_strlit("/");
            reveal_strlit(".zip");
        }
        let mut r = base.to_owned();
        r.append("/");
        r.append(self.uuid.as_str());
        r.append("/");
        let name = dataset.name();
        r.append(name.as_str());
        r.append(".zip");
        proof {
            assert(r@ =~= dataset_url_text(base@, self.uuid@, dataset));
        }
        r
    }

    /// Resolve the URL of `dataset` for this city under the store base URL
    /// `base`: a validated URL value whose text is exactly
    /// `{base}/{uuid}/{dataset name}.zip`, or `InvalidUrl` where that text is
    /// not a valid absolute URL kept unaltered by parsing.
    pub fn url_with_base(&self, base: &str, dataset: Dataset) -> (r: Result<url::Url, Error>)
        ensures
            r is Ok <==> resolves(base@, self.uuid@, dataset),
            (r matches Ok(u) ==> url_text_of(u) == dataset_url_text(base@, self.uuid@, dataset)),
            (r matches Err(e) ==> e == Error::InvalidUrl),
    {
        let text = self.compose_url_text(base, dataset);
        match parse_absolute_url(text.as_str()) {
            Some(p) => {
                if p.1 == text {
                    Ok(p.0)
                } else {
                    Err(Error::InvalidUrl)
                }
            },
            None => Err(Error::InvalidUrl),
        }
    }

    /// Resolve the URL of the specified `dataset` under the fixed store base
    /// URL.
    pub fn url(&self, dataset: Dataset) -> (r: Result<url::Url, Error>)
        ensures
            r is Ok <==> resolves(base_url_spec(), self.uuid@, dataset),
            (r matches Ok(u) ==> url_text_of(u) == dataset_url_text(
                base_url_spec(),
                self.uuid@,
                dataset,
            )),
            (r matches Err(e) ==> e == Error::InvalidUrl),
    {
        self.url_with_base(base_url(), dataset)
    }

    /// Resolve the URL of the neighborhood-ways dataset under the fixed
    /// store base URL.
    pub fn neighborhood_ways_url(&self) -> (r: Result<url::Url, Error>)
        ensures
            r is Ok <==> resolves(base_url_spec(), self.uuid@, Dataset::NeighborhoodWays),
            (r matches Ok(u) ==> url_text_of(u) == dataset_url_text(
                base_url_spec(),
                self.uuid@,
                Dataset::NeighborhoodWays,
            )),
            (r matches Err(e) ==> e == Error::InvalidUrl),
    {
        self.url(Dataset::NeighborhoodWays)
    }

    /// Resolve the URL of `dataset` under the fixed store base URL and hand
    /// its exact text back: `{base}/{uuid}/{dataset name}.zip`, byte for
    /// byte.
    pub fn url_string(&self, dataset: Dataset) -> (r: Result<String, Error>)
        ensures
            r is Ok <==> resolves(base_url_spec(), self.uuid@, dataset),
            (r matches Ok(s) ==> s@ == dataset_url_text(base_url_spec(), self.uuid@, dataset)),
            (r matches Err(e) ==> e == Error::InvalidUrl),
    {
        let text = self.compose_url_text(base_url(), dataset);
        match parse_absolute_url(text.as_str()) {
            Some(p) => {
                if p.1 == text {
                    Ok(text)
                } else {
                    Err(Error::InvalidUrl)
                }
            },
            None => Err(Error::InvalidUrl),
        }
    }
}

/// URL resolution is deterministic: the dataset URL text, and whether it
/// resolves, are functions of the base, the city's uuid and the dataset kind
/// alone, so two cities with the same uuid resolve the same dataset to the
/// same URL, byte for byte.
pub proof fn lemma_resolution_deterministic(a: &City, b: &City, d: Dataset, base: Seq<char>)
    requires
        a.uuid@ == b.uuid@,
    ensures
        dataset_url_text(base, a.uuid@, d) == dataset_url_text(base, b.uuid@, d),
        resolves(base, a.uuid@, d) == resolves(base, b.uuid@, d),
{
}

} // verus!
