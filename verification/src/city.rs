use vstd::prelude::*;

use vstd::string::StringExecFns;

verus! {

/// One city entry of the input table.
///
/// A `City` is built once, from a table row or through [`City::new`], and is
/// immutable thereafter.
#[derive(Debug, Clone)]
pub struct City {
    /// City name, as given.
    pub name: String,
    /// Country where the city is located, as given.
    pub country: String,
    /// State where the city is located. Never empty after construction:
    /// where the input gives none, the country's name stands in for it.
    pub state: String,
    /// The city's opaque identifier, assigned anew by each run of the
    /// external data-generation pass.
    pub uuid: String,
}

impl City {
    /// The full name of a city: `{country}-{state}-{name}`, with single `-`
    /// separators and no other characters.
    pub open spec fn full_name_spec(&self) -> Seq<char> {
        self.country@ + seq!['-'] + self.state@ + seq!['-'] + self.name@
    }

    /// The name of the city's dataset archive: the full name with the `.zip`
    /// extension appended.
    pub open spec fn zip_name_spec(&self) -> Seq<char> {
        self.full_name_spec() + seq!['.', 'z', 'i', 'p']
    }

    /// Create a new City.
    ///
    /// If the state is absent or empty (many countries have no subdivisions
    /// worth naming), the name of the country is used instead, so the state
    /// is never empty after construction as long as the country is not.
    pub fn new(name: &str, country: &str, state: Option<&str>, uuid: &str) -> (c: City)
        ensures
            c.name@ == name@,
            c.country@ == country@,
            c.uuid@ == uuid@,
            (state matches Some(s) ==> (s@.len() > 0 ==> c.state@ == s@)),
            (state matches Some(s) ==> (s@.len() == 0 ==> c.state@ == country@)),
            (state is None ==> c.state@ == country@),
    {
        City {
            name: name.to_owned(),
            country: country.to_owned(),
            state: match state {
                Some(s) => {
                    if s.is_empty() {
                        country.to_owned()
                    } else {
                        s.to_owned()
                    }
                },
                None => country.to_owned(),
            },
            uuid: uuid.to_owned(),
        }
    }

    /// Return the full name of the city: `{country}-{state}-{name}`.
    pub fn full_name(&self) -> (r: String)
        ensures
            r@ == self.full_name_spec(),
    {
        proof {
            reveal_strlit("-");
        }
        let mut r = self.country.clone();
        r.append("-");
        r.append(self.state.as_str());
        r.append("-");
        r.append(self.name.as_str());
        proof {
            assert(r@ =~= self.full_name_spec());
        }
        r
    }

    /// Return the full name of the city with the `.zip` extension.
    pub fn zip_name(&self) -> (r: String)
        ensures
            r@ == self.zip_name_spec(),
    {
        proof {
            reveal_strlit(".zip");
        }
        let mut r = self.full_name();
        r.append(".zip");
        proof {
            assert(r@ =~= self.zip_name_spec());
        }
        r
    }
}

/// The archive name always extends the full name by exactly the `.zip`
/// extension.
pub proof fn lemma_zip_name_extends_full_name(c: &City)
    ensures
        c.zip_name_spec() == c.full_name_spec() + seq!['.', 'z', 'i', 'p'],
{
}

} // verus!
