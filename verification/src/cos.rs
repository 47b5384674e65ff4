//! Configuration builder for an object-storage client: the region and the
//! credential and bucket settings, each stored trimmed. Creating the network
//! client from them is outside work.

use vstd::prelude::*;

verus! {

/// What trimming a string yields.
pub uninterp spec fn spec_trimmed(s: Seq<char>) -> Seq<char>;

/// Removes leading and trailing whitespace.
///
/// Relies on `str::trim`: the result is the input without its leading and
/// trailing whitespace, so it is never longer than the input.
#[verifier::external_body]
fn trim_string(s: &str) -> (r: String)
    ensures
        r@ == spec_trimmed(s@),
        r@.len() <= s@.len(),
{
    String::from(s.trim())
}

/// A storage region.
#[derive(Clone, Copy, Debug, PartialEq, Eq, Structural)]
pub enum Region {
    /// The Beijing region.
    Beijing,
}

/// A region name that no [`Region`] stands for; holds the offending text.
#[derive(Debug)]
pub struct UnknownRegionError(pub String);

impl Region {
    /// The region's name on the wire.
    pub fn value(&self) -> (r: &'static str)
        ensures
            r@ == "ap-beijing"@,
    {
        "ap-beijing"
    }

    /// The region named by `s`, ignoring surrounding whitespace; on any
    /// other name, the error holds `s` as given.
    pub fn parse(s: &str) -> (r: Result<Region, UnknownRegionError>)
        ensures
            spec_trimmed(s@) == "ap-beijing"@ ==> r == Ok::<Region, UnknownRegionError>(
                Region::Beijing,
            ),
            spec_trimmed(s@) != "ap-beijing"@ ==> (r matches Err(e) && e.0@ == s@),
    {
        let t = trim_string(s);
        if t == "ap-beijing".to_owned() {
            Ok(Region::Beijing)
        } else {
            Err(UnknownRegionError(s.to_owned()))
        }
    }
}

impl core::str::FromStr for Region {
    type Err = UnknownRegionError;

    fn from_str(s: &str) -> Result<Region, UnknownRegionError> {
        Region::parse(s)
    }
}

/// Collects the storage client settings before the client is created.
pub struct ClientBuilder {
    /// Access key, trimmed.
    pub access_key: Option<String>,
    /// Secret key, trimmed.
    pub secret_key: Option<String>,
    /// Bucket name, trimmed.
    pub bucket: Option<String>,
    /// The region to address.
    pub region: Option<Region>,
}

impl Default for ClientBuilder {
    /// A builder with nothing set.
    fn default() -> (r: ClientBuilder)
        ensures
            r.access_key is None,
            r.secret_key is None,
            r.bucket is None,
            r.region is None,
    {
        ClientBuilder { access_key: None, secret_key: None, bucket: None, region: None }
    }
}

impl ClientBuilder {
    /// Sets the access key, trimmed.
    pub fn access_key(self, ak: String) -> (r: ClientBuilder)
        ensures
            r.access_key matches Some(t) && t@ == spec_trimmed(ak@),
            r.secret_key == self.secret_key,
            r.bucket == self.bucket,
            r.region == self.region,
    {
        ClientBuilder { access_key: Some(trim_string(ak.as_str())), ..self }
    }

    /// Sets the secret key, trimmed.
    pub fn secret_key(self, sk: String) -> (r: ClientBuilder)
        ensures
            r.secret_key matches Some(t) && t@ == spec_trimmed(sk@),
            r.access_key == self.access_key,
            r.bucket == self.bucket,
            r.region == self.region,
    {
        ClientBuilder { secret_key: Some(trim_string(sk.as_str())), ..self }
    }

    /// Sets the bucket name, trimmed.
    pub fn bucket(self, bucket: String) -> (r: ClientBuilder)
        ensures
            r.bucket matches Some(t) && t@ == spec_trimmed(bucket@),
            r.access_key == self.access_key,
            r.secret_key == self.secret_key,
            r.region == self.region,
    {
        ClientBuilder { bucket: Some(trim_string(bucket.as_str())), ..self }
    }

    /// Sets the region.
    pub fn region(self, region: Region) -> (r: ClientBuilder)
        ensures
            r == (ClientBuilder { region: Some(region), ..self }),
    {
        ClientBuilder { region: Some(region), ..self }
    }
}

} // verus!
