use vstd::prelude::*;
use vstd::string::StringExecFns;

verus! {

/// An error body the Hub answers with when a request fails.
#[derive(Clone, Debug, PartialEq, Eq)]
pub struct ApiError {
    pub status: u16,
    pub message: String,
}

/// Failures of the Hub client that arise before any request is sent.
#[derive(Clone, Copy, Debug, PartialEq, Eq, Structural)]
pub enum HubError {
    /// The URL text was rejected by the URL parser.
    InvalidUrl,
}

/// A release channel of the Hub: a rolling name or a pinned version tag.
#[derive(Clone, Debug, PartialEq, Eq)]
pub enum Channel {
    Stable,
    Latest,
    /// A version tag, held as its text form.
    Tag(String),
}

/// The channel as it appears in a Hub URL.
pub open spec fn spec_channel_text(c: Channel) -> Seq<char> {
    match c {
        Channel::Stable => "stable"@,
        Channel::Latest => "latest"@,
        Channel::Tag(v) => v@,
    }
}

impl Channel {
    /// The channel's text form, as it appears in a Hub URL.
    pub fn to_text(&self) -> (r: String)
        ensures
            r@ == spec_channel_text(*self),
    {
        match self {
            Channel::Stable => String::from_str("stable"),
            Channel::Latest => String::from_str("latest"),
            Channel::Tag(v) => v.clone(),
        }
    }
}

/// What the URL parser makes of a text: `None` where it rejects it, and
/// otherwise the accepted URL written back out, normalized.
pub uninterp spec fn url_parse(s: Seq<char>) -> Option<Seq<char>>;

/// Relies on url's `Url::parse` and `Url::as_str`: whether a text parses,
/// and what the parsed URL serializes back to, are functions of the text
/// alone.
#[verifier::external_body]
fn parse_url_text(s: &str) -> (r: Option<String>)
    ensures
        r matches Some(t) ==> url_parse(s@) == Some(t@),
        r is None ==> url_parse(s@) is None,
{
    match url::Url::parse(s) {
        Ok(u) => Some(String::from(u.as_str())),
        Err(_) => None,
    }
}

/// The text handed to the URL parser when a package-set URL is built from a
/// client's API URL, a channel and an architecture.
pub open spec fn spec_pkgset_url_text(api_url: Seq<char>, channel: Channel, arch: Seq<char>) -> Seq<
    char,
> {
    api_url + "hub/v1/fvm/pkgset/"@ + spec_channel_text(channel) + "?arch="@ + arch
}

/// Client for the Hub's package-set API.  It keeps the API URL in the
/// parser's normalized text form, so that every URL built from it is built
/// on what the parser accepted.
#[derive(Clone, Debug, PartialEq, Eq)]
pub struct Client {
    /// The normalized text of the API URL the client was created with.
    pub api_url: String,
}

impl Client {
    /// A client for the Hub behind `url_text`.  The text must parse as a
    /// URL; what the parser rejects is answered with `InvalidUrl`.
    pub fn new(url_text: &str) -> (r: Result<Client, HubError>)
        ensures
            url_parse(url_text@) matches Some(t) ==> r matches Ok(c) && c.api_url@ == t,
            url_parse(url_text@) is None ==> r == Err::<Client, HubError>(HubError::InvalidUrl),
    {
        match parse_url_text(url_text) {
            Some(api_url) => Ok(Client { api_url }),
            None => Err(HubError::InvalidUrl),
        }
    }

    /// The URL a package set of `channel` and `arch` is fetched from: the
    /// API URL, the fixed path, the channel and the architecture query,
    /// parsed once more so only an accepted URL is handed out.
    pub fn make_fetch_package_set_url(&self, channel: &Channel, arch: &str) -> (r: Result<
        String,
        HubError,
    >)
        ensures
            url_parse(spec_pkgset_url_text(self.api_url@, *channel, arch@)) matches Some(t) ==> r
                matches Ok(u) && u@ == t,
            url_parse(spec_pkgset_url_text(self.api_url@, *channel, arch@)) is None ==> r == Err::<
                String,
                HubError,
            >(HubError::InvalidUrl),
    {
        let mut text = self.api_url.clone();
        text.append("hub/v1/fvm/pkgset/");
        let channel_text = channel.to_text();
        text.append(channel_text.as_str());
        text.append("?arch=");
        text.append(arch);
        match parse_url_text(text.as_str()) {
            Some(u) => Ok(u),
            None => Err(HubError::InvalidUrl),
        }
    }
}

} // verus!
