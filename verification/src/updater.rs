//! Updates fetched from a fixed endpoint and installed later: the endpoint,
//! what a fetch reports, the pending update, and the errors.
use vstd::prelude::*;
use vstd::string::*;

/// The installation of an update reports its download as the update check's
/// download does.
pub use crate::update::{DownloadEvent, DownloadProgress};

verus! {

/// The release channel the tools follow.
pub const UPDATE_CHANNEL: &'static str = "stable";

/// A parsed URL (`url::Url`).
#[verifier::external_type_specification]
#[verifier::external_body]
pub struct ExUrl(url::Url);

/// Why a URL did not parse (`url::ParseError`).
#[verifier::external_type_specification]
#[verifier::external_body]
pub struct ExUrlParseError(url::ParseError);

/// The URL that `url::Url::parse` makes of this text, or `None` where it
/// refuses the text.
pub uninterp spec fn url_parse(input: Seq<char>) -> Option<url::Url>;

/// Parses `input` as an absolute URL (`url::Url::parse`). Its result depends
/// on the text alone, so it is named by `url_parse`; which error a refused
/// text gives is left unstated.
#[verifier::external_body]
fn parse_url(input: &str) -> (r: Result<url::Url, url::ParseError>)
    ensures
        match r {
            Ok(u) => url_parse(input@) == Some(u),
            Err(_) => url_parse(input@) is None,
        },
{
    url::Url::parse(input)
}

/// The text of the update endpoint for a channel; the updater fills in the
/// `{{target}}`, `{{arch}}` and `{{current_version}}` placeholders.
pub open spec fn endpoint_text(channel: Seq<char>) -> Seq<char> {
    "https://cdn.myupdater.com/{{target}}-{{arch}}/{{current_version}}?channel="@ + channel
}

/// The update endpoint for a channel, as text.
pub fn update_endpoint_text(channel: &str) -> (r: String)
    ensures
        r@ == endpoint_text(channel@),
{
    let mut s = "https://cdn.myupdater.com/{{target}}-{{arch}}/{{current_version}}?channel=".to_owned();
    s.append(channel);
    s
}

/// The update endpoint for a channel, parsed.
pub fn update_endpoint(channel: &str) -> (r: Result<url::Url, url::ParseError>)
    ensures
        match r {
            Ok(u) => url_parse(endpoint_text(channel@)) == Some(u),
            Err(_) => url_parse(endpoint_text(channel@)) is None,
        },
{
    let text = update_endpoint_text(channel);
    parse_url(text.as_str())
}

/// The versions of an update that a fetch found.
#[derive(Debug, PartialEq, Eq)]
pub struct UpdateMetadata {
    pub version: String,
    pub current_version: String,
}

impl UpdateMetadata {
    /// What a fetch reports of the update it found, given as
    /// `(version, current_version)`; nothing when it found none.
    pub fn from_fetch(found: Option<(String, String)>) -> (r: Option<UpdateMetadata>)
        ensures
            match found {
                Some((version, current)) => r matches Some(m) && m.version == version
                    && m.current_version == current,
                None => r is None,
            },
    {
        match found {
            Some((version, current)) => Some(UpdateMetadata { version, current_version: current }),
            None => None,
        }
    }
}

/// Why fetching or installing an update failed.
#[derive(Debug, PartialEq, Eq)]
pub enum Error {
    /// The updater failed; how its error reads.
    Updater(String),
    /// There is no fetched update to install.
    NoPendingUpdate,
}

impl Error {
    /// How the error reads to the user: the updater's own message, or
    /// "there is no pending update".
    pub fn message(&self) -> (r: String)
        ensures
            match self {
                Error::Updater(m) => r@ == m@,
                Error::NoPendingUpdate => r@ == "there is no pending update"@,
            },
    {
        match self {
            Error::Updater(m) => m.clone(),
            Error::NoPendingUpdate => "there is no pending update".to_owned(),
        }
    }
}

/// Taking the fetched update out of its slot: the slot afterwards, which is
/// empty, and the update, or `NoPendingUpdate` when there was none.
pub open spec fn taken<U>(pending: Option<U>) -> (Option<U>, Result<U, Error>) {
    match pending {
        Some(u) => (None, Ok(u)),
        None => (None, Err(Error::NoPendingUpdate)),
    }
}

/// Takes the fetched update out of its slot to install it.
pub fn take_pending<U>(pending: &mut Option<U>) -> (r: Result<U, Error>)
    ensures
        (*final(pending), r) == taken(*old(pending)),
{
    match pending.take() {
        Some(u) => Ok(u),
        None => Err(Error::NoPendingUpdate),
    }
}

/// A fetched update is installed at most once: taking it a second time finds
/// nothing.
pub proof fn lemma_taken_once<U>(pending: Option<U>)
    ensures
        taken(taken(pending).0).1 == Err::<U, Error>(Error::NoPendingUpdate),
{
}

} // verus!
