use crate::headers::{
    entry_views, listed_headers, split_headers, HeaderEntry, HeaderError, HeaderModel,
};
use std::path::PathBuf;
use vstd::prelude::*;
use vstd::string::StringSliceAdditionalSpecFns;
use vstd::utf8::encode_utf8;

verus! {

/// `std::path::PathBuf`, carried through as it is: nothing here looks inside
/// a path.
#[verifier::external_type_specification]
#[verifier::external_body]
pub struct ExPathBuf(PathBuf);

/// Whether `reqwest::header::HeaderName::from_bytes` accepts the bytes of
/// `name` as the name of a header.
pub uninterp spec fn header_name_accepted(name: Seq<char>) -> bool;

/// Whether `reqwest::Url::parse` accepts `text` as an absolute URL.
pub uninterp spec fn url_accepted(text: Seq<char>) -> bool;

/// Whether a header's value may hold the byte `b`: any byte but the control
/// characters, of which only the tab is allowed.
pub open spec fn value_byte_accepted(b: u8) -> bool {
    (b >= 32 && b != 127) || b == 9
}

/// Whether every byte of `bytes` may stand in a header's value.
pub open spec fn header_value_accepted(bytes: Seq<u8>) -> bool {
    forall|i: int| 0 <= i < bytes.len() ==> value_byte_accepted(#[trigger] bytes[i])
}

/// `reqwest::header::HeaderName::from_bytes`, called on the bytes of `name`:
/// the result says whether it returned a name rather than an error.
#[verifier::external_body]
fn name_is_accepted(name: &str) -> (accepted: bool)
    ensures
        accepted == header_name_accepted(name@),
{
    reqwest::header::HeaderName::from_bytes(name.as_bytes()).is_ok()
}

/// `reqwest::header::HeaderValue::from_str`: the result says whether it
/// returned a value rather than an error, which it does exactly when every
/// byte of `value` is at least 32 and not 127, or is the tab.
#[verifier::external_body]
fn value_is_accepted(value: &str) -> (accepted: bool)
    ensures
        accepted == header_value_accepted(value.spec_bytes()),
{
    reqwest::header::HeaderValue::from_str(value).is_ok()
}

/// `reqwest::Url::parse`: the result says whether it returned a URL rather
/// than an error.
#[verifier::external_body]
fn url_is_accepted(text: &str) -> (accepted: bool)
    ensures
        accepted == url_accepted(text@),
{
    reqwest::Url::parse(text).is_ok()
}

/// What is wrong with the entry at position `index`, given whether its name
/// and its value were accepted: the name is judged first.
pub open spec fn fault_of(index: usize, name_ok: bool, value_ok: bool) -> Option<HeaderError> {
    if !name_ok {
        Some(HeaderError::BadName(index))
    } else if !value_ok {
        Some(HeaderError::BadValue(index))
    } else {
        None
    }
}

/// The first fault among `entries`, if there is one.
pub open spec fn first_fault(entries: Seq<HeaderModel>) -> Option<HeaderError>
    decreases entries.len(),
{
    if entries.len() == 0 {
        None
    } else {
        match first_fault(entries.drop_last()) {
            Some(e) => Some(e),
            None => fault_of(
                (entries.len() - 1) as usize,
                header_name_accepted(entries.last().name),
                header_value_accepted(encode_utf8(entries.last().value)),
            ),
        }
    }
}

/// A fault among the first entries is the first fault of the whole list.
pub proof fn lemma_fault_stays(entries: Seq<HeaderModel>, more: Seq<HeaderModel>)
    requires
        first_fault(entries) is Some,
    ensures
        first_fault(entries + more) == first_fault(entries),
    decreases more.len(),
{
    if more.len() == 0 {
        assert(entries + more =~= entries);
    } else {
        lemma_fault_stays(entries, more.drop_last());
        assert((entries + more).drop_last() =~= entries + more.drop_last());
    }
}

/// Judges the entry at position `index` from whether its name and its value
/// were accepted.
pub fn entry_verdict(index: usize, name_ok: bool, value_ok: bool) -> (fault: Option<HeaderError>)
    ensures
        fault == fault_of(index, name_ok, value_ok),
{
    if !name_ok {
        Some(HeaderError::BadName(index))
    } else if !value_ok {
        Some(HeaderError::BadValue(index))
    } else {
        None
    }
}

/// Looks for the first entry whose name or value cannot be sent.
pub fn check_headers(entries: &Vec<HeaderEntry>) -> (fault: Option<HeaderError>)
    ensures
        fault == first_fault(entry_views(entries@)),
{
    let ghost views = entry_views(entries@);
    let mut i: usize = 0;
    while i < entries.len()
        invariant
            i <= entries@.len(),
            views == entry_views(entries@),
            first_fault(views.take(i as int)).is_none(),
        decreases entries@.len() - i,
    {
        let entry = &entries[i];
        let name_ok = name_is_accepted(entry.name.as_str());
        let value_ok = value_is_accepted(entry.value.as_str());
        let fault = entry_verdict(i, name_ok, value_ok);
        proof {
            assert(views.take(i + 1).drop_last() =~= views.take(i as int));
            assert(views.take(i + 1).last() == entry@);
        }
        if fault.is_some() {
            proof {
                lemma_fault_stays(views.take(i + 1), views.skip(i + 1));
                assert(views.take(i + 1) + views.skip(i + 1) =~= views);
            }
            return fault;
        }
        i = i + 1;
    }
    assert(views.take(i as int) =~= views);
    None
}

/// Why the settings are unusable.
#[derive(Clone, Copy, Debug, PartialEq, Eq, Structural)]
pub enum ConfigError {
    /// The list of additional headers is unusable.
    Headers(HeaderError),
    /// The backend's address is no absolute URL.
    BackendUrl,
}

/// The settings that a deployment is started with.
#[derive(Debug)]
pub struct Config {
    /// Put in front of every command's name.
    pub command_prefix: Option<String>,
    /// The base URL of the synthesis backend.
    pub voicevox_host: String,
    pub discord_token: String,
    /// Headers to send with every call of the backend, as `name: value`
    /// entries parted by commas.
    pub additional_headers: Option<String>,
    pub persistent_path: PathBuf,
    pub emoji_path: PathBuf,
}

/// The headers that the settings ask for, or what is wrong with them, given
/// the text of the list.
pub open spec fn headers_verdict(list: Option<Seq<char>>) -> Result<Seq<HeaderModel>, HeaderError> {
    match list {
        None => Ok(Seq::empty()),
        Some(text) => match listed_headers(text) {
            Err(e) => Err(e),
            Ok(entries) => match first_fault(entries) {
                Some(e) => Err(e),
                None => Ok(entries),
            },
        },
    }
}

impl Config {
    /// The text of the list of additional headers, if one is set.
    pub open spec fn header_list(&self) -> Option<Seq<char>> {
        match self.additional_headers {
            Some(text) => Some(text@),
            None => None,
        }
    }

    /// The prefix of the commands' names: empty where none is set.
    pub fn prefix(&self) -> (prefix: String)
        ensures
            prefix@ == match self.command_prefix {
                Some(p) => p@,
                None => Seq::<char>::empty(),
            },
    {
        match &self.command_prefix {
            Some(p) => p.clone(),
            None => String::new(),
        }
    }

    /// The static headers to send with every call of the backend: none
    /// where the settings list none.
    pub fn static_headers(&self) -> (result: Result<Vec<HeaderEntry>, HeaderError>)
        ensures
            match result {
                Ok(entries) => headers_verdict(self.header_list()) == Ok::<
                    Seq<HeaderModel>,
                    HeaderError,
                >(entry_views(entries@)),
                Err(e) => headers_verdict(self.header_list()) == Err::<
                    Seq<HeaderModel>,
                    HeaderError,
                >(e),
            },
    {
        match &self.additional_headers {
            None => {
                let entries: Vec<HeaderEntry> = Vec::new();
                assert(entry_views(entries@) =~= Seq::empty());
                Ok(entries)
            },
            Some(text) => {
                let entries = split_headers(text.as_str())?;
                match check_headers(&entries) {
                    Some(e) => Err(e),
                    None => Ok(entries),
                }
            },
        }
    }

    /// Checks what has to hold before anything is started: the headers are
    /// judged first, then the backend's address. The result is the list of
    /// static headers.
    pub fn validate(&self) -> (result: Result<Vec<HeaderEntry>, ConfigError>)
        ensures
            match result {
                Ok(entries) => headers_verdict(self.header_list()) == Ok::<
                    Seq<HeaderModel>,
                    HeaderError,
                >(entry_views(entries@)) && url_accepted(self.voicevox_host@),
                Err(ConfigError::Headers(e)) => headers_verdict(self.header_list()) == Err::<
                    Seq<HeaderModel>,
                    HeaderError,
                >(e),
                Err(ConfigError::BackendUrl) => headers_verdict(self.header_list()) is Ok
                    && !url_accepted(self.voicevox_host@),
            },
    {
        let headers = self.static_headers();
        let url_ok = url_is_accepted(self.voicevox_host.as_str());
        startup_verdict(headers, url_ok)
    }
}

/// Judges the settings from the verdict on the headers and from whether the
/// backend's address was accepted: a fault in the headers comes first.
pub fn startup_verdict(headers: Result<Vec<HeaderEntry>, HeaderError>, url_ok: bool) -> (result:
    Result<Vec<HeaderEntry>, ConfigError>)
    ensures
        match headers {
            Err(e) => result == Err::<Vec<HeaderEntry>, ConfigError>(ConfigError::Headers(e)),
            Ok(entries) => if url_ok {
                result == Ok::<Vec<HeaderEntry>, ConfigError>(entries)
            } else {
                result == Err::<Vec<HeaderEntry>, ConfigError>(ConfigError::BackendUrl)
            },
        },
{
    match headers {
        Err(e) => Err(ConfigError::Headers(e)),
        Ok(entries) => if url_ok {
            Ok(entries)
        } else {
            Err(ConfigError::BackendUrl)
        },
    }
}

} // verus!
