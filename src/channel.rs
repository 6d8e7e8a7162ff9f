use vstd::prelude::*;

use crate::version::{
    parse_release_version_spec, version_lt, version_text, SemanticVersion, VersionParseError,
};

verus! {

/// The release track that the running build belongs to.
#[derive(Clone, Copy, PartialEq, Eq, Structural, Debug)]
pub enum ReleaseChannel {
    Dev,
    Nightly,
    Preview,
    Stable,
}

impl ReleaseChannel {
    /// The query parameter that asks the release server for this track, if it needs one.
    pub open spec fn query_param_spec(self) -> Option<Seq<char>> {
        match self {
            ReleaseChannel::Preview => Some("preview=1"@),
            ReleaseChannel::Stable => Some("stable=1"@),
            _ => None,
        }
    }

    pub open spec fn display_name_spec(self) -> Seq<char> {
        match self {
            ReleaseChannel::Dev => "Zed Dev"@,
            ReleaseChannel::Nightly => "Zed Nightly"@,
            ReleaseChannel::Preview => "Zed Preview"@,
            ReleaseChannel::Stable => "Zed Stable"@,
        }
    }

    /// The path segment under which the release notes of this track are published.
    pub open spec fn notes_segment_spec(self) -> Option<Seq<char>> {
        match self {
            ReleaseChannel::Preview => Some("preview"@),
            ReleaseChannel::Stable => Some("stable"@),
            _ => None,
        }
    }

    pub fn release_query_param(&self) -> (r: Option<&'static str>)
        ensures
            match r {
                Some(q) => self.query_param_spec() == Some(q@),
                None => self.query_param_spec() is None,
            },
    {
        match self {
            ReleaseChannel::Preview => Some("preview=1"),
            ReleaseChannel::Stable => Some("stable=1"),
            _ => None,
        }
    }

    pub fn display_name(&self) -> (r: &'static str)
        ensures
            r@ == self.display_name_spec(),
    {
        match self {
            ReleaseChannel::Dev => "Zed Dev",
            ReleaseChannel::Nightly => "Zed Nightly",
            ReleaseChannel::Preview => "Zed Preview",
            ReleaseChannel::Stable => "Zed Stable",
        }
    }

    fn notes_segment(&self) -> (r: Option<&'static str>)
        ensures
            match r {
                Some(q) => self.notes_segment_spec() == Some(q@),
                None => self.notes_segment_spec() is None,
            },
    {
        match self {
            ReleaseChannel::Preview => Some("preview"),
            ReleaseChannel::Stable => Some("stable"),
            _ => None,
        }
    }
}

/// The address that asks the release server for the latest artifact of a track.
pub open spec fn release_request_url_spec(
    server_url: Seq<char>,
    token: Seq<char>,
    channel: ReleaseChannel,
) -> Seq<char> {
    let base = server_url + "/api/releases/latest?token="@ + token + "&asset=Zed.dmg"@;
    match channel.query_param_spec() {
        Some(q) => base + "&"@ + q,
        None => base,
    }
}

pub fn release_request_url(server_url: &str, token: &str, channel: ReleaseChannel) -> (r: String)
    ensures
        r@ == release_request_url_spec(server_url@, token@, channel),
{
    let mut url = String::from_str(server_url);
    url.append("/api/releases/latest?token=");
    url.append(token);
    url.append("&asset=Zed.dmg");
    match channel.release_query_param() {
        Some(q) => {
            url.append("&");
            url.append(q);
        },
        None => {},
    }
    url
}

/// The page of release notes for a version of a track; only preview and stable have one.
pub open spec fn release_notes_url_spec(
    server_url: Seq<char>,
    channel: ReleaseChannel,
    version: SemanticVersion,
) -> Option<Seq<char>> {
    match channel.notes_segment_spec() {
        Some(seg) => Some(server_url + "/releases/"@ + seg + "/"@ + version_text(version)),
        None => None,
    }
}

pub fn release_notes_url(server_url: &str, channel: ReleaseChannel, version: SemanticVersion) -> (r:
    Option<String>)
    ensures
        match r {
            Some(u) => release_notes_url_spec(server_url@, channel, version) == Some(u@),
            None => release_notes_url_spec(server_url@, channel, version) is None,
        },
{
    match channel.notes_segment() {
        Some(seg) => {
            let mut url = String::from_str(server_url);
            url.append("/releases/");
            url.append(seg);
            url.append("/");
            let v = version.to_text();
            url.append(v.as_str());
            Some(url)
        },
        None => None,
    }
}

/// Whether a published release counts as newer than the running build: on the nightly
/// track any other commit than the running one (or any at all, when the running commit is
/// not known); on the others a version of strictly greater precedence. The running build
/// carries no pre-release, so that is a strictly greater `major.minor.patch`: a pre-release
/// of the running numbers precedes them. `None` when the published version cannot be read.
pub open spec fn is_newer_spec(
    channel: ReleaseChannel,
    current: SemanticVersion,
    current_commit: Option<Seq<char>>,
    published: Seq<char>,
) -> Option<bool> {
    if channel == ReleaseChannel::Nightly {
        match current_commit {
            Some(c) => Some(published != c),
            None => Some(true),
        }
    } else {
        match parse_release_version_spec(published) {
            Some(v) => Some(version_lt(current, v)),
            None => None,
        }
    }
}

/// Decides whether the published release `published` should be installed.
pub fn is_newer(
    channel: ReleaseChannel,
    current: SemanticVersion,
    current_commit: &Option<String>,
    published: &String,
) -> (r: Result<bool, VersionParseError>)
    ensures
        match r {
            Ok(b) => is_newer_spec(
                channel,
                current,
                match current_commit {
                    Some(c) => Some(c@),
                    None => None,
                },
                published@,
            ) == Some(b),
            Err(_) => is_newer_spec(
                channel,
                current,
                match current_commit {
                    Some(c) => Some(c@),
                    None => None,
                },
                published@,
            ) is None,
        },
{
    if channel == ReleaseChannel::Nightly {
        match current_commit {
            Some(c) => {
                let same = published.eq(c);
                Ok(!same)
            },
            None => Ok(true),
        }
    } else {
        match SemanticVersion::parse_release(published.as_str()) {
            Ok(v) => Ok(current.is_older_than(&v)),
            Err(e) => Err(e),
        }
    }
}

} // verus!
