//! Where the objects are listed from and where the manifest goes: the
//! locations given on the command line, taken apart.

use crate::error::ManifestError;
use crate::record::opt_chars;
use crate::text::{chars_of, starts_with};
use vstd::prelude::*;
use vstd::string::{StrSliceExecFns, StringExecFns};

verus! {

/// The parts of a URL that a location is read from.
#[derive(Clone, Debug)]
pub struct UrlParts {
    pub scheme: String,
    pub host: Option<String>,
    pub path: String,
}

/// The mathematical content of [`UrlParts`].
pub ghost struct UrlPartsView {
    pub scheme: Seq<char>,
    pub host: Option<Seq<char>>,
    pub path: Seq<char>,
}

impl View for UrlParts {
    type V = UrlPartsView;

    open spec fn view(&self) -> UrlPartsView {
        UrlPartsView { scheme: self.scheme@, host: opt_chars(self.host), path: self.path@ }
    }
}

/// The `ParseError` of the `url` crate, carried through without a look inside.
#[verifier::external_type_specification]
#[verifier::external_body]
pub struct ExParseError(url::ParseError);

/// The scheme, host and path of `text` read as a URL; `None` where `text` is
/// no URL.
pub uninterp spec fn url_parts(text: Seq<char>) -> Option<UrlPartsView>;

/// Calls `url::Url::parse` and, where it accepts the text, `Url::scheme`,
/// `Url::host_str` and `Url::path` on what it returns. The outcome depends on
/// the text alone, and [`url_parts`] is the name for it.
#[verifier::external_body]
fn split_url(text: &str) -> (r: Result<UrlParts, url::ParseError>)
    ensures
        match r {
            Ok(parts) => url_parts(text@) == Some(parts@),
            Err(_) => url_parts(text@) is None,
        },
{
    match url::Url::parse(text) {
        Ok(parsed) => Ok(
            UrlParts {
                scheme: parsed.scheme().to_string(),
                host: parsed.host_str().map(|h| h.to_string()),
                path: parsed.path().to_string(),
            },
        ),
        Err(e) => Err(e),
    }
}

/// The scheme of an object-store location.
pub open spec fn store_scheme() -> Seq<char> {
    "s3"@
}

/// What an object-store location begins with.
pub open spec fn store_marker() -> Seq<char> {
    "s3://"@
}

/// The number of `/` that `path` begins with.
pub open spec fn leading_slashes(path: Seq<char>) -> nat
    decreases path.len(),
{
    if path.len() > 0 && path[0] == '/' {
        1 + leading_slashes(path.skip(1))
    } else {
        0
    }
}

/// The bucket and prefix of a source location: the bucket is the host, and
/// the prefix is the path without its leading slash, absent where the path is
/// empty or the root.
pub open spec fn source_of(parts: Option<UrlPartsView>) -> Result<
    (Seq<char>, Option<Seq<char>>),
    ManifestError,
> {
    match parts {
        None => Err(ManifestError::MalformedUri),
        Some(p) => if p.scheme != store_scheme() {
            Err(ManifestError::WrongScheme)
        } else {
            match p.host {
                None => Err(ManifestError::MissingBucket),
                Some(host) => Ok(
                    (
                        host,
                        if p.path.len() > 1 {
                            Some(p.path.skip(1))
                        } else {
                            None
                        },
                    ),
                ),
            }
        },
    }
}

/// The bucket and key of a destination in an object store: the bucket is the
/// host, and the key is the path without the slashes it begins with.
pub open spec fn destination_of(parts: Option<UrlPartsView>) -> Result<
    (Option<Seq<char>>, Seq<char>),
    ManifestError,
> {
    match parts {
        None => Err(ManifestError::MalformedUri),
        Some(p) => match p.host {
            None => Err(ManifestError::MissingBucket),
            Some(host) => Ok((Some(host), p.path.skip(leading_slashes(p.path) as int))),
        },
    }
}

/// The content of a parsed source location.
pub open spec fn source_view(r: Result<(String, Option<String>), ManifestError>) -> Result<
    (Seq<char>, Option<Seq<char>>),
    ManifestError,
> {
    match r {
        Ok((bucket, prefix)) => Ok((bucket@, opt_chars(prefix))),
        Err(e) => Err(e),
    }
}

/// The content of a parsed output location.
pub open spec fn output_view(r: Result<(Option<String>, String), ManifestError>) -> Result<
    (Option<Seq<char>>, Seq<char>),
    ManifestError,
> {
    match r {
        Ok((bucket, key)) => Ok((opt_chars(bucket), key@)),
        Err(e) => Err(e),
    }
}

/// What a URL parser's answer means.
pub open spec fn parts_view(parsed: Result<UrlParts, url::ParseError>) -> Option<UrlPartsView> {
    match parsed {
        Ok(parts) => Some(parts@),
        Err(_) => None,
    }
}

/// `path` without the slashes it begins with.
pub fn trim_leading_slashes(path: &str) -> (r: String)
    ensures
        r@ == path@.skip(leading_slashes(path@) as int),
{
    let chars = chars_of(path);
    let mut k: usize = 0;
    proof {
        assert(path@.skip(0) =~= path@);
    }
    while k < chars.len() && chars[k] == '/'
        invariant
            k <= chars.len(),
            chars@ == path@,
            leading_slashes(path@) == k + leading_slashes(path@.skip(k as int)),
        decreases chars.len() - k,
    {
        proof {
            assert(path@.skip(k as int).skip(1) =~= path@.skip(k + 1));
        }
        k += 1;
    }
    path.substring_char(k, chars.len()).to_owned()
}

/// Reads the bucket and prefix of a source location off the parts of its
/// URL, or says why there is none.
pub fn source_location(parsed: Result<UrlParts, url::ParseError>) -> (r: Result<
    (String, Option<String>),
    ManifestError,
>)
    ensures
        source_view(r) == source_of(parts_view(parsed)),
{
    let parts = match parsed {
        Ok(parts) => parts,
        Err(_) => {
            return Err(ManifestError::MalformedUri);
        },
    };
    if parts.scheme != String::from_str("s3") {
        return Err(ManifestError::WrongScheme);
    }
    let bucket = match parts.host {
        Some(host) => host,
        None => {
            return Err(ManifestError::MissingBucket);
        },
    };
    let n = parts.path.as_str().unicode_len();
    let prefix = if n > 1 {
        proof {
            assert(parts.path@.subrange(1, n as int) =~= parts.path@.skip(1));
        }
        Some(parts.path.as_str().substring_char(1, n).to_owned())
    } else {
        None
    };
    Ok((bucket, prefix))
}

/// Reads the bucket and key of a destination in an object store off the
/// parts of its URL, or says why there is none.
pub fn remote_destination(parsed: Result<UrlParts, url::ParseError>) -> (r: Result<
    (Option<String>, String),
    ManifestError,
>)
    ensures
        output_view(r) == destination_of(parts_view(parsed)),
{
    let parts = match parsed {
        Ok(parts) => parts,
        Err(_) => {
            return Err(ManifestError::MalformedUri);
        },
    };
    let bucket = match parts.host {
        Some(host) => host,
        None => {
            return Err(ManifestError::MissingBucket);
        },
    };
    let key = trim_leading_slashes(parts.path.as_str());
    Ok((Some(bucket), key))
}

/// Takes a source location of the form `s3://bucket[/prefix]` apart into its
/// bucket and its prefix.
pub fn parse_s3_uri(uri: &str) -> (r: Result<(String, Option<String>), ManifestError>)
    ensures
        source_view(r) == source_of(url_parts(uri@)),
{
    source_location(split_url(uri))
}

/// Takes an output location apart. One that begins with `s3://` names a
/// bucket and a key in an object store; any other is a local path, with no
/// bucket.
pub fn parse_output_location(output: &str) -> (r: Result<(Option<String>, String), ManifestError>)
    ensures
        output_view(r) == if store_marker().is_prefix_of(output@) {
            destination_of(url_parts(output@))
        } else {
            Ok((None, output@))
        },
{
    if starts_with(output, "s3://") {
        remote_destination(split_url(output))
    } else {
        Ok((None, output.to_owned()))
    }
}

} // verus!
