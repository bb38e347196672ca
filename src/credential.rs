//! Checking the configured credential before anything is sent.
use vstd::prelude::*;
use crate::error::{ErrorKind, RewriteError};
use crate::text::{is_blank, lemma_trimmed_empty_iff_blank, trimmed, trim_text};

verus! {

/// The fewest characters a trimmed credential may have to be taken as plausible.
pub const MIN_CREDENTIAL_LEN: usize = 10;

/// How many characters of the credential a report shows.
pub const PREVIEW_LEN: usize = 8;

/// The message for a credential that is absent or blank.
pub open spec fn missing_message() -> Seq<char> {
    "GEMINI_API_KEY environment variable is not configured. Please set your Google Gemini API key."@
}

/// The message for a credential that is too short.
pub open spec fn malformed_message() -> Seq<char> {
    "Invalid API key format. Please check your GEMINI_API_KEY environment variable."@
}

/// The trimmed credential, where one is configured and not blank.
pub open spec fn configured_key(raw: Option<Seq<char>>) -> Option<Seq<char>> {
    match raw {
        Some(s) => if trimmed(s).len() > 0 {
            Some(trimmed(s))
        } else {
            None
        },
        None => None,
    }
}

/// What the credential check decides: the key to send, or the error to answer with.
pub open spec fn credential_verdict(raw: Option<Seq<char>>) -> Result<Seq<char>, Seq<char>> {
    match configured_key(raw) {
        None => Err(missing_message()),
        Some(k) => if k.len() < MIN_CREDENTIAL_LEN {
            Err(malformed_message())
        } else {
            Ok(k)
        },
    }
}

/// Checks the configured credential: it must be present, not blank once
/// trimmed, and at least `MIN_CREDENTIAL_LEN` characters long once trimmed.
/// On success, returns the trimmed credential.
pub fn check_credential(raw: Option<&str>) -> (r: Result<String, RewriteError>)
    ensures
        r is Ok <==> (raw is Some && trimmed(raw->0@).len() >= MIN_CREDENTIAL_LEN),
        match r {
            Ok(key) => credential_verdict(opt_view(raw)) == Ok::<Seq<char>, Seq<char>>(key@),
            Err(e) => e.kind == ErrorKind::ConfigError && credential_verdict(opt_view(raw))
                == Err::<Seq<char>, Seq<char>>(e.message@),
        },
{
    match raw {
        None => Err(
            RewriteError::new(
                ErrorKind::ConfigError,
                String::from_str(
                    "GEMINI_API_KEY environment variable is not configured. Please set your Google Gemini API key.",
                ),
            ),
        ),
        Some(s) => {
            let key = trim_text(s);
            let n = key.unicode_len();
            if n == 0 {
                Err(
                    RewriteError::new(
                        ErrorKind::ConfigError,
                        String::from_str(
                            "GEMINI_API_KEY environment variable is not configured. Please set your Google Gemini API key.",
                        ),
                    ),
                )
            } else if n < MIN_CREDENTIAL_LEN {
                Err(
                    RewriteError::new(
                        ErrorKind::ConfigError,
                        String::from_str(
                            "Invalid API key format. Please check your GEMINI_API_KEY environment variable.",
                        ),
                    ),
                )
            } else {
                Ok(String::from_str(key))
            }
        },
    }
}

/// A credential that is absent, empty or made of white space only is refused
/// as missing.
pub proof fn lemma_blank_credential_refused(raw: Option<Seq<char>>)
    requires
        raw is None || is_blank(raw->0),
    ensures
        credential_verdict(raw) == Err::<Seq<char>, Seq<char>>(missing_message()),
{
    if raw is Some {
        lemma_trimmed_empty_iff_blank(raw->0);
    }
}

/// A credential shorter than `MIN_CREDENTIAL_LEN` characters once trimmed is refused.
pub proof fn lemma_short_credential_refused(raw: Option<Seq<char>>)
    requires
        raw is Some,
        trimmed(raw->0).len() < MIN_CREDENTIAL_LEN,
    ensures
        credential_verdict(raw) is Err,
{
}

/// The view of an optional string.
pub open spec fn opt_view(raw: Option<&str>) -> Option<Seq<char>> {
    match raw {
        Some(s) => Some(s@),
        None => None,
    }
}

/// What a status report says of the configured credential.
#[derive(Debug)]
pub enum KeyReport {
    /// No credential, or a blank one.
    Missing,
    /// A credential: its trimmed length in characters, and its first
    /// `PREVIEW_LEN` characters (fewer if it is shorter) followed by `...`.
    Configured { length: usize, preview: String },
}

/// Describes the configured credential without revealing it whole.
pub fn describe_credential(raw: Option<&str>) -> (r: KeyReport)
    ensures
        match r {
            KeyReport::Missing => configured_key(opt_view(raw)) is None,
            KeyReport::Configured { length, preview } => {
                &&& configured_key(opt_view(raw)) is Some
                &&& length == configured_key(opt_view(raw))->0.len()
                &&& preview@ == configured_key(opt_view(raw))->0.take(
                    if length < PREVIEW_LEN { length as int } else { PREVIEW_LEN as int },
                ) + "..."@
            },
        },
{
    match raw {
        None => KeyReport::Missing,
        Some(s) => {
            let key = trim_text(s);
            let n = key.unicode_len();
            if n == 0 {
                KeyReport::Missing
            } else {
                let shown = if n < PREVIEW_LEN { n } else { PREVIEW_LEN };
                let mut preview = String::from_str(key.substring_char(0, shown));
                preview.append("...");
                KeyReport::Configured { length: n, preview }
            }
        },
    }
}

} // verus!
