//! The closed set of failures, and the table that reads a failure out of the
//! text of a server message.

use crate::substring::{
    contains, longer_does_not_occur, occurs_in, occurs_in_embedding, occurs_in_itself,
    stranger_does_not_occur,
};
use vstd::prelude::*;

verus! {

/// Everything that can go wrong with one exchange.
///
/// The first twelve variants are reported by the service in the text of its
/// message; the last one wraps a failure of the transport itself.
#[derive(Debug)]
pub enum Error {
    InvalidVersion,
    InvalidLevel,
    BadAuth,
    InvalidAPIKey,
    InputTextTooLong,
    NotEnoughQuota,
    InternalServerError,
    InvalidContentType,
    InvalidArguments,
    UserDictionaryParseError,
    UserDictionarySizeExceed,
    RateLimited,
    NetworkError(reqwest::Error),
}

impl Error {
    /// The phrase by which the service reports this failure. A transport
    /// failure has none: no message reports it.
    ///
    /// The phrases are the service's own wording, kept letter for letter:
    /// the one for `BadAuth` is spelled as the service spells it.
    pub open spec fn phrase(self) -> Option<Seq<char>> {
        match self {
            Error::InvalidVersion => Some("Specified version does not exist"@),
            Error::InvalidLevel => Some("Specified level does not exist"@),
            Error::BadAuth => Some("Authtication failed"@),
            Error::InvalidAPIKey => Some("Invalid Articut key"@),
            Error::InputTextTooLong => Some("Your input_str is too long"@),
            Error::NotEnoughQuota => Some("Insufficient word count balance"@),
            Error::InternalServerError => Some("Internal server error"@),
            Error::InvalidContentType => Some("Invalid content_type"@),
            Error::InvalidArguments => Some("Invalid arguments"@),
            Error::UserDictionaryParseError => Some("UserDefinedDICT Parsing"@),
            Error::UserDictionarySizeExceed => Some("Maximum UserDefinedDICT file size"@),
            Error::RateLimited => Some("Requests per minute exceeded"@),
            Error::NetworkError(_) => None,
        }
    }

    /// The place of this failure in the table: phrases are tried in this
    /// order, lowest first.
    pub open spec fn rank(self) -> nat {
        match self {
            Error::InvalidVersion => 0,
            Error::InvalidLevel => 1,
            Error::BadAuth => 2,
            Error::InvalidAPIKey => 3,
            Error::InputTextTooLong => 4,
            Error::NotEnoughQuota => 5,
            Error::InternalServerError => 6,
            Error::InvalidContentType => 7,
            Error::InvalidArguments => 8,
            Error::UserDictionaryParseError => 9,
            Error::UserDictionarySizeExceed => 10,
            Error::RateLimited => 11,
            Error::NetworkError(_) => 12,
        }
    }

    /// The message `msg` reports this failure: its phrase stands somewhere
    /// in `msg`.
    pub open spec fn reported_by(self, msg: Seq<char>) -> bool {
        match self.phrase() {
            Some(phrase) => occurs_in(phrase, msg),
            None => false,
        }
    }

    /// The failure that a message stands for: the first of the table that
    /// the message reports, if it reports any.
    pub open spec fn of_message(msg: Seq<char>) -> Option<Error> {
        if Error::InvalidVersion.reported_by(msg) {
            Some(Error::InvalidVersion)
        } else if Error::InvalidLevel.reported_by(msg) {
            Some(Error::InvalidLevel)
        } else if Error::BadAuth.reported_by(msg) {
            Some(Error::BadAuth)
        } else if Error::InvalidAPIKey.reported_by(msg) {
            Some(Error::InvalidAPIKey)
        } else if Error::InputTextTooLong.reported_by(msg) {
            Some(Error::InputTextTooLong)
        } else if Error::NotEnoughQuota.reported_by(msg) {
            Some(Error::NotEnoughQuota)
        } else if Error::InternalServerError.reported_by(msg) {
            Some(Error::InternalServerError)
        } else if Error::InvalidContentType.reported_by(msg) {
            Some(Error::InvalidContentType)
        } else if Error::InvalidArguments.reported_by(msg) {
            Some(Error::InvalidArguments)
        } else if Error::UserDictionaryParseError.reported_by(msg) {
            Some(Error::UserDictionaryParseError)
        } else if Error::UserDictionarySizeExceed.reported_by(msg) {
            Some(Error::UserDictionarySizeExceed)
        } else if Error::RateLimited.reported_by(msg) {
            Some(Error::RateLimited)
        } else {
            None
        }
    }

    /// A message that reports a failure, and none that ranks before it,
    /// stands for that failure, wherever in the message the phrase is.
    pub proof fn first_reported_is_found(msg: Seq<char>, failure: Error)
        requires
            failure.reported_by(msg),
            forall|other: Error|
                other.rank() < failure.rank() ==> !(#[trigger] other.reported_by(msg)),
        ensures
            Error::of_message(msg) == Some(failure),
    {
    }

    /// The same, with the phrase shown in its place: a message made of any
    /// text, then the phrase of a failure, then any text, stands for that
    /// failure, unless it also reports one that ranks before it.
    pub proof fn embedded_phrase_is_found(before: Seq<char>, failure: Error, after: Seq<char>)
        requires
            !(failure is NetworkError),
            forall|other: Error|
                other.rank() < failure.rank() ==> !(#[trigger] other.reported_by(
                    before + failure.phrase()->0 + after,
                )),
        ensures
            Error::of_message(before + failure.phrase()->0 + after) == Some(failure),
    {
        occurs_in_embedding(before, failure.phrase()->0, after);
        Error::first_reported_is_found(before + failure.phrase()->0 + after, failure);
    }

    /// What a message stands for is never a transport failure, is reported
    /// by the message, and ranks first among the failures that it reports.
    /// A message stands for no failure only if it reports none.
    pub proof fn found_is_first_reported(msg: Seq<char>)
        ensures
            match Error::of_message(msg) {
                Some(failure) => {
                    &&& !(failure is NetworkError)
                    &&& failure.reported_by(msg)
                    &&& forall|other: Error|
                        other.rank() < failure.rank() ==> !(#[trigger] other.reported_by(msg))
                },
                None => forall|other: Error| !(#[trigger] other.reported_by(msg)),
            },
    {
    }

    /// A message in which none of the twelve phrases stands is no failure,
    /// whatever else it says.
    pub proof fn silent_message_is_no_failure(msg: Seq<char>)
        requires
            forall|other: Error| !(#[trigger] other.reported_by(msg)),
        ensures
            Error::of_message(msg) is None,
    {
    }

    /// Every failure of the table can be reported: its phrase, taken alone,
    /// stands for it, because no phrase holds one that ranks before it.
    pub proof fn phrase_alone_is_its_failure(failure: Error)
        requires
            !(failure is NetworkError),
        ensures
            failure.phrase() is Some,
            Error::of_message(failure.phrase()->0) == Some(failure),
    {
        match failure {
            Error::InvalidVersion => alone_invalid_version(),
            Error::InvalidLevel => alone_invalid_level(),
            Error::BadAuth => alone_bad_auth(),
            Error::InvalidAPIKey => alone_invalid_api_key(),
            Error::InputTextTooLong => alone_input_text_too_long(),
            Error::NotEnoughQuota => alone_not_enough_quota(),
            Error::InternalServerError => alone_internal_server_error(),
            Error::InvalidContentType => alone_invalid_content_type(),
            Error::InvalidArguments => alone_invalid_arguments(),
            Error::UserDictionaryParseError => alone_user_dictionary_parse_error(),
            Error::UserDictionarySizeExceed => alone_user_dictionary_size_exceed(),
            Error::RateLimited => alone_rate_limited(),
            Error::NetworkError(_) => {},
        }
    }
}

// One proof for each phrase of the table: none of the phrases that rank
// before it stands in it. An earlier phrase is either longer, or has a letter
// that the later one lacks; the number handed over is the place of that letter.

proof fn alone_invalid_version()
    ensures
        Error::of_message("Specified version does not exist"@) == Some(Error::InvalidVersion),
{
    let alone = "Specified version does not exist"@;
    reveal_strlit("Specified version does not exist");
    occurs_in_itself(alone);
}

proof fn alone_invalid_level()
    ensures
        Error::of_message("Specified level does not exist"@) == Some(Error::InvalidLevel),
{
    let alone = "Specified level does not exist"@;
    reveal_strlit("Specified level does not exist");
    occurs_in_itself(alone);
    reveal_strlit("Specified version does not exist");
    longer_does_not_occur("Specified version does not exist"@, alone);
}

proof fn alone_bad_auth()
    ensures
        Error::of_message("Authtication failed"@) == Some(Error::BadAuth),
{
    let alone = "Authtication failed"@;
    reveal_strlit("Authtication failed");
    occurs_in_itself(alone);
    reveal_strlit("Specified version does not exist");
    longer_does_not_occur("Specified version does not exist"@, alone);
    reveal_strlit("Specified level does not exist");
    longer_does_not_occur("Specified level does not exist"@, alone);
}

proof fn alone_invalid_api_key()
    ensures
        Error::of_message("Invalid Articut key"@) == Some(Error::InvalidAPIKey),
{
    let alone = "Invalid Articut key"@;
    reveal_strlit("Invalid Articut key");
    occurs_in_itself(alone);
    reveal_strlit("Specified version does not exist");
    longer_does_not_occur("Specified version does not exist"@, alone);
    reveal_strlit("Specified level does not exist");
    longer_does_not_occur("Specified level does not exist"@, alone);
    reveal_strlit("Authtication failed");
    stranger_does_not_occur("Authtication failed"@, alone, 3);
}

proof fn alone_input_text_too_long()
    ensures
        Error::of_message("Your input_str is too long"@) == Some(Error::InputTextTooLong),
{
    let alone = "Your input_str is too long"@;
    reveal_strlit("Your input_str is too long");
    occurs_in_itself(alone);
    reveal_strlit("Specified version does not exist");
    longer_does_not_occur("Specified version does not exist"@, alone);
    reveal_strlit("Specified level does not exist");
    longer_does_not_occur("Specified level does not exist"@, alone);
    reveal_strlit("Authtication failed");
    stranger_does_not_occur("Authtication failed"@, alone, 0);
    reveal_strlit("Invalid Articut key");
    stranger_does_not_occur("Invalid Articut key"@, alone, 0);
}

proof fn alone_not_enough_quota()
    ensures
        Error::of_message("Insufficient word count balance"@) == Some(Error::NotEnoughQuota),
{
    let alone = "Insufficient word count balance"@;
    reveal_strlit("Insufficient word count balance");
    occurs_in_itself(alone);
    reveal_strlit("Specified version does not exist");
    longer_does_not_occur("Specified version does not exist"@, alone);
    reveal_strlit("Specified level does not exist");
    stranger_does_not_occur("Specified level does not exist"@, alone, 0);
    reveal_strlit("Authtication failed");
    stranger_does_not_occur("Authtication failed"@, alone, 0);
    reveal_strlit("Invalid Articut key");
    stranger_does_not_occur("Invalid Articut key"@, alone, 2);
    reveal_strlit("Your input_str is too long");
    stranger_does_not_occur("Your input_str is too long"@, alone, 0);
}

proof fn alone_internal_server_error()
    ensures
        Error::of_message("Internal server error"@) == Some(Error::InternalServerError),
{
    let alone = "Internal server error"@;
    reveal_strlit("Internal server error");
    occurs_in_itself(alone);
    reveal_strlit("Specified version does not exist");
    longer_does_not_occur("Specified version does not exist"@, alone);
    reveal_strlit("Specified level does not exist");
    longer_does_not_occur("Specified level does not exist"@, alone);
    reveal_strlit("Authtication failed");
    stranger_does_not_occur("Authtication failed"@, alone, 0);
    reveal_strlit("Invalid Articut key");
    stranger_does_not_occur("Invalid Articut key"@, alone, 5);
    reveal_strlit("Your input_str is too long");
    longer_does_not_occur("Your input_str is too long"@, alone);
    reveal_strlit("Insufficient word count balance");
    longer_does_not_occur("Insufficient word count balance"@, alone);
}

proof fn alone_invalid_content_type()
    ensures
        Error::of_message("Invalid content_type"@) == Some(Error::InvalidContentType),
{
    let alone = "Invalid content_type"@;
    reveal_strlit("Invalid content_type");
    occurs_in_itself(alone);
    reveal_strlit("Specified version does not exist");
    longer_does_not_occur("Specified version does not exist"@, alone);
    reveal_strlit("Specified level does not exist");
    longer_does_not_occur("Specified level does not exist"@, alone);
    reveal_strlit("Authtication failed");
    stranger_does_not_occur("Authtication failed"@, alone, 0);
    reveal_strlit("Invalid Articut key");
    stranger_does_not_occur("Invalid Articut key"@, alone, 8);
    reveal_strlit("Your input_str is too long");
    longer_does_not_occur("Your input_str is too long"@, alone);
    reveal_strlit("Insufficient word count balance");
    longer_does_not_occur("Insufficient word count balance"@, alone);
    reveal_strlit("Internal server error");
    longer_does_not_occur("Internal server error"@, alone);
}

proof fn alone_invalid_arguments()
    ensures
        Error::of_message("Invalid arguments"@) == Some(Error::InvalidArguments),
{
    let alone = "Invalid arguments"@;
    reveal_strlit("Invalid arguments");
    occurs_in_itself(alone);
    reveal_strlit("Specified version does not exist");
    longer_does_not_occur("Specified version does not exist"@, alone);
    reveal_strlit("Specified level does not exist");
    longer_does_not_occur("Specified level does not exist"@, alone);
    reveal_strlit("Authtication failed");
    longer_does_not_occur("Authtication failed"@, alone);
    reveal_strlit("Invalid Articut key");
    longer_does_not_occur("Invalid Articut key"@, alone);
    reveal_strlit("Your input_str is too long");
    longer_does_not_occur("Your input_str is too long"@, alone);
    reveal_strlit("Insufficient word count balance");
    longer_does_not_occur("Insufficient word count balance"@, alone);
    reveal_strlit("Internal server error");
    longer_does_not_occur("Internal server error"@, alone);
    reveal_strlit("Invalid content_type");
    longer_does_not_occur("Invalid content_type"@, alone);
}

proof fn alone_user_dictionary_parse_error()
    ensures
        Error::of_message("UserDefinedDICT Parsing"@) == Some(Error::UserDictionaryParseError),
{
    let alone = "UserDefinedDICT Parsing"@;
    reveal_strlit("UserDefinedDICT Parsing");
    occurs_in_itself(alone);
    reveal_strlit("Specified version does not exist");
    longer_does_not_occur("Specified version does not exist"@, alone);
    reveal_strlit("Specified level does not exist");
    longer_does_not_occur("Specified level does not exist"@, alone);
    reveal_strlit("Authtication failed");
    stranger_does_not_occur("Authtication failed"@, alone, 0);
    reveal_strlit("Invalid Articut key");
    stranger_does_not_occur("Invalid Articut key"@, alone, 2);
    reveal_strlit("Your input_str is too long");
    longer_does_not_occur("Your input_str is too long"@, alone);
    reveal_strlit("Insufficient word count balance");
    longer_does_not_occur("Insufficient word count balance"@, alone);
    reveal_strlit("Internal server error");
    stranger_does_not_occur("Internal server error"@, alone, 2);
    reveal_strlit("Invalid content_type");
    stranger_does_not_occur("Invalid content_type"@, alone, 2);
    reveal_strlit("Invalid arguments");
    stranger_does_not_occur("Invalid arguments"@, alone, 2);
}

proof fn alone_user_dictionary_size_exceed()
    ensures
        Error::of_message("Maximum UserDefinedDICT file size"@) == Some(Error::UserDictionarySizeExceed),
{
    let alone = "Maximum UserDefinedDICT file size"@;
    reveal_strlit("Maximum UserDefinedDICT file size");
    occurs_in_itself(alone);
    reveal_strlit("Specified version does not exist");
    stranger_does_not_occur("Specified version does not exist"@, alone, 0);
    reveal_strlit("Specified level does not exist");
    stranger_does_not_occur("Specified level does not exist"@, alone, 0);
    reveal_strlit("Authtication failed");
    stranger_does_not_occur("Authtication failed"@, alone, 0);
    reveal_strlit("Invalid Articut key");
    stranger_does_not_occur("Invalid Articut key"@, alone, 2);
    reveal_strlit("Your input_str is too long");
    stranger_does_not_occur("Your input_str is too long"@, alone, 0);
    reveal_strlit("Insufficient word count balance");
    stranger_does_not_occur("Insufficient word count balance"@, alone, 7);
    reveal_strlit("Internal server error");
    stranger_does_not_occur("Internal server error"@, alone, 2);
    reveal_strlit("Invalid content_type");
    stranger_does_not_occur("Invalid content_type"@, alone, 2);
    reveal_strlit("Invalid arguments");
    stranger_does_not_occur("Invalid arguments"@, alone, 2);
    reveal_strlit("UserDefinedDICT Parsing");
    stranger_does_not_occur("UserDefinedDICT Parsing"@, alone, 16);
}

proof fn alone_rate_limited()
    ensures
        Error::of_message("Requests per minute exceeded"@) == Some(Error::RateLimited),
{
    let alone = "Requests per minute exceeded"@;
    reveal_strlit("Requests per minute exceeded");
    occurs_in_itself(alone);
    reveal_strlit("Specified version does not exist");
    longer_does_not_occur("Specified version does not exist"@, alone);
    reveal_strlit("Specified level does not exist");
    longer_does_not_occur("Specified level does not exist"@, alone);
    reveal_strlit("Authtication failed");
    stranger_does_not_occur("Authtication failed"@, alone, 0);
    reveal_strlit("Invalid Articut key");
    stranger_does_not_occur("Invalid Articut key"@, alone, 0);
    reveal_strlit("Your input_str is too long");
    stranger_does_not_occur("Your input_str is too long"@, alone, 0);
    reveal_strlit("Insufficient word count balance");
    longer_does_not_occur("Insufficient word count balance"@, alone);
    reveal_strlit("Internal server error");
    stranger_does_not_occur("Internal server error"@, alone, 0);
    reveal_strlit("Invalid content_type");
    stranger_does_not_occur("Invalid content_type"@, alone, 0);
    reveal_strlit("Invalid arguments");
    stranger_does_not_occur("Invalid arguments"@, alone, 0);
    reveal_strlit("UserDefinedDICT Parsing");
    stranger_does_not_occur("UserDefinedDICT Parsing"@, alone, 0);
    reveal_strlit("Maximum UserDefinedDICT file size");
    longer_does_not_occur("Maximum UserDefinedDICT file size"@, alone);
}

impl From<reqwest::Error> for Error {
    /// A failure of the transport becomes the network error that wraps it.
    fn from(failure: reqwest::Error) -> (wrapped: Error) {
        Error::NetworkError(failure)
    }
}

impl vstd::std_specs::convert::FromSpecImpl<reqwest::Error> for Error {
    open spec fn obeys_from_spec() -> bool {
        true
    }

    open spec fn from_spec(failure: reqwest::Error) -> Error {
        Error::NetworkError(failure)
    }
}

impl std::str::FromStr for Error {
    type Err = ();

    /// Reads a failure out of the text of a server message.
    ///
    /// Returns the first failure of the table whose phrase stands anywhere
    /// in `msg`, and `Err(())` when `msg` holds none of the phrases.
    fn from_str(msg: &str) -> (found: Result<Error, ()>)
        ensures
            found == match Error::of_message(msg@) {
                Some(failure) => Ok::<Error, ()>(failure),
                None => Err::<Error, ()>(()),
            },
    {
        if contains(msg, "Specified version does not exist") {
            Ok(Error::InvalidVersion)
        } else if contains(msg, "Specified level does not exist") {
            Ok(Error::InvalidLevel)
        } else if contains(msg, "Authtication failed") {
            Ok(Error::BadAuth)
        } else if contains(msg, "Invalid Articut key") {
            Ok(Error::InvalidAPIKey)
        } else if contains(msg, "Your input_str is too long") {
            Ok(Error::InputTextTooLong)
        } else if contains(msg, "Insufficient word count balance") {
            Ok(Error::NotEnoughQuota)
        } else if contains(msg, "Internal server error") {
            Ok(Error::InternalServerError)
        } else if contains(msg, "Invalid content_type") {
            Ok(Error::InvalidContentType)
        } else if contains(msg, "Invalid arguments") {
            Ok(Error::InvalidArguments)
        } else if contains(msg, "UserDefinedDICT Parsing") {
            Ok(Error::UserDictionaryParseError)
        } else if contains(msg, "Maximum UserDefinedDICT file size") {
            Ok(Error::UserDictionarySizeExceed)
        } else if contains(msg, "Requests per minute exceeded") {
            Ok(Error::RateLimited)
        } else {
            Err(())
        }
    }
}

} // verus!
