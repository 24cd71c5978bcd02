//! The client's credentials, the options of a request, what a request
//! carries, and the service's reply.

use crate::error::Error;
use std::collections::HashMap;
use std::str::FromStr;
use vstd::prelude::*;

verus! {

/// The address to which every request is posted.
pub const ENDPOINT: &'static str = "https://api.droidtown.co/Articut/API/";

/// How deep the service's annotation goes.
#[derive(Clone, Copy, Debug)]
pub enum Level {
    Lv1,
    Lv2,
    Lv3,
}

impl Level {
    /// The short code that stands for this level in a request.
    pub open spec fn code_text(self) -> Seq<char> {
        match self {
            Level::Lv1 => "lv1"@,
            Level::Lv2 => "lv2"@,
            Level::Lv3 => "lv3"@,
        }
    }

    /// The short code that stands for this level in a request.
    pub fn code(self) -> (code: &'static str)
        ensures
            code@ == self.code_text(),
    {
        match self {
            Level::Lv1 => "lv1",
            Level::Lv2 => "lv2",
            Level::Lv3 => "lv3",
        }
    }
}

impl Default for Level {
    /// The second level is the one used when none is chosen.
    fn default() -> (level: Level)
        ensures
            level == Level::Lv2,
    {
        Level::Lv2
    }
}

/// The romanization scheme asked for the readings that come back.
#[derive(Debug, Clone, Copy)]
pub enum Pinyin {
    HANYU,
    BOPOMOFO,
}

impl Pinyin {
    /// The name that stands for this scheme in a request.
    pub open spec fn name_text(self) -> Seq<char> {
        match self {
            Pinyin::HANYU => "HANYU"@,
            Pinyin::BOPOMOFO => "BOPOMOFO"@,
        }
    }

    /// The name that stands for this scheme in a request.
    pub fn name(self) -> (name: &'static str)
        ensures
            name@ == self.name_text(),
    {
        match self {
            Pinyin::HANYU => "HANYU",
            Pinyin::BOPOMOFO => "BOPOMOFO",
        }
    }
}

/// What a set of options holds, as plain values.
pub struct RequestOptionsView {
    pub version: Seq<char>,
    pub level: Level,
    pub user_dict: Map<String, String>,
    pub opendata_place: bool,
    pub wikidata: bool,
    pub chemical: bool,
    pub emoji: bool,
    pub time_ref: Seq<char>,
    pub pinyin: Pinyin,
}

impl RequestOptionsView {
    /// The options that hold when none are given: the latest version, the
    /// second level, no dictionary, every feature off, no time reference,
    /// and readings in Bopomofo.
    pub open spec fn fixed_defaults() -> RequestOptionsView {
        RequestOptionsView {
            version: "latest"@,
            level: Level::Lv2,
            user_dict: Map::empty(),
            opendata_place: false,
            wikidata: false,
            chemical: false,
            emoji: false,
            time_ref: Seq::empty(),
            pinyin: Pinyin::BOPOMOFO,
        }
    }
}

/// The options of one request.
#[derive(Clone, Debug)]
pub struct RequestOptions {
    pub version: &'static str,
    pub level: Level,
    /// Terms of the caller's own, each with the tag it is to be given.
    pub user_dict: HashMap<String, String>,
    pub opendata_place: bool,
    pub wikidata: bool,
    pub chemical: bool,
    pub emoji: bool,
    pub time_ref: String,
    pub pinyin: Pinyin,
}

impl View for RequestOptions {
    type V = RequestOptionsView;

    open spec fn view(&self) -> RequestOptionsView {
        RequestOptionsView {
            version: self.version@,
            level: self.level,
            user_dict: self.user_dict@,
            opendata_place: self.opendata_place,
            wikidata: self.wikidata,
            chemical: self.chemical,
            emoji: self.emoji,
            time_ref: self.time_ref@,
            pinyin: self.pinyin,
        }
    }
}

impl Default for RequestOptions {
    /// The options that hold when none are given.
    fn default() -> (option: RequestOptions)
        ensures
            option@ == RequestOptionsView::fixed_defaults(),
    {
        RequestOptions {
            version: "latest",
            level: Level::Lv2,
            user_dict: HashMap::new(),
            opendata_place: false,
            wikidata: false,
            chemical: false,
            emoji: false,
            time_ref: String::new(),
            pinyin: Pinyin::BOPOMOFO,
        }
    }
}

/// The credentials of a client, as plain text.
pub struct ArticutView {
    pub username: Seq<char>,
    pub api_key: Seq<char>,
}

/// What one request carries, as plain values, each under the name of its
/// field on the wire.
pub struct PayloadView {
    pub version: Seq<char>,
    pub level: Seq<char>,
    pub user_defined_dict_file: Map<String, String>,
    pub opendata_place: bool,
    pub wikidata: bool,
    pub chemical: bool,
    pub emoji: bool,
    pub time_ref: Seq<char>,
    pub pinyin: Seq<char>,
    pub input_str: Seq<char>,
    pub username: Seq<char>,
    pub api_key: Seq<char>,
}

/// What the request of `who` for `text` under `option` carries: the options
/// laid flat, the level and the romanization scheme spelled as the service
/// reads them, then the text and the credentials.
pub open spec fn payload_of(
    who: ArticutView,
    text: Seq<char>,
    option: RequestOptionsView,
) -> PayloadView {
    PayloadView {
        version: option.version,
        level: option.level.code_text(),
        user_defined_dict_file: option.user_dict,
        opendata_place: option.opendata_place,
        wikidata: option.wikidata,
        chemical: option.chemical,
        emoji: option.emoji,
        time_ref: option.time_ref,
        pinyin: option.pinyin.name_text(),
        input_str: text,
        username: who.username,
        api_key: who.api_key,
    }
}

/// Whatever else a request holds, its level travels as the short code of
/// that level: `lv1`, `lv2` or `lv3`.
pub proof fn level_travels_as_its_code(
    who: ArticutView,
    text: Seq<char>,
    option: RequestOptionsView,
)
    ensures
        payload_of(who, text, option).level == match option.level {
            Level::Lv1 => "lv1"@,
            Level::Lv2 => "lv2"@,
            Level::Lv3 => "lv3"@,
        },
{
}

/// No two levels share a code, so the code on the wire tells which level
/// was asked for.
pub proof fn codes_tell_levels_apart(one: Level, other: Level)
    requires
        one.code_text() == other.code_text(),
    ensures
        one == other,
{
    reveal_strlit("lv1");
    reveal_strlit("lv2");
    reveal_strlit("lv3");
    // The codes differ in their last character.
    assert("lv1"@[2] != "lv2"@[2]);
    assert("lv1"@[2] != "lv3"@[2]);
    assert("lv2"@[2] != "lv3"@[2]);
}

/// What one request carries. Every field goes on the wire under its own
/// name.
#[derive(Debug)]
pub struct Payload<'a, 'b> {
    pub version: &'static str,
    pub level: &'static str,
    pub user_defined_dict_file: HashMap<String, String>,
    pub opendata_place: bool,
    pub wikidata: bool,
    pub chemical: bool,
    pub emoji: bool,
    pub time_ref: String,
    pub pinyin: &'static str,
    pub input_str: String,
    pub username: &'a str,
    pub api_key: &'b str,
}

impl<'a, 'b> View for Payload<'a, 'b> {
    type V = PayloadView;

    open spec fn view(&self) -> PayloadView {
        PayloadView {
            version: self.version@,
            level: self.level@,
            user_defined_dict_file: self.user_defined_dict_file@,
            opendata_place: self.opendata_place,
            wikidata: self.wikidata,
            chemical: self.chemical,
            emoji: self.emoji,
            time_ref: self.time_ref@,
            pinyin: self.pinyin@,
            input_str: self.input_str@,
            username: self.username@,
            api_key: self.api_key@,
        }
    }
}

/// A client of the service: the name of an account and its key.
pub struct Articut<'a, 'b> {
    username: &'a str,
    api_key: &'b str,
}

impl<'a, 'b> View for Articut<'a, 'b> {
    type V = ArticutView;

    closed spec fn view(&self) -> ArticutView {
        ArticutView { username: self.username@, api_key: self.api_key@ }
    }
}

impl<'a, 'b> Articut<'a, 'b> {
    /// A client for the given account.
    pub fn new(username: &'a str, api_key: &'b str) -> (client: Articut<'a, 'b>)
        ensures
            client@ == (ArticutView { username: username@, api_key: api_key@ }),
    {
        Articut { username, api_key }
    }

    /// What this client's request for `text` under `option` carries.
    pub fn payload(&self, text: &str, option: RequestOptions) -> (payload: Payload<'a, 'b>)
        ensures
            payload@ == payload_of(self@, text@, option@),
    {
        Payload {
            version: option.version,
            level: option.level.code(),
            user_defined_dict_file: option.user_dict,
            opendata_place: option.opendata_place,
            wikidata: option.wikidata,
            chemical: option.chemical,
            emoji: option.emoji,
            time_ref: option.time_ref,
            pinyin: option.pinyin.name(),
            input_str: text.to_string(),
            username: self.username,
            api_key: self.api_key,
        }
    }

    /// What this client's request for `text` carries when no options are
    /// given.
    pub fn default_payload(&self, text: &str) -> (payload: Payload<'a, 'b>)
        ensures
            payload@ == payload_of(self@, text@, RequestOptionsView::fixed_defaults()),
    {
        self.payload(text, RequestOptions::default())
    }
}

/// What a part-of-speech tag says, as plain text.
pub struct PosTagView {
    pub pos: Seq<char>,
    pub text: Seq<char>,
}

/// One annotated token of a reply: a part-of-speech label and the text
/// that it was given to.
#[derive(Debug, Clone)]
pub struct PosTag {
    pos: String,
    text: String,
}

impl View for PosTag {
    type V = PosTagView;

    closed spec fn view(&self) -> PosTagView {
        PosTagView { pos: self.pos@, text: self.text@ }
    }
}

impl DeepView for PosTag {
    type V = PosTagView;

    open spec fn deep_view(&self) -> PosTagView {
        self@
    }
}

impl PosTag {
    /// A tag with the given label and text.
    pub fn new(pos: String, text: String) -> (tag: PosTag)
        ensures
            tag@ == (PosTagView { pos: pos@, text: text@ }),
    {
        PosTag { pos, text }
    }

    /// The part-of-speech label.
    pub fn pos(&self) -> (pos: &str)
        ensures
            pos@ == self@.pos,
    {
        self.pos.as_str()
    }

    /// The text that the label was given to.
    pub fn text(&self) -> (text: &str)
        ensures
            text@ == self@.text,
    {
        self.text.as_str()
    }
}

/// What a reply holds, as plain values.
pub struct ResponseView {
    pub version: Seq<char>,
    pub level: Level,
    pub msg: Seq<char>,
    pub exec_time_bits: u32,
    pub result_pos: Seq<Seq<char>>,
    pub result_obj: Seq<Seq<PosTagView>>,
    pub result_segmentation: Seq<char>,
    pub word_count_balance: int,
}

/// The service's reply to one request.
///
/// The message that comes with it is no field to work with: it only serves
/// to tell a failure from a result.
#[derive(Debug)]
pub struct Response {
    pub version: String,
    pub level: Level,
    msg: String,
    /// The time the service took, in seconds: the bits of the
    /// single-precision number that the service sent.
    pub exec_time_bits: u32,
    pub result_pos: Vec<String>,
    pub result_obj: Vec<Vec<PosTag>>,
    pub result_segmentation: String,
    pub word_count_balance: i32,
}

impl View for Response {
    type V = ResponseView;

    closed spec fn view(&self) -> ResponseView {
        ResponseView {
            version: self.version@,
            level: self.level,
            msg: self.msg@,
            exec_time_bits: self.exec_time_bits,
            result_pos: self.result_pos.deep_view(),
            result_obj: self.result_obj.deep_view(),
            result_segmentation: self.result_segmentation@,
            word_count_balance: self.word_count_balance as int,
        }
    }
}

impl Response {
    /// A reply made of the given parts, each kept as it is.
    pub fn new(
        version: String,
        level: Level,
        msg: String,
        exec_time_bits: u32,
        result_pos: Vec<String>,
        result_obj: Vec<Vec<PosTag>>,
        result_segmentation: String,
        word_count_balance: i32,
    ) -> (reply: Response)
        ensures
            reply@ == (ResponseView {
                version: version@,
                level: level,
                msg: msg@,
                exec_time_bits: exec_time_bits,
                result_pos: result_pos.deep_view(),
                result_obj: result_obj.deep_view(),
                result_segmentation: result_segmentation@,
                word_count_balance: word_count_balance as int,
            }),
    {
        Response {
            version,
            level,
            msg,
            exec_time_bits,
            result_pos,
            result_obj,
            result_segmentation,
            word_count_balance,
        }
    }

    /// The text of the message that came with the reply.
    pub fn msg(&self) -> (msg: &str)
        ensures
            msg@ == self@.msg,
    {
        self.msg.as_str()
    }

    /// What the reply amounts to.
    ///
    /// A reply whose message reports a failure is that failure, the first
    /// of the table that the message reports. Any other reply is a result
    /// and comes back untouched, whatever its message and its other fields
    /// hold.
    pub fn into_result(self) -> (outcome: Result<Response, Error>)
        ensures
            outcome == match Error::of_message(self@.msg) {
                Some(failure) => Err::<Response, Error>(failure),
                None => Ok::<Response, Error>(self),
            },
    {
        match Error::from_str(self.msg.as_str()) {
            Ok(failure) => Err(failure),
            Err(_) => Ok(self),
        }
    }
}

/// Settles one exchange from what the transport handed back.
///
/// A failure of the transport is the network error that wraps it, and never
/// one of the failures that a message reports. A reply that arrived is
/// what [`Response::into_result`] makes of it.
pub fn interpret(received: Result<Response, reqwest::Error>) -> (outcome: Result<Response, Error>)
    ensures
        outcome == match received {
            Err(failure) => Err::<Response, Error>(Error::NetworkError(failure)),
            Ok(reply) => match Error::of_message(reply@.msg) {
                Some(failure) => Err::<Response, Error>(failure),
                None => Ok::<Response, Error>(reply),
            },
        },
{
    match received {
        Err(failure) => Err(Error::from(failure)),
        Ok(reply) => reply.into_result(),
    }
}

} // verus!
