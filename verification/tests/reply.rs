use articut_api::articut::{interpret, Level, PosTag, Response};
use articut_api::error::Error;

fn tag(pos: &str, text: &str) -> PosTag {
    PosTag::new(pos.to_string(), text.to_string())
}

fn reply_with_message(msg: &str) -> Response {
    Response::new(
        "v256".to_string(),
        Level::Lv2,
        msg.to_string(),
        0x3d4c_cccd,
        vec![
            "<ENTITY_pronoun>我</ENTITY_pronoun>".to_string(),
            "。".to_string(),
        ],
        vec![
            vec![tag("ENTITY_pronoun", "我"), tag("ACTION_verb", "想")],
            vec![tag("PUNCTUATION", "。")],
        ],
        "我/想/。".to_string(),
        1988,
    )
}

fn transport_failure() -> reqwest::Error {
    reqwest::Client::new()
        .post("not an address")
        .build()
        .unwrap_err()
}

#[test]
fn a_tag_keeps_its_label_and_text() {
    let t = tag("ACTION_verb", "過");
    assert_eq!(t.pos(), "ACTION_verb");
    assert_eq!(t.text(), "過");
    let copy = t.clone();
    assert_eq!(copy.pos(), "ACTION_verb");
    assert_eq!(copy.text(), "過");
}

#[test]
fn a_reply_keeps_every_part() {
    let reply = reply_with_message("Success!");
    assert_eq!(reply.version, "v256");
    assert!(matches!(reply.level, Level::Lv2));
    assert_eq!(reply.msg(), "Success!");
    assert_eq!(reply.exec_time_bits, 0x3d4c_cccd);
    assert_eq!(reply.result_pos.len(), 2);
    assert_eq!(reply.result_pos[0], "<ENTITY_pronoun>我</ENTITY_pronoun>");
    assert_eq!(reply.result_pos[1], "。");
    assert_eq!(reply.result_obj.len(), 2);
    assert_eq!(reply.result_obj[0].len(), 2);
    assert_eq!(reply.result_obj[0][1].pos(), "ACTION_verb");
    assert_eq!(reply.result_obj[0][1].text(), "想");
    assert_eq!(reply.result_obj[1][0].pos(), "PUNCTUATION");
    assert_eq!(reply.result_segmentation, "我/想/。");
    assert_eq!(reply.word_count_balance, 1988);
}

#[test]
fn a_good_reply_comes_back_untouched() {
    let outcome = interpret(Ok(reply_with_message("Success!")));
    let reply = outcome.expect("a reply without a failure phrase is a result");
    assert_eq!(reply.version, "v256");
    assert!(matches!(reply.level, Level::Lv2));
    assert_eq!(reply.msg(), "Success!");
    assert_eq!(reply.exec_time_bits, 0x3d4c_cccd);
    assert_eq!(
        reply.result_pos,
        vec![
            "<ENTITY_pronoun>我</ENTITY_pronoun>".to_string(),
            "。".to_string()
        ]
    );
    assert_eq!(reply.result_obj.len(), 2);
    assert_eq!(reply.result_obj[0][0].pos(), "ENTITY_pronoun");
    assert_eq!(reply.result_obj[0][0].text(), "我");
    assert_eq!(reply.result_obj[0][1].text(), "想");
    assert_eq!(reply.result_obj[1].len(), 1);
    assert_eq!(reply.result_segmentation, "我/想/。");
    assert_eq!(reply.word_count_balance, 1988);
}

#[test]
fn an_odd_reply_without_a_phrase_is_still_a_result() {
    let odd = Response::new(
        String::new(),
        Level::Lv3,
        "Something is off, but nobody said what".to_string(),
        0,
        Vec::new(),
        Vec::new(),
        String::new(),
        -42,
    );
    let reply = interpret(Ok(odd)).expect("no phrase, no failure");
    assert_eq!(reply.word_count_balance, -42);
    assert!(reply.result_pos.is_empty());
    assert!(reply.result_obj.is_empty());
    assert!(matches!(reply.level, Level::Lv3));

    let silent = Response::new(
        String::new(),
        Level::Lv1,
        String::new(),
        u32::MAX,
        Vec::new(),
        Vec::new(),
        String::new(),
        i32::MIN,
    );
    let reply = interpret(Ok(silent)).expect("an empty message is no failure");
    assert_eq!(reply.word_count_balance, i32::MIN);
    assert_eq!(reply.exec_time_bits, u32::MAX);
}

#[test]
fn a_reply_that_reports_a_failure_is_that_failure() {
    assert!(matches!(
        interpret(Ok(reply_with_message("Specified version does not exist"))),
        Err(Error::InvalidVersion)
    ));
    assert!(matches!(
        interpret(Ok(reply_with_message("Specified level does not exist"))),
        Err(Error::InvalidLevel)
    ));
    assert!(matches!(
        interpret(Ok(reply_with_message("Authtication failed"))),
        Err(Error::BadAuth)
    ));
    assert!(matches!(
        interpret(Ok(reply_with_message("Invalid Articut key"))),
        Err(Error::InvalidAPIKey)
    ));
    assert!(matches!(
        interpret(Ok(reply_with_message("Your input_str is too long"))),
        Err(Error::InputTextTooLong)
    ));
    assert!(matches!(
        interpret(Ok(reply_with_message("Insufficient word count balance"))),
        Err(Error::NotEnoughQuota)
    ));
    assert!(matches!(
        interpret(Ok(reply_with_message("Internal server error"))),
        Err(Error::InternalServerError)
    ));
    assert!(matches!(
        interpret(Ok(reply_with_message("Invalid content_type"))),
        Err(Error::InvalidContentType)
    ));
    assert!(matches!(
        interpret(Ok(reply_with_message("Invalid arguments"))),
        Err(Error::InvalidArguments)
    ));
    assert!(matches!(
        interpret(Ok(reply_with_message("UserDefinedDICT Parsing"))),
        Err(Error::UserDictionaryParseError)
    ));
    assert!(matches!(
        interpret(Ok(reply_with_message("Maximum UserDefinedDICT file size"))),
        Err(Error::UserDictionarySizeExceed)
    ));
    assert!(matches!(
        interpret(Ok(reply_with_message("Requests per minute exceeded"))),
        Err(Error::RateLimited)
    ));
}

#[test]
fn into_result_tells_failure_from_result() {
    assert!(matches!(
        reply_with_message("oops: Internal server error").into_result(),
        Err(Error::InternalServerError)
    ));
    let kept = reply_with_message("fine").into_result().expect("a result");
    assert_eq!(kept.msg(), "fine");
    assert_eq!(kept.result_segmentation, "我/想/。");
}

#[test]
fn a_transport_failure_is_a_network_error() {
    let failure = transport_failure();
    assert!(failure.is_builder());
    let shown = failure.to_string();
    match interpret(Err(failure)) {
        Err(Error::NetworkError(inner)) => {
            assert!(inner.is_builder());
            assert_eq!(inner.to_string(), shown);
        }
        _ => panic!("a transport failure must come back as a network error"),
    }
}

#[test]
fn a_transport_failure_converts_into_a_network_error() {
    let shown = transport_failure().to_string();
    match Error::from(transport_failure()) {
        Error::NetworkError(inner) => assert_eq!(inner.to_string(), shown),
        _ => panic!("a transport failure must become a network error"),
    }
    let converted: Error = transport_failure().into();
    assert!(matches!(converted, Error::NetworkError(_)));
}
