use binancex::api::client::error::{BinanceError, BodyParseError, HeaderParseIntError, TransportError};
use binancex::api::client::json::{from_slice, parse_json, FromJson, Json};
use binancex::api::client::response::{
    parse_header_value, BinanceHttpHeader, Response, SuccessOrError,
};
use binancex::api::client::{BinanceClient, BodyFailure, ResponseHead};
use binancex::schemes::common::{Pong, ServerTime};
use binancex::schemes::error::Error;
use http::{HeaderMap, HeaderValue, StatusCode};

fn headers(pairs: &[(&'static str, &'static str)]) -> HeaderMap {
    let mut map = HeaderMap::new();
    for (name, value) in pairs {
        map.append(*name, HeaderValue::from_static(value));
    }
    map
}

#[test]
fn test_parse_binance_response_error_or_empty_json() {
    let json = r#"
        {
            "code": -1003,
            "msg": "Too much request weight used; current limit is 1200 request weight per 1 MINUTE. Please use the websocket for live updates to avoid polling the API."
        }"#;

    match from_slice::<Pong, Error>(json.as_bytes()).unwrap() {
        SuccessOrError::Error(err) => {
            assert_eq!(err.code, -1003);
        }
        _ => unreachable!(),
    }
}

#[test]
fn test_decode_error_envelope() {
    let body = br#"{"code":-1003,"msg":"Too much request weight used"}"#;
    match from_slice::<Pong, Error>(body).unwrap() {
        SuccessOrError::Error(err) => {
            assert_eq!(err.code, -1003);
            assert_eq!(err.msg, "Too much request weight used");
        }
        SuccessOrError::Success(_) => panic!("an error object is no pong"),
    }
}

#[test]
fn test_decode_empty_object_is_success() {
    match from_slice::<Pong, Error>(b"{}").unwrap() {
        SuccessOrError::Success(Pong {}) => {}
        SuccessOrError::Error(_) => panic!("an empty object is a pong"),
    }
    match from_slice::<Pong, Error>(b" { } ").unwrap() {
        SuccessOrError::Success(Pong {}) => {}
        SuccessOrError::Error(_) => panic!("an empty object is a pong"),
    }
}

#[test]
fn test_decode_success_wins_over_error() {
    let body = br#"{"serverTime":1499827319559,"code":-1,"msg":"both"}"#;
    match from_slice::<ServerTime, Error>(body).unwrap() {
        SuccessOrError::Success(time) => assert_eq!(time.server_time, 1499827319559),
        SuccessOrError::Error(_) => panic!("the payload is tried first"),
    }
}

#[test]
fn test_decode_neither_shape_is_a_parse_error() {
    let err = from_slice::<ServerTime, Error>(br#"{"code":"x","msg":"m"}"#).unwrap_err();
    assert_eq!(
        err.message,
        "data did not match any variant of untagged enum SuccessOrError"
    );
    assert!(from_slice::<ServerTime, Error>(br#"{"code":1}"#).is_err());
    assert!(from_slice::<ServerTime, Error>(br#"{"msg":"m"}"#).is_err());
    assert!(from_slice::<ServerTime, Error>(br#"{"code":1.5,"msg":"m"}"#).is_err());
    assert!(from_slice::<ServerTime, Error>(br#"{"code":1,"msg":2}"#).is_err());
    assert!(from_slice::<ServerTime, Error>(br#"{"serverTime":-1}"#).is_err());
    assert!(from_slice::<ServerTime, Error>(b"[]").is_err());
    assert!(from_slice::<ServerTime, Error>(b"null").is_err());
    assert!(from_slice::<Pong, Error>(br#"{"unknown":1}"#).is_err());
}

#[test]
fn test_decode_invalid_json_is_a_parse_error() {
    let err = from_slice::<Pong, Error>(b"{").unwrap_err();
    assert!(!err.message.is_empty());
    assert!(from_slice::<Pong, Error>(b"").is_err());
    assert!(from_slice::<Pong, Error>(b"{} trailing").is_err());
    assert!(parse_json(b"{\"a\":}").is_err());
}

#[test]
fn test_error_code_bounds() {
    let min = br#"{"code":-9223372036854775808,"msg":""}"#;
    assert_eq!(Error::from_json(&parse_json(min).unwrap()).unwrap().code, i64::MIN);
    let max = br#"{"code":9223372036854775807,"msg":""}"#;
    assert_eq!(Error::from_json(&parse_json(max).unwrap()).unwrap().code, i64::MAX);
    let over = br#"{"code":9223372036854775808,"msg":""}"#;
    assert!(Error::from_json(&parse_json(over).unwrap()).is_none());
    let extra = br#"{"code":0,"msg":"ok","data":{"nested":[1,2,3]}}"#;
    assert_eq!(Error::from_json(&parse_json(extra).unwrap()).unwrap().code, 0);
}

#[test]
fn test_json_tree() {
    let json = parse_json(br#"{"b":[1,"two",null,true,{"c":-3}],"a":"x","n":18446744073709551615,"f":1.5}"#)
        .unwrap();
    assert_eq!(json.get("a").unwrap().as_str(), Some("x"));
    assert_eq!(json.get("n").unwrap().as_u64(), Some(u64::MAX));
    assert_eq!(json.get("n").unwrap().as_i64(), None);
    assert_eq!(json.get("n").unwrap().as_u16(), None);
    assert_eq!(json.get("f").unwrap().as_integer(), None);
    assert!(json.get("missing").is_none());
    assert!(!json.is_empty_object());
    match json.get("b").unwrap() {
        Json::Array(items) => {
            assert_eq!(items.len(), 5);
            assert_eq!(items[0].as_integer(), Some(1));
            assert_eq!(items[1].as_str(), Some("two"));
            assert!(matches!(items[2], Json::Null));
            assert!(matches!(items[3], Json::Bool(true)));
            assert_eq!(items[4].get("c").unwrap().as_i64(), Some(-3));
        }
        _ => panic!("an array"),
    }
    assert!(json.get("a").unwrap().get("x").is_none());
    assert_eq!(json.as_str(), None);
}

#[test]
fn test_parse_header_value() {
    assert_eq!(parse_header_value(b"5"), Ok(5));
    assert_eq!(parse_header_value(b"0"), Ok(0));
    assert_eq!(parse_header_value(b"007"), Ok(7));
    assert_eq!(parse_header_value(b"+12"), Ok(12));
    assert_eq!(parse_header_value(b"65535"), Ok(65535));
    assert_eq!(parse_header_value(b"65536"), Err(HeaderParseIntError::PosOverflow));
    assert_eq!(parse_header_value(b"99999999"), Err(HeaderParseIntError::PosOverflow));
    assert_eq!(parse_header_value(b""), Err(HeaderParseIntError::Empty));
    assert_eq!(parse_header_value(b"+"), Err(HeaderParseIntError::InvalidDigit));
    assert_eq!(parse_header_value(b"-"), Err(HeaderParseIntError::InvalidDigit));
    assert_eq!(parse_header_value(b"-5"), Err(HeaderParseIntError::InvalidDigit));
    assert_eq!(parse_header_value(b"abc"), Err(HeaderParseIntError::InvalidDigit));
    assert_eq!(parse_header_value(b" 5"), Err(HeaderParseIntError::InvalidDigit));
    assert_eq!(parse_header_value(b"5 "), Err(HeaderParseIntError::InvalidDigit));
    assert_eq!(parse_header_value(b"1_0"), Err(HeaderParseIntError::InvalidDigit));
    assert_eq!(parse_header_value(b"99999a"), Err(HeaderParseIntError::PosOverflow));
    assert_eq!(parse_header_value(b"9999a9"), Err(HeaderParseIntError::InvalidDigit));
    assert_eq!(parse_header_value(&[0xff, 0x31]), Err(HeaderParseIntError::InvalidDigit));
}

#[test]
fn test_parse_header_value_agrees_with_the_standard_parser() {
    let cases = [
        "5", "0", "007", "+12", "65535", "65536", "99999999", "", "+", "-", "-5", "abc", " 5",
        "5 ", "1_0", "99999a", "9999a9", "++1", "655350", "6553a",
    ];
    for case in cases {
        let ours = parse_header_value(case.as_bytes());
        let std = case.parse::<u16>();
        match (ours, std) {
            (Ok(a), Ok(b)) => assert_eq!(a, b),
            (Err(a), Err(b)) => {
                let kind = match b.kind() {
                    std::num::IntErrorKind::Empty => HeaderParseIntError::Empty,
                    std::num::IntErrorKind::InvalidDigit => HeaderParseIntError::InvalidDigit,
                    std::num::IntErrorKind::PosOverflow => HeaderParseIntError::PosOverflow,
                    other => panic!("kind {:?}", other),
                };
                assert_eq!(a, kind, "for {:?}", case);
            }
            (a, b) => panic!("{:?}: {:?} against {:?}", case, a, b),
        }
    }
}

#[test]
fn test_headers_without_retry_after() {
    let map = headers(&[("x-mbx-used-weight", "1"), ("x-mbx-used-weight-1m", "12")]);
    let figures = BinanceHttpHeader::try_from(&map).unwrap();
    assert_eq!(figures.x_mbx_used_weight, Some(1));
    assert_eq!(figures.x_mbx_used_weight_1m, Some(12));
    assert_eq!(figures.retry_after, None);
}

#[test]
fn test_headers_with_retry_after() {
    let map = headers(&[("retry-after", "5")]);
    let figures = BinanceHttpHeader::try_from(&map).unwrap();
    assert_eq!(figures.x_mbx_used_weight, None);
    assert_eq!(figures.x_mbx_used_weight_1m, None);
    assert_eq!(figures.retry_after, Some(5));
}

#[test]
fn test_headers_with_non_numeric_retry_after() {
    let map = headers(&[("x-mbx-used-weight", "1"), ("retry-after", "abc")]);
    assert_eq!(
        BinanceHttpHeader::try_from(&map).unwrap_err(),
        HeaderParseIntError::InvalidDigit
    );
}

#[test]
fn test_headers_none_and_default() {
    let figures = BinanceHttpHeader::try_from(&HeaderMap::new()).unwrap();
    assert_eq!(figures.x_mbx_used_weight, None);
    assert_eq!(figures.x_mbx_used_weight_1m, None);
    assert_eq!(figures.retry_after, None);
    let default = BinanceHttpHeader::default();
    assert_eq!(default.x_mbx_used_weight, None);
    assert_eq!(default.x_mbx_used_weight_1m, None);
    assert_eq!(default.retry_after, None);
}

#[test]
fn test_headers_first_value_and_first_error() {
    let map = headers(&[
        ("content-type", "application/json"),
        ("retry-after", "7"),
        ("retry-after", "8"),
        ("X-MBX-USED-WEIGHT-1M", "1200"),
    ]);
    let figures = BinanceHttpHeader::try_from(&map).unwrap();
    assert_eq!(figures.retry_after, Some(7));
    assert_eq!(figures.x_mbx_used_weight_1m, Some(1200));

    let map = headers(&[("x-mbx-used-weight", "70000"), ("retry-after", "")]);
    assert_eq!(
        BinanceHttpHeader::try_from(&map).unwrap_err(),
        HeaderParseIntError::PosOverflow
    );
    let map = headers(&[("retry-after", "")]);
    assert_eq!(
        BinanceHttpHeader::try_from(&map).unwrap_err(),
        HeaderParseIntError::Empty
    );
}

#[test]
fn test_headers_from_values() {
    let figures =
        BinanceHttpHeader::from_values(Some(b"3".to_vec()), None, Some(b"60".to_vec())).unwrap();
    assert_eq!(figures.x_mbx_used_weight, Some(3));
    assert_eq!(figures.x_mbx_used_weight_1m, None);
    assert_eq!(figures.retry_after, Some(60));
    assert_eq!(
        BinanceHttpHeader::from_values(None, Some(vec![0xc3, 0xa4]), Some(b"x".to_vec()))
            .unwrap_err(),
        HeaderParseIntError::InvalidDigit
    );
}

#[test]
fn test_to_result() {
    let figures = BinanceHttpHeader {
        x_mbx_used_weight: Some(1),
        x_mbx_used_weight_1m: Some(2),
        retry_after: None,
    };
    let ok: Result<Response<u32>, BinanceError<String>> =
        SuccessOrError::Success(7).to_result(StatusCode::OK, figures);
    let response = ok.unwrap();
    assert_eq!(response.payload, 7);
    assert_eq!(response.status, StatusCode::OK);
    assert_eq!(response.headers.x_mbx_used_weight, Some(1));

    let err: Result<Response<u32>, BinanceError<String>> =
        SuccessOrError::Error("refused".to_owned()).to_result(StatusCode::TOO_MANY_REQUESTS, figures);
    match err {
        Err(BinanceError::Binance(response)) => {
            assert_eq!(response.payload, "refused");
            assert_eq!(response.status, StatusCode::TOO_MANY_REQUESTS);
            assert_eq!(response.headers.x_mbx_used_weight_1m, Some(2));
        }
        _ => panic!("a remote error"),
    }
}

#[test]
fn test_resolve_success() {
    let map = headers(&[("x-mbx-used-weight", "1"), ("x-mbx-used-weight-1m", "1")]);
    let response = BinanceClient::resolve::<Pong, Error>(StatusCode::OK, &map, b"{}").unwrap();
    assert_eq!(response.status, StatusCode::OK);
    assert_eq!(response.headers.x_mbx_used_weight, Some(1));
    assert_eq!(response.headers.x_mbx_used_weight_1m, Some(1));
    assert_eq!(response.headers.retry_after, None);
}

#[test]
fn test_resolve_remote_error_keeps_status_and_headers() {
    let map = headers(&[("x-mbx-used-weight-1m", "1201"), ("retry-after", "5")]);
    let body = br#"{"code":-1003,"msg":"Too much request weight used"}"#;
    match BinanceClient::resolve::<ServerTime, Error>(StatusCode::TOO_MANY_REQUESTS, &map, body) {
        Err(BinanceError::Binance(response)) => {
            assert_eq!(response.payload.code, -1003);
            assert_eq!(response.payload.msg, "Too much request weight used");
            assert_eq!(response.status, StatusCode::TOO_MANY_REQUESTS);
            assert_eq!(response.headers.retry_after, Some(5));
            assert_eq!(response.headers.x_mbx_used_weight_1m, Some(1201));
        }
        _ => panic!("a remote error"),
    }
}

#[test]
fn test_resolve_header_error_comes_before_the_body() {
    let map = headers(&[("retry-after", "soon")]);
    for body in [&b"{}"[..], &b"not json"[..], &br#"{"code":1,"msg":"m"}"#[..]] {
        match BinanceClient::resolve::<Pong, Error>(StatusCode::OK, &map, body) {
            Err(BinanceError::HeaderParseInt(e)) => {
                assert_eq!(e, HeaderParseIntError::InvalidDigit)
            }
            _ => panic!("the header decides"),
        }
    }
}

#[test]
fn test_resolve_body_parse_error() {
    let map = headers(&[("x-mbx-used-weight", "1")]);
    match BinanceClient::resolve::<ServerTime, Error>(StatusCode::OK, &map, b"<html>") {
        Err(BinanceError::ParseJson(e)) => assert!(!e.message.is_empty()),
        _ => panic!("a parse error"),
    }
    match BinanceClient::resolve::<ServerTime, Error>(StatusCode::OK, &map, b"{}") {
        Err(BinanceError::ParseJson(e)) => assert_eq!(
            e.message,
            "data did not match any variant of untagged enum SuccessOrError"
        ),
        _ => panic!("a parse error"),
    }
}

#[test]
fn test_read_head_then_handle_response() {
    let map = headers(&[("x-mbx-used-weight", "4")]);
    let head: ResponseHead = BinanceClient::read_head::<Error>(StatusCode::OK, &map).unwrap();
    assert_eq!(head.headers.x_mbx_used_weight, Some(4));
    let ok = BinanceClient::handle_response::<u8, Error>(head, Ok(SuccessOrError::Success(9)));
    assert_eq!(ok.unwrap().payload, 9);

    let head = BinanceClient::read_head::<Error>(StatusCode::BAD_REQUEST, &map).unwrap();
    let refused = BinanceClient::handle_response::<u8, Error>(
        head,
        Ok(SuccessOrError::Error(Error { code: -1121, msg: "Invalid symbol.".to_owned() })),
    );
    match refused {
        Err(BinanceError::Binance(response)) => {
            assert_eq!(response.payload.code, -1121);
            assert_eq!(response.status, StatusCode::BAD_REQUEST);
        }
        _ => panic!("a remote error"),
    }

    let head = BinanceClient::read_head::<Error>(StatusCode::OK, &map).unwrap();
    let lost = BinanceClient::handle_response::<u8, Error>(
        head,
        Err(BodyFailure::Transport(TransportError { message: "reset".to_owned() })),
    );
    assert!(matches!(lost, Err(BinanceError::HttpClient(e)) if e.message == "reset"));

    let head = BinanceClient::read_head::<Error>(StatusCode::OK, &map).unwrap();
    let garbled = BinanceClient::handle_response::<u8, Error>(
        head,
        Err(BodyFailure::Parse(BodyParseError { message: "eof".to_owned() })),
    );
    assert!(matches!(garbled, Err(BinanceError::ParseJson(e)) if e.message == "eof"));

    let bad = headers(&[("x-mbx-used-weight", "many")]);
    assert!(matches!(
        BinanceClient::read_head::<Error>(StatusCode::OK, &bad),
        Err(BinanceError::HeaderParseInt(HeaderParseIntError::InvalidDigit))
    ));
}
