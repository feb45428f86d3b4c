use rust_tagged::Tagged;

struct AnyMarker;
struct OtherMarker;

type UserId = Tagged<u32, AnyMarker>;

#[test]
fn encoding_a_wrapped_integer_gives_the_bare_integer() {
    let id = UserId::new(42);
    let text = id.to_json(serde_json::to_string).unwrap();
    assert_eq!(text, "42");
    assert_eq!(text, serde_json::to_string(&42u32).unwrap());
}

#[test]
fn encoding_does_not_depend_on_the_marker() {
    let one = Tagged::<String, AnyMarker>::new("1".into());
    let other = Tagged::<String, OtherMarker>::new("1".into());
    let text = one.to_json(serde_json::to_string).unwrap();
    assert_eq!(text, "\"1\"");
    assert_eq!(text, other.to_json(serde_json::to_string).unwrap());
}

#[test]
fn encoding_with_the_pretty_encoder_gives_its_text() {
    let list = Tagged::<Vec<u32>, AnyMarker>::new(vec![1, 2]);
    let text = list.to_json(serde_json::to_string_pretty).unwrap();
    assert_eq!(text, "[\n  1,\n  2\n]");
    assert_eq!(text, serde_json::to_string_pretty(&vec![1u32, 2]).unwrap());
}

#[test]
fn decoding_wraps_the_decoded_value() {
    let id = UserId::from_json("42", serde_json::from_str).unwrap();
    assert_eq!(*id, 42);
    let name = Tagged::<String, AnyMarker>::from_json("\"Alice\"", serde_json::from_str).unwrap();
    assert_eq!(*name, "Alice");
}

#[test]
fn decoding_from_an_owned_text_wraps_the_decoded_value() {
    let json = String::from("42");
    let id = UserId::from_json_string(json, |text: &str| serde_json::from_str(text)).unwrap();
    assert_eq!(*id, 42);
}

#[test]
fn decoding_malformed_text_fails_and_makes_no_wrapper() {
    let outcome = UserId::from_json("\"not a number\"", serde_json::from_str);
    let error = outcome.err().unwrap();
    assert!(error.is_data());

    let outcome = UserId::from_json("not a number", serde_json::from_str);
    let error = outcome.err().unwrap();
    assert!(error.is_syntax());

    let outcome = UserId::from_json_string(String::from("not a number"), |text: &str| {
        serde_json::from_str(text)
    });
    assert!(outcome.is_err());
}

#[test]
fn decoding_fails_with_the_error_of_the_decoder() {
    let direct: Result<u32, serde_json::Error> = serde_json::from_str("-1");
    let wrapped = UserId::from_json("-1", serde_json::from_str);
    assert_eq!(wrapped.err().unwrap().to_string(), direct.err().unwrap().to_string());

    let empty = UserId::from_json("", serde_json::from_str).err().unwrap();
    assert!(empty.is_eof());
}

#[test]
fn the_decoder_is_given_the_text_itself() {
    let mut seen = String::new();
    let outcome = UserId::from_json("  7 ", |text: &str| {
        seen.push_str(text);
        serde_json::from_str(text)
    });
    assert_eq!(*outcome.unwrap(), 7);
    assert_eq!(seen, "  7 ");
}

#[test]
fn the_encoder_is_given_the_inner_value_itself() {
    let id = UserId::new(9);
    let mut seen = 0;
    let text = id
        .to_json(|value: &u32| {
            seen = *value;
            serde_json::to_string(value)
        })
        .unwrap();
    assert_eq!(seen, 9);
    assert_eq!(text, "9");
}

#[test]
fn from_decoded_wraps_a_value_and_hands_on_a_failure() {
    let decoded: Result<u32, String> = Ok(5);
    assert_eq!(*UserId::from_decoded(decoded).ok().unwrap(), 5);
    let failed: Result<u32, String> = Err(String::from("malformed"));
    assert_eq!(UserId::from_decoded(failed).err().unwrap(), "malformed");
}

#[test]
fn round_trip_gives_the_same_wrapper_back() {
    let id = UserId::new(42);
    let text = id.to_json(serde_json::to_string).unwrap();
    let back = UserId::from_json(&text, serde_json::from_str).unwrap();
    assert!(back == id);

    let names = Tagged::<Vec<String>, AnyMarker>::new(vec!["Alice".into(), "Bob".into()]);
    let text = names.to_json(serde_json::to_string).unwrap();
    assert_eq!(text, "[\"Alice\",\"Bob\"]");
    let back = Tagged::<Vec<String>, AnyMarker>::from_json_string(text, |text: &str| {
        serde_json::from_str(text)
    });
    assert!(back.unwrap() == names);
}
