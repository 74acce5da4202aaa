use telepass::crypto::{self, encrypt};
use telepass::grpc;
use telepass::keyboard::{actions_keyboard, InlineKeyboardButton, ReplyMarkup};
use telepass::show::{Error as ShowError, QueryParams, QueryParamsCandidate};
use telepass::submit::{new_record, Error as SubmitError};
use telepass::web::trim;

fn candidate(payload: Option<&str>, salt: Option<&str>) -> QueryParamsCandidate {
    QueryParamsCandidate {
        resource_name: Some(String::from("test.resource.com")),
        payload: payload.map(String::from),
        salt: salt.map(String::from),
    }
}

#[test]
fn show_params_are_decoded() {
    let params = QueryParams::parse(candidate(Some("dW51c2Vk"), Some("AAAAAAAAAAAAAAAA"))).unwrap();
    assert_eq!(params.resource_name, Some(String::from("test.resource.com")));
    assert_eq!(params.payload, b"unused".to_vec());
    assert_eq!(params.salt, [0u8; 12]);
}

#[test]
fn show_params_must_all_be_present() {
    assert_eq!(
        QueryParams::parse(candidate(None, Some("AAAAAAAAAAAAAAAA"))),
        Err(ShowError::MissingParams)
    );
    assert_eq!(
        QueryParams::parse(candidate(Some("dW51c2Vk"), None)),
        Err(ShowError::MissingParams)
    );
}

#[test]
fn show_params_must_be_base64() {
    assert_eq!(
        QueryParams::parse(candidate(Some("not base64!"), Some("AAAAAAAAAAAAAAAA"))),
        Err(ShowError::Base64Decoding)
    );
}

#[test]
fn show_salt_must_have_salt_length() {
    assert_eq!(
        QueryParams::parse(candidate(Some("dW51c2Vk"), Some("dW51c2Vk"))),
        Err(ShowError::WrongSaltLength)
    );
    assert_eq!(ShowError::WrongSaltLength.message(), "Wrong salt length");
}

#[test]
fn shown_record_decrypts_with_the_master_password() {
    let output = encrypt("{\"login\":\"me\"}", "master").unwrap();
    let record = grpc::Record {
        resource: Some(grpc::Resource { name: String::from("site") }),
        encrypted_payload: output.encrypted_payload.clone(),
        salt: output.salt.to_vec(),
    };
    let Some(ReplyMarkup::Inline(rows)) = actions_keyboard(&record, "https://example.com") else {
        panic!("expected an inline keyboard");
    };
    let InlineKeyboardButton::WebApp { url, .. } = &rows[0][1] else {
        panic!("expected a Web App button");
    };
    let query = url.split_once('?').unwrap().1;
    let mut params = QueryParamsCandidate { resource_name: None, payload: None, salt: None };
    for pair in query.split('&') {
        let (key, value) = pair.split_once('=').unwrap();
        match key {
            "resource_name" => params.resource_name = Some(value.to_owned()),
            "payload" => params.payload = Some(value.to_owned()),
            "salt" => params.salt = Some(value.to_owned()),
            _ => panic!("unexpected parameter {key}"),
        }
    }
    let parsed = QueryParams::parse(params).unwrap();
    assert_eq!(parsed.resource_name, Some(String::from("site")));
    assert_eq!(parsed.clone().decrypt("master").unwrap(), "{\"login\":\"me\"}");
    assert_eq!(
        parsed.decrypt("wrong"),
        Err(ShowError::Decryption(crypto::Error::Decryption))
    );
}

#[test]
fn trim_removes_surrounding_white_space() {
    assert_eq!(trim("  a b \t\n"), "a b");
    assert_eq!(trim("\u{3000}x\u{a0}"), "x");
    assert_eq!(trim(" \t "), "");
    assert_eq!(trim(""), "");
}

#[test]
fn submit_rejects_an_empty_resource_name() {
    let error = new_record("   ", "{}", "master").unwrap_err();
    assert_eq!(error, SubmitError::Validation(String::from("Resource name cannot be empty")));
    assert_eq!(error.message(), "Invalid input: Resource name cannot be empty");
}

#[test]
fn submit_encrypts_the_payload_under_the_trimmed_name() {
    let record = new_record("  example.com ", "{\"password\":\"p\"}", "master").unwrap();
    assert_eq!(record.resource_name, "example.com");
    let decrypted = telepass::crypto::decrypt(record.encryption_output, "master").unwrap();
    assert_eq!(decrypted, "{\"password\":\"p\"}");
}

#[test]
fn submit_error_messages() {
    assert_eq!(
        SubmitError::Encryption(crypto::Error::Encryption).message(),
        "Failed to encrypt data"
    );
    assert_eq!(
        SubmitError::Sending(String::from("x")).message(),
        "Failed to send data to the bot backend: x"
    );
    assert_eq!(
        ShowError::Deserialization(String::from("bad")).message(),
        "Failed to deserialize data: bad"
    );
}

#[test]
fn show_url_carries_base64_payload_and_salt() {
    let record = grpc::Record {
        resource: Some(grpc::Resource { name: String::from("test.resource.com") }),
        encrypted_payload: b"unused".to_vec(),
        salt: b"unused".to_vec(),
    };
    let Some(ReplyMarkup::Inline(rows)) = actions_keyboard(&record, "https://example.com") else {
        panic!("expected an inline keyboard");
    };
    let InlineKeyboardButton::WebApp { text, url } = &rows[0][1] else {
        panic!("expected a Web App button");
    };
    assert_eq!(text, "👀 Show");
    assert_eq!(
        url,
        "https://example.com/show?resource_name=test.resource.com&payload=dW51c2Vk&salt=dW51c2Vk"
    );
}

fn show_url(payload: Vec<u8>, salt: Vec<u8>) -> String {
    let record = grpc::Record { resource: None, encrypted_payload: payload, salt };
    let Some(ReplyMarkup::Inline(rows)) = actions_keyboard(&record, "https://example.com") else {
        panic!("expected an inline keyboard");
    };
    let InlineKeyboardButton::WebApp { url, .. } = &rows[0][1] else {
        panic!("expected a Web App button");
    };
    url.clone()
}

#[test]
fn show_url_pads_the_base64_text() {
    assert_eq!(
        show_url(b"a".to_vec(), b"ab".to_vec()),
        "https://example.com/show?payload=YQ==&salt=YWI="
    );
    assert_eq!(
        show_url(vec![0xfb, 0xff], Vec::new()),
        "https://example.com/show?payload=-_8=&salt="
    );
}

#[test]
fn show_params_from_decoded_bytes() {
    let params =
        QueryParams::from_decoded(None, b"payload".to_vec(), vec![3; 12]).unwrap();
    assert_eq!(params.payload, b"payload".to_vec());
    assert_eq!(params.salt, [3; 12]);
    assert_eq!(
        QueryParams::from_decoded(None, Vec::new(), vec![3; 11]),
        Err(ShowError::WrongSaltLength)
    );
}
