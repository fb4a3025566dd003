use cooplan_auth::client_data::ClientData;

#[test]
fn payload_holds_the_credentials_and_the_grant_type() {
    let client_data = ClientData::new(
        "my-id".to_string(),
        "my-secret".to_string(),
        "https://api.example".to_string(),
    );

    assert_eq!(
        client_data.json(),
        "{ \"client_id\": \"my-id\", \"client_secret\": \"my-secret\", \"audience\": \"https://api.example\", \"grant_type\":\"client_credentials\" }"
    );
}

#[test]
fn payload_of_empty_credentials() {
    let client_data = ClientData::new(String::new(), String::new(), String::new());

    assert_eq!(
        client_data.json(),
        "{ \"client_id\": \"\", \"client_secret\": \"\", \"audience\": \"\", \"grant_type\":\"client_credentials\" }"
    );
}

#[test]
fn payload_is_a_json_object_of_four_fields() {
    let client_data =
        ClientData::new("id".to_string(), "secret".to_string(), "audience".to_string());

    let parsed: serde_json::Value = serde_json::from_str(&client_data.json()).unwrap();
    let object = parsed.as_object().unwrap();

    assert_eq!(object.len(), 4);
    assert_eq!(object["client_id"].as_str(), Some("id"));
    assert_eq!(object["client_secret"].as_str(), Some("secret"));
    assert_eq!(object["audience"].as_str(), Some("audience"));
    assert_eq!(object["grant_type"].as_str(), Some("client_credentials"));
}

fn members(payload: &str) -> serde_json::Map<String, serde_json::Value> {
    serde_json::from_str(payload).unwrap()
}

#[test]
fn quote_in_a_credential_is_escaped() {
    let client_data = ClientData::new("a\"b".to_string(), "s".to_string(), "aud".to_string());

    let payload = client_data.json();

    assert_eq!(
        payload,
        "{ \"client_id\": \"a\\\"b\", \"client_secret\": \"s\", \"audience\": \"aud\", \"grant_type\":\"client_credentials\" }"
    );
    let object = members(&payload);
    assert_eq!(object.len(), 4);
    assert_eq!(object["client_id"].as_str(), Some("a\"b"));
    assert_eq!(object["client_secret"].as_str(), Some("s"));
    assert_eq!(object["audience"].as_str(), Some("aud"));
    assert_eq!(object["grant_type"].as_str(), Some("client_credentials"));
}

#[test]
fn backslash_in_a_credential_is_escaped() {
    let client_data =
        ClientData::new("id".to_string(), "back\\slash\\".to_string(), "aud".to_string());

    let payload = client_data.json();

    assert_eq!(
        payload,
        "{ \"client_id\": \"id\", \"client_secret\": \"back\\\\slash\\\\\", \"audience\": \"aud\", \"grant_type\":\"client_credentials\" }"
    );
    assert_eq!(members(&payload)["client_secret"].as_str(), Some("back\\slash\\"));
}

#[test]
fn control_character_in_a_credential_is_escaped() {
    let client_data =
        ClientData::new("id".to_string(), "secret".to_string(), "line\nbreak\u{1f}".to_string());

    let payload = client_data.json();

    assert_eq!(
        payload,
        "{ \"client_id\": \"id\", \"client_secret\": \"secret\", \"audience\": \"line\\u000abreak\\u001f\", \"grant_type\":\"client_credentials\" }"
    );
    assert_eq!(members(&payload)["audience"].as_str(), Some("line\nbreak\u{1f}"));
}

#[test]
fn credential_cannot_add_or_replace_a_member() {
    let injected = "x\", \"grant_type\": \"password";
    let client_data =
        ClientData::new(injected.to_string(), "secret".to_string(), "aud".to_string());

    let object = members(&client_data.json());

    assert_eq!(object.len(), 4);
    assert_eq!(object["client_id"].as_str(), Some(injected));
    assert_eq!(object["grant_type"].as_str(), Some("client_credentials"));
}

#[test]
fn every_character_up_to_the_tilde_comes_back_from_the_payload() {
    let mut text = String::new();
    let mut code: u32 = 0;
    while code < 0x7f {
        text.push(char::from_u32(code).unwrap());
        code += 1;
    }
    text.push('\u{7f}');
    text.push('\u{e9}');
    text.push('\u{20ac}');
    text.push('\u{1f600}');
    let client_data = ClientData::new(text.clone(), text.clone(), text.clone());

    let object = members(&client_data.json());

    assert_eq!(object.len(), 4);
    assert_eq!(object["client_id"].as_str(), Some(text.as_str()));
    assert_eq!(object["client_secret"].as_str(), Some(text.as_str()));
    assert_eq!(object["audience"].as_str(), Some(text.as_str()));
}
