use hubcaps_asset_upload::Asset;
use hubcaps_asset_upload::AssetRequest;
use hubcaps_asset_upload::AssetUploader;
use hubcaps_asset_upload::AssetsClient;
use hubcaps_asset_upload::Credentials;
use hubcaps_asset_upload::Error;
use hubcaps_asset_upload::Method;
use hubcaps_asset_upload::Release;

fn release_with(upload_url: &str) -> Release {
    Release {
        name: "v1.0".to_string(),
        published_at: "2016-10-03T00:00:00Z".to_string(),
        upload_url: upload_url.to_string(),
    }
}

#[test]
fn it_works() {}

#[test]
fn token_credentials_add_only_the_authorization_header() {
    let creds = Credentials::Token("sekrit".to_string());
    let client = AssetsClient::new(&creds);
    let plan = client.authenticate(Method::Post, "https://host/path?q=1".to_string());
    assert_eq!(plan.url, "https://host/path?q=1");
    assert_eq!(
        plan.headers,
        vec![("Authorization".to_string(), "token sekrit".to_string())]
    );
    assert!(plan.body.is_empty());
}

#[test]
fn client_credentials_append_only_query_parameters() {
    let creds = Credentials::Client {
        id: "my id".to_string(),
        secret: "s&s".to_string(),
    };
    let client = AssetsClient::new(&creds);
    let plan = client.authenticate(Method::Post, "https://host/path".to_string());
    assert_eq!(plan.url, "https://host/path?client_id=my+id&client_secret=s%26s");
    assert!(plan.headers.is_empty());
}

#[test]
fn client_credentials_keep_existing_query_parameters() {
    let creds = Credentials::Client {
        id: "id".to_string(),
        secret: "sec".to_string(),
    };
    let client = AssetsClient::new(&creds);
    let plan = client.authenticate(Method::Post, "https://host/p?a=b".to_string());
    assert_eq!(plan.url, "https://host/p?a=b&client_id=id&client_secret=sec");
    assert!(plan.headers.is_empty());
}

#[test]
fn client_credentials_insert_the_query_before_the_fragment() {
    let creds = Credentials::Client {
        id: "id".to_string(),
        secret: "sec".to_string(),
    };
    let client = AssetsClient::new(&creds);
    let plan = client.authenticate(Method::Post, "https://host/p#frag".to_string());
    assert_eq!(plan.url, "https://host/p?client_id=id&client_secret=sec#frag");

    let plan = client.authenticate(Method::Post, "https://host/p?x=1#frag".to_string());
    assert_eq!(plan.url, "https://host/p?x=1&client_id=id&client_secret=sec#frag");
}

#[test]
fn a_question_mark_inside_the_fragment_does_not_count_as_a_query() {
    let creds = Credentials::Client {
        id: "id".to_string(),
        secret: "sec".to_string(),
    };
    let client = AssetsClient::new(&creds);
    let plan = client.authenticate(Method::Post, "https://host/p#a?b".to_string());
    assert_eq!(plan.url, "https://host/p?client_id=id&client_secret=sec#a?b");
}

#[test]
fn anonymous_credentials_change_nothing() {
    let creds = Credentials::Anonymous;
    let client = AssetsClient::new(&creds);
    let plan = client.authenticate(Method::Post, "https://host/path?q=1".to_string());
    assert_eq!(plan.url, "https://host/path?q=1");
    assert!(plan.headers.is_empty());
    assert!(plan.body.is_empty());
}

#[test]
fn upload_expands_template_with_name_only() {
    let uploader = AssetUploader::new(Credentials::Anonymous);
    let mut req = AssetRequest::new("file.txt", "text/plain", None);
    req.content(vec![1, 2, 3]);
    let plan = uploader
        .upload(&release_with("https://host/assets{?name,label}"), req)
        .unwrap();
    assert_eq!(plan.url, "https://host/assets?name=file.txt");
}

#[test]
fn upload_expands_template_with_percent_encoded_label() {
    let uploader = AssetUploader::new(Credentials::Anonymous);
    let mut req = AssetRequest::new("file.txt", "text/plain", Some("v1 notes".to_string()));
    req.content(vec![1, 2, 3]);
    let plan = uploader
        .upload(&release_with("https://host/assets{?name,label}"), req)
        .unwrap();
    assert_eq!(plan.url, "https://host/assets?name=file.txt&label=v1%20notes");
}

#[test]
fn upload_builds_the_full_post() {
    let uploader = AssetUploader::new(Credentials::Token("t".to_string()));
    let mut req = AssetRequest::new("file.txt", "text/plain", None);
    req.content(b"hello world".to_vec());
    let plan = uploader
        .upload(&release_with("https://host/assets{?name,label}"), req)
        .unwrap();
    assert!(matches!(plan.method, Method::Post));
    assert_eq!(plan.url, "https://host/assets?name=file.txt");
    assert_eq!(
        plan.headers,
        vec![
            ("Authorization".to_string(), "token t".to_string()),
            ("User-Agent".to_string(), "hubcaps-assets-upload/0.1.0".to_string()),
            ("Content-Type".to_string(), "text/plain".to_string()),
        ]
    );
    assert_eq!(plan.body, b"hello world".to_vec());
}

#[test]
fn upload_body_is_byte_identical_to_the_content() {
    let uploader = AssetUploader::new(Credentials::Anonymous);
    let content: Vec<u8> = (0u16..512).map(|i| (i % 256) as u8).collect();
    let mut req = AssetRequest::new("blob.bin", "application/octet-stream", None);
    req.content(content.clone());
    let plan = uploader
        .upload(&release_with("https://host/assets{?name,label}"), req)
        .unwrap();
    assert_eq!(plan.body.len(), content.len());
    assert_eq!(plan.body, content);
}

#[test]
fn attaching_content_twice_keeps_the_last_write() {
    let uploader = AssetUploader::new(Credentials::Anonymous);
    let mut req = AssetRequest::new("file.txt", "text/plain", None);
    req.content(vec![1, 1, 1]);
    req.content(vec![2, 2]);
    let plan = uploader
        .upload(&release_with("https://host/assets{?name,label}"), req)
        .unwrap();
    assert_eq!(plan.body, vec![2, 2]);
}

#[test]
fn two_sequential_uploads_each_prepare_a_full_send() {
    let uploader = AssetUploader::new(Credentials::Token("t".to_string()));
    let release = release_with("https://host/assets{?name,label}");
    let mut first = AssetRequest::new("file.txt", "text/plain", None);
    first.content(b"payload".to_vec());
    let mut second = AssetRequest::new("file.txt", "text/plain", None);
    second.content(b"payload".to_vec());

    let plan1 = uploader.upload(&release, first).unwrap();
    let plan2 = uploader.upload(&release, second).unwrap();
    assert_eq!(plan1.url, plan2.url);
    assert_eq!(plan1.headers, plan2.headers);
    assert_eq!(plan1.body, b"payload".to_vec());
    assert_eq!(plan2.body, b"payload".to_vec());
}

#[test]
fn upload_without_content_is_a_fatal_precondition_error() {
    let uploader = AssetUploader::new(Credentials::Anonymous);
    let req = AssetRequest::new("file.txt", "text/plain", None);
    let result = uploader.upload(&release_with("https://host/assets{?name,label}"), req);
    assert_eq!(result, Err(Error::MissingContent));
}

#[test]
fn upload_against_a_malformed_template_is_a_fatal_url_error() {
    let uploader = AssetUploader::new(Credentials::Anonymous);
    let mut req = AssetRequest::new("file.txt", "text/plain", None);
    req.content(vec![0]);
    let result = uploader.upload(&release_with("no scheme here{?name,label}"), req);
    assert!(matches!(result, Err(Error::InvalidUrl(_))));
}

#[test]
fn non_ascii_name_is_percent_encoded() {
    let uploader = AssetUploader::new(Credentials::Anonymous);
    let mut req = AssetRequest::new("\u{e9}tude.txt", "text/plain", None);
    req.content(vec![0]);
    let plan = uploader
        .upload(&release_with("https://host/assets{?name,label}"), req)
        .unwrap();
    assert_eq!(plan.url, "https://host/assets?name=%C3%A9tude.txt");
}

#[test]
fn non_ascii_label_is_percent_encoded() {
    let uploader = AssetUploader::new(Credentials::Anonymous);
    let mut req = AssetRequest::new("file.txt", "text/plain", Some("na\u{ef}ve".to_string()));
    req.content(vec![0]);
    let plan = uploader
        .upload(&release_with("https://host/assets{?name,label}"), req)
        .unwrap();
    assert_eq!(plan.url, "https://host/assets?name=file.txt&label=na%C3%AFve");
}

#[test]
fn non_ascii_template_literals_are_percent_encoded() {
    let uploader = AssetUploader::new(Credentials::Anonymous);
    let mut req = AssetRequest::new("file.txt", "text/plain", None);
    req.content(vec![0]);
    let plan = uploader
        .upload(&release_with("https://host/\u{e9}/assets{?name,label}"), req)
        .unwrap();
    assert_eq!(plan.url, "https://host/%C3%A9/assets?name=file.txt");
}

#[test]
fn a_varlist_with_a_non_ascii_character_is_rejected_before_expansion() {
    let uploader = AssetUploader::new(Credentials::Anonymous);
    let mut req = AssetRequest::new("file.txt", "text/plain", None);
    req.content(vec![0]);
    let template = "https://host/assets{?name,lab\u{e9}l}";
    let result = uploader.upload(&release_with(template), req);
    assert_eq!(result, Err(Error::InvalidUrl(template.to_string())));
}

#[test]
fn a_varlist_with_a_prefix_modifier_is_rejected_before_expansion() {
    let uploader = AssetUploader::new(Credentials::Anonymous);
    let mut req = AssetRequest::new("file.txt", "text/plain", None);
    req.content(vec![0]);
    let template = "https://host/assets{?name:3}";
    let result = uploader.upload(&release_with(template), req);
    assert_eq!(result, Err(Error::InvalidUrl(template.to_string())));
}

#[test]
fn success_status_with_asset_body_is_the_created_asset() {
    let creds = Credentials::Anonymous;
    let client = AssetsClient::new(&creds);
    let result = client.interpret_response(201, "{\"id\":1,\"name\":\"file.txt\"}");
    assert_eq!(
        result,
        Ok(Asset {
            id: 1,
            name: "file.txt".to_string()
        })
    );
}

#[test]
fn client_fault_status_with_message_is_a_platform_fault() {
    let creds = Credentials::Anonymous;
    let client = AssetsClient::new(&creds);
    let result = client.interpret_response(422, "{\"message\":\"already exists\"}");
    match result {
        Err(Error::Fault { code, error }) => {
            assert_eq!(code, 422);
            assert_eq!(error.message, "already exists");
        }
        other => panic!("expected a platform fault, got {:?}", other),
    }
}

#[test]
fn every_listed_fault_status_never_yields_a_success() {
    let creds = Credentials::Anonymous;
    let client = AssetsClient::new(&creds);
    for status in [400u16, 401, 403, 404, 409, 422] {
        let result = client.interpret_response(status, "{\"id\":1,\"name\":\"f\"}");
        assert!(result.is_err(), "status {} must not succeed", status);
    }
}

#[test]
fn undecodable_success_body_is_a_codec_error() {
    let creds = Credentials::Anonymous;
    let client = AssetsClient::new(&creds);
    let result = client.interpret_response(200, "not json at all");
    assert_eq!(result, Err(Error::Codec("not json at all".to_string())));
}

#[test]
fn success_body_missing_a_field_is_a_codec_error() {
    let creds = Credentials::Anonymous;
    let client = AssetsClient::new(&creds);
    let result = client.interpret_response(200, "{\"id\":1}");
    assert_eq!(result, Err(Error::Codec("{\"id\":1}".to_string())));
}

#[test]
fn undecodable_fault_body_is_a_codec_error() {
    let creds = Credentials::Anonymous;
    let client = AssetsClient::new(&creds);
    let result = client.interpret_response(400, "[]");
    assert_eq!(result, Err(Error::Codec("[]".to_string())));
}
