use s3_gateway_rs::{
    begin, finish_listing, finish_removal, finish_signing, GatewayRequest, IdentifierSet, Reply,
    SignMethod, SignedAnswer, Step, StorageCall,
};

fn ids(file_name: Option<&str>, container_type: &str) -> IdentifierSet {
    IdentifierSet {
        client_id: Some("Acme".to_string()),
        container_id: Some("c1".to_string()),
        container_type: Some(container_type.to_string()),
        table_name: None,
        column_name: None,
        record_id: None,
        user_id: None,
        role_id: None,
        file_name: file_name.map(|f| f.to_string()),
    }
}

#[test]
fn missing_file_name_makes_no_call() {
    let step = begin(GatewayRequest::Resource { file_name: None, seconds: None });
    assert!(matches!(step, Step::Done(Reply::MissingFileName)));
    let step = begin(GatewayRequest::DownloadUrl { file_name: None, seconds: Some(5) });
    assert!(matches!(step, Step::Done(Reply::MissingFileName)));
    let step = begin(GatewayRequest::DeleteResource { file_name: None });
    assert!(matches!(step, Step::Done(Reply::MissingFileName)));
}

#[test]
fn download_signs_raw_key_with_get() {
    let step = begin(GatewayRequest::Resource { file_name: Some("a/b.txt".to_string()), seconds: Some(60) });
    match step {
        Step::Call(StorageCall::Sign { key, method, expiry_seconds, answer }) => {
            assert_eq!(key, "a/b.txt");
            assert_eq!(method, SignMethod::Get);
            assert_eq!(expiry_seconds, Some(60));
            assert!(matches!(answer, SignedAnswer::Redirect));
        }
        other => panic!("unexpected step {:?}", other),
    }
    let step = begin(GatewayRequest::DownloadUrl { file_name: Some("x".to_string()), seconds: None });
    assert!(matches!(
        step,
        Step::Call(StorageCall::Sign { method: SignMethod::Get, expiry_seconds: None, answer: SignedAnswer::Url, .. })
    ));
}

#[test]
fn upload_signs_derived_key_with_put() {
    let step = begin(GatewayRequest::PresignedUpload { ids: ids(Some("My File.PDF"), "Form"), seconds: None });
    match step {
        Step::Call(StorageCall::Sign { key, method, expiry_seconds, answer }) => {
            assert_eq!(key, "acme/client/form/c1/my_file.pdf");
            assert_eq!(method, SignMethod::Put);
            assert_eq!(expiry_seconds, None);
            match answer {
                SignedAnswer::Presigned { key } => assert_eq!(key, "acme/client/form/c1/my_file.pdf"),
                other => panic!("unexpected answer {:?}", other),
            }
        }
        other => panic!("unexpected step {:?}", other),
    }
}

#[test]
fn invalid_upload_fails_before_any_call() {
    let step = begin(GatewayRequest::PresignedUpload { ids: ids(Some("f"), "widget"), seconds: None });
    match step {
        Step::Done(Reply::Failure(m)) => assert_eq!(m, "Invalid Container Type"),
        other => panic!("unexpected step {:?}", other),
    }
    let step = begin(GatewayRequest::PresignedUpload { ids: ids(None, "form"), seconds: None });
    match step {
        Step::Done(Reply::Failure(m)) => assert_eq!(m, "File Name is Mandatory"),
        other => panic!("unexpected step {:?}", other),
    }
}

#[test]
fn listing_uses_derived_prefix() {
    let step = begin(GatewayRequest::ListResources { ids: ids(None, "process") });
    match step {
        Step::Call(StorageCall::List { prefix }) => assert_eq!(prefix, "acme/client/process/c1"),
        other => panic!("unexpected step {:?}", other),
    }
    let mut bad = ids(None, "process");
    bad.client_id = None;
    match begin(GatewayRequest::ListResources { ids: bad }) {
        Step::Done(Reply::Failure(m)) => assert_eq!(m, "Client ID is Mandatory"),
        other => panic!("unexpected step {:?}", other),
    }
}

#[test]
fn delete_removes_raw_key() {
    match begin(GatewayRequest::DeleteResource { file_name: Some("a/b".to_string()) }) {
        Step::Call(StorageCall::Remove { key }) => assert_eq!(key, "a/b"),
        other => panic!("unexpected step {:?}", other),
    }
}

#[test]
fn signing_outcomes() {
    match finish_signing(SignedAnswer::Redirect, Ok("http://u".to_string())) {
        Reply::Redirect(u) => assert_eq!(u, "http://u"),
        other => panic!("unexpected reply {:?}", other),
    }
    match finish_signing(SignedAnswer::Url, Ok("http://u".to_string())) {
        Reply::Url(u) => assert_eq!(u, "http://u"),
        other => panic!("unexpected reply {:?}", other),
    }
    match finish_signing(SignedAnswer::Presigned { key: "k".to_string() }, Ok("http://u".to_string())) {
        Reply::Presigned(p) => {
            assert_eq!(p.url.as_deref(), Some("http://u"));
            assert_eq!(p.file_name.as_deref(), Some("k"));
        }
        other => panic!("unexpected reply {:?}", other),
    }
    match finish_signing(SignedAnswer::Url, Err("boom".to_string())) {
        Reply::Failure(m) => assert_eq!(m, "boom"),
        other => panic!("unexpected reply {:?}", other),
    }
}

#[test]
fn listing_and_removal_outcomes() {
    match finish_listing(Ok((Some("p".to_string()), Vec::new()))) {
        Reply::Listing(l) => {
            assert_eq!(l.parent_folder.as_deref(), Some("p"));
            assert!(l.resources.unwrap().is_empty());
        }
        other => panic!("unexpected reply {:?}", other),
    }
    assert!(matches!(finish_listing(Err("down".to_string())), Reply::Failure(m) if m == "down"));
    assert!(matches!(finish_removal(Ok(())), Reply::Empty));
    assert!(matches!(finish_removal(Err("gone".to_string())), Reply::Failure(m) if m == "gone"));
}
