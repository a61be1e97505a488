use s3_gateway_rs::{
    get_valid_file_name, get_valid_file_path, get_valid_path, get_valid_path_name, ContainerType,
    KeyError,
};

fn s(v: &str) -> Option<String> {
    Some(v.to_string())
}

#[test]
fn object_key_is_deterministic() {
    let derive = || {
        get_valid_file_name(
            s("Acme"),
            s("c-1"),
            s("a b.txt"),
            s("report"),
            s("orders"),
            s("total"),
            s("42"),
            s("u1"),
            None,
        )
    };
    let first = derive().unwrap();
    let second = derive().unwrap();
    assert_eq!(first.as_bytes(), second.as_bytes());
    assert_eq!(first, "acme/user/u1/report/c-1/orders/42/total/a_b.txt");
}

#[test]
fn path_sanitizer_is_idempotent() {
    for raw in ["a b/c", "../etc/passwd", "Ünïcode ✓", "ok-Name_09", "", "x.y"] {
        let once = get_valid_path_name(raw.to_string());
        let twice = get_valid_path_name(once.clone());
        assert_eq!(once, twice);
    }
}

#[test]
fn file_sanitizer_is_idempotent() {
    for raw in ["a b/c.txt", "../etc/passwd", "Ünïcode ✓.pdf", ""] {
        let once = get_valid_file_path(raw.to_string());
        assert_eq!(get_valid_file_path(once.clone()), once);
    }
}

#[test]
fn sanitizers_replace_each_char_outside_their_class() {
    assert_eq!(get_valid_path_name("../a b/É-1.x".to_string()), "___a_b__-1_x");
    assert_eq!(get_valid_file_path("../a b/É-1.x".to_string()), ".._a_b__-1.x");
    assert_eq!(get_valid_path_name("$1 \\".to_string()), "_1__");
    assert_eq!(get_valid_path_name(String::new()), "");
}

#[test]
fn client_id_error_comes_first() {
    let r = get_valid_path(None, None, None, None, None, None, None, None, true);
    assert_eq!(r, Err(KeyError::ClientIdMandatory));
    let r = get_valid_file_name(None, None, s("f.txt"), None, None, None, None, None, None);
    assert_eq!(r, Err(KeyError::ClientIdMandatory));
    assert_eq!(KeyError::ClientIdMandatory.message(), "Client ID is Mandatory");
}

#[test]
fn record_id_required_with_table_name() {
    let r = get_valid_path(s("acme"), s("c1"), s("form"), s("orders"), None, None, None, None, true);
    assert_eq!(r, Err(KeyError::RecordIdMandatory));
    assert_eq!(r.unwrap_err().message(), "Record ID is Mandatory");
}

#[test]
fn table_name_required_with_record_id() {
    let r = get_valid_path(s("acme"), s("c1"), s("form"), None, None, s("42"), None, None, true);
    assert_eq!(r, Err(KeyError::TableNameMandatory));
    assert_eq!(r.unwrap_err().message(), "Table Name is Mandatory");
}

#[test]
fn table_name_required_with_column_name() {
    let r = get_valid_path(s("acme"), s("c1"), s("form"), None, s("col"), None, None, None, true);
    assert_eq!(r, Err(KeyError::TableNameMandatory));
}

#[test]
fn attachment_needs_no_container_id() {
    let r = get_valid_path(s("acme"), None, s("attachment"), s("t"), None, s("1"), None, None, true);
    assert_eq!(r, Ok("acme/client/attachment/t/1".to_string()));
}

#[test]
fn attachment_needs_table_and_record() {
    let r = get_valid_path(s("acme"), None, s("attachment"), None, None, None, None, None, true);
    assert_eq!(r, Err(KeyError::AttachmentNeedsRecord));
    assert_eq!(
        r.unwrap_err().message(),
        "Invalid Container Type (Mandatory Record ID and Table Name)"
    );
    let r = get_valid_path(s("acme"), None, s("attachment"), None, None, s("1"), None, None, true);
    assert_eq!(r, Err(KeyError::TableNameMandatory));
}

#[test]
fn container_type_is_mandatory() {
    let r = get_valid_path(s("acme"), s("c1"), None, None, None, None, None, None, true);
    assert_eq!(r, Err(KeyError::ContainerTypeMandatory));
    assert_eq!(r.unwrap_err().message(), "Container Type is Mandatory");
}

#[test]
fn container_id_is_mandatory_outside_attachments() {
    let r = get_valid_path(s("acme"), None, s("window"), None, None, None, None, None, true);
    assert_eq!(r, Err(KeyError::ContainerIdMandatory));
    assert_eq!(r.unwrap_err().message(), "Container ID is Mandatory");
}

#[test]
fn user_scope_takes_precedence_over_role() {
    let key = get_valid_file_name(
        s("acme"),
        s("c1"),
        s("f.txt"),
        s("form"),
        None,
        None,
        None,
        s("u1"),
        s("r1"),
    )
    .unwrap();
    assert!(key.contains("user/u1"));
    assert!(!key.contains("role/r1"));
    assert_eq!(key, "acme/user/u1/form/c1/f.txt");
}

#[test]
fn role_scope_without_user() {
    let r = get_valid_path(s("acme"), s("c1"), s("form"), None, None, None, None, s("R 1"), true);
    assert_eq!(r, Ok("acme/role/r_1/form/c1".to_string()));
}

#[test]
fn scope_left_out_when_not_asked_for() {
    let r = get_valid_path(s("acme"), s("c1"), s("form"), None, None, None, s("u1"), s("r1"), false);
    assert_eq!(r, Ok("acme/client/form/c1".to_string()));
}

#[test]
fn acme_example_end_to_end() {
    let key = get_valid_file_name(
        s("Acme Co"),
        s("INV-01"),
        s("invoice 1.pdf"),
        s("Form"),
        None,
        None,
        None,
        None,
        None,
    );
    // The folder class keeps `-`, so the container segment keeps it too.
    assert_eq!(key, Ok("acme_co/client/form/inv-01/invoice_1.pdf".to_string()));
}

#[test]
fn unknown_container_type_rejected() {
    let r = get_valid_path(s("acme"), s("c1"), s("widget"), None, None, None, None, None, true);
    assert_eq!(r, Err(KeyError::InvalidContainerType));
    assert_eq!(r.unwrap_err().message(), "Invalid Container Type");
    let k = get_valid_file_name(s("acme"), s("c1"), s("f"), s("widget"), None, None, None, None, None);
    assert!(k.is_err());
}

#[test]
fn file_name_is_mandatory_for_a_key() {
    let r = get_valid_file_name(s("acme"), s("c1"), None, s("form"), None, None, None, None, None);
    assert_eq!(r, Err(KeyError::FileNameMandatory));
    assert_eq!(r.unwrap_err().message(), "File Name is Mandatory");
    let r = get_valid_file_name(None, None, None, None, None, None, None, None, None);
    assert_eq!(r, Err(KeyError::FileNameMandatory));
}

#[test]
fn listing_prefix_is_prefix_of_key() {
    let prefix = get_valid_path(
        s("Acme"),
        s("c1"),
        s("Report"),
        s("Orders"),
        s("Total"),
        s("7"),
        None,
        s("r1"),
        true,
    )
    .unwrap();
    let key = get_valid_file_name(
        s("Acme"),
        s("c1"),
        s("Q1 Sales.XLSX"),
        s("Report"),
        s("Orders"),
        s("Total"),
        s("7"),
        None,
        s("r1"),
    )
    .unwrap();
    assert_eq!(prefix, "acme/role/r1/report/c1/orders/7/total");
    assert!(key.starts_with(&prefix));
    assert_eq!(key, "acme/role/r1/report/c1/orders/7/total/q1_sales.xlsx");
}

#[test]
fn container_kind_from_segment() {
    assert_eq!(ContainerType::from_segment(&"browser".to_string()), Some(ContainerType::Browser));
    assert_eq!(ContainerType::from_segment(&"attachment".to_string()), Some(ContainerType::Attachment));
    assert_eq!(ContainerType::from_segment(&"Browser".to_string()), None);
    assert_eq!(ContainerType::from_segment(&"widget".to_string()), None);
}
