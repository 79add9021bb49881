use base64::Engine;
use magnet::nss::FieldOutcome;
use magnet::nss::NssDecryptor;
use magnet::nss::NssRequest;

fn b64(bytes: &[u8]) -> String {
    base64::engine::general_purpose::STANDARD.encode(bytes)
}

fn logins_text(entries: &[(&str, &[u8], &[u8])]) -> String {
    let mut items = Vec::new();
    for (host, user, pass) in entries {
        items.push(format!(
            r#"{{"hostname":"{}","encryptedUsername":"{}","encryptedPassword":"{}"}}"#,
            host,
            b64(user),
            b64(pass)
        ));
    }
    format!(r#"{{"logins":[{}]}}"#, items.join(","))
}

#[test]
fn unparsable_logins_aborts_only_this_profile() {
    assert!(NssDecryptor::begin_profile("p".to_string(), "not json").is_err());
    assert!(NssDecryptor::begin_profile("p".to_string(), r#"{"nologins":true}"#).is_err());
}

#[test]
fn shutdown_happens_exactly_once_even_when_every_entry_fails() {
    let text = logins_text(&[
        ("https://a.example", b"eu-a", b"ep-a"),
        ("https://b.example", b"eu-b", b"ep-b"),
    ]);
    let mut session = NssDecryptor::begin_profile("C:\\profiles\\p1".to_string(), &text).unwrap();

    // This loop is the test double for the foreign library: it performs no
    // real calls, reports failure for every field, and counts what the
    // session asks of it.
    let mut initialize_calls: u32 = 0;
    let mut shutdown_calls: u32 = 0;
    loop {
        match session.next_request() {
            NssRequest::Initialize(profile) => {
                assert_eq!(profile, "C:\\profiles\\p1");
                initialize_calls += 1;
                session.on_initialized(-1);
            }
            NssRequest::DecryptEntry { user, pass } => {
                assert!(user.is_some() && pass.is_some());
                session.on_entry_outcome(FieldOutcome::CallFailed(-1), FieldOutcome::CallFailed(-1));
            }
            NssRequest::Shutdown => {
                shutdown_calls += 1;
                session.on_shutdown(0);
            }
            NssRequest::Finished => break,
        }
    }
    assert_eq!(initialize_calls, 1);
    assert_eq!(shutdown_calls, 1);

    let (creds, errors) = session.finish();
    assert!(creds.is_empty());
    assert_eq!(
        errors,
        vec![
            "Firefox decrypt failed for https://a.example: user: call failed, pass: call failed"
                .to_string(),
            "Firefox decrypt failed for https://b.example: user: call failed, pass: call failed"
                .to_string(),
        ]
    );
}

#[test]
fn successful_entries_become_credentials() {
    let text = logins_text(&[("https://ok.example", b"enc-user", b"enc-pass")]);
    let mut session = NssDecryptor::begin_profile("p".to_string(), &text).unwrap();

    match session.next_request() {
        NssRequest::Initialize(_) => session.on_initialized(0),
        _ => panic!("the session must initialize first"),
    }
    match session.next_request() {
        NssRequest::DecryptEntry { user, pass } => {
            // The request carries the base64-decoded blobs.
            assert_eq!(user.as_deref(), Some(&b"enc-user"[..]));
            assert_eq!(pass.as_deref(), Some(&b"enc-pass"[..]));
            session.on_entry_outcome(
                FieldOutcome::Plain(b"alice".to_vec()),
                FieldOutcome::Plain(b"wonderland".to_vec()),
            );
        }
        _ => panic!("one entry was expected"),
    }
    match session.next_request() {
        NssRequest::Shutdown => session.on_shutdown(0),
        _ => panic!("shutdown comes after the entries"),
    }
    let (creds, errors) = session.finish();
    assert!(errors.is_empty());
    assert_eq!(creds.len(), 1);
    assert_eq!(creds[0].hostname, "https://ok.example");
    assert_eq!(creds[0].username, "alice");
    assert_eq!(creds[0].password, "wonderland");
}

#[test]
fn undecodable_field_skips_the_foreign_call() {
    let text = r#"{"logins":[{"hostname":"h","encryptedUsername":"!!!","encryptedPassword":"QQ=="}]}"#;
    let mut session = NssDecryptor::begin_profile("p".to_string(), text).unwrap();
    match session.next_request() {
        NssRequest::Initialize(_) => session.on_initialized(0),
        _ => panic!("the session must initialize first"),
    }
    match session.next_request() {
        NssRequest::DecryptEntry { user, pass } => {
            assert!(user.is_none());
            assert_eq!(pass.as_deref(), Some(&b"A"[..]));
            session.on_entry_outcome(
                FieldOutcome::BadEncoding,
                FieldOutcome::Plain(b"p".to_vec()),
            );
        }
        _ => panic!("one entry was expected"),
    }
    match session.next_request() {
        NssRequest::Shutdown => session.on_shutdown(0),
        _ => panic!("shutdown comes after the entries"),
    }
    let (creds, errors) = session.finish();
    assert!(creds.is_empty());
    assert_eq!(
        errors,
        vec!["Firefox decrypt failed for h: user: invalid base64, pass: ok".to_string()]
    );
}

#[test]
fn library_candidates_are_install_dir_and_profile() {
    let c = NssDecryptor::nss_library_candidates("C:\\Program Files", "C:\\profiles\\p");
    assert_eq!(c.len(), 2);
    assert_eq!(c[0], "C:\\Program Files\\Mozilla Firefox\\nss3.dll");
    assert_eq!(c[1], "C:\\profiles\\p\\nss3.dll");
}
