use gcsf::error::DriveError;
use gcsf::listing::add_items;
use gcsf::mime::{export_type, guess_or_default};
use gcsf::number::parse_u64;
use gcsf::pending::{apply_write, PendingWrite, PendingWrites};
use gcsf::query::files_query;
use gcsf::secret::{create_drive_auth, installed_or, read_client_secret, SecretError};
use gcsf::text::{concat3, join, same_text, text_or};

fn strings(list: &[&str]) -> Vec<String> {
    list.iter().map(|s| s.to_string()).collect()
}

fn write(id: &str, offset: usize, data: &[u8]) -> PendingWrite {
    PendingWrite { id: id.to_string(), offset, data: data.to_vec() }
}

#[test]
fn joins_texts() {
    assert_eq!(join(&strings(&[]), ","), "");
    assert_eq!(join(&strings(&["a"]), ","), "a");
    assert_eq!(join(&strings(&["a", "", "c"]), ", "), "a, , c");
    assert_eq!(concat3("a", "\u{e9}", "c"), "a\u{e9}c");
    assert!(same_text("abc", "abc"));
    assert!(!same_text("abc", "abd"));
    assert_eq!(text_or(Some("x".to_string()), "y"), "x");
    assert_eq!(text_or(None, "y"), "y");
}

#[test]
fn builds_queries() {
    assert_eq!(files_query(&None, None), "");
    assert_eq!(files_query(&None, Some(true)), "trashed = true");
    assert_eq!(files_query(&None, Some(false)), "trashed = false");
    assert_eq!(files_query(&Some(strings(&["a"])), None), "('a' in parents)");
    assert_eq!(
        files_query(&Some(strings(&["a", "b"])), Some(false)),
        "('a' in parents or 'b' in parents) and trashed = false"
    );
    assert_eq!(files_query(&Some(strings(&[])), None), "()");
}

#[test]
fn reads_numbers_as_the_standard_library_does() {
    let cases = [
        "0", "7", "+7", "0012", "18446744073709551615", "18446744073709551616", "",
        "+", "-1", "-0", " 1", "1 ", "1_0", "0x10", "12a", "\u{663}", "99999999999999999999999",
        "++1",
    ];
    for case in cases.iter() {
        assert_eq!(parse_u64(case), case.parse::<u64>().ok(), "{}", case);
    }
    assert_eq!(parse_u64("18446744073709551615"), Some(u64::MAX));
    assert_eq!(parse_u64("18446744073709551616"), None);
}

#[test]
fn knows_what_documents_are_exported_as() {
    let ask = |t: &str| export_type(&Some(t.to_string()));
    assert_eq!(
        ask("application/vnd.google-apps.document"),
        Some("application/vnd.oasis.opendocument.text")
    );
    assert_eq!(
        ask("application/vnd.google-apps.presentation"),
        Some("application/vnd.oasis.opendocument.presentation")
    );
    assert_eq!(
        ask("application/vnd.google-apps.spreadsheet"),
        Some("application/vnd.oasis.opendocument.spreadsheet")
    );
    assert_eq!(ask("text/plain"), None);
    assert_eq!(export_type(&None), None);
    assert_eq!(guess_or_default(None), "application/octet-stream");
    assert_eq!(guess_or_default(Some("image/png".to_string())), "image/png");
}

#[test]
fn a_write_cuts_off_what_lies_behind_it() {
    let mut data: Vec<u8> = vec![1, 2, 3, 4, 5];
    apply_write(&mut data, &write("f", 1, &[9]));
    assert_eq!(data, vec![1, 9]);
}

#[test]
fn a_write_behind_the_end_fills_the_gap_with_zeros() {
    let mut data: Vec<u8> = vec![1];
    apply_write(&mut data, &write("f", 3, &[9, 8]));
    assert_eq!(data, vec![1, 0, 0, 9, 8]);
    apply_write(&mut data, &write("f", 5, &[]));
    assert_eq!(data, vec![1, 0, 0, 9, 8]);
    apply_write(&mut data, &write("f", 0, &[]));
    assert_eq!(data, Vec::<u8>::new());
}

#[test]
fn writes_in_batches_agree_with_writes_in_one() {
    let first = [write("f", 0, &[1, 2, 3]), write("f", 2, &[4])];
    let second = [write("f", 5, &[6]), write("f", 1, &[7, 7])];
    let mut batches: Vec<u8> = vec![8, 8];
    for w in first.iter().chain(second.iter()) {
        apply_write(&mut batches, w);
    }
    assert_eq!(batches, vec![1, 7, 7]);
    let mut other: Vec<u8> = vec![5, 5, 5, 5];
    for w in first.iter().chain(second.iter()) {
        apply_write(&mut other, w);
    }
    assert_eq!(other, batches);
}

#[test]
fn consecutive_writes_add_up() {
    let mut data: Vec<u8> = vec![1, 2, 3];
    for w in [write("f", 2, &[10, 11]), write("f", 4, &[12]), write("f", 5, &[13, 14])].iter() {
        apply_write(&mut data, w);
    }
    assert_eq!(data, vec![1, 2, 10, 11, 12, 13, 14]);
}

#[test]
fn pending_writes_are_grouped_by_file() {
    let mut pending = PendingWrites::new();
    let (a, b, c) = ("a".to_string(), "b".to_string(), "c".to_string());
    pending.push(write("a", 0, &[1]));
    pending.push(write("b", 0, &[2]));
    pending.push(write("a", 1, &[3]));
    pending.push(write("c", 7, &[4]));
    assert!(pending.contains_key(&a) && pending.contains_key(&b) && pending.contains_key(&c));
    let list = pending.take(&a);
    assert_eq!(list.len(), 2);
    assert_eq!((list[0].offset, list[0].data.clone()), (0, vec![1]));
    assert_eq!((list[1].offset, list[1].data.clone()), (1, vec![3]));
    assert!(!pending.contains_key(&a));
    assert!(pending.contains_key(&b) && pending.contains_key(&c));
    assert_eq!(pending.take(&a).len(), 0);
    assert_eq!(pending.take(&c)[0].offset, 7);
    assert_eq!(pending.take(&b)[0].data, vec![2]);
}

#[test]
fn writes_that_memory_cannot_hold_do_not_fit() {
    let mut pending = PendingWrites::new();
    let (a, b) = ("a".to_string(), "b".to_string());
    assert!(pending.fits(&a));
    pending.push(write("a", isize::MAX as usize - 1, &[1]));
    assert!(pending.fits(&a));
    pending.push(write("b", isize::MAX as usize, &[1]));
    assert!(!pending.fits(&b));
    pending.push(write("a", usize::MAX, &[]));
    assert!(!pending.fits(&a));
}

#[test]
fn items_are_added_in_order() {
    let mut all: Vec<u8> = vec![1];
    add_items(&mut all, Some(vec![2, 3]));
    add_items(&mut all, None);
    add_items(&mut all, Some(vec![]));
    add_items(&mut all, Some(vec![4]));
    assert_eq!(all, vec![1, 2, 3, 4]);
}

#[test]
fn the_built_in_secret_is_one() {
    let secret = create_drive_auth().unwrap();
    assert_eq!(
        secret.client_id,
        "726003905312-e2mq9mesjc5llclmvc04ef1k7qopv9tu.apps.googleusercontent.com"
    );
    assert_eq!(secret.project_id, Some("weighty-triode-199418".to_string()));
    assert_eq!(secret.auth_uri, "https://accounts.google.com/o/oauth2/auth");
    assert_eq!(secret.token_uri, "https://accounts.google.com/o/oauth2/token");
    assert_eq!(
        secret.auth_provider_x509_cert_url,
        Some("https://www.googleapis.com/oauth2/v1/certs".to_string())
    );
    assert_eq!(secret.redirect_uris, strings(&["urn:ietf:wg:oauth:2.0:oob", "http://localhost"]));
    assert_eq!(secret.client_email, None);
    assert_eq!(secret.client_x509_cert_url, None);
}

#[test]
fn a_secret_is_read_from_text() {
    let text = "{\"installed\":{\"client_id\":\"i\",\"client_secret\":\"s\",\"token_uri\":\"t\",\
                \"auth_uri\":\"a\",\"redirect_uris\":[\"r\"],\"client_email\":\"e\",\
                \"client_x509_cert_url\":\"u\"}}";
    let secret = read_client_secret(text).unwrap();
    assert_eq!(secret.client_id, "i");
    assert_eq!(secret.client_secret, "s");
    assert_eq!(secret.token_uri, "t");
    assert_eq!(secret.auth_uri, "a");
    assert_eq!(secret.redirect_uris, strings(&["r"]));
    assert_eq!(secret.project_id, None);
    assert_eq!(secret.client_email, Some("e".to_string()));
    assert_eq!(secret.auth_provider_x509_cert_url, None);
    assert_eq!(secret.client_x509_cert_url, Some("u".to_string()));
}

#[test]
fn a_secret_that_is_none_is_refused() {
    let none = read_client_secret("{}");
    assert!(matches!(none, Err(SecretError::NoValue)));
    assert_eq!(none.unwrap_err().message(), Some("Option did not contain a value."));
    let bad = read_client_secret("{\"installed\":");
    assert!(matches!(bad, Err(SecretError::Json(_))));
    assert_eq!(bad.unwrap_err().message(), None);
    let missing = installed_or(Ok(None), SecretError::NotInstalled);
    assert_eq!(
        missing.unwrap_err().message(),
        Some("ConsoleApplicationSecret.installed is None")
    );
}

#[test]
fn errors_say_what_happened() {
    assert_eq!(DriveError::Service("why".to_string()).message(), "why");
    assert_eq!(DriveError::NoFilesReceived.message(), "No files received");
    assert_eq!(
        DriveError::NoFilesOnDrive.message(),
        "No files on drive. Can't deduce drive id for 'My Drive'"
    );
    assert_eq!(
        DriveError::NoParents.message(),
        "Probed file has no parents. Can't deduce drive id for 'My Drive'"
    );
    assert_eq!(DriveError::FileNotOnDrive.message(), "flush(): file doesn't exist on drive!");
    assert_eq!(
        DriveError::NoStorageQuota.message(),
        "size_and_capacity(): no storage quota in response"
    );
}
