use vmcontrol::credential::{cred_from_str_rec, Credential, CredentialError};

fn strings(fields: &[&str]) -> Vec<String> {
    fields.iter().map(|f| f.to_string()).collect()
}

#[test]
fn correct_val_new() {
    let id = "id";
    let secret = "secret";

    let cred = Credential::new(id, secret);
    assert_eq!(cred.secret_access_key, secret);
    assert_eq!(cred.access_key_id, id);
}

#[test]
fn correct_val_new_with_csv() {
    let text =
        "User name,Password,Access key ID,Secret access key,Console login link\nu,p,id,key,link\n";
    let cred = Credential::new_with_csv(text).unwrap();
    assert_eq!(cred.access_key_id, "id");
    assert_eq!(cred.secret_access_key, "key");
}

#[test]
fn error_new_with_csv() {
    let text = "User name,Password,Access key ID,Secret access key,Console login link\nu,p,id\n";
    let cred = Credential::new_with_csv(text);
    match cred {
        Ok(_val) => panic!("gave valid credential from invalid csv"),
        Err(_e) => {}
    }
}

#[test]
fn reordered_header_extracts_same_fields() {
    let ordered_header = strings(&[
        "User name",
        "Password",
        "Access key ID",
        "Secret access key",
        "Console login link",
    ]);
    let ordered_row = strings(&["u", "p", "id", "key", "link"]);
    let reordered_header = strings(&[
        "Secret access key",
        "Console login link",
        "User name",
        "Access key ID",
        "Password",
    ]);
    let reordered_row = strings(&["key", "link", "u", "id", "p"]);

    let from_ordered = cred_from_str_rec(&ordered_header, &ordered_row).unwrap();
    let from_reordered = cred_from_str_rec(&reordered_header, &reordered_row).unwrap();
    assert_eq!(from_ordered.access_key_id, "id");
    assert_eq!(from_ordered.secret_access_key, "key");
    assert_eq!(from_reordered.access_key_id, from_ordered.access_key_id);
    assert_eq!(from_reordered.secret_access_key, from_ordered.secret_access_key);
}

#[test]
fn column_count_mismatch_is_rejected() {
    let header = strings(&[
        "User name",
        "Password",
        "Access key ID",
        "Secret access key",
        "Console login link",
    ]);
    let short_row = strings(&["u", "p", "id"]);
    let result = cred_from_str_rec(&header, &short_row);
    assert_eq!(result.unwrap_err(), CredentialError::ColumnCountMismatch);
}

#[test]
fn missing_required_column_is_rejected() {
    let header = strings(&["User name", "Password", "Access key ID", "Owner", "Console login link"]);
    let row = strings(&["u", "p", "id", "o", "link"]);
    let result = cred_from_str_rec(&header, &row);
    assert_eq!(result.unwrap_err(), CredentialError::MissingColumn);
}

#[test]
fn header_only_text_is_rejected() {
    let text = "User name,Password,Access key ID,Secret access key,Console login link\n";
    let result = Credential::new_with_csv(text);
    assert_eq!(result.unwrap_err(), CredentialError::MalformedInput);
}

#[test]
fn end_to_end_credential_file_parses() {
    let text =
        "User name,Password,Access key ID,Secret access key,Console login link\nu,p,id,key,link\n";
    let cred = Credential::new_with_csv(text).unwrap();
    assert_eq!(cred.access_key_id, "id");
    assert_eq!(cred.secret_access_key, "key");
}
