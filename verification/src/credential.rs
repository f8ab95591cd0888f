//! Credentials loaded from a delimited tabular text file.
//!
//! The file carries a header row naming its columns and data rows beneath
//! it. The header must contain (in any order) the five known column names;
//! exactly the first data row is consumed, and a row whose column count
//! differs from the header's is malformed. Two fields are extracted: the
//! access key identifier and the secret access key.

use vstd::prelude::*;

verus! {

/// One credential needed to access the compute backend.
#[derive(Debug)]
pub struct Credential {
    pub access_key_id: String,
    pub secret_access_key: String,
}

/// Why a credential could not be read from tabular text.
#[derive(Clone, Copy, Debug, PartialEq, Eq, Structural)]
pub enum CredentialError {
    /// The text did not yield a header row and a first data row.
    MalformedInput,
    /// The data row's column count differs from the header's.
    ColumnCountMismatch,
    /// The header lacks one of the required column names.
    MissingColumn,
}

/// The column names a credential file's header must contain, in their
/// conventional order. The header may present them in any order.
pub open spec fn required_headers() -> Seq<Seq<char>> {
    seq![
        "User name"@,
        "Password"@,
        "Access key ID"@,
        "Secret access key"@,
        "Console login link"@,
    ]
}

/// The position of the first column named `name`, or -1 if there is none.
pub open spec fn first_header_index(header: Seq<Seq<char>>, name: Seq<char>) -> int
    decreases header.len(),
{
    if header.len() == 0 {
        -1
    } else if header[0] == name {
        0
    } else if first_header_index(header.drop_first(), name) < 0 {
        -1
    } else {
        first_header_index(header.drop_first(), name) + 1
    }
}

pub proof fn lemma_first_header_index(header: Seq<Seq<char>>, name: Seq<char>)
    ensures
        header.contains(name) <==> 0 <= first_header_index(header, name) < header.len(),
        !header.contains(name) ==> first_header_index(header, name) == -1,
        header.contains(name) ==> header[first_header_index(header, name)] == name,
        forall|j: int| 0 <= j < first_header_index(header, name) ==> header[j] != name,
    decreases header.len(),
{
    if header.len() > 0 {
        lemma_first_header_index(header.drop_first(), name);
        if header[0] == name {
            assert(header.contains(name));
        } else {
            assert(forall|i: int|
                1 <= i < header.len() ==> header[i] == header.drop_first()[i - 1]);
            assert(header.contains(name) <==> header.drop_first().contains(name)) by {
                if header.contains(name) {
                    let i = choose|i: int| 0 <= i < header.len() && header[i] == name;
                    assert(header.drop_first()[i - 1] == name);
                }
                if header.drop_first().contains(name) {
                    let i = choose|i: int|
                        0 <= i < header.drop_first().len() && header.drop_first()[i] == name;
                    assert(header[i + 1] == name);
                }
            }
            if header.drop_first().contains(name) {
                let fd = first_header_index(header.drop_first(), name);
                assert(0 <= fd < header.drop_first().len());
                assert(first_header_index(header, name) == fd + 1);
                assert forall|j: int| 0 <= j < first_header_index(header, name) implies header[j]
                    != name by {
                    if j > 0 {
                        assert(0 <= j - 1 < fd);
                        assert(header.drop_first()[j - 1] == header[j]);
                    }
                }
            } else {
                assert(first_header_index(header.drop_first(), name) == -1);
                assert(first_header_index(header, name) == -1);
            }
        }
    }
}

/// Whether the header contains every required column name.
pub open spec fn header_has_required(header: Seq<Seq<char>>) -> bool {
    forall|i: int| 0 <= i < required_headers().len() ==> header.contains(#[trigger] required_headers()[i])
}

/// What parsing a header row and a data row yields: the access key
/// identifier and the secret access key, in that order, or the error that
/// rejects the pair.
pub open spec fn parse_credential(header: Seq<Seq<char>>, record: Seq<Seq<char>>) -> Result<
    (Seq<char>, Seq<char>),
    CredentialError,
> {
    if record.len() != header.len() {
        Err(CredentialError::ColumnCountMismatch)
    } else if !header_has_required(header) {
        Err(CredentialError::MissingColumn)
    } else {
        Ok(
            (
                record[first_header_index(header, "Access key ID"@)],
                record[first_header_index(header, "Secret access key"@)],
            ),
        )
    }
}

/// The value each column name is associated with: the entry of the data
/// row standing at the name's first position in the header.
pub open spec fn record_fields(header: Seq<Seq<char>>, record: Seq<Seq<char>>) -> Map<
    Seq<char>,
    Seq<char>,
> {
    Map::new(
        |name: Seq<char>| header.contains(name),
        |name: Seq<char>| record[first_header_index(header, name)],
    )
}

/// Law: parsing does not depend on column order. Two header/data pairs of
/// consistent column counts that associate the same value with each column
/// name parse to the same result, whichever order their columns stand in.
pub proof fn lemma_parse_order_independent(
    h1: Seq<Seq<char>>,
    r1: Seq<Seq<char>>,
    h2: Seq<Seq<char>>,
    r2: Seq<Seq<char>>,
)
    requires
        h1.len() == r1.len(),
        h2.len() == r2.len(),
        record_fields(h1, r1) == record_fields(h2, r2),
    ensures
        parse_credential(h1, r1) == parse_credential(h2, r2),
{
    assert forall|name: Seq<char>| h1.contains(name) <==> h2.contains(name) by {
        assert(record_fields(h1, r1).dom() =~= Set::new(|n: Seq<char>| h1.contains(n)));
        assert(record_fields(h2, r2).dom() =~= Set::new(|n: Seq<char>| h2.contains(n)));
        assert(Set::new(|n: Seq<char>| h1.contains(n)).contains(name) == h1.contains(name));
        assert(Set::new(|n: Seq<char>| h2.contains(n)).contains(name) == h2.contains(name));
    }
    if header_has_required(h1) && header_has_required(h2) {
        assert forall|name: Seq<char>| #[trigger]
            h1.contains(name) implies r1[first_header_index(h1, name)] == r2[first_header_index(
            h2,
            name,
        )] by {
            assert(record_fields(h1, r1)[name] == r1[first_header_index(h1, name)]);
            assert(record_fields(h2, r2)[name] == r2[first_header_index(h2, name)]);
        }
        assert(required_headers()[2] == "Access key ID"@);
        assert(required_headers()[3] == "Secret access key"@);
        assert(h1.contains("Access key ID"@));
        assert(h1.contains("Secret access key"@));
    } else if header_has_required(h1) && !header_has_required(h2) {
        let i = choose|i: int|
            0 <= i < required_headers().len() && !h2.contains(#[trigger] required_headers()[i]);
        assert(h1.contains(required_headers()[i]));
        assert(false);
    } else if !header_has_required(h1) && header_has_required(h2) {
        let i = choose|i: int|
            0 <= i < required_headers().len() && !h1.contains(#[trigger] required_headers()[i]);
        assert(h2.contains(required_headers()[i]));
        assert(false);
    }
}

fn find_header(header: &Vec<String>, name: &str) -> (r: Option<usize>)
    ensures
        match r {
            Some(i) => i < header@.len() && first_header_index(header.deep_view(), name@)
                == i as int,
            None => first_header_index(header.deep_view(), name@) == -1,
        },
{
    let needle: String = name.to_owned();
    let ghost h: Seq<Seq<char>> = header.deep_view();
    let mut i: usize = 0;
    while i < header.len()
        invariant
            h == header.deep_view(),
            needle@ == name@,
            i <= h.len(),
            forall|k: int| 0 <= k < i ==> h[k] != name@,
        decreases h.len() - i,
    {
        if header[i] == needle {
            proof {
                lemma_prefix_free_first_index(h, name@, i as int);
            }
            return Some(i);
        }
        i += 1;
    }
    proof {
        lemma_prefix_free_first_index(h, name@, h.len() as int);
    }
    None
}

/// If no column before position `j` is named `name`, the first position of
/// `name` is at or after `j` (and -1 exactly when it never occurs).
proof fn lemma_prefix_free_first_index(header: Seq<Seq<char>>, name: Seq<char>, j: int)
    requires
        0 <= j <= header.len(),
        forall|k: int| 0 <= k < j ==> header[k] != name,
    ensures
        j < header.len() && header[j] == name ==> first_header_index(header, name) == j,
        j == header.len() ==> first_header_index(header, name) == -1,
    decreases j,
{
    if j == 0 {
        if header.len() == 0 {
        } else if header[0] == name {
        } else {
            lemma_first_header_index(header, name);
        }
    } else {
        assert(header.len() > 0);
        assert(header[0] != name);
        assert(forall|k: int| 0 <= k < j - 1 ==> header.drop_first()[k] == header[k + 1]);
        lemma_prefix_free_first_index(header.drop_first(), name, j - 1);
        if j < header.len() && header[j] == name {
            assert(header.drop_first()[j - 1] == name);
        }
    }
}

/// Extracts a credential from a header row and a data row, both given as
/// their column values. The row must have exactly as many columns as the
/// header, and the header must contain every required column name; the two
/// extracted fields are read at the positions the header gives them.
pub fn cred_from_str_rec(header: &Vec<String>, record: &Vec<String>) -> (r: Result<
    Credential,
    CredentialError,
>)
    ensures
        match parse_credential(header.deep_view(), record.deep_view()) {
            Ok(fields) => r matches Ok(c) && c.access_key_id@ == fields.0
                && c.secret_access_key@ == fields.1,
            Err(e) => r == Err::<Credential, CredentialError>(e),
        },
{
    let ghost h: Seq<Seq<char>> = header.deep_view();
    if record.len() != header.len() {
        return Err(CredentialError::ColumnCountMismatch);
    }
    if find_header(header, "User name").is_none() {
        proof {
            lemma_first_header_index(h, "User name"@);
            assert(required_headers()[0] == "User name"@);
            assert(!h.contains(required_headers()[0]));
        }
        return Err(CredentialError::MissingColumn);
    }
    if find_header(header, "Password").is_none() {
        proof {
            lemma_first_header_index(h, "Password"@);
            assert(required_headers()[1] == "Password"@);
            assert(!h.contains(required_headers()[1]));
        }
        return Err(CredentialError::MissingColumn);
    }
    if find_header(header, "Console login link").is_none() {
        proof {
            lemma_first_header_index(h, "Console login link"@);
            assert(required_headers()[4] == "Console login link"@);
            assert(!h.contains(required_headers()[4]));
        }
        return Err(CredentialError::MissingColumn);
    }
    let id_pos = match find_header(header, "Access key ID") {
        Some(i) => i,
        None => {
            proof {
                lemma_first_header_index(h, "Access key ID"@);
                assert(required_headers()[2] == "Access key ID"@);
                assert(!h.contains(required_headers()[2]));
            }
            return Err(CredentialError::MissingColumn);
        },
    };
    let secret_pos = match find_header(header, "Secret access key") {
        Some(i) => i,
        None => {
            proof {
                lemma_first_header_index(h, "Secret access key"@);
                assert(required_headers()[3] == "Secret access key"@);
                assert(!h.contains(required_headers()[3]));
            }
            return Err(CredentialError::MissingColumn);
        },
    };
    proof {
        lemma_first_header_index(h, "User name"@);
        lemma_first_header_index(h, "Password"@);
        lemma_first_header_index(h, "Console login link"@);
        lemma_first_header_index(h, "Access key ID"@);
        lemma_first_header_index(h, "Secret access key"@);
        assert(header_has_required(h)) by {
            assert(required_headers()[0] == "User name"@);
            assert(required_headers()[1] == "Password"@);
            assert(required_headers()[2] == "Access key ID"@);
            assert(required_headers()[3] == "Secret access key"@);
            assert(required_headers()[4] == "Console login link"@);
            assert forall|i: int| 0 <= i < required_headers().len() implies h.contains(
                #[trigger] required_headers()[i],
            ) by {
                if i == 0 {
                    assert(h.contains("User name"@));
                } else if i == 1 {
                    assert(h.contains("Password"@));
                } else if i == 2 {
                    assert(h.contains("Access key ID"@));
                } else if i == 3 {
                    assert(h.contains("Secret access key"@));
                } else {
                    assert(h.contains("Console login link"@));
                }
            }
        }
    }
    Ok(
        Credential {
            access_key_id: record[id_pos].clone(),
            secret_access_key: record[secret_pos].clone(),
        },
    )
}

impl Credential {
    /// Builds a credential directly from its two field values.
    pub fn new(key_id: &str, secret_access_key: &str) -> (c: Credential)
        ensures
            c.access_key_id@ == key_id@,
            c.secret_access_key@ == secret_access_key@,
    {
        Credential { access_key_id: key_id.to_owned(), secret_access_key: secret_access_key.to_owned() }
    }

    /// Reads a credential from the text of a credential file: the header
    /// row names the columns, and exactly the first data row is consumed.
    /// Succeeds exactly when the reader yields both records and the pair
    /// parses; in particular, text without a data row never yields a
    /// credential.
    pub fn new_with_csv(text: &str) -> (r: Result<Credential, CredentialError>)
        ensures
            !csv_yields_two_records(text@) ==> r == Err::<Credential, CredentialError>(
                CredentialError::MalformedInput,
            ),
            csv_yields_two_records(text@) ==> match parse_credential(
                csv_header_of(text@),
                csv_first_row_of(text@),
            ) {
                Ok(fields) => r matches Ok(c) && c.access_key_id@ == fields.0
                    && c.secret_access_key@ == fields.1,
                Err(e) => r == Err::<Credential, CredentialError>(e),
            },
    {
        match read_header_and_first_record(text) {
            Some(rows) => cred_from_str_rec(&rows.0, &rows.1),
            None => Err(CredentialError::MalformedInput),
        }
    }
}

/// The column values of the header row of delimited text, as the reader
/// yields them. A function of the text alone.
pub uninterp spec fn csv_header_of(text: Seq<char>) -> Seq<Seq<char>>;

/// The column values of the first data row of delimited text, as the
/// reader yields them. A function of the text alone.
pub uninterp spec fn csv_first_row_of(text: Seq<char>) -> Seq<Seq<char>>;

/// Whether the reader yields both a header record and a first data record
/// from the text. A function of the text alone.
pub uninterp spec fn csv_yields_two_records(text: Seq<char>) -> bool;

/// Relies on csv::Reader (csv crate): reads delimited text and yields the
/// header record and the first data record, both functions of the text
/// alone. Yields nothing when the reader cannot produce both records — in
/// particular when a record's column count differs from the header's,
/// which the reader rejects, and when no data row follows the header.
#[verifier::external_body]
fn read_header_and_first_record(text: &str) -> (r: Option<(Vec<String>, Vec<String>)>)
    ensures
        (r is Some) <==> csv_yields_two_records(text@),
        r matches Some(rows) ==> rows.0.deep_view() == csv_header_of(text@)
            && rows.1.deep_view() == csv_first_row_of(text@),
{
    let mut reader = csv::Reader::from_reader(text.as_bytes());
    let header: Vec<String> = match reader.headers() {
        Ok(h) => h.iter().map(|field| field.to_string()).collect(),
        Err(_) => return None,
    };
    let record: Vec<String> = match reader.records().next() {
        Some(Ok(rec)) => rec.iter().map(|field| field.to_string()).collect(),
        _ => return None,
    };
    Some((header, record))
}

} // verus!
