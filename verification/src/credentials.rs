//! The credential record and its persisted JSON form.

use vstd::prelude::*;
use crate::failure::Failure;
use crate::text::same_text;
use crate::json::{Member, MemberView, distinct_keys, json_members, json_text, lookup,
    members_of_pairs, members_view, member_view, pairs_view, parse_object, render_object};

verus! {

/// The scheme under which a credential's payload is to be read.
#[derive(Clone, Copy, Debug, PartialEq, Eq, Structural)]
pub enum AuthScheme {
    UserPass,
    StoredSpotifyCredentials,
    StoredFacebookCredentials,
    SpotifyToken,
    FacebookToken,
}

/// Proof of identity accepted by the remote service. The payload is opaque
/// and is never formatted for display.
pub struct CredentialRecord {
    pub username: String,
    pub auth_type: AuthScheme,
    pub auth_data: String,
}

/// The mathematical form of a credential record.
pub struct RecordView {
    pub username: Seq<char>,
    pub auth_type: AuthScheme,
    pub auth_data: Seq<char>,
}

impl View for CredentialRecord {
    type V = RecordView;

    open spec fn view(&self) -> RecordView {
        RecordView {
            username: self.username@,
            auth_type: self.auth_type,
            auth_data: self.auth_data@,
        }
    }
}

/// The name by which a scheme is persisted.
pub open spec fn scheme_name(scheme: AuthScheme) -> Seq<char> {
    match scheme {
        AuthScheme::UserPass => "AUTHENTICATION_USER_PASS"@,
        AuthScheme::StoredSpotifyCredentials => "AUTHENTICATION_STORED_SPOTIFY_CREDENTIALS"@,
        AuthScheme::StoredFacebookCredentials => "AUTHENTICATION_STORED_FACEBOOK_CREDENTIALS"@,
        AuthScheme::SpotifyToken => "AUTHENTICATION_SPOTIFY_TOKEN"@,
        AuthScheme::FacebookToken => "AUTHENTICATION_FACEBOOK_TOKEN"@,
    }
}

/// The scheme that a persisted name stands for, if any.
pub open spec fn scheme_named(name: Seq<char>) -> Option<AuthScheme> {
    if name == "AUTHENTICATION_USER_PASS"@ {
        Some(AuthScheme::UserPass)
    } else if name == "AUTHENTICATION_STORED_SPOTIFY_CREDENTIALS"@ {
        Some(AuthScheme::StoredSpotifyCredentials)
    } else if name == "AUTHENTICATION_STORED_FACEBOOK_CREDENTIALS"@ {
        Some(AuthScheme::StoredFacebookCredentials)
    } else if name == "AUTHENTICATION_SPOTIFY_TOKEN"@ {
        Some(AuthScheme::SpotifyToken)
    } else if name == "AUTHENTICATION_FACEBOOK_TOKEN"@ {
        Some(AuthScheme::FacebookToken)
    } else {
        None
    }
}

/// The record that an object's members spell out: all three fields must be
/// present as strings and the scheme must be a known one.
pub open spec fn record_of_members(members: Seq<MemberView>) -> Option<RecordView> {
    match (
        lookup(members, "username"@),
        lookup(members, "auth_type"@),
        lookup(members, "auth_data"@),
    ) {
        (Some(username), Some(scheme), Some(auth_data)) => match scheme_named(scheme) {
            Some(auth_type) => Some(RecordView { username, auth_type, auth_data }),
            None => None,
        },
        _ => None,
    }
}

/// The keys and values under which a record is persisted.
pub open spec fn pairs_of_record(record: RecordView) -> Seq<(Seq<char>, Seq<char>)> {
    seq![
        ("username"@, record.username),
        ("auth_type"@, scheme_name(record.auth_type)),
        ("auth_data"@, record.auth_data),
    ]
}

/// The record that a persisted text holds, if it holds one.
pub open spec fn record_of_text(text: Seq<char>) -> Option<RecordView> {
    match json_members(text) {
        Some(members) => record_of_members(members),
        None => None,
    }
}

/// Where the credential record is persisted, relative to the working
/// directory.
pub open spec fn store_location() -> &'static str {
    "cache/credentials.json"
}

/// Where the credential record is persisted.
pub fn store_path() -> (path: &'static str)
    ensures
        path == store_location(),
{
    "cache/credentials.json"
}

/// What a read of the credential store found.
pub enum StoreContent {
    /// Nothing is persisted.
    Missing,
    /// Something is persisted but could not be read.
    Unreadable,
    /// The persisted text.
    Text(String),
}

/// What loading makes of the store's content: nothing persisted is not
/// found, a failed read is an I/O failure, and a text that holds no record
/// is corrupt.
pub open spec fn loaded(content: StoreContent) -> Result<RecordView, Failure> {
    match content {
        StoreContent::Missing => Err(Failure::NotFound),
        StoreContent::Unreadable => Err(Failure::Io),
        StoreContent::Text(text) => match record_of_text(text@) {
            Some(record) => Ok(record),
            None => Err(Failure::Corrupt),
        },
    }
}

impl AuthScheme {
    /// The name by which this scheme is persisted.
    pub fn name(&self) -> (out: &'static str)
        ensures
            out@ == scheme_name(*self),
    {
        match self {
            AuthScheme::UserPass => "AUTHENTICATION_USER_PASS",
            AuthScheme::StoredSpotifyCredentials => "AUTHENTICATION_STORED_SPOTIFY_CREDENTIALS",
            AuthScheme::StoredFacebookCredentials => "AUTHENTICATION_STORED_FACEBOOK_CREDENTIALS",
            AuthScheme::SpotifyToken => "AUTHENTICATION_SPOTIFY_TOKEN",
            AuthScheme::FacebookToken => "AUTHENTICATION_FACEBOOK_TOKEN",
        }
    }

    /// The number that stands for this scheme on the wire.
    pub fn number(&self) -> (out: i32)
        ensures
            out == scheme_number(*self),
    {
        match self {
            AuthScheme::UserPass => 0,
            AuthScheme::StoredSpotifyCredentials => 1,
            AuthScheme::StoredFacebookCredentials => 2,
            AuthScheme::SpotifyToken => 3,
            AuthScheme::FacebookToken => 4,
        }
    }

    /// Reads a scheme from its number on the wire.
    pub fn from_number(number: i32) -> (out: Option<AuthScheme>)
        ensures
            out == scheme_numbered(number),
    {
        if number == 0 {
            Some(AuthScheme::UserPass)
        } else if number == 1 {
            Some(AuthScheme::StoredSpotifyCredentials)
        } else if number == 2 {
            Some(AuthScheme::StoredFacebookCredentials)
        } else if number == 3 {
            Some(AuthScheme::SpotifyToken)
        } else if number == 4 {
            Some(AuthScheme::FacebookToken)
        } else {
            None
        }
    }

    /// Reads a persisted scheme name.
    pub fn from_name(name: &str) -> (out: Option<AuthScheme>)
        ensures
            out == scheme_named(name@),
    {
        if same_text(name, "AUTHENTICATION_USER_PASS") {
            Some(AuthScheme::UserPass)
        } else if same_text(name, "AUTHENTICATION_STORED_SPOTIFY_CREDENTIALS") {
            Some(AuthScheme::StoredSpotifyCredentials)
        } else if same_text(name, "AUTHENTICATION_STORED_FACEBOOK_CREDENTIALS") {
            Some(AuthScheme::StoredFacebookCredentials)
        } else if same_text(name, "AUTHENTICATION_SPOTIFY_TOKEN") {
            Some(AuthScheme::SpotifyToken)
        } else if same_text(name, "AUTHENTICATION_FACEBOOK_TOKEN") {
            Some(AuthScheme::FacebookToken)
        } else {
            None
        }
    }
}

/// Finds the text of the member named `key`.
pub fn find_text(members: &Vec<Member>, key: &str) -> (found: Option<String>)
    ensures
        match found {
            Some(s) => lookup(members_view(members@), key@) == Some(s@),
            None => lookup(members_view(members@), key@) is None,
        },
{
    let mut found: Option<String> = None;
    let mut i: usize = 0;
    while i < members.len()
        invariant
            i <= members.len(),
            match found {
                Some(s) => lookup(members_view(members@).take(i as int), key@) == Some(s@),
                None => lookup(members_view(members@).take(i as int), key@) is None,
            },
        decreases members.len() - i,
    {
        proof {
            let all = members_view(members@);
            assert(all.take(i + 1).drop_last() =~= all.take(i as int));
            assert(all.take(i + 1).last() == member_view(members@[i as int]));
        }
        let entry = &members[i];
        if same_text(entry.0.as_str(), key) {
            found = match &entry.1 {
                Some(s) => Some(s.clone()),
                None => None,
            };
        }
        i += 1;
    }
    proof {
        let all = members_view(members@);
        assert(all.take(members.len() as int) =~= all);
    }
    found
}

impl CredentialRecord {
    /// Whether two records hold the same values.
    pub fn same_as(&self, other: &CredentialRecord) -> (same: bool)
        ensures
            same == (self@ == other@),
    {
        self.username == other.username && self.auth_type == other.auth_type && self.auth_data
            == other.auth_data
    }

    /// A copy of this record.
    pub fn duplicate(&self) -> (out: CredentialRecord)
        ensures
            out@ == self@,
    {
        CredentialRecord {
            username: self.username.clone(),
            auth_type: self.auth_type,
            auth_data: self.auth_data.clone(),
        }
    }

    /// Builds the record that an object's members spell out, or reports the
    /// content as corrupt: never a record with a field missing.
    pub fn from_members(members: &Vec<Member>) -> (out: Result<CredentialRecord, Failure>)
        ensures
            match out {
                Ok(record) => record_of_members(members_view(members@)) == Some(record@),
                Err(e) => e == Failure::Corrupt && record_of_members(members_view(members@))
                    is None,
            },
    {
        let username = find_text(members, "username");
        let scheme = find_text(members, "auth_type");
        let auth_data = find_text(members, "auth_data");
        match (username, scheme, auth_data) {
            (Some(username), Some(scheme), Some(auth_data)) => {
                match AuthScheme::from_name(scheme.as_str()) {
                    Some(auth_type) => Ok(CredentialRecord { username, auth_type, auth_data }),
                    None => Err(Failure::Corrupt),
                }
            },
            _ => Err(Failure::Corrupt),
        }
    }

    /// Reads a record from the text of the credential store. Text that is
    /// not a JSON object, or whose object does not spell out a record, is
    /// corrupt.
    pub fn decode(text: &str) -> (out: Result<CredentialRecord, Failure>)
        ensures
            match out {
                Ok(record) => record_of_text(text@) == Some(record@),
                Err(e) => e == Failure::Corrupt && record_of_text(text@) is None,
            },
    {
        match parse_object(text) {
            Ok(members) => CredentialRecord::from_members(&members),
            Err(_) => Err(Failure::Corrupt),
        }
    }

    /// Loads the record from what a read of the store found.
    pub fn load(content: StoreContent) -> (out: Result<CredentialRecord, Failure>)
        ensures
            match out {
                Ok(record) => loaded(content) == Ok::<RecordView, Failure>(record@),
                Err(e) => loaded(content) == Err::<RecordView, Failure>(e),
            },
            content is Missing ==> out is Err && out->Err_0 == Failure::NotFound,
            content is Unreadable ==> out is Err && out->Err_0 == Failure::Io,
            content is Text && json_members(content->Text_0@) is None ==> out is Err
                && out->Err_0 == Failure::Corrupt,
    {
        match content {
            StoreContent::Missing => Err(Failure::NotFound),
            StoreContent::Unreadable => Err(Failure::Io),
            StoreContent::Text(text) => CredentialRecord::decode(text.as_str()),
        }
    }

    /// The keys and values under which this record is persisted.
    pub fn to_pairs(&self) -> (pairs: Vec<(String, String)>)
        ensures
            pairs_view(pairs@) == pairs_of_record(self@),
    {
        let mut pairs: Vec<(String, String)> = Vec::new();
        pairs.push(("username".to_owned(), self.username.clone()));
        pairs.push(("auth_type".to_owned(), self.auth_type.name().to_owned()));
        pairs.push(("auth_data".to_owned(), self.auth_data.clone()));
        proof {
            assert(pairs_view(pairs@) =~= pairs_of_record(self@));
        }
        pairs
    }

    /// Writes this record as the text of the credential store. Loading
    /// that text gives this record back.
    pub fn encode(&self) -> (text: String)
        ensures
            text@ == json_text(pairs_of_record(self@)),
            record_of_text(text@) == Some(self@),
            loaded(StoreContent::Text(text)) == Ok::<RecordView, Failure>(self@),
    {
        let pairs = self.to_pairs();
        proof {
            lemma_record_keys_differ(self@);
        }
        let text = render_object(&pairs);
        proof {
            lemma_record_members_round_trip(self@);
            let written = members_of_pairs(pairs_of_record(self@));
            let read = json_members(text@)->Some_0;
            assert(lookup(read, "username"@) == lookup(written, "username"@));
            assert(lookup(read, "auth_type"@) == lookup(written, "auth_type"@));
            assert(lookup(read, "auth_data"@) == lookup(written, "auth_data"@));
        }
        text
    }
}

/// The three keys under which a record is persisted differ from one
/// another.
pub proof fn lemma_record_keys_differ(record: RecordView)
    ensures
        distinct_keys(pairs_of_record(record)),
{
    reveal_strlit("username");
    reveal_strlit("auth_type");
    reveal_strlit("auth_data");
    assert("username"@.len() == 8 && "auth_type"@.len() == 9 && "auth_data"@.len() == 9);
    assert("auth_type"@[5] == 't' && "auth_data"@[5] == 'd');
}

/// The number that stands for a scheme on the wire.
pub open spec fn scheme_number(scheme: AuthScheme) -> i32 {
    match scheme {
        AuthScheme::UserPass => 0i32,
        AuthScheme::StoredSpotifyCredentials => 1i32,
        AuthScheme::StoredFacebookCredentials => 2i32,
        AuthScheme::SpotifyToken => 3i32,
        AuthScheme::FacebookToken => 4i32,
    }
}

/// The scheme that a number stands for on the wire, if any.
pub open spec fn scheme_numbered(number: i32) -> Option<AuthScheme> {
    if number == 0 {
        Some(AuthScheme::UserPass)
    } else if number == 1 {
        Some(AuthScheme::StoredSpotifyCredentials)
    } else if number == 2 {
        Some(AuthScheme::StoredFacebookCredentials)
    } else if number == 3 {
        Some(AuthScheme::SpotifyToken)
    } else if number == 4 {
        Some(AuthScheme::FacebookToken)
    } else {
        None
    }
}

/// A scheme is read back from its own number, and a number that names a
/// scheme is that scheme's number.
pub proof fn lemma_scheme_number_round_trip(scheme: AuthScheme, number: i32)
    ensures
        scheme_numbered(scheme_number(scheme)) == Some(scheme),
        scheme_numbered(number) == Some(scheme) ==> scheme_number(scheme) == number,
{
}

/// A scheme is read back from its own persisted name.
pub proof fn lemma_scheme_name_round_trip(scheme: AuthScheme)
    ensures
        scheme_named(scheme_name(scheme)) == Some(scheme),
{
    reveal_strlit("AUTHENTICATION_USER_PASS");
    reveal_strlit("AUTHENTICATION_STORED_SPOTIFY_CREDENTIALS");
    reveal_strlit("AUTHENTICATION_STORED_FACEBOOK_CREDENTIALS");
    reveal_strlit("AUTHENTICATION_SPOTIFY_TOKEN");
    reveal_strlit("AUTHENTICATION_FACEBOOK_TOKEN");
    assert("AUTHENTICATION_USER_PASS"@.len() == 24);
    assert("AUTHENTICATION_STORED_SPOTIFY_CREDENTIALS"@.len() == 41);
    assert("AUTHENTICATION_STORED_FACEBOOK_CREDENTIALS"@.len() == 42);
    assert("AUTHENTICATION_SPOTIFY_TOKEN"@.len() == 28);
    assert("AUTHENTICATION_FACEBOOK_TOKEN"@.len() == 29);
}

/// The members under which a record is persisted spell out that same
/// record: reading back what was handed to the writer loses nothing.
pub proof fn lemma_record_members_round_trip(record: RecordView)
    ensures
        record_of_members(members_of_pairs(pairs_of_record(record))) == Some(record),
{
    reveal_strlit("username");
    reveal_strlit("auth_type");
    reveal_strlit("auth_data");
    lemma_scheme_name_round_trip(record.auth_type);
    let m = members_of_pairs(pairs_of_record(record));
    assert(m.len() == 3);
    assert(m[0] == ("username"@, Some(record.username)));
    assert(m[1] == ("auth_type"@, Some(scheme_name(record.auth_type))));
    assert(m[2] == ("auth_data"@, Some(record.auth_data)));
    assert("username"@.len() == 8 && "auth_type"@.len() == 9);
    assert("auth_type"@[5] == 't' && "auth_data"@[5] == 'd');
    let m2 = m.drop_last();
    let m1 = m2.drop_last();
    assert(m2.last() == m[1]);
    assert(m1.last() == m[0]);
    reveal_with_fuel(lookup, 4);
}

} // verus!
