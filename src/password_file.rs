//! The legacy DDS password file: one line per user,
//! `username:roles:HASH:`, where HASH is the upper-case hex SHA-1 of
//! username, password, username, password.

use vstd::prelude::*;
use vstd::string::*;
use vstd::utf8::encode_utf8;
use crate::digest::{hex_text, lemma_hex_text_len, sha1_digest, sha1_of, upper_hex};
use crate::text::{join_commas, join_with_commas};

verus! {

/// A DDS user as written to the password file.
pub struct DdsUser {
    pub username: String,
    pub password: String,
    pub roles: Vec<String>,
}

pub struct DdsUserView {
    pub username: Seq<char>,
    pub password: Seq<char>,
    pub roles: Seq<Seq<char>>,
}

impl View for DdsUser {
    type V = DdsUserView;

    open spec fn view(&self) -> DdsUserView {
        DdsUserView {
            username: self.username@,
            password: self.password@,
            roles: self.roles@.map_values(|r: String| r@),
        }
    }
}

/// The roles column: the roles joined by commas, or `none` when there are none.
pub open spec fn roles_field(roles: Seq<Seq<char>>) -> Seq<char> {
    if roles.len() == 0 {
        seq!['n', 'o', 'n', 'e']
    } else {
        join_commas(roles)
    }
}

/// The bytes that are hashed for a user: username, password, username,
/// password, each in UTF-8.
pub open spec fn hash_input(username: Seq<char>, password: Seq<char>) -> Seq<u8> {
    encode_utf8(username) + encode_utf8(password) + encode_utf8(username) + encode_utf8(password)
}

/// The password column of a user.
pub open spec fn password_hash_text(username: Seq<char>, password: Seq<char>) -> Seq<char> {
    hex_text(sha1_of(hash_input(username, password)), true)
}

/// A line of the file for `user`, given the text of its password column.
pub open spec fn line_with_hash(user: DdsUserView, hash: Seq<char>) -> Seq<char> {
    user.username + seq![':'] + roles_field(user.roles) + seq![':'] + hash + seq![':']
}

/// The line of the file for `user`, without its newline.
pub open spec fn user_line(user: DdsUserView) -> Seq<char> {
    line_with_hash(user, password_hash_text(user.username, user.password))
}

/// The whole file: each user's line followed by a newline, in order.
pub open spec fn password_file_text(users: Seq<DdsUserView>) -> Seq<char>
    decreases users.len(),
{
    if users.len() == 0 {
        seq![]
    } else {
        password_file_text(users.drop_last()) + user_line(users.last()) + seq!['\n']
    }
}

/// The password column for a user: upper-case hex SHA-1 over username,
/// password, username, password. A legacy format, not a secure one.
pub fn lrgs_password_hash(username: &str, password: &str) -> (r: String)
    ensures
        r@ == password_hash_text(username@, password@),
        r@.len() == 40,
{
    let mut data: Vec<u8> = Vec::new();
    data.extend_from_slice(username.as_bytes());
    data.extend_from_slice(password.as_bytes());
    data.extend_from_slice(username.as_bytes());
    data.extend_from_slice(password.as_bytes());
    assert(data@ =~= hash_input(username@, password@));
    let digest = sha1_digest(data.as_slice());
    proof {
        lemma_hex_text_len(digest@, true);
    }
    upper_hex(digest.as_slice())
}

/// The roles column for `roles`.
pub fn roles_text(roles: &Vec<String>) -> (r: String)
    ensures
        r@ == roles_field(roles@.map_values(|p: String| p@)),
{
    if roles.len() == 0 {
        proof {
            reveal_strlit("none");
        }
        String::from_str("none")
    } else {
        join_with_commas(roles)
    }
}

/// The line for `user`, given the text of its password column.
pub fn to_line_with_hash(user: &DdsUser, hash: &str) -> (r: String)
    ensures
        r@ == line_with_hash(user@, hash@),
{
    let roles = roles_text(&user.roles);
    proof {
        reveal_strlit(":");
    }
    let mut line = user.username.clone();
    line.append(":");
    line.append(roles.as_str());
    line.append(":");
    line.append(hash);
    line.append(":");
    line
}

/// The line of the password file for `user`, without its newline.
pub fn to_line(user: &DdsUser) -> (r: String)
    ensures
        r@ == user_line(user@),
{
    let hash = lrgs_password_hash(user.username.as_str(), user.password.as_str());
    to_line_with_hash(user, hash.as_str())
}

/// The users of a password file, in the order they were added.
pub struct PasswordFile {
    users: Vec<DdsUser>,
}

impl View for PasswordFile {
    type V = Seq<DdsUserView>;

    closed spec fn view(&self) -> Seq<DdsUserView> {
        self.users@.map_values(|u: DdsUser| u@)
    }
}

impl PasswordFile {
    /// A file with no users.
    pub fn new() -> (r: PasswordFile)
        ensures
            r@ == Seq::<DdsUserView>::empty(),
    {
        let r = PasswordFile { users: Vec::new() };
        assert(r@ =~= Seq::<DdsUserView>::empty());
        r
    }

    /// Appends `user` after the users already in the file.
    pub fn add_user(&mut self, user: DdsUser)
        ensures
            final(self)@ == old(self)@.push(user@),
    {
        self.users.push(user);
        assert(self@ =~= old(self)@.push(user@));
    }

    /// The text of the file.
    pub fn to_string(&self) -> (r: String)
        ensures
            r@ == password_file_text(self@),
    {
        let mut buffer = String::new();
        let mut i: usize = 0;
        proof {
            assert(self@.take(0) =~= Seq::<DdsUserView>::empty());
        }
        while i < self.users.len()
            invariant
                i <= self.users.len(),
                buffer@ == password_file_text(self@.take(i as int)),
            decreases self.users.len() - i,
        {
            let line = to_line(&self.users[i]);
            proof {
                reveal_strlit("\n");
                assert(self@.take(i as int + 1).drop_last() =~= self@.take(i as int));
            }
            buffer.append(line.as_str());
            buffer.append("\n");
            i = i + 1;
        }
        proof {
            assert(self@.take(self.users.len() as int) =~= self@);
        }
        buffer
    }
}

} // verus!
