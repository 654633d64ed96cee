use opendcs_controllers::password_file::roles_text;
use opendcs_controllers::text::{decimal_text, int_text, join_with_commas, split_on_commas};
use opendcs_controllers::{lrgs_password_hash, to_line, to_line_with_hash, DdsUser, PasswordFile};
use sha1::Digest;

fn sha1_upper(s: &str) -> String {
    let d = sha1::Sha1::digest(s.as_bytes());
    d.iter().map(|b| format!("{:02X}", b)).collect()
}

fn user(name: &str, password: &str, roles: &[&str]) -> DdsUser {
    DdsUser {
        username: name.to_string(),
        password: password.to_string(),
        roles: roles.iter().map(|r| r.to_string()).collect(),
    }
}

#[test]
fn password_line_with_roles() {
    let u = user("alice", "secret", &["dds", "admin"]);
    let expected = format!("alice:dds,admin:{}:", sha1_upper("alicesecretalicesecret"));
    assert_eq!(to_line(&u), expected);
}

#[test]
fn password_line_without_roles() {
    let u = user("alice", "secret", &[]);
    let expected = format!("alice:none:{}:", sha1_upper("alicesecretalicesecret"));
    assert_eq!(to_line(&u), expected);
}

#[test]
fn password_hash_is_upper_hex_sha1_of_repeated_pair() {
    let h = lrgs_password_hash("bob", "pw");
    assert_eq!(h, sha1_upper("bobpwbobpw"));
    assert_eq!(h.len(), 40);
    assert!(h.chars().all(|c| c.is_ascii_digit() || ('A'..='F').contains(&c)));
    assert_ne!(h, "bobpwbobpw");
}

#[test]
fn line_with_given_hash() {
    let u = user("carol", "x", &["dds"]);
    assert_eq!(to_line_with_hash(&u, "ABCD"), "carol:dds:ABCD:");
}

#[test]
fn password_file_lists_users_in_order() {
    let mut f = PasswordFile::new();
    assert_eq!(f.to_string(), "");
    f.add_user(user("a", "1", &[]));
    f.add_user(user("b", "2", &["dds", "lrgsadmin"]));
    let expected = format!(
        "a:none:{}:\nb:dds,lrgsadmin:{}:\n",
        sha1_upper("a1a1"),
        sha1_upper("b2b2")
    );
    assert_eq!(f.to_string(), expected);
}

#[test]
fn roles_column() {
    assert_eq!(roles_text(&vec![]), "none");
    assert_eq!(roles_text(&vec!["dds".to_string()]), "dds");
    assert_eq!(roles_text(&vec!["a".to_string(), "b".to_string(), "c".to_string()]), "a,b,c");
}

#[test]
fn split_and_join_commas() {
    assert_eq!(split_on_commas("dds,admin"), vec!["dds".to_string(), "admin".to_string()]);
    assert_eq!(split_on_commas(""), vec!["".to_string()]);
    assert_eq!(split_on_commas("a,,b,"), vec!["a", "", "b", ""]);
    assert_eq!(split_on_commas("ünï,çødé"), vec!["ünï", "çødé"]);
    let parts = split_on_commas("x,y,z");
    assert_eq!(join_with_commas(&parts), "x,y,z");
    assert_eq!(join_with_commas(&vec![]), "");
}

#[test]
fn decimal_rendering() {
    assert_eq!(decimal_text(0), "0");
    assert_eq!(decimal_text(16003), "16003");
    assert_eq!(decimal_text(u128::MAX), u128::MAX.to_string());
    assert_eq!(int_text(-5), "-5");
    assert_eq!(int_text(i64::MIN), i64::MIN.to_string());
    assert_eq!(int_text(42), "42");
}
