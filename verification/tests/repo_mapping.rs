use jid::BareJid;

use xmpp_webhook::config::RepoSettings;
use xmpp_webhook::webhook::RepoMapping;

fn setting(repo: &str, room: &str) -> RepoSettings {
    RepoSettings { repo: repo.to_string(), room: BareJid::new(room).unwrap() }
}

#[test]
fn mapped_repository_has_its_room() {
    let mapping = RepoMapping::new(vec![
        setting("org/one", "one@conference.example.org"),
        setting("org/two", "two@conference.example.org"),
    ]);
    assert_eq!(mapping.get("org/one"), Some(&BareJid::new("one@conference.example.org").unwrap()));
    assert_eq!(mapping.get("org/two"), Some(&BareJid::new("two@conference.example.org").unwrap()));
}

#[test]
fn unmapped_repository_has_none() {
    let mapping = RepoMapping::new(vec![setting("org/one", "one@conference.example.org")]);
    assert_eq!(mapping.get("org/three"), None);
    assert_eq!(mapping.get("org/On"), None);
    assert_eq!(mapping.get("ORG/ONE"), None);
    assert_eq!(mapping.get(""), None);
    assert_eq!(RepoMapping::new(Vec::new()).get("org/one"), None);
}

#[test]
fn first_entry_of_a_repository_counts() {
    let mapping = RepoMapping::new(vec![
        setting("org/one", "first@conference.example.org"),
        setting("org/two", "two@conference.example.org"),
        setting("org/one", "second@conference.example.org"),
    ]);
    assert_eq!(mapping.get("org/one"), Some(&BareJid::new("first@conference.example.org").unwrap()));
}
