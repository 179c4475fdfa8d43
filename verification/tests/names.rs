use modbot::flow::{classify_role, RoleKind};
use modbot::model::UserInfo;
use teloxide::types::{User, UserId};

fn both(first: &str, last: Option<&str>, id: u64) -> (UserInfo, User) {
    let mine = UserInfo {
        id,
        is_bot: false,
        first_name: first.to_string(),
        last_name: last.map(|s| s.to_string()),
    };
    let theirs = User {
        id: UserId(id),
        is_bot: false,
        first_name: first.to_string(),
        last_name: last.map(|s| s.to_string()),
        username: None,
        language_code: None,
        is_premium: false,
        added_to_attachment_menu: false,
    };
    (mine, theirs)
}

#[test]
fn full_name_matches_teloxide() {
    for (first, last) in [("Anna", None), ("Anna", Some("Karenina")), ("", Some("x")), ("<i>", Some("&"))] {
        let (mine, theirs) = both(first, last, 10);
        assert_eq!(mine.full_name(), theirs.full_name());
    }
}

#[test]
fn mention_is_an_escaped_link() {
    let (mine, theirs) = both("Bad <b>", Some("& Co"), 1234567890123);
    let expected = format!(
        r#"<a href="tg://user?id={}">{}</a>"#,
        theirs.id.0,
        teloxide::utils::html::escape(&theirs.full_name())
    );
    assert_eq!(mine.mention(), expected);
    assert!(!mine.mention()["<a href=\"tg://user?id=1234567890123\">".len()..]
        .trim_end_matches("</a>")
        .contains('<'));
}

#[test]
fn roles_are_classified_by_name() {
    assert_eq!(classify_role(&Some("owner".to_string())), RoleKind::Owner);
    assert_eq!(classify_role(&Some("admin".to_string())), RoleKind::Admin);
    assert_eq!(classify_role(&Some("moderator".to_string())), RoleKind::Member);
    assert_eq!(classify_role(&Some("Owner".to_string())), RoleKind::Member);
    assert_eq!(classify_role(&None), RoleKind::Member);
}
