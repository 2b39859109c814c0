use paracord::error::Error;
use paracord::model::{CommandKind, Invocation, ResolvedEntities};
use paracord::target::TargetVisitor;
use paracord::visitor::CommandVisitor;
use serenity::model::channel::Message;
use serenity::model::guild::PartialMember;
use serenity::model::user::User;

fn user(id: u64, name: &str) -> User {
    let mut user = User::default();
    user.id.0 = id;
    user.name = name.to_string();
    user
}

fn profile(nick: &str) -> PartialMember {
    serde_json::from_str(&format!(r#"{{"deaf":false,"mute":false,"nick":"{}","roles":[]}}"#, nick))
        .unwrap()
}

fn message(id: u64, content: &str) -> Message {
    serde_json::from_str(&format!(
        r#"{{"id":"{}","channel_id":"5","author":{{"id":"1","username":"a","discriminator":"0001","avatar":null}},"content":"{}","timestamp":"2020-01-01T00:00:00Z","edited_timestamp":null,"tts":false,"mention_everyone":false,"mentions":[],"mention_roles":[],"attachments":[],"embeds":[],"pinned":false,"type":0}}"#,
        id, content
    ))
    .unwrap()
}

fn menu(kind: CommandKind, resolved: ResolvedEntities) -> Invocation {
    Invocation { kind, options: vec![], resolved }
}

#[test]
fn user_menu_with_one_user() {
    let mut resolved = ResolvedEntities::default();
    resolved.users.insert(1, user(1, "a"));
    let inv = menu(CommandKind::User, resolved);
    let (found, member) = CommandVisitor::new(&inv).target().user().unwrap();
    assert!(std::ptr::eq(found, &inv.resolved.users[&1]));
    assert_eq!(found.name, "a");
    assert!(member.is_none());
}

#[test]
fn user_menu_without_user() {
    let inv = menu(CommandKind::User, ResolvedEntities::default());
    assert_eq!(
        CommandVisitor::new(&inv).target().user().unwrap_err(),
        Error::MissingOption("user".to_string())
    );
}

#[test]
fn user_menu_with_two_users() {
    let mut resolved = ResolvedEntities::default();
    resolved.users.insert(1, user(1, "a"));
    resolved.users.insert(2, user(2, "b"));
    let inv = menu(CommandKind::User, resolved);
    assert_eq!(
        CommandVisitor::new(&inv).target().user().unwrap_err(),
        Error::Trailing(vec!["user".to_string()])
    );
}

#[test]
fn user_of_another_kind_of_invocation() {
    for kind in [CommandKind::Message, CommandKind::ChatInput, CommandKind::Unknown] {
        let mut resolved = ResolvedEntities::default();
        resolved.users.insert(1, user(1, "a"));
        let inv = menu(kind, resolved);
        assert_eq!(CommandVisitor::new(&inv).target().user().unwrap_err(), Error::NotUser);
    }
}

#[test]
fn user_menu_with_member_profile() {
    let mut resolved = ResolvedEntities::default();
    resolved.users.insert(1, user(1, "a"));
    resolved.members.insert(1, profile("nick"));
    let (found, member) = TargetVisitor::new(CommandKind::User, &resolved).user().unwrap();
    assert_eq!(found.id.0, 1);
    let member = member.unwrap();
    assert!(std::ptr::eq(member, &resolved.members[&1]));
    assert_eq!(member.nick.as_deref(), Some("nick"));
}

#[test]
fn user_menu_with_two_member_profiles() {
    let mut resolved = ResolvedEntities::default();
    resolved.users.insert(1, user(1, "a"));
    resolved.members.insert(1, profile("one"));
    resolved.members.insert(2, profile("two"));
    assert_eq!(
        TargetVisitor::new(CommandKind::User, &resolved).user().unwrap_err(),
        Error::Trailing(vec!["member".to_string()])
    );
}

#[test]
fn member_profile_without_user() {
    let mut resolved = ResolvedEntities::default();
    resolved.members.insert(1, profile("one"));
    assert_eq!(
        TargetVisitor::new(CommandKind::User, &resolved).user().unwrap_err(),
        Error::MissingOption("user".to_string())
    );
}

#[test]
fn message_menu_with_one_message() {
    let mut resolved = ResolvedEntities::default();
    resolved.messages.insert(7, message(7, "hello"));
    let inv = menu(CommandKind::Message, resolved);
    let found = CommandVisitor::new(&inv).target().message().unwrap();
    assert!(std::ptr::eq(found, &inv.resolved.messages[&7]));
    assert_eq!(found.id.0, 7);
    assert_eq!(found.content, "hello");
}

#[test]
fn message_menu_without_message() {
    let inv = menu(CommandKind::Message, ResolvedEntities::default());
    assert_eq!(
        CommandVisitor::new(&inv).target().message().unwrap_err(),
        Error::MissingOption("message".to_string())
    );
}

#[test]
fn message_menu_with_two_messages() {
    let mut resolved = ResolvedEntities::default();
    resolved.messages.insert(7, message(7, "hello"));
    resolved.messages.insert(8, message(8, "bye"));
    assert_eq!(
        TargetVisitor::new(CommandKind::Message, &resolved).message().unwrap_err(),
        Error::Trailing(vec!["message".to_string()])
    );
}

#[test]
fn message_of_another_kind_of_invocation() {
    for kind in [CommandKind::User, CommandKind::ChatInput, CommandKind::Unknown] {
        let mut resolved = ResolvedEntities::default();
        resolved.messages.insert(7, message(7, "hello"));
        assert_eq!(TargetVisitor::new(kind, &resolved).message().unwrap_err(), Error::NotMessage);
    }
}
