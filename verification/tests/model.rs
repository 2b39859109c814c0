use paracord::id;
use paracord::model::{
    CommandOption, OptionKind, OptionValueType, ResolvedEntities, ResolvedValue,
};
use paracord::options::{option_names, OptionMap};
use serenity::model::user::User;

fn option(name: &str, value: i64) -> CommandOption {
    CommandOption {
        name: name.to_string(),
        kind: OptionKind::Integer,
        value: Some(ResolvedValue::Integer(value)),
        suboptions: vec![],
    }
}

fn sorted(mut names: Vec<String>) -> Vec<String> {
    names.sort();
    names
}

#[test]
fn id_hands_its_argument_back() {
    assert_eq!(id(7), 7);
    assert_eq!(id("a"), "a");
    assert_eq!(id(vec![1, 2]), vec![1, 2]);
}

#[test]
fn describe_names_each_variant() {
    assert_eq!(ResolvedValue::String("a".to_string()).describe(), OptionValueType::String);
    assert_eq!(ResolvedValue::Integer(1).describe(), OptionValueType::Integer);
    assert_eq!(ResolvedValue::Boolean(false).describe(), OptionValueType::Boolean);
    assert_eq!(ResolvedValue::User(User::default(), None).describe(), OptionValueType::User);
    assert_eq!(ResolvedValue::Number(2.5f64.to_bits()).describe(), OptionValueType::Number);
    assert_eq!(ResolvedValue::Unknown.describe(), OptionValueType::Unknown);
}

#[test]
fn labels_and_kinds_of_value_types() {
    let table = [
        (OptionValueType::String, "String", OptionKind::String),
        (OptionValueType::Integer, "Integer", OptionKind::Integer),
        (OptionValueType::Boolean, "Boolean", OptionKind::Boolean),
        (OptionValueType::User, "User", OptionKind::User),
        (OptionValueType::Channel, "Channel", OptionKind::Channel),
        (OptionValueType::Role, "Role", OptionKind::Role),
        (OptionValueType::Number, "Number", OptionKind::Number),
        (OptionValueType::Attachment, "Attachment", OptionKind::Attachment),
        (OptionValueType::Unknown, "Unknown", OptionKind::Unknown),
    ];
    for (ty, label, kind) in table {
        assert_eq!(ty.label(), label);
        assert_eq!(ty.option_kind(), kind);
    }
}

#[test]
fn only_subcommands_and_groups_hold_options() {
    assert!(OptionKind::SubCommand.is_container());
    assert!(OptionKind::SubCommandGroup.is_container());
    for kind in [
        OptionKind::String,
        OptionKind::Integer,
        OptionKind::Boolean,
        OptionKind::User,
        OptionKind::Channel,
        OptionKind::Role,
        OptionKind::Mentionable,
        OptionKind::Number,
        OptionKind::Attachment,
        OptionKind::Unknown,
    ] {
        assert!(!kind.is_container());
    }
}

#[test]
fn default_entities_are_empty() {
    let resolved = ResolvedEntities::default();
    assert!(resolved.users.is_empty());
    assert!(resolved.members.is_empty());
    assert!(resolved.roles.is_empty());
    assert!(resolved.channels.is_empty());
    assert!(resolved.messages.is_empty());
    assert!(resolved.attachments.is_empty());
}

#[test]
fn option_names_keeps_order_and_repeats() {
    let opts = vec![option("b", 1), option("a", 2), option("b", 3)];
    assert_eq!(option_names(&opts), vec!["b".to_string(), "a".to_string(), "b".to_string()]);
    assert_eq!(option_names(&vec![]), Vec::<String>::new());
}

#[test]
fn option_map_finds_and_forgets() {
    let a = option("a", 1);
    let b = option("b", 2);
    let mut map = OptionMap::new();
    assert!(map.is_empty());
    assert!(map.remove("a").is_none());
    map.insert(&a);
    map.insert(&b);
    assert!(!map.is_empty());
    assert_eq!(sorted(map.names()), vec!["a".to_string(), "b".to_string()]);
    assert!(std::ptr::eq(map.remove("a").unwrap(), &a));
    assert!(map.remove("a").is_none());
    assert_eq!(map.names(), vec!["b".to_string()]);
    assert!(std::ptr::eq(map.remove("b").unwrap(), &b));
    assert!(map.is_empty());
    assert_eq!(map.names(), Vec::<String>::new());
}

#[test]
fn option_map_keeps_the_later_of_one_name() {
    let first = option("a", 1);
    let other = option("b", 2);
    let second = option("a", 3);
    let mut map = OptionMap::new();
    map.insert(&first);
    map.insert(&other);
    map.insert(&second);
    assert_eq!(sorted(map.names()), vec!["a".to_string(), "b".to_string()]);
    assert!(std::ptr::eq(map.remove("a").unwrap(), &second));
    assert!(map.remove("a").is_none());
}
