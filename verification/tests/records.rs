use cli_utils::config::{LogLevel, LogOutput, Logging};
use cli_utils::person::Person;
use cli_utils::vectors::{append_vectors, insert_at_ends, own_integer, own_vec};

#[test]
fn default_logging_is_disabled_info_to_stdout() {
    let config = Logging::new();
    assert_eq!(config.enabled, false);
    assert!(matches!(config.level, LogLevel::Info));
    assert!(matches!(config.destination, LogOutput::Stdout));
}

#[test]
fn logging_can_be_reconfigured() {
    let mut config = Logging::new();
    config.enabled = true;
    config.level = LogLevel::Debug;
    config.destination = LogOutput::File(String::from("app.log"));
    assert!(config.enabled);
    assert!(matches!(config.destination, LogOutput::File(ref name) if name == "app.log"));
}

#[test]
fn own_vec_borrows_and_builds_a_fresh_vector() {
    let my_vec = vec![1, 2, 3, 4, 5];
    let new_vector = own_vec(&my_vec);
    assert_eq!(new_vector, vec![10]);
    // The borrowed vector is still usable afterwards.
    assert_eq!(my_vec.len(), 5);
    own_integer(7);
}

#[test]
fn insert_at_ends_puts_the_value_at_both_ends() {
    let mut v = vec![1, 2, 3];
    insert_at_ends(&mut v, 99);
    assert_eq!(v, vec![99, 1, 2, 3, 99]);
}

#[test]
fn append_vectors_moves_and_empties_the_source() {
    let mut v = vec![1, 2, 3];
    let mut extra = vec![4, 5, 6];
    append_vectors(&mut v, &mut extra);
    assert_eq!(v, vec![1, 2, 3, 4, 5, 6]);
    assert!(extra.is_empty());
}

#[test]
fn full_name_joins_first_and_last() {
    let person = Person {
        first_name: "John".to_string(),
        last_name: "Doe".to_string(),
        age: 25,
        email: "John@email.com".to_string(),
        phone_number: 745755337,
    };
    assert_eq!(person.full_name(), "John Doe");
    assert_eq!(person.age, 25);
}
