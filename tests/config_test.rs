use tracktorial::config::{
    default_location, default_mail, default_rand_range, default_user_id, default_working_days,
};

#[test]
fn defaults_of_a_new_configuration() {
    assert_eq!(default_mail(), "");
    assert_eq!(default_location(), "office");
    assert_eq!(default_user_id(), "");
    assert!(default_working_days().is_empty());
    assert_eq!(default_rand_range(), 30);
}
