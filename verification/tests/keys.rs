use menyoki::error::Error;
use menyoki::keys::ActionKeys;

#[test]
fn test_action_keys() {
    let keys = "LControl-Q/W";
    let action_keys = ActionKeys::parse(keys).unwrap();
    assert_eq!(keys, action_keys.to_text());
    assert_eq!("LControl", action_keys.main_key);
    assert_eq!(
        vec![String::from("Q"), String::from("W")],
        action_keys.opt_keys
    );
    assert!(!action_keys.check(vec![String::from("RAlt"), String::from("X")]));
    assert!(!action_keys.check(vec![String::from("LControl"), String::from("X")]));
    assert!(!action_keys.check(vec![String::from("LControl")]));
    assert!(!action_keys.check(vec![String::from("W")]));
    assert!(action_keys.check(vec![String::from("LControl"), String::from("Q")]));
    assert!(action_keys.check(vec![String::from("LControl"), String::from("W")]));
}

#[test]
fn test_action_keys_unknown_name() {
    assert!(matches!(
        ActionKeys::parse("NotAKey-Q/W"),
        Err(Error::InvalidKey(_))
    ));
    assert!(matches!(
        ActionKeys::parse("LControl-Q/NotAKey"),
        Err(Error::InvalidKey(_))
    ));
}

#[test]
fn test_action_keys_default_opts() {
    let action_keys = ActionKeys::parse("LAlt").unwrap();
    assert_eq!("LAlt", action_keys.main_key);
    assert_eq!(
        vec![String::from("S"), String::from("Enter")],
        action_keys.opt_keys
    );
    assert_eq!("LAlt-S/Enter", action_keys.to_text());
    let default_keys = ActionKeys::default();
    assert_eq!("LAlt-S/Enter", default_keys.to_text());
}
