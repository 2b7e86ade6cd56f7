use verbose_flags::{
    debug_line, is_debug, is_verbose, set_debug, set_verbose, try_set_debug, try_set_verbose,
    verbose_line, FlagStore, InitError,
};

#[test]
fn test_debug() {
    let mut store = FlagStore::new();
    assert!(!is_debug(&store));
    set_debug(&mut store, true);
    assert!(is_debug(&store));
    let plain = debug_line(&store, "This is a debug message.", &Vec::new());
    assert_eq!(plain, Some(String::from("This is a debug message.")));
    let with_value = debug_line(
        &store,
        "This is a debug message with a value: {}",
        &vec![String::from("42")],
    );
    assert_eq!(
        with_value,
        Some(String::from("This is a debug message with a value: 42"))
    );
}

#[test]
fn test_verbose() {
    let mut store = FlagStore::new();
    assert!(!is_verbose(&store));
    set_verbose(&mut store, true);
    assert!(is_verbose(&store));
    let plain = verbose_line(&store, "This is a verbose message.", &Vec::new());
    assert_eq!(plain, Some(String::from("This is a verbose message.")));
    let with_value = verbose_line(
        &store,
        "This is a verbose message with a value: {}",
        &vec![String::from("42")],
    );
    assert_eq!(
        with_value,
        Some(String::from("This is a verbose message with a value: 42"))
    );
}

#[test]
fn fresh_store_reads_false() {
    let store = FlagStore::new();
    assert!(!is_debug(&store));
    assert!(!is_verbose(&store));
}

#[test]
fn set_debug_reads_back_either_value() {
    let mut on = FlagStore::new();
    set_debug(&mut on, true);
    assert!(is_debug(&on));

    let mut off = FlagStore::new();
    set_debug(&mut off, false);
    assert!(!is_debug(&off));
}

#[test]
fn set_verbose_reads_back_either_value() {
    let mut on = FlagStore::new();
    set_verbose(&mut on, true);
    assert!(is_verbose(&on));

    let mut off = FlagStore::new();
    set_verbose(&mut off, false);
    assert!(!is_verbose(&off));
}

#[test]
fn double_init_debug_rejected_and_value_kept() {
    let mut store = FlagStore::new();
    assert_eq!(try_set_debug(&mut store, true), Ok(()));
    assert_eq!(
        try_set_debug(&mut store, false),
        Err(InitError::DoubleInitialization)
    );
    assert!(is_debug(&store));
}

#[test]
fn double_init_verbose_rejected_and_value_kept() {
    let mut store = FlagStore::new();
    assert_eq!(try_set_verbose(&mut store, false), Ok(()));
    assert_eq!(
        try_set_verbose(&mut store, true),
        Err(InitError::DoubleInitialization)
    );
    assert!(!is_verbose(&store));
}

#[test]
fn second_init_after_set_is_rejected() {
    let mut store = FlagStore::new();
    set_debug(&mut store, false);
    assert_eq!(
        try_set_debug(&mut store, true),
        Err(InitError::DoubleInitialization)
    );
    assert!(!is_debug(&store));
}

#[test]
fn flags_are_independent() {
    let mut store = FlagStore::new();
    set_debug(&mut store, true);
    assert!(!is_verbose(&store));
    set_verbose(&mut store, false);
    assert!(is_debug(&store));
    assert!(!is_verbose(&store));

    let mut other = FlagStore::new();
    set_verbose(&mut other, true);
    assert!(!is_debug(&other));
    set_debug(&mut other, false);
    assert!(is_verbose(&other));
    assert!(!is_debug(&other));
}
