use note_api::password::{authenticated, hash_password, verify_password, MAX_COST, MIN_COST};

#[test]
fn a_hashed_password_is_accepted_against_its_hash() {
    let hash = hash_password("hunter2", 4).unwrap();
    assert!(verify_password("hunter2", &hash));
}

#[test]
fn a_hash_is_not_the_password() {
    let hash = hash_password("hunter2", 4).unwrap();
    assert_ne!(hash, "hunter2");
    assert!(hash.starts_with("$2b$04$"));
    assert_eq!(hash.len(), 60);
}

#[test]
fn two_hashes_of_one_password_differ_and_both_accept_it() {
    let first = hash_password("hunter2", 4).unwrap();
    let second = hash_password("hunter2", 4).unwrap();
    assert_ne!(first, second);
    assert!(verify_password("hunter2", &first));
    assert!(verify_password("hunter2", &second));
}

#[test]
fn another_password_is_not_accepted() {
    let hash = hash_password("hunter2", 4).unwrap();
    assert!(!verify_password("hunter3", &hash));
    assert!(!verify_password("", &hash));
    assert!(!verify_password("Hunter2", &hash));
}

#[test]
fn a_text_that_is_no_hash_accepts_nothing() {
    assert!(!verify_password("hunter2", "hunter2"));
    assert!(!verify_password("hunter2", ""));
    assert!(!verify_password("", ""));
    assert!(!verify_password("hunter2", "$2b$04$tooshort"));
}

#[test]
fn a_known_hash_accepts_its_password() {
    let hash = "$2y$05$bvIG6Nmid91Mu9RcmmWZfO5HJIMCT8riNW0hEp8f6/FuA2/mHZFpe";
    assert!(verify_password("password", hash));
    assert!(!verify_password("passw0rd", hash));
}

#[test]
fn hashing_fails_for_a_cost_out_of_range() {
    assert_eq!(hash_password("hunter2", 3), None);
    assert_eq!(hash_password("hunter2", 32), None);
    assert_eq!(hash_password("hunter2", 0), None);
    assert_eq!(hash_password("hunter2", u32::MAX), None);
}

#[test]
fn the_cost_range_runs_from_four_to_thirty_one() {
    assert_eq!(MIN_COST, 4);
    assert_eq!(MAX_COST, 31);
    assert!(hash_password("p", MIN_COST).is_some());
}

#[test]
fn only_a_match_authenticates() {
    assert!(authenticated(Some(true)));
    assert!(!authenticated(Some(false)));
    assert!(!authenticated(None));
}
