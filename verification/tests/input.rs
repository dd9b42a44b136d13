use bouncy::input::{impulses, is_key_down, Impulses, Key};

#[test]
fn no_key_gives_no_push() {
    let none = Impulses { left: false, right: false, jump: false };
    assert_eq!(impulses(&[], true), none);
    assert_eq!(impulses(&[], false), none);
    assert_eq!(impulses(&[Key::Escape, Key::Escape], true), none);
}

#[test]
fn a_and_d_push_sideways() {
    assert_eq!(
        impulses(&[Key::A], false),
        Impulses { left: true, right: false, jump: false }
    );
    assert_eq!(
        impulses(&[Key::Escape, Key::D], false),
        Impulses { left: false, right: true, jump: false }
    );
    assert_eq!(
        impulses(&[Key::D, Key::A], true),
        Impulses { left: true, right: true, jump: false }
    );
}

#[test]
fn w_pushes_up_only_where_the_ball_can_jump() {
    assert_eq!(
        impulses(&[Key::W], true),
        Impulses { left: false, right: false, jump: true }
    );
    assert_eq!(
        impulses(&[Key::W], false),
        Impulses { left: false, right: false, jump: false }
    );
    assert_eq!(
        impulses(&[Key::A, Key::W, Key::D], true),
        Impulses { left: true, right: true, jump: true }
    );
}

#[test]
fn repeated_key_pushes_once() {
    assert_eq!(
        impulses(&[Key::A, Key::A, Key::A], false),
        Impulses { left: true, right: false, jump: false }
    );
}

#[test]
fn key_is_found_wherever_it_stands() {
    let keys = [Key::Escape, Key::W, Key::D];
    assert!(is_key_down(&keys, Key::Escape));
    assert!(is_key_down(&keys, Key::W));
    assert!(is_key_down(&keys, Key::D));
    assert!(!is_key_down(&keys, Key::A));
    assert!(!is_key_down(&[Key::A, Key::D], Key::W));
    assert!(!is_key_down(&[], Key::A));
}

#[test]
fn every_key_is_told_from_the_others() {
    let keys = [Key::Space, Key::Left, Key::NumPad7, Key::F12, Key::Unknown];
    assert!(is_key_down(&keys, Key::Space));
    assert!(is_key_down(&keys, Key::Left));
    assert!(is_key_down(&keys, Key::NumPad7));
    assert!(is_key_down(&keys, Key::F12));
    assert!(is_key_down(&keys, Key::Unknown));
    assert!(!is_key_down(&keys, Key::Right));
    assert!(!is_key_down(&keys, Key::Key7));
    assert!(!is_key_down(&keys, Key::F1));
    assert!(!is_key_down(&keys, Key::Escape));
    assert_eq!(
        impulses(&keys, true),
        Impulses { left: false, right: false, jump: false }
    );
}
