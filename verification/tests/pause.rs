use ctf_contracts::pause::DispatchError;
use ctf_contracts::pause::Origin;
use ctf_contracts::pause::PausePallet;

const ADMIN: u64 = 1;

fn new_test_ext() -> PausePallet {
    PausePallet::new(ADMIN)
}

#[test]
fn root_pause() {
    let mut pallet = new_test_ext();
    assert!(pallet.pause(Origin::Root).is_ok());
}

#[test]
fn pause_origin_unpause() {
    let mut pallet = new_test_ext();
    assert!(pallet.unpause(Origin::Signed(ADMIN)).is_ok());
}

#[test]
fn bad_origin_fails() {
    let mut pallet = new_test_ext();
    assert_eq!(pallet.pause(Origin::Signed(0)), Err(DispatchError::BadOrigin));
}

// Vulnerability Test: toggle() doesn't actually toggle the state
#[test]
fn toggle_bug_does_not_toggle() {
    let mut pallet = new_test_ext();
    // Initially paused should be false
    assert_eq!(pallet.paused(), false);

    // Call toggle - should set to !false = true, but bug sets to false (current state)
    assert!(pallet.toggle(Origin::Root).is_ok());

    // Bug: toggle sets to current state instead of toggled state
    assert_eq!(pallet.paused(), false);

    // Manually set to true to demonstrate the bug
    pallet.set_paused(true);
    assert_eq!(pallet.paused(), true);

    // Call toggle again - should set to !true = false, but bug sets to true
    assert!(pallet.toggle(Origin::Root).is_ok());

    // Bug: toggle sets to current state instead of toggled state
    assert_eq!(pallet.paused(), true);
}

// Vulnerability Test: unpause() doesn't actually unpause
#[test]
fn unpause_bug_does_not_unpause() {
    let mut pallet = new_test_ext();
    // First pause the system
    assert!(pallet.pause(Origin::Root).is_ok());
    assert_eq!(pallet.paused(), true);

    // Call unpause - should set to false, but bug sets to current state (true)
    assert!(pallet.unpause(Origin::Signed(ADMIN)).is_ok());

    // Bug: unpause sets to current state (true) instead of false
    assert_eq!(pallet.paused(), true);
}

#[test]
fn unsigned_origin_fails() {
    let mut pallet = new_test_ext();
    assert_eq!(pallet.toggle(Origin::Unsigned), Err(DispatchError::BadOrigin));
    assert_eq!(pallet.unpause(Origin::Signed(2)), Err(DispatchError::BadOrigin));
    assert_eq!(pallet.paused(), false);
}

#[test]
fn pause_itself_works() {
    let mut pallet = new_test_ext();
    assert!(pallet.pause(Origin::Signed(ADMIN)).is_ok());
    assert_eq!(pallet.paused(), true);
}
