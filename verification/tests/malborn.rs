use ctf_contracts::account::AccountId;
use ctf_contracts::context::Context;
use ctf_contracts::fungible_token::TokenError;
use ctf_contracts::fungible_token::ACCOUNT_STORAGE_USAGE;
use ctf_contracts::fungible_token::STORAGE_BYTE_COST;
use ctf_contracts::malborn::BlocklistStatus;
use ctf_contracts::malborn::ContractStatus;
use ctf_contracts::malborn::MalbornClubContract;
use near_sdk::NearToken;

const TOTAL_SUPPLY: u128 = 1_000_000_000;

fn accounts(id: usize) -> AccountId {
    let names = ["alice", "bob", "charlie", "danny", "eugene", "fargo"];
    AccountId::new(names[id].to_string()).unwrap()
}

fn get_context(predecessor_account_id: AccountId, signer_account_id: AccountId) -> Context {
    Context {
        current_account_id: accounts(0),
        predecessor_account_id,
        signer_account_id,
        attached_deposit: 0,
        account_balance: 0,
    }
}

#[test]
fn test_new() {
    let _context = get_context(accounts(1), accounts(2));
    let contract = MalbornClubContract::new(accounts(1), TOTAL_SUPPLY);

    assert_eq!(contract.ft_total_supply().unwrap(), TOTAL_SUPPLY);
    assert_eq!(contract.ft_balance_of(&accounts(1)).unwrap(), TOTAL_SUPPLY);
}

#[test]
fn test_mint() {
    let context = get_context(accounts(2), accounts(2));
    let mut contract = MalbornClubContract::new(accounts(2), TOTAL_SUPPLY);

    let mint_amount = TOTAL_SUPPLY / 2;

    contract.mint_tokens(&context, &accounts(2), mint_amount).unwrap();
    assert_eq!(contract.ft_balance_of(&accounts(2)).unwrap(), TOTAL_SUPPLY + mint_amount);
    assert_eq!(contract.ft_total_supply().unwrap(), TOTAL_SUPPLY + mint_amount);
}

#[test]
fn test_transfer() {
    let mut context = get_context(accounts(2), accounts(2));
    let mut contract = MalbornClubContract::new(accounts(2), TOTAL_SUPPLY);

    // Paying for account registration => storage deposit
    context.predecessor_account_id = accounts(1);
    context.attached_deposit = contract.storage_balance_bounds().min;
    contract.storage_deposit(&context, Some(&accounts(1)), None).unwrap();

    context.predecessor_account_id = accounts(2);
    context.attached_deposit = 1;
    let transfer_amount = TOTAL_SUPPLY / 3;
    contract.ft_transfer(&context, &accounts(1), transfer_amount, None).unwrap();

    assert_eq!(contract.ft_balance_of(&accounts(2)).unwrap(), TOTAL_SUPPLY - transfer_amount);
    assert_eq!(contract.ft_balance_of(&accounts(1)).unwrap(), transfer_amount);
}

#[test]
fn test_pause() {
    let context = get_context(accounts(2), accounts(2));
    let mut contract = MalbornClubContract::new(accounts(2), TOTAL_SUPPLY);

    let symbol = contract.get_symbol().unwrap();
    assert_eq!(symbol, "MAL".to_string());
    contract.pause(&context).unwrap();
    assert_eq!(contract.get_symbol(), Err(TokenError::Paused));
}

#[test]
fn test_blocklist() {
    let context = get_context(accounts(2), accounts(2));
    let mut contract = MalbornClubContract::new(accounts(2), TOTAL_SUPPLY);
    assert_eq!(contract.get_blocklist_status(&accounts(1)).unwrap(), BlocklistStatus::Allowed);

    contract.add_to_blocklist(&context, &accounts(1)).unwrap();
    assert_eq!(contract.get_blocklist_status(&accounts(1)).unwrap(), BlocklistStatus::Banned);

    contract.remove_from_blocklist(&context, &accounts(1)).unwrap();
    assert_eq!(contract.get_blocklist_status(&accounts(1)).unwrap(), BlocklistStatus::Allowed);
}

#[test]
fn test_blocklist2() {
    let mut context = get_context(accounts(2), accounts(2));
    let mut contract = MalbornClubContract::new(accounts(2), TOTAL_SUPPLY);

    // Paying for account registration -- storage deposit
    context.predecessor_account_id = accounts(1);
    context.attached_deposit = contract.storage_balance_bounds().min;
    contract.storage_deposit(&context, Some(&accounts(1)), None).unwrap();

    context.predecessor_account_id = accounts(2);
    context.attached_deposit = 1;
    let transfer_amount = TOTAL_SUPPLY / 3;
    contract.ft_transfer(&context, &accounts(1), transfer_amount, None).unwrap();

    assert_eq!(contract.get_blocklist_status(&accounts(1)).unwrap(), BlocklistStatus::Allowed);

    contract.add_to_blocklist(&context, &accounts(1)).unwrap();
    assert_eq!(contract.get_blocklist_status(&accounts(1)).unwrap(), BlocklistStatus::Banned);

    // A banned signer cannot transfer.
    context.predecessor_account_id = accounts(1);
    context.signer_account_id = accounts(1);
    let r = contract.ft_transfer(&context, &accounts(2), transfer_amount / 2, None);
    assert_eq!(r, Err(TokenError::Banned));
}

#[test]
fn test_resume_bug_contract_stays_paused() {
    // Bug: resume() sets status to Paused instead of Working
    let context = get_context(accounts(2), accounts(2));
    let mut contract = MalbornClubContract::new(accounts(2), TOTAL_SUPPLY);

    // Pause the contract
    contract.pause(&context).unwrap();
    assert_eq!(contract.contract_status(), ContractStatus::Paused);

    // Try to resume - but bug causes it to stay paused
    contract.resume(&context).unwrap();

    // Contract should be working, but bug keeps it paused
    assert_eq!(contract.contract_status(), ContractStatus::Paused);
}

#[test]
fn test_resume_bug_cannot_use_contract() {
    // Demonstrates that after resume(), contract is still unusable
    let context = get_context(accounts(2), accounts(2));
    let mut contract = MalbornClubContract::new(accounts(2), TOTAL_SUPPLY);

    // Pause and "resume" (which actually keeps it paused)
    contract.pause(&context).unwrap();
    contract.resume(&context).unwrap();

    // Contract is still paused, so this fails
    assert_eq!(contract.get_symbol(), Err(TokenError::Paused));
}

#[test]
fn test_mint_tokens_bug_unregistered_user() {
    // Bug: mint_tokens() increases total_supply but doesn't add tokens to unregistered users
    let context = get_context(accounts(2), accounts(2));
    let mut contract = MalbornClubContract::new(accounts(2), TOTAL_SUPPLY);

    let mint_amount = 100_000_000;
    let unregistered_user = accounts(3);

    // Get initial total supply
    let initial_supply = contract.ft_total_supply().unwrap();

    // Try to mint to unregistered user
    let new_supply = contract.mint_tokens(&context, &unregistered_user, mint_amount).unwrap();

    // Total supply increased
    assert_eq!(new_supply, initial_supply + mint_amount);
    assert_eq!(contract.ft_total_supply().unwrap(), initial_supply + mint_amount);

    // But user has no balance (not registered) - tokens are lost
    let balance = contract.ft_balance_of(&unregistered_user).unwrap();
    assert_eq!(balance, 0);
}

#[test]
fn test_mint_tokens_bug_token_loss() {
    // The bug: total_supply increases but user balance is 0 (tokens are lost)
    let context = get_context(accounts(2), accounts(2));
    let mut contract = MalbornClubContract::new(accounts(2), TOTAL_SUPPLY);

    let mint_amount = 100_000_000;
    let unregistered_user = accounts(3);

    contract.mint_tokens(&context, &unregistered_user, mint_amount).unwrap();

    let balance = contract.ft_balance_of(&unregistered_user).unwrap();
    assert_eq!(balance, 0);

    assert_eq!(contract.ft_total_supply().unwrap(), TOTAL_SUPPLY + mint_amount);
}

#[test]
fn test_metadata_consumption_bug() {
    // Bug: get_symbol/get_name/get_decimals consume metadata when they read it
    let mut contract = MalbornClubContract::new(accounts(2), TOTAL_SUPPLY);

    // First call works (consumes metadata)
    let symbol = contract.get_symbol().unwrap();
    assert_eq!(symbol, "MAL".to_string());

    // Metadata is now consumed, so ft_metadata() fails
    assert!(matches!(contract.ft_metadata(), Err(TokenError::MetadataUnavailable)));
}

#[test]
fn test_metadata_consumption_bug_multiple_functions() {
    // Demonstrates that any metadata function call consumes it
    let mut contract = MalbornClubContract::new(accounts(2), TOTAL_SUPPLY);

    // Call get_name - consumes metadata
    let name = contract.get_name().unwrap();
    assert_eq!(name, "Malborn Token".to_string());

    // Now ft_metadata() fails because metadata was consumed
    assert!(matches!(contract.ft_metadata(), Err(TokenError::MetadataUnavailable)));
}

#[test]
fn test_metadata_consumption_bug_ft_metadata() {
    // Demonstrates that ft_metadata() also fails after metadata is consumed
    let mut contract = MalbornClubContract::new(accounts(2), TOTAL_SUPPLY);

    // Consume metadata with get_decimals
    let decimals = contract.get_decimals().unwrap();
    assert_eq!(decimals, 10);

    assert!(matches!(contract.ft_metadata(), Err(TokenError::MetadataUnavailable)));
}

#[test]
fn test_registration_fee_denominator_zero_division() {
    // Bug: Owner can set registration_fee_denominator to 0, which breaks
    // register_for_event with a division error.
    let context = get_context(accounts(2), accounts(2));
    let mut contract = MalbornClubContract::new(accounts(2), TOTAL_SUPPLY);

    // Set associated contract
    contract.set_associated_contract(&context, accounts(3)).unwrap();

    // Owner sets denominator to 0
    contract.set_registration_fee_denominator(&context, 0).unwrap();

    // Register for event - this aborts with the division error
    assert_eq!(contract.register_for_event(&context, 1).unwrap_err(), TokenError::ZeroDenominator);
}

#[test]
fn test_register_for_event_burns_tokens_before_external_call() {
    // Bug: Tokens are burned BEFORE the external call is made. If that call
    // fails, the tokens are gone anyway.
    let mut context = get_context(accounts(2), accounts(2));
    let mut contract = MalbornClubContract::new(accounts(2), TOTAL_SUPPLY);

    // Register user (already registered as the owner: the deposit comes back)
    context.predecessor_account_id = accounts(2);
    context.attached_deposit = contract.storage_balance_bounds().min;
    contract.storage_deposit(&context, None, None).unwrap();

    // Give user some tokens
    context.predecessor_account_id = accounts(2);
    context.signer_account_id = accounts(2);
    context.attached_deposit = 0;
    contract.mint_tokens(&context, &accounts(2), 1_000_000_000).unwrap();

    // Check balances before
    let balance_before = contract.ft_balance_of(&accounts(2)).unwrap();
    let supply_before = contract.ft_total_supply().unwrap();

    // Set associated contract to an account that is not set up properly, so
    // the external call would fail.
    contract.set_associated_contract(&context, accounts(3)).unwrap();

    // Calculate burn amount
    let burn_amount = supply_before / 10000; // Default denominator is 10000

    // Try to register for a non-existent event
    contract.register_for_event(&context, 999).unwrap(); // Non-existent event

    // Tokens were burned even though registration will fail
    let balance_after = contract.ft_balance_of(&accounts(2)).unwrap();
    let supply_after = contract.ft_total_supply().unwrap();

    assert_eq!(balance_after, balance_before - burn_amount);
    assert_eq!(supply_after, supply_before - burn_amount);
}

#[test]
fn test_ft_total_supply_breaks_when_paused() {
    // Bug: ft_total_supply() aborts when paused, breaking the FT standard
    let context = get_context(accounts(2), accounts(2));
    let mut contract = MalbornClubContract::new(accounts(2), TOTAL_SUPPLY);

    contract.pause(&context).unwrap();

    assert_eq!(contract.ft_total_supply(), Err(TokenError::Paused));
}

#[test]
fn test_ft_balance_of_breaks_when_paused() {
    // Bug: ft_balance_of() aborts when paused, breaking the FT standard
    let context = get_context(accounts(2), accounts(2));
    let mut contract = MalbornClubContract::new(accounts(2), TOTAL_SUPPLY);

    contract.pause(&context).unwrap();

    assert_eq!(contract.ft_balance_of(&accounts(2)), Err(TokenError::Paused));
}

#[test]
fn test_get_blocklist_status_breaks_when_paused() {
    // Bug: get_blocklist_status() aborts when paused, a denial of service
    let context = get_context(accounts(2), accounts(2));
    let mut contract = MalbornClubContract::new(accounts(2), TOTAL_SUPPLY);

    contract.pause(&context).unwrap();

    assert_eq!(contract.get_blocklist_status(&accounts(1)), Err(TokenError::Paused));
}

#[test]
fn test_set_associated_contract_no_validation() {
    // Bug: set_associated_contract() doesn't validate the account: the
    // contract's own account makes a circular dependency.
    let context = get_context(accounts(2), accounts(2));
    let mut contract = MalbornClubContract::new(accounts(2), TOTAL_SUPPLY);

    let current_account = context.current_account_id.clone();
    contract.set_associated_contract(&context, current_account.clone()).unwrap();

    // Verify it was set (even though it's invalid)
    let associated = contract.associated_contract_account_id.clone();
    assert_eq!(associated, Some(current_account));
}

#[test]
fn test_set_associated_contract_invalid_account() {
    // Bug: set_associated_contract() doesn't validate that the account exists
    let context = get_context(accounts(2), accounts(2));
    let mut contract = MalbornClubContract::new(accounts(2), TOTAL_SUPPLY);

    // A well-formed name nothing answers to
    let invalid_account = AccountId::new("nonexistent-contract.near".to_string()).unwrap();
    let invalid_account_clone = invalid_account.clone();
    contract.set_associated_contract(&context, invalid_account).unwrap();

    let associated = contract.associated_contract_account_id.clone();
    assert_eq!(associated, Some(invalid_account_clone));
}

#[test]
fn mint_requires_the_owner_and_a_working_contract() {
    let mut context = get_context(accounts(2), accounts(2));
    let mut contract = MalbornClubContract::new(accounts(2), TOTAL_SUPPLY);

    context.signer_account_id = accounts(3);
    assert_eq!(contract.mint_tokens(&context, &accounts(2), 5), Err(TokenError::NotOwner));

    context.signer_account_id = accounts(2);
    contract.pause(&context).unwrap();
    assert_eq!(contract.mint_tokens(&context, &accounts(2), 5), Err(TokenError::Paused));
}

#[test]
fn mint_overflow_is_rejected() {
    let context = get_context(accounts(2), accounts(2));
    let mut contract = MalbornClubContract::new(accounts(2), TOTAL_SUPPLY);
    assert_eq!(
        contract.mint_tokens(&context, &accounts(2), u128::MAX),
        Err(TokenError::TotalSupplyOverflow)
    );
    assert_eq!(contract.ft_total_supply().unwrap(), TOTAL_SUPPLY);
}

#[test]
fn burn_checks_supply_registration_and_balance() {
    let context = get_context(accounts(2), accounts(2));
    let mut contract = MalbornClubContract::new(accounts(2), TOTAL_SUPPLY);

    assert_eq!(
        contract.burn_tokens(&context, &accounts(2), TOTAL_SUPPLY + 1),
        Err(TokenError::InsufficientSupply)
    );
    assert_eq!(
        contract.burn_tokens(&context, &accounts(3), 1),
        Err(TokenError::NotRegistered)
    );
    contract.burn_tokens(&context, &accounts(2), 400).unwrap();
    assert_eq!(contract.ft_balance_of(&accounts(2)).unwrap(), TOTAL_SUPPLY - 400);
    assert_eq!(contract.ft_total_supply().unwrap(), TOTAL_SUPPLY - 400);
}

#[test]
fn transfer_requires_one_yoctotoken() {
    let mut context = get_context(accounts(2), accounts(2));
    let mut contract = MalbornClubContract::new(accounts(2), TOTAL_SUPPLY);

    context.predecessor_account_id = accounts(1);
    context.attached_deposit = contract.storage_balance_bounds().min;
    contract.storage_deposit(&context, Some(&accounts(1)), None).unwrap();

    context.predecessor_account_id = accounts(2);
    context.attached_deposit = 0;
    assert_eq!(
        contract.ft_transfer(&context, &accounts(1), 5, None),
        Err(TokenError::OneYoctoRequired)
    );
}

#[test]
fn transfer_checks_the_signer_but_moves_the_predecessor_tokens() {
    // The guard looks at the signer's balance; the tokens move from the
    // predecessor.  A poor predecessor behind a rich signer still fails, but
    // only inside the transfer itself.
    let mut context = get_context(accounts(2), accounts(2));
    let mut contract = MalbornClubContract::new(accounts(2), TOTAL_SUPPLY);

    context.predecessor_account_id = accounts(1);
    context.attached_deposit = contract.storage_balance_bounds().min;
    contract.storage_deposit(&context, Some(&accounts(1)), None).unwrap();

    // Signer is the rich owner, predecessor the empty account 1.
    context.predecessor_account_id = accounts(1);
    context.signer_account_id = accounts(2);
    context.attached_deposit = 1;
    assert_eq!(
        contract.ft_transfer(&context, &accounts(2), 5, None),
        Err(TokenError::NotEnoughBalance)
    );

    // Fund account 1, and the same call moves account 1's tokens even though
    // account 2 signed.
    context.predecessor_account_id = accounts(2);
    context.signer_account_id = accounts(2);
    contract.ft_transfer(&context, &accounts(1), 100, None).unwrap();
    context.predecessor_account_id = accounts(1);
    contract.ft_transfer(&context, &accounts(2), 5, None).unwrap();
    assert_eq!(contract.ft_balance_of(&accounts(1)).unwrap(), 95);
}

#[test]
fn transfer_call_hands_back_the_receiver_notification() {
    let mut context = get_context(accounts(2), accounts(2));
    let mut contract = MalbornClubContract::new(accounts(2), TOTAL_SUPPLY);

    context.predecessor_account_id = accounts(1);
    context.attached_deposit = contract.storage_balance_bounds().min;
    contract.storage_deposit(&context, Some(&accounts(1)), None).unwrap();

    context.predecessor_account_id = accounts(2);
    context.attached_deposit = 1;
    let call = contract
        .ft_transfer_call(&context, &accounts(1), 40, None, "hello".to_string())
        .unwrap();
    assert_eq!(call.sender, accounts(2));
    assert_eq!(call.receiver, accounts(1));
    assert_eq!(call.amount, 40);
    assert_eq!(call.msg, "hello".to_string());
    assert_eq!(contract.ft_balance_of(&accounts(1)).unwrap(), 40);
}

#[test]
fn resolve_transfer_refunds_what_the_receiver_did_not_use() {
    let mut context = get_context(accounts(2), accounts(2));
    let mut contract = MalbornClubContract::new(accounts(2), TOTAL_SUPPLY);

    context.predecessor_account_id = accounts(1);
    context.attached_deposit = contract.storage_balance_bounds().min;
    contract.storage_deposit(&context, Some(&accounts(1)), None).unwrap();

    context.predecessor_account_id = accounts(2);
    context.attached_deposit = 1;
    contract.ft_transfer_call(&context, &accounts(1), 40, None, "hi".to_string()).unwrap();

    // Only the contract account itself may resolve.
    context.predecessor_account_id = accounts(1);
    assert_eq!(
        contract.ft_resolve_transfer(&context, &accounts(2), &accounts(1), 40, Some(15)),
        Err(TokenError::PrivateMethod)
    );

    // The receiver reports 15 unused: they go back to the sender.
    context.predecessor_account_id = accounts(0);
    let used = contract
        .ft_resolve_transfer(&context, &accounts(2), &accounts(1), 40, Some(15))
        .unwrap();
    assert_eq!(used, 25);
    assert_eq!(contract.ft_balance_of(&accounts(1)).unwrap(), 25);
    assert_eq!(contract.ft_balance_of(&accounts(2)).unwrap(), TOTAL_SUPPLY - 25);

    // A failed call refunds everything that is still there.
    context.predecessor_account_id = accounts(2);
    context.attached_deposit = 1;
    contract.ft_transfer_call(&context, &accounts(1), 10, None, "hi".to_string()).unwrap();
    context.predecessor_account_id = accounts(0);
    let used = contract
        .ft_resolve_transfer(&context, &accounts(2), &accounts(1), 10, None)
        .unwrap();
    assert_eq!(used, 0);
    assert_eq!(contract.ft_balance_of(&accounts(1)).unwrap(), 25);
}

#[test]
fn storage_deposit_registers_and_refunds_the_excess() {
    let mut context = get_context(accounts(2), accounts(2));
    let mut contract = MalbornClubContract::new(accounts(2), TOTAL_SUPPLY);
    let min = contract.storage_balance_bounds().min;

    // Too small a deposit is rejected.
    context.predecessor_account_id = accounts(1);
    context.attached_deposit = min - 1;
    assert_eq!(
        contract.storage_deposit(&context, Some(&accounts(1)), None),
        Err(TokenError::InsufficientStorageDeposit)
    );

    // A larger one registers and hands the rest back.
    context.attached_deposit = min + 30;
    let (balance, refund) = contract.storage_deposit(&context, Some(&accounts(1)), None).unwrap();
    assert_eq!(balance.total, min);
    assert_eq!(balance.available, 0);
    let refund = refund.unwrap();
    assert_eq!(refund.receiver, accounts(1));
    assert_eq!(refund.amount, 30);

    // Registering again refunds the whole deposit.
    context.attached_deposit = min;
    let (_, refund) = contract.storage_deposit(&context, Some(&accounts(1)), None).unwrap();
    assert_eq!(refund.unwrap().amount, min);
}

#[test]
fn storage_withdraw_allows_only_zero() {
    let mut context = get_context(accounts(2), accounts(2));
    let mut contract = MalbornClubContract::new(accounts(2), TOTAL_SUPPLY);

    assert_eq!(contract.storage_withdraw(&context, None), Err(TokenError::OneYoctoRequired));

    context.attached_deposit = 1;
    context.predecessor_account_id = accounts(3);
    assert_eq!(contract.storage_withdraw(&context, None), Err(TokenError::NotRegistered));

    context.predecessor_account_id = accounts(2);
    assert_eq!(
        contract.storage_withdraw(&context, Some(5)),
        Err(TokenError::StorageAmountTooHigh)
    );
    let balance = contract.storage_withdraw(&context, Some(0)).unwrap();
    assert_eq!(balance.total, contract.storage_balance_bounds().min);
}

#[test]
fn storage_unregister_burns_the_balance_and_refunds_storage() {
    let mut context = get_context(accounts(2), accounts(2));
    let mut contract = MalbornClubContract::new(accounts(2), TOTAL_SUPPLY);
    let min = contract.storage_balance_bounds().min;

    // Unregistering with a balance needs force.
    context.attached_deposit = 1;
    assert_eq!(
        contract.storage_unregister(&context, None),
        Err(TokenError::UnregisterWithBalance)
    );

    let (closed, refund) = contract.storage_unregister(&context, Some(true)).unwrap();
    assert!(closed);
    let refund = refund.unwrap();
    assert_eq!(refund.receiver, accounts(2));
    assert_eq!(refund.amount, min + 1);
    // The whole balance was burned with the account.
    assert_eq!(contract.ft_total_supply().unwrap(), 0);
    assert_eq!(contract.storage_balance_of(&accounts(2)), None);

    // An unregistered caller gets a plain `false`.
    let (closed, refund) = contract.storage_unregister(&context, None).unwrap();
    assert!(!closed);
    assert!(refund.is_none());
}

#[test]
fn storage_bounds_price_one_account_entry() {
    let contract = MalbornClubContract::new(accounts(2), TOTAL_SUPPLY);
    let bounds = contract.storage_balance_bounds();
    assert_eq!(bounds.min, STORAGE_BYTE_COST * ACCOUNT_STORAGE_USAGE as u128);
    assert_eq!(bounds.max, Some(bounds.min));
    // The same number, written as the host's storage price for 125 bytes.
    assert_eq!(
        bounds.min,
        NearToken::from_yoctonear(10u128.pow(19)).as_yoctonear() * 125
    );
}

#[test]
fn metadata_matches_the_fungible_token_standard() {
    let contract = MalbornClubContract::new(accounts(2), TOTAL_SUPPLY);
    let metadata = contract.ft_metadata().unwrap();
    assert_eq!(
        metadata.standard,
        near_contract_standards::fungible_token::metadata::FT_METADATA_SPEC.to_string()
    );
    assert_eq!(metadata.name, "Malborn Token".to_string());
    assert_eq!(metadata.symbol, "MAL".to_string());
    assert_eq!(metadata.decimals, 10);
    assert!(metadata.icon.is_none());
    assert!(metadata.reference.is_none());
    assert!(metadata.reference_hash.is_none());
}

#[test]
fn upgrade_renames_the_token_and_keeps_the_rest() {
    let context = get_context(accounts(2), accounts(2));
    let mut contract = MalbornClubContract::new(accounts(2), TOTAL_SUPPLY);

    contract
        .upgrade_token_name_symbol(&context, "Other Token".to_string(), "OTH".to_string())
        .unwrap();
    let metadata = contract.ft_metadata().unwrap();
    assert_eq!(metadata.name, "Other Token".to_string());
    assert_eq!(metadata.symbol, "OTH".to_string());
    assert_eq!(metadata.decimals, 10);

    // Once the metadata is consumed, upgrading silently does nothing.
    contract.get_symbol().unwrap();
    contract
        .upgrade_token_name_symbol(&context, "Third".to_string(), "THR".to_string())
        .unwrap();
    assert!(matches!(contract.ft_metadata(), Err(TokenError::MetadataUnavailable)));
}

#[test]
fn register_for_event_checks_its_preconditions_in_order() {
    let mut context = get_context(accounts(2), accounts(2));
    let mut contract = MalbornClubContract::new(accounts(2), TOTAL_SUPPLY);

    assert_eq!(
        contract.register_for_event(&context, 1),
        Err(TokenError::AssociatedContractNotSet)
    );

    contract.set_associated_contract(&context, accounts(3)).unwrap();
    contract.add_to_blocklist(&context, &accounts(4)).unwrap();

    context.signer_account_id = accounts(4);
    assert_eq!(contract.register_for_event(&context, 1), Err(TokenError::Banned));

    // An unregistered signer cannot pay the fee.
    context.signer_account_id = accounts(5);
    assert_eq!(contract.register_for_event(&context, 1), Err(TokenError::NotRegistered));

    // The owner can register; the returned call names the associated
    // contract, the event, and the signer.
    context.signer_account_id = accounts(2);
    let call = contract.register_for_event(&context, 7).unwrap();
    assert_eq!(call.contract_account, accounts(3));
    assert_eq!(call.event_id, 7);
    assert_eq!(call.account, accounts(2));
    assert_eq!(call.gas, ctf_contracts::malborn::GAS_FOR_REGISTER);

    // While paused, nothing registers.
    contract.pause(&context).unwrap();
    assert_eq!(contract.register_for_event(&context, 1), Err(TokenError::Paused));
}

#[test]
fn contract_status_reads_as_text() {
    let context = get_context(accounts(2), accounts(2));
    let mut contract = MalbornClubContract::new(accounts(2), TOTAL_SUPPLY);
    assert_eq!(contract.contract_status().to_text(), "working".to_string());
    contract.pause(&context).unwrap();
    assert_eq!(contract.contract_status().to_text(), "paused".to_string());
}
