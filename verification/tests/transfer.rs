use market::{
    add_item, buy_single_item, get_items, get_single_item, init, restore, transfer_item,
    AccountAddress, Address, Amount, ContractAddress, Error, Item, ItemInput, State,
};

fn account(tag: u8) -> Address {
    Address::Account(AccountAddress([tag; 32]))
}

fn contract(index: u64, subindex: u64) -> Address {
    Address::Contract(ContractAddress { index, subindex })
}

fn ledger_with_owners(owners: &[Address]) -> State {
    let mut state = init();
    let input = ItemInput {
        name: "Sword".to_string(),
        price: Amount { micro_ccd: 10 },
        total_supply: 10,
        image_url: "http://x/y.png".to_string(),
    };
    assert_eq!(add_item(&mut state, account(0), input), Ok(0));
    for owner in owners {
        assert_eq!(buy_single_item(&mut state, *owner, Amount { micro_ccd: 10 }, 0), Ok(true));
    }
    state
}

fn owners_of(state: &State) -> Vec<Address> {
    get_single_item(state, 0).unwrap().owners
}

#[test]
fn transfer_item_by_the_owner_moves_the_unit() {
    let (a, b) = (account(1), account(2));
    let mut state = ledger_with_owners(&[a]);
    assert_eq!(transfer_item(&mut state, a, 0, b), Ok(true));
    assert_eq!(owners_of(&state), vec![b]);
    assert_eq!(get_single_item(&state, 0).unwrap().sold, 1);
}

#[test]
fn transfer_item_replaces_the_first_entry_of_the_caller() {
    let (a, b, c) = (account(1), account(2), contract(3, 0));
    let mut state = ledger_with_owners(&[b, a, b, a]);
    assert_eq!(transfer_item(&mut state, a, 0, c), Ok(true));
    assert_eq!(owners_of(&state), vec![b, c, b, a]);
    assert_eq!(transfer_item(&mut state, a, 0, c), Ok(true));
    assert_eq!(owners_of(&state), vec![b, c, b, c]);
    assert_eq!(transfer_item(&mut state, a, 0, c), Err(Error::ItemNotOwnedError));
    assert_eq!(owners_of(&state), vec![b, c, b, c]);
}

#[test]
fn transfer_item_keeps_the_number_of_owners() {
    let (a, b, c) = (account(1), account(2), account(3));
    let mut state = ledger_with_owners(&[a, b, a]);
    let before = get_single_item(&state, 0).unwrap();
    assert_eq!(transfer_item(&mut state, b, 0, c), Ok(true));
    let after = get_single_item(&state, 0).unwrap();
    assert_eq!(after.owners.len(), before.owners.len());
    assert_eq!(after.sold, before.sold);
    assert_eq!(after.owners.iter().filter(|o| **o == b).count(), 0);
    assert_eq!(after.owners.iter().filter(|o| **o == c).count(), 1);
    assert_eq!(after.owners.iter().filter(|o| **o == a).count(), 2);
    assert_eq!(after.name, before.name);
    assert_eq!(after.creator, before.creator);
}

#[test]
fn transfer_item_to_oneself_changes_nothing() {
    let (a, b) = (account(1), account(2));
    let mut state = ledger_with_owners(&[b, a]);
    assert_eq!(transfer_item(&mut state, a, 0, a), Ok(true));
    assert_eq!(owners_of(&state), vec![b, a]);
}

#[test]
fn transfer_item_by_a_stranger_is_rejected_and_changes_nothing() {
    let (a, b, c) = (account(1), account(2), account(3));
    let mut state = ledger_with_owners(&[a, b]);
    let before = get_items(&state);
    assert_eq!(transfer_item(&mut state, c, 0, a), Err(Error::ItemNotOwnedError));
    assert_eq!(get_items(&state), before);
    assert_eq!(owners_of(&state), vec![a, b]);
}

#[test]
fn transfer_item_by_the_creator_who_owns_nothing_is_rejected() {
    let mut state = ledger_with_owners(&[account(1)]);
    let creator = get_single_item(&state, 0).unwrap().creator;
    assert_eq!(transfer_item(&mut state, creator, 0, account(2)), Err(Error::ItemNotOwnedError));
    assert_eq!(owners_of(&state), vec![account(1)]);
}

#[test]
fn transfer_item_of_an_item_nobody_owns_is_rejected() {
    let mut state = ledger_with_owners(&[]);
    assert_eq!(transfer_item(&mut state, account(1), 0, account(2)), Err(Error::ItemNotOwnedError));
    assert!(owners_of(&state).is_empty());
}

#[test]
fn transfer_item_of_an_unknown_item_is_not_found() {
    let mut state = ledger_with_owners(&[account(1)]);
    let before = get_items(&state);
    assert_eq!(transfer_item(&mut state, account(1), 1, account(2)), Err(Error::ItemNotFoundError));
    assert_eq!(get_items(&state), before);
}

#[test]
fn addresses_are_equal_only_when_every_part_is() {
    let mut bytes = [7u8; 32];
    let a = Address::Account(AccountAddress(bytes));
    assert_eq!(a, Address::Account(AccountAddress([7u8; 32])));
    for i in 0..32 {
        bytes[i] = 8;
        assert_ne!(a, Address::Account(AccountAddress(bytes)));
        bytes[i] = 7;
    }
    assert_eq!(contract(1, 2), contract(1, 2));
    assert_ne!(contract(1, 2), contract(2, 1));
    assert_ne!(contract(1, 2), contract(1, 3));
    assert_ne!(contract(0, 0), Address::Account(AccountAddress([0u8; 32])));
}

#[test]
fn transfer_item_tells_accounts_apart_by_every_byte() {
    let mut bytes = [1u8; 32];
    bytes[31] = 2;
    let near = Address::Account(AccountAddress(bytes));
    let mut state = ledger_with_owners(&[account(1)]);
    assert_eq!(transfer_item(&mut state, near, 0, account(9)), Err(Error::ItemNotOwnedError));
    assert_eq!(transfer_item(&mut state, account(1), 0, near), Ok(true));
    assert_eq!(owners_of(&state), vec![near]);
}

#[test]
fn restore_gives_back_the_ledger_that_get_items_read() {
    let mut state = ledger_with_owners(&[account(1), account(2)]);
    let input = ItemInput {
        name: "Shield".to_string(),
        price: Amount { micro_ccd: 0 },
        total_supply: 1,
        image_url: "s".to_string(),
    };
    assert_eq!(add_item(&mut state, contract(4, 4), input), Ok(1));
    let items: Vec<Item> = get_items(&state).into_iter().map(|(_, item)| item).collect();
    let mut copy = restore(&items).unwrap();
    assert_eq!(get_items(&copy), get_items(&state));
    assert_eq!(market::get_item_count(&copy), 2);
    assert_eq!(transfer_item(&mut copy, account(2), 0, account(3)), Ok(true));
    assert_eq!(get_single_item(&copy, 0).unwrap().owners, vec![account(1), account(3)]);
    assert_eq!(get_single_item(&state, 0).unwrap().owners, vec![account(1), account(2)]);
}

#[test]
fn restore_of_nothing_is_the_empty_ledger() {
    let state = restore(&[]).unwrap();
    assert_eq!(market::get_item_count(&state), 0);
    assert!(get_items(&state).is_empty());
}

#[test]
fn restore_refuses_an_item_that_is_not_well_formed() {
    let good = Item {
        name: "Sword".to_string(),
        price: Amount { micro_ccd: 10 },
        total_supply: 2,
        image_url: "i".to_string(),
        sold: 1,
        creator: account(0),
        owners: vec![account(1)],
    };
    assert!(restore(&[good.clone()]).is_some());
    let oversold = Item { sold: 3, owners: vec![account(1); 3], ..good.clone() };
    assert!(restore(&[good.clone(), oversold]).is_none());
    let miscounted = Item { sold: 2, ..good.clone() };
    assert!(restore(&[miscounted]).is_none());
    let nameless = Item { name: String::new(), ..good.clone() };
    assert!(restore(&[nameless]).is_none());
    let imageless = Item { image_url: String::new(), ..good.clone() };
    assert!(restore(&[imageless]).is_none());
    let no_supply = Item { total_supply: 0, sold: 0, owners: vec![], ..good.clone() };
    assert!(restore(&[no_supply]).is_none());
}
