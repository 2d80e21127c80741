use visualizer::inventory::Inventory;
use visualizer::tile::Content;

#[test]
fn a_new_inventory_is_empty() {
    let inventory = Inventory::new();
    assert_eq!(inventory.len(), 0);
    assert_eq!(inventory.entry(0), None);
    assert_eq!(inventory.get(Content::Rock), None);
}

#[test]
fn kinds_keep_the_order_of_their_first_insert() {
    let mut inventory = Inventory::new();
    assert_eq!(inventory.insert(Content::Rock, 2), None);
    assert_eq!(inventory.insert(Content::Tree, 0), None);
    assert_eq!(inventory.insert(Content::Coin, 5), None);
    assert_eq!(inventory.len(), 3);
    assert_eq!(inventory.entry(0), Some((Content::Rock, 2)));
    assert_eq!(inventory.entry(1), Some((Content::Tree, 0)));
    assert_eq!(inventory.entry(2), Some((Content::Coin, 5)));
    assert_eq!(inventory.entry(3), None);
    assert_eq!(inventory.get(Content::Rock), Some(2));
    assert_eq!(inventory.get(Content::Tree), Some(0));
    assert_eq!(inventory.get(Content::Coin), Some(5));
    assert_eq!(inventory.get(Content::Fish), None);
}

#[test]
fn a_second_insert_replaces_the_quantity_in_place() {
    let mut inventory = Inventory::new();
    inventory.insert(Content::Rock, 2);
    inventory.insert(Content::Tree, 0);
    inventory.insert(Content::Coin, 5);
    assert_eq!(inventory.insert(Content::Tree, 9), Some(0));
    assert_eq!(inventory.insert(Content::Rock, 0), Some(2));
    assert_eq!(inventory.len(), 3);
    assert_eq!(inventory.entry(0), Some((Content::Rock, 0)));
    assert_eq!(inventory.entry(1), Some((Content::Tree, 9)));
    assert_eq!(inventory.entry(2), Some((Content::Coin, 5)));
    assert_eq!(inventory.get(Content::Tree), Some(9));
}

#[test]
fn there_are_at_most_sixteen_entries() {
    let kinds = [
        Content::Rock,
        Content::Tree,
        Content::Garbage,
        Content::Fire,
        Content::Coin,
        Content::Bin,
        Content::Crate,
        Content::Bank,
        Content::Water,
        Content::Market,
        Content::Fish,
        Content::Building,
        Content::Bush,
        Content::JollyBlock,
        Content::Scarecrow,
        Content::Empty,
    ];
    let mut inventory = Inventory::new();
    for round in 0..3 {
        for (n, kind) in kinds.iter().enumerate() {
            let previous = inventory.insert(*kind, 10 * round + n);
            if round == 0 {
                assert_eq!(previous, None);
            } else {
                assert_eq!(previous, Some(10 * (round - 1) + n));
            }
        }
        assert_eq!(inventory.len(), 16);
    }
    for (n, kind) in kinds.iter().enumerate() {
        assert_eq!(inventory.entry(n), Some((*kind, 20 + n)));
        assert_eq!(inventory.get(*kind), Some(20 + n));
    }
}
