use position_service::position::Position;
use position_service::position::PositionId;
use position_service::store::PositionStore;
use position_service::store::StoreError;

fn place(floor: u32, name: &str) -> Position {
    Position::new(1.5f64.to_bits(), 2.25f64.to_bits(), floor, name, "hall", "short", "long")
}

fn store_of(n: u32) -> PositionStore {
    let mut places = Vec::new();
    for k in 1..=n {
        places.push(place(k, &format!("place {}", k)));
    }
    match PositionStore::new(places) {
        Ok(store) => store,
        Err(e) => panic!("a store of {} records was refused: {:?}", n, e),
    }
}

#[test]
fn position_new_keeps_every_field() {
    let p = Position::new(20.0f64.to_bits(), 70.5f64.to_bits(), 3, "n", "b", "s", "d");
    assert_eq!(f64::from_bits(p.x_bits), 20.0);
    assert_eq!(f64::from_bits(p.y_bits), 70.5);
    assert_eq!(p.floor, 3);
    assert_eq!(p.name, "n");
    assert_eq!(p.building, "b");
    assert_eq!(p.brief, "s");
    assert_eq!(p.detail, "d");
}

#[test]
fn position_clone_is_equal() {
    let p = place(4, "atrium");
    let q = p.clone();
    assert_eq!(p, q);
    assert_eq!(q.name, "atrium");
    assert_eq!(q.floor, 4);
}

#[test]
fn position_id_new_holds_the_id() {
    assert_eq!(PositionId::new(7).id, 7);
    assert_eq!(PositionId::new(0), PositionId { id: 0 });
}

#[test]
fn empty_store_is_refused() {
    assert_eq!(PositionStore::new(Vec::new()).err(), Some(StoreError::Empty));
}

#[test]
fn one_record_is_enough() {
    let store = store_of(1);
    assert_eq!(store.size(), 1);
    for id in [0u32, 1, 2, 3, 1000, u32::MAX] {
        assert_eq!(store.get_by_id(id).floor, 1);
    }
}

#[test]
fn new_keeps_order_and_size() {
    let store = store_of(5);
    assert_eq!(store.size(), 5);
    for id in 1..=5u32 {
        assert_eq!(store.get_by_id(id).floor, id);
        assert_eq!(store.get_by_id(id).name, format!("place {}", id));
    }
}

#[test]
fn seeded_store_has_the_two_records() {
    let store = PositionStore::seeded();
    assert_eq!(store.size(), 2);

    let library = store.get_by_id(1);
    assert_eq!(f64::from_bits(library.x_bits), 20.0);
    assert_eq!(f64::from_bits(library.y_bits), 20.0);
    assert_eq!(library.floor, 1);
    assert_eq!(library.name, "图书馆");
    assert_eq!(library.building, "教学楼");
    assert_eq!(library.brief, "学校图书中心");
    assert_eq!(library.detail, "这里有丰富的图书资源，供学生和教职工借阅。");

    let gymnasium = store.get_by_id(2);
    assert_eq!(f64::from_bits(gymnasium.x_bits), 70.0);
    assert_eq!(f64::from_bits(gymnasium.y_bits), 50.0);
    assert_eq!(gymnasium.floor, 2);
    assert_eq!(gymnasium.name, "体育馆");
    assert_eq!(gymnasium.building, "艺体楼");
    assert_eq!(gymnasium.brief, "学校体育活动场所");
    assert_eq!(gymnasium.detail, "这里有各种体育设施，供学生锻炼和比赛使用。");
}

#[test]
fn seeded_coordinates_are_exact_bit_patterns() {
    let store = PositionStore::seeded();
    assert_eq!(store.get_by_id(1).x_bits, 20.0f64.to_bits());
    assert_eq!(store.get_by_id(1).y_bits, 20.0f64.to_bits());
    assert_eq!(store.get_by_id(2).x_bits, 70.0f64.to_bits());
    assert_eq!(store.get_by_id(2).y_bits, 50.0f64.to_bits());
}

#[test]
fn lookup_is_periodic() {
    for n in 1..=7u32 {
        let store = store_of(n);
        for id in 0..=50u32 {
            assert_eq!(store.get_by_id(id), store.get_by_id(id + n));
        }
    }
}

#[test]
fn lookup_is_periodic_at_the_top_of_the_range() {
    let store = store_of(3);
    let top: u32 = u32::MAX;
    assert_eq!(store.get_by_id(top), store.get_by_id(top - 3));
    assert_eq!(store.get_by_id(top - 1), store.get_by_id(top - 4));
    // 4294967295 - 1 = 3 * 1431655764 + 2
    assert_eq!(store.get_by_id(top).floor, 3);
}

#[test]
fn zero_names_the_last_record() {
    for n in 1..=7u32 {
        let store = store_of(n);
        assert_eq!(store.get_by_id(0).floor, n);
        assert_eq!(store.get_by_id(0), store.get_by_id(n));
    }
}

#[test]
fn zero_names_the_last_record_of_the_seeded_store() {
    let store = PositionStore::seeded();
    assert_eq!(store.get_by_id(0).name, "体育馆");
    assert_eq!(store.get_by_id(0), store.get_by_id(2));
}

#[test]
fn lookup_follows_the_remainder() {
    let store = store_of(3);
    let expected: [u32; 10] = [3, 1, 2, 3, 1, 2, 3, 1, 2, 3];
    let mut id: u32 = 0;
    for floor in expected {
        assert_eq!(store.get_by_id(id).floor, floor);
        id += 1;
    }
    // (100 - 1) mod 3 = 0, (101 - 1) mod 3 = 1, (102 - 1) mod 3 = 2
    assert_eq!(store.get_by_id(100).floor, 1);
    assert_eq!(store.get_by_id(101).floor, 2);
    assert_eq!(store.get_by_id(102).floor, 3);
}

#[test]
fn seeded_store_wraps_around() {
    let store = PositionStore::seeded();
    assert_eq!(store.get_by_id(3), store.get_by_id(1));
    assert_eq!(store.get_by_id(4), store.get_by_id(2));
    assert_eq!(store.get_by_id(3).name, "图书馆");
    assert_eq!(store.get_by_id(u32::MAX).name, "图书馆");
    assert_eq!(store.get_by_id(u32::MAX - 1).name, "体育馆");
}
