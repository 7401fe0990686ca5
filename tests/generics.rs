use rust_snippets::generics::{find_min_max, Person};

#[test]
fn test_find_max() {
    let max_person = Person {
        id: 5,
        height: 1123,
    };

    let min_person = Person { id: 3, height: 11 };
    let vec2 = vec![
        Person { id: 0, height: 112 },
        Person { id: 2, height: 222 },
        min_person,
        Person { id: 4, height: 111 },
        max_person,
        Person { id: 6, height: 12 },
    ];
    let (min_val, max_val) = find_min_max::<Person>(vec2);
    println!("Min {:?}\nMax {:?}", min_val.unwrap(), max_val.unwrap());

    assert_eq!(Some(max_person), max_val);
    assert_eq!(Some(min_person), min_val);
}

#[test]
fn find_min_max_of_empty_is_none() {
    let (min, max) = find_min_max::<u64>(Vec::new());
    assert_eq!(min, None);
    assert_eq!(max, None);
}

#[test]
fn find_min_max_of_integers() {
    let (min, max) = find_min_max(vec![100u64, 20u64, 30u64, 40u64]);
    assert_eq!(min, Some(20));
    assert_eq!(max, Some(100));
    let (min, max) = find_min_max(vec![1u16]);
    assert_eq!(min, Some(1));
    assert_eq!(max, Some(1));
}

#[test]
fn find_min_max_keeps_first_of_equal_heights() {
    let people = vec![
        Person { id: 1, height: 50 },
        Person { id: 2, height: 10 },
        Person { id: 3, height: 50 },
        Person { id: 4, height: 10 },
    ];
    let (min, max) = find_min_max(people);
    assert_eq!(min, Some(Person { id: 2, height: 10 }));
    assert_eq!(max, Some(Person { id: 1, height: 50 }));
}
