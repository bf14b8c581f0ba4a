use sam::tui_data::{NamedValue, StringLookupVector};

fn generate_standard_output() -> Vec<NamedValue<u32>> {
    let out: [NamedValue<u32>; 20] = core::array::from_fn(|i| {
        let value = i as u32;
        let name: String = String::from(
            char::from_u32(('a' as u32) + value).expect("letters stay within ASCII"),
        )
        .repeat(i + 1);
        NamedValue::<u32>::new(name, value)
    });
    Vec::<NamedValue<u32>>::from(out)
}

fn collect(slv: &StringLookupVector<u32>) -> Vec<NamedValue<u32>> {
    slv.iter().into_iter().cloned().collect()
}

#[test]
fn slv_insertion() {
    let mut expected: Vec<NamedValue<u32>> = Vec::new();
    let mut output: Vec<NamedValue<u32>>;
    let mut slv: StringLookupVector<u32> = StringLookupVector::new();

    output = collect(&slv);
    assert_eq!(output, expected);

    for i in 0..6 {
        let value = i as u32;
        let name: String = String::from(
            char::from_u32(('z' as u32) - value).expect("letters stay within ASCII"),
        )
        .repeat(i + 1);

        assert!(!slv.contains_key(&name));

        slv.add(&name, value);
        expected.push(NamedValue::<u32>::new(name.clone(), value));

        assert!(slv.contains_key(&name));

        output = collect(&slv);
        assert_eq!(output, expected);
    }

    let output: Vec<NamedValue<u32>> = collect(&slv);
    assert_eq!(output, expected);
}

#[test]
fn slv_removal() {
    let base: Vec<NamedValue<u32>> = generate_standard_output();
    let mut output: Vec<NamedValue<u32>>;
    let mut slv_base: StringLookupVector<u32> = StringLookupVector::new();

    for item in base.clone() {
        slv_base.add(&item.name, item.value);
    }

    for (index, item) in base.clone().iter().enumerate() {
        let mut expected = base.clone();
        let mut slv = slv_base.clone();

        assert!(slv.contains_key(&item.name));

        expected.remove(index);
        slv.remove(&item.name);

        assert!(!slv.contains_key(&item.name));

        output = collect(&slv);
        assert_eq!(output, expected);
    }
}

#[test]
fn slv_sort() {
    let expected: Vec<NamedValue<u32>> = generate_standard_output();
    let mut slv: StringLookupVector<u32> = StringLookupVector::new();

    for item in expected.clone().into_iter().rev() {
        slv.add(&item.name, item.value);
    }

    slv.sort_by_name();

    let output: Vec<NamedValue<u32>> = collect(&slv);
    assert_eq!(output, expected);
}

#[test]
fn slv_add_replaces_existing_value_in_place() {
    let mut slv: StringLookupVector<u32> = StringLookupVector::new();
    slv.add(&String::from("b"), 1);
    slv.add(&String::from("a"), 2);
    slv.add(&String::from("b"), 3);
    assert_eq!(slv.len(), 2);
    assert_eq!(slv.index_of(&String::from("b")), Some(0));
    assert_eq!(slv.get(&String::from("b")).map(|v| v.value), Some(3));
    assert_eq!(slv.get_from_index(1).map(|v| v.name.clone()), Some(String::from("a")));
    assert!(slv.get(&String::from("c")).is_none());
    assert!(slv.get_from_index(2).is_none());
}

#[test]
fn slv_lookup_after_removal_follows_positions() {
    let mut slv: StringLookupVector<u32> = StringLookupVector::with_capacity(2);
    slv.add(&String::from("x"), 10);
    slv.add(&String::from("y"), 20);
    slv.add(&String::from("z"), 30);
    slv.remove(&String::from("x"));
    assert_eq!(slv.index_of(&String::from("z")), Some(1));
    assert_eq!(slv.get(&String::from("z")).map(|v| v.value), Some(30));
    slv.remove(&String::from("missing"));
    assert_eq!(slv.len(), 2);
}

#[test]
fn slv_get_mut_changes_in_place() {
    let mut slv: StringLookupVector<u32> = StringLookupVector::new();
    slv.add(&String::from("k"), 1);
    slv.add(&String::from("m"), 2);
    if let Some(v) = slv.get_mut(&String::from("m")) {
        v.value = 7;
    }
    assert!(slv.get_mut(&String::from("q")).is_none());
    if let Some(v) = slv.get_mut_from_index(0) {
        v.value = 9;
    }
    assert!(slv.get_mut_from_index(2).is_none());
    let got: Vec<(String, u32)> = slv.iter().into_iter().map(|v| (v.name.clone(), v.value)).collect();
    assert_eq!(got, vec![(String::from("k"), 9), (String::from("m"), 7)]);
}

#[test]
fn slv_sort_orders_bytewise() {
    let mut slv: StringLookupVector<u32> = StringLookupVector::new();
    for (n, v) in [("b", 1u32), ("B", 2), ("ab", 3), ("a", 4), ("", 5)] {
        slv.add(&String::from(n), v);
    }
    slv.sort_by_name();
    let names: Vec<String> = slv.iter().into_iter().map(|v| v.name.clone()).collect();
    assert_eq!(names, vec!["", "B", "a", "ab", "b"]);
}
