use rust_tagged::Tagged;

struct Org;

type EmployeeNames = Tagged<Vec<String>, Org>;

fn names() -> EmployeeNames {
    Tagged::new(vec!["Alice".into(), "Bob".into()])
}

#[test]
fn iterating_by_reference_yields_the_elements_in_order() {
    let names = names();
    let mut seen: Vec<&String> = Vec::new();
    for name in &names {
        seen.push(name);
    }
    assert_eq!(seen, vec!["Alice", "Bob"]);

    // The wrapper was only borrowed: it can be walked again.
    let again: Vec<&String> = (&names).into_iter().collect();
    assert_eq!(again, vec!["Alice", "Bob"]);
    assert_eq!(names.len(), 2);
}

#[test]
fn iterating_by_value_yields_the_owned_elements_in_order() {
    let names = names();
    let mut owned: Vec<String> = Vec::new();
    for name in names {
        owned.push(name);
    }
    assert_eq!(owned, vec![String::from("Alice"), String::from("Bob")]);
}

#[test]
fn iter_of_the_inner_vector_is_reached_through_the_wrapper() {
    let names = names();
    let lengths: Vec<usize> = names.iter().map(|name| name.len()).collect();
    assert_eq!(lengths, vec![5, 3]);
}

#[test]
fn an_empty_vector_yields_nothing() {
    let empty: Tagged<Vec<u8>, Org> = Tagged::new(Vec::new());
    assert_eq!((&empty).into_iter().next(), None);
    assert_eq!(empty.into_iter().next(), None);
}

#[test]
fn the_iterators_are_those_of_the_vector() {
    let numbers: Tagged<Vec<u32>, Org> = Tagged::new(vec![1, 2, 3]);
    let mut by_reference = (&numbers).into_iter();
    assert_eq!(by_reference.len(), 3);
    assert_eq!(by_reference.next_back(), Some(&3));
    assert_eq!(by_reference.next(), Some(&1));
    let mut by_value = numbers.into_iter();
    assert_eq!(by_value.next(), Some(1));
    assert_eq!(by_value.as_slice(), &[2, 3]);
}
