use phyzzy::pointer::{first_hit_index, pointed_mass_index};

#[test]
fn first_hit_finds_first_true() {
    assert_eq!(first_hit_index(&vec![false, true, true]), Some(1));
    assert_eq!(first_hit_index(&vec![true, false]), Some(0));
    assert_eq!(first_hit_index(&vec![false, false, false, true]), Some(3));
}

#[test]
fn first_hit_none_without_true() {
    assert_eq!(first_hit_index(&vec![]), None);
    assert_eq!(first_hit_index(&vec![false, false]), None);
}

#[test]
fn pointed_mass_needs_a_pointer() {
    assert_eq!(pointed_mass_index(&None), None);
    assert_eq!(pointed_mass_index(&Some(vec![false, true])), Some(1));
    assert_eq!(pointed_mass_index(&Some(vec![false])), None);
}
