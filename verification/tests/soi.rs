use keplerian_elements::num::Num;
use keplerian_elements::soi::{find_soi_at_position, Candidate};

fn num(x: f64) -> Num {
    Num::from_bits(x.to_bits())
}

fn body(distance: f64, radius: f64) -> Candidate {
    Candidate { distance: num(distance), radius: num(radius) }
}

#[test]
fn no_body_holds_a_position_in_an_empty_system() {
    assert_eq!(find_soi_at_position(&vec![]), None);
}

#[test]
fn a_position_outside_every_sphere_belongs_to_the_central_body() {
    assert_eq!(find_soi_at_position(&vec![body(10.0, 1.0), body(5.0, 4.9), body(2.0, 2.0)]), None);
}

#[test]
fn a_position_inside_one_sphere_belongs_to_its_body() {
    assert_eq!(find_soi_at_position(&vec![body(10.0, 1.0), body(5.0, 6.0), body(2.0, 1.0)]), Some(1));
    assert!(body(5.0, 6.0).is_enclosing());
    assert!(!body(6.0, 6.0).is_enclosing());
    assert!(!body(7.0, 6.0).is_enclosing());
}

#[test]
fn of_nested_spheres_the_nearest_centre_wins() {
    // a moon inside the sphere of its planet
    assert_eq!(find_soi_at_position(&vec![body(8.0, 50.0), body(0.5, 2.0)]), Some(1));
    assert_eq!(find_soi_at_position(&vec![body(0.5, 2.0), body(8.0, 50.0)]), Some(0));
    assert_eq!(find_soi_at_position(&vec![body(8.0, 50.0), body(0.5, 2.0), body(0.4, 0.3), body(3.0, 9.0)]), Some(1));
}

#[test]
fn at_equal_distance_the_first_body_wins() {
    assert_eq!(find_soi_at_position(&vec![body(9.0, 1.0), body(3.0, 4.0), body(3.0, 5.0)]), Some(1));
}

#[test]
fn a_distance_that_is_not_a_number_is_inside_nothing() {
    assert_eq!(find_soi_at_position(&vec![body(f64::NAN, 4.0)]), None);
    assert_eq!(find_soi_at_position(&vec![body(1.0, f64::NAN)]), None);
    assert_eq!(find_soi_at_position(&vec![body(f64::NAN, 4.0), body(3.0, 4.0)]), Some(1));
}

#[test]
fn a_distance_beyond_every_number_is_inside_nothing() {
    assert_eq!(find_soi_at_position(&vec![body(f64::MAX, f64::INFINITY)]), None);
    assert_eq!(find_soi_at_position(&vec![body(f64::INFINITY, f64::INFINITY)]), None);
    assert_eq!(find_soi_at_position(&vec![body(1.0e300, f64::INFINITY)]), Some(0));
}
