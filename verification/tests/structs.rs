use basics::coins::{value_in_cents, Coin, UsState};
use basics::numbers::{plus_one, sum_multiply};
use basics::rect::{area_basic, area_with_struct_and_tuple, area_with_tuple, Rectangle};
use basics::user::build_user;

#[test]
fn rectangle_area() {
    let rect = Rectangle { width: 30, height: 50 };
    assert_eq!(rect.area(), 1500);
}

#[test]
fn rectangle_can_hold() {
    let rect = Rectangle { width: 30, height: 50 };
    let smaller = Rectangle { width: 20, height: 40 };
    let wider = Rectangle { width: 40, height: 50 };
    assert!(rect.can_hold(&smaller));
    assert!(!rect.can_hold(&wider));
    assert!(!smaller.can_hold(&rect));
}

#[test]
fn square_has_equal_sides() {
    let sq = Rectangle::square(30);
    assert_eq!(sq.width, 30);
    assert_eq!(sq.height, 30);
    assert_eq!(sq.area(), 900);
}

#[test]
fn free_area_functions_agree() {
    let rect = Rectangle { width: 30, height: 50 };
    assert_eq!(area_basic(30, 50), 1500);
    assert_eq!(area_with_tuple((30, 50)), 1500);
    assert_eq!(area_with_struct_and_tuple(&rect), 1500);
}

#[test]
fn build_user_fills_every_field() {
    let user = build_user(String::from("qwe@gmail.com"), String::from("qwe"));
    assert_eq!(user.email, "qwe@gmail.com");
    assert_eq!(user.username, "qwe");
    assert!(user.active);
    assert_eq!(user.sign_in_count, 1);
}

#[test]
fn coin_values() {
    assert_eq!(value_in_cents(Coin::Penny), 1);
    assert_eq!(value_in_cents(Coin::Nickel), 5);
    assert_eq!(value_in_cents(Coin::Dime), 10);
    assert_eq!(value_in_cents(Coin::Quarter(UsState::California)), 25);
    assert_eq!(value_in_cents(Coin::Quarter(UsState::Alaska)), 25);
}

#[test]
fn plus_one_on_some_and_none() {
    assert_eq!(plus_one(Some(5)), Some(6));
    assert_eq!(plus_one(None), None);
    assert_eq!(plus_one(Some(-1)), Some(0));
}

#[test]
fn sum_multiply_returns_the_product() {
    assert_eq!(sum_multiply(10, 20), 200);
    assert_eq!(sum_multiply(-3, 7), -21);
    assert_eq!(sum_multiply(0, 12345), 0);
}
