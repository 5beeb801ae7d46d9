use basics::structs::{area, build_user, AlwaysEqual, Color, Point, Rectangle};

#[test]
fn area_free_function_and_method() {
    let rect = Rectangle { width: 4, height: 5 };
    assert_eq!(area(&rect), 20);
    assert_eq!(rect.area(), 20);
    let rect = Rectangle { width: 30, height: 50 };
    assert_eq!(rect.area(), 1500);
}

#[test]
fn can_hold_compares_both_sides() {
    let rect1 = Rectangle { width: 30, height: 50 };
    let rect2 = Rectangle { width: 10, height: 40 };
    let rect3 = Rectangle { width: 60, height: 45 };
    assert!(rect1.can_hold(&rect2));
    assert!(!rect1.can_hold(&rect3));
    assert!(!rect1.can_hold(&rect1));
}

#[test]
fn build_user_fills_defaults() {
    let u = build_user(String::from("somebody1"), String::from("someemail"));
    assert!(u.active);
    assert_eq!(u.username, "somebody1");
    assert_eq!(u.email, "someemail");
    assert_eq!(u.sign_in_count, 1);
}

#[test]
fn tuple_and_unit_structs() {
    let black = Color(0, 0, 0);
    let origin = Point(0, 0, 0);
    assert_eq!(black.0, origin.0);
    assert_eq!(AlwaysEqual, AlwaysEqual);
}
