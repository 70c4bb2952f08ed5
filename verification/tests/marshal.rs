use dart_bridge::error::BridgeError;
use dart_bridge::marshal::{Array, Arrays, Color, Enums, Strings};
use dart_bridge::throw::{throw_into_foreign, ThrowFromNative};

#[test]
fn strings_reverses_by_character() {
    assert_eq!(Strings("hello"), "olleh");
    assert_eq!(Strings(""), "");
    assert_eq!(Strings("a"), "a");
    assert_eq!(Strings("ab"), "ba");
    assert_eq!(Strings("héllo wörld"), "dlröw olléh");
    assert_eq!(Strings("日本語"), "語本日");
}

#[test]
fn strings_twice_is_the_identity() {
    let text = "Received string from Dart";
    assert_eq!(Strings(&Strings(text)), text);
}

#[test]
fn enums_answers_rust_for_blue() {
    assert_eq!(Enums(0), 1);
}

#[test]
fn colors_stand_for_their_numbers() {
    assert_eq!(Color::from(0), Color::Blue);
    assert_eq!(Color::from(1), Color::Rust);
    assert_eq!(Color::Blue.to_c_int(), 0);
    assert_eq!(Color::Rust.to_c_int(), 1);
}

#[test]
fn arrays_holds_one_two_three() {
    let array = Arrays();
    assert_eq!(array.len(), 3);
    assert_eq!(array.items(), &vec![1i64, 2, 3]);
    assert_eq!(array.into_vec(), vec![1i64, 2, 3]);
}

#[test]
fn array_keeps_items_and_length() {
    let empty = Array::from(Vec::new());
    assert_eq!(empty.len(), 0);
    assert!(empty.items().is_empty());
    let array = Array::from(vec![i64::MIN, 0, i64::MAX, -1]);
    assert_eq!(array.len(), 4);
    assert_eq!(array.into_vec(), vec![i64::MIN, 0, i64::MAX, -1]);
}

#[test]
fn native_throw_carries_its_message() {
    let throw = ThrowFromNative();
    assert_eq!(throw.message(), "Exception thrown from rust message");
    assert!(!throw.message().contains('\0'));
}

#[test]
fn throw_takes_any_text_without_nul() {
    let throw = throw_into_foreign("bad state: ünïcode").unwrap();
    assert_eq!(throw.message(), "bad state: ünïcode");
    assert_eq!(throw_into_foreign("").unwrap().message(), "");
}

#[test]
fn throw_refuses_text_with_nul() {
    assert_eq!(throw_into_foreign("a\0b").unwrap_err(), BridgeError::MalformedMessage);
    assert_eq!(throw_into_foreign("\0").unwrap_err(), BridgeError::MalformedMessage);
    assert_eq!(throw_into_foreign("tail\0").unwrap_err(), BridgeError::MalformedMessage);
}
