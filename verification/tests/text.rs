use core::ptr::from_ref;
use facet_core::{PtrConst, Shape};
use facet_reflect::{FormatError, Peek};

#[test]
fn identifiers_as_text() {
    let value = 1i32;
    let peek = Peek::new(&value);
    assert_eq!(peek.id(|_| 0).to_text(), Ok(String::from("i32@0x0")));
    assert_eq!(peek.id(|_| 15).to_text(), Ok(String::from("i32@0xf")));
    assert_eq!(peek.id(|_| 16).to_text(), Ok(String::from("i32@0x10")));
    assert_eq!(peek.id(|_| 0xdead_beef).to_text(), Ok(String::from("i32@0xdeadbeef")));
    let list = vec![1i32];
    let id = Peek::new(&list).id(|_| 0x1234_5678);
    assert_eq!(id.to_text(), Ok(String::from("Vec<i32>@0x12345678")));
}

#[test]
fn values_as_text() {
    let value = 1i32;
    let peek = Peek::new(&value);
    let show = |_: &'static Shape, data: PtrConst| {
        assert_eq!(data, PtrConst::new(from_ref(&value)));
        Some(Ok::<String, FormatError>(value.to_string()))
    };
    assert_eq!(peek.display(show), Ok(String::from("1")));
    assert_eq!(peek.debug(show), Ok(String::from("1")));
    assert_eq!(peek.display(|_, _| Some(Err(FormatError))), Err(FormatError));
    assert_eq!(peek.debug(|_, _| Some(Err(FormatError))), Err(FormatError));
}

#[test]
fn values_that_cannot_be_shown() {
    let list = vec![1i32];
    let peek = Peek::new(&list);
    let text: Result<String, FormatError> = peek.display(|_, _| None);
    assert_eq!(text, Ok(String::from("⟨Vec<i32>⟩")));
    let text: Result<String, FormatError> = peek.debug(|_, _| None);
    assert_eq!(text, Ok(String::from("⟨Vec<i32>⟩")));
}

#[test]
fn names_of_types() {
    let list = vec![1i32];
    let peek = Peek::new(&list);
    let name: Result<String, FormatError> = peek.formatted_name(|_| None);
    assert_eq!(name, Ok(String::from("Vec")));
    let name: Result<String, FormatError> = peek.formatted_name(|shape| Some(Ok(format!("{shape}"))));
    assert_eq!(name, Ok(String::from("Vec<i32>")));
    assert_eq!(peek.formatted_name(|_| Some(Err(FormatError))), Err(FormatError));
}
