use typed_array::Array;

#[test]
fn as_vec_converts_each_in_order() {
    let array = Array::from(vec![0i32, 1, 0, -4]);
    let flags: Vec<bool> = array.as_vec(|value| value != 0);
    assert_eq!(flags, vec![false, true, false, true]);
    // The handle keeps what it holds.
    assert_eq!(array.as_slice(), &[0, 1, 0, -4]);
}

#[test]
fn as_vec_of_empty_is_empty() {
    let array: Array<i32> = Array::from(Vec::new());
    let flags: Vec<bool> = array.as_vec(|value| value != 0);
    assert!(flags.is_empty());
}

#[test]
fn as_vec_none_can_be_repeated() {
    let names = ["zero", "one", "two"];
    let array = Array::from(vec![2usize, 0, 1]);
    let first: Vec<String> = array.as_vec_none(|at| names[at].to_string());
    let second: Vec<String> = array.as_vec_none(|at| names[at].to_string());
    assert_eq!(first, vec!["two", "zero", "one"]);
    assert_eq!(second, first);
}

#[test]
fn as_vec_full_uses_up_the_handle() {
    let array = Array::from(vec![10u8, 20, 30]);
    let boxed: Vec<Box<u8>> = array.as_vec_full(Box::new);
    assert_eq!(boxed, vec![Box::new(10), Box::new(20), Box::new(30)]);
}

#[test]
fn from_slice_none_keeps_values_and_guards() {
    let words = vec![String::from("a"), String::from("bcd"), String::new()];
    let (array, stashes): (Array<usize>, Vec<(usize, &str)>) =
        Array::from_slice_none(&words, |word: &String| (word.len(), word.as_str()));
    assert_eq!(array.as_slice(), &[1, 3, 0]);
    assert_eq!(stashes, vec![(1, "a"), (3, "bcd"), (0, "")]);
}

#[test]
fn from_slice_none_of_empty_is_empty() {
    let nothing: Vec<u8> = Vec::new();
    let (array, stashes): (Array<u32>, Vec<(u32, ())>) =
        Array::from_slice_none(&nothing, |byte: &u8| (u32::from(*byte), ()));
    assert!(array.as_slice().is_empty());
    assert!(stashes.is_empty());
}

#[test]
fn from_slice_none_then_back() {
    let source = [7u8, 0, 255];
    let (array, _stashes): (Array<u32>, Vec<(u32, ())>) =
        Array::from_slice_none(&source, |byte: &u8| (u32::from(*byte) + 1, ()));
    assert_eq!(array.as_slice(), &[8, 1, 256]);
    let back: Vec<u8> = array.as_vec(|value| (value - 1) as u8);
    assert_eq!(back, source.to_vec());
}
