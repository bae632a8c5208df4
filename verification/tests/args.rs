use gurka::args::Invocation;

fn words(items: &[&str]) -> Vec<String> {
    items.iter().map(|item| item.to_string()).collect()
}

#[test]
fn no_argument_lists_the_locations() {
    assert_eq!(Invocation::from_args(&words(&[])), Invocation::ListLocations);
}

#[test]
fn one_argument_names_a_location() {
    assert_eq!(
        Invocation::from_args(&words(&["Effectsoft Halmstad"])),
        Invocation::Named { name: "Effectsoft Halmstad".to_string() }
    );
}

#[test]
fn one_argument_that_looks_like_a_number_is_still_a_name() {
    assert_eq!(
        Invocation::from_args(&words(&["57.7"])),
        Invocation::Named { name: "57.7".to_string() }
    );
}

#[test]
fn two_arguments_are_latitude_then_longitude() {
    assert_eq!(
        Invocation::from_args(&words(&["57.7", "11.9"])),
        Invocation::Coordinates { latitude: "57.7".to_string(), longitude: "11.9".to_string() }
    );
}

#[test]
fn two_arguments_are_kept_as_typed() {
    assert_eq!(
        Invocation::from_args(&words(&["north", ""])),
        Invocation::Coordinates { latitude: "north".to_string(), longitude: String::new() }
    );
}

#[test]
fn three_arguments_are_too_many() {
    assert_eq!(
        Invocation::from_args(&words(&["1", "2", "3"])),
        Invocation::Rejected { message: "Too many arguments".to_string() }
    );
}

#[test]
fn many_arguments_are_too_many() {
    let args = words(&["a", "b", "c", "d", "e", "f", "g"]);
    assert_eq!(
        Invocation::from_args(&args),
        Invocation::Rejected { message: "Too many arguments".to_string() }
    );
}
