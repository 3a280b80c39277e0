use client_sdk_generator::casing::{capitalize_first, split_on, split_parts};
use client_sdk_generator::template::{
    to_camel_case, to_kebab_case, to_pascal_case, to_snake_case,
};

#[test]
fn test_camel_case() {
    assert_eq!(to_camel_case("hello world"), "helloWorld");
    assert_eq!(to_camel_case("api_key"), "apiKey");
    assert_eq!(to_camel_case("user-profile"), "userProfile");
}

#[test]
fn test_snake_case() {
    assert_eq!(to_snake_case("HelloWorld"), "hello_world");
    assert_eq!(to_snake_case("apiKey"), "api_key");
    assert_eq!(to_snake_case("user-profile"), "user_profile");
}

#[test]
fn test_pascal_case() {
    assert_eq!(to_pascal_case("hello world"), "HelloWorld");
    assert_eq!(to_pascal_case("api_key"), "ApiKey");
    assert_eq!(to_pascal_case("user-profile"), "UserProfile");
}

#[test]
fn test_kebab_case() {
    assert_eq!(to_kebab_case("HelloWorld"), "hello-world");
    assert_eq!(to_kebab_case("apiKey"), "api-key");
    assert_eq!(to_kebab_case("user_profile"), "user-profile");
}

#[test]
fn case_conversion_at_the_edges() {
    assert_eq!(to_camel_case(""), "");
    assert_eq!(to_camel_case("   "), "");
    assert_eq!(to_camel_case("_foo"), "Foo");
    assert_eq!(to_camel_case(" -foo_bar "), "FooBar");
    assert_eq!(to_camel_case("HELLO wORLD"), "helloWorld");
    assert_eq!(to_camel_case("a__b"), "aB");
    assert_eq!(to_camel_case("one\ttwo\nthree"), "oneTwoThree");
    assert_eq!(to_pascal_case(""), "");
    assert_eq!(to_pascal_case("__x--y  z"), "XYZ");
    assert_eq!(to_pascal_case("alreadyCamel"), "Alreadycamel");
    assert_eq!(to_snake_case(""), "");
    assert_eq!(to_snake_case("HTTPServer"), "httpserver");
    assert_eq!(to_snake_case("a B"), "a__b");
    assert_eq!(to_snake_case("already_snake"), "already_snake");
    assert_eq!(to_snake_case("X"), "x");
    assert_eq!(to_kebab_case("a_b c"), "a-b-c");
    assert_eq!(to_camel_case("\u{df}tra\u{df}e_\u{e9}cole"), "\u{df}tra\u{df}e\u{c9}cole");
    assert_eq!(capitalize_first("\u{df}x"), "SSx");
    assert_eq!(capitalize_first(""), "");
    assert_eq!(capitalize_first("wORD"), "Word");
}

#[test]
fn parts_from_given_flags() {
    let chars: Vec<char> = "ab c".chars().collect();
    // The flags decide what is whitespace, not the characters.
    let spaces = vec![false, true, false, false];
    assert_eq!(split_parts(&chars, &spaces), vec!["a", " c"]);
    let chars: Vec<char> = "a_-b".chars().collect();
    assert_eq!(split_parts(&chars, &vec![false; 4]), vec!["a", "", "b"]);
    let chars: Vec<char> = "_".chars().collect();
    assert_eq!(split_parts(&chars, &vec![false]), vec!["", ""]);
    assert_eq!(split_parts(&Vec::new(), &Vec::new()), Vec::<String>::new());
    assert_eq!(split_on("a__b_", '_'), vec!["a", "", "b", ""]);
    assert_eq!(split_on("", '_'), vec![""]);
}
