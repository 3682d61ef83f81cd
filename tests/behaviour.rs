use gravatar_rs::text::{to_decimal, to_lower_hex};
use gravatar_rs::Generator;

#[test]
fn hash_vectors() {
    assert_eq!(Generator::hash_email("helllo@holllo.cc"), "ebff9105dce4954b1bdb57fdab079ff3");
    assert_eq!(Generator::hash_email("me@bauke.xyz"), "ecd836ee843ff0ab75d4720bd40c2baf");
}

#[test]
fn hash_of_empty_text() {
    assert_eq!(Generator::hash_email(""), "d41d8cd98f00b204e9800998ecf8427e");
    assert_eq!(Generator::hash_email(" \t\n "), "d41d8cd98f00b204e9800998ecf8427e");
}

#[test]
fn hash_ignores_case_and_surrounding_whitespace() {
    let expected = Generator::hash_email("me@bauke.xyz");
    assert_eq!(Generator::hash_email("\u{3000}Me@Bauke.XYZ\t\r\n"), expected);
    assert_eq!(Generator::hash_email("\u{a0} ME@BAUKE.XYZ \u{2003}"), expected);
    assert_ne!(Generator::hash_email("me @bauke.xyz"), expected);
}

#[test]
fn hash_shape() {
    for input in ["", "a", "Ünïcödé@example.org", "  x  ", "helllo@holllo.cc"] {
        let hash = Generator::hash_email(input);
        assert_eq!(hash.len(), 32);
        assert!(hash.chars().all(|c| c.is_ascii_digit() || ('a'..='f').contains(&c)));
    }
}

#[test]
fn default_generate() {
    assert_eq!(
        Generator::default().generate("helllo@holllo.cc"),
        "https://www.gravatar.com/avatar/ebff9105dce4954b1bdb57fdab079ff3"
    );
}

#[test]
fn base_url_changes_only_host() {
    assert_eq!(
        Generator::default().set_base_url("cdn.libravatar.org").generate("helllo@holllo.cc"),
        "https://cdn.libravatar.org/avatar/ebff9105dce4954b1bdb57fdab079ff3"
    );
}

#[test]
fn all_options_on_default_host() {
    let generator = Generator::default()
        .set_default_image("identicon")
        .set_force_default(true)
        .set_image_size(128)
        .set_include_file_extension(true)
        .set_rating("pg");
    assert_eq!(
        generator.generate("me@bauke.xyz"),
        "https://www.gravatar.com/avatar/ecd836ee843ff0ab75d4720bd40c2baf.jpg?d=identicon&f=y&s=128&r=pg"
    );
}

#[test]
fn default_query_is_empty_every_time() {
    let generator = Generator::default();
    assert_eq!(generator.query_parameters(), "");
    assert_eq!(generator.query_parameters(), "");
    let generator = Generator::default().set_rating("g");
    assert_eq!(generator.query_parameters(), generator.query_parameters());
}

#[test]
fn default_configuration() {
    let generator = Generator::default();
    assert_eq!(generator.base_url, "www.gravatar.com");
    assert_eq!(generator.default_image, None);
    assert!(!generator.force_default);
    assert_eq!(generator.image_size, None);
    assert!(!generator.include_file_extension);
    assert_eq!(generator.rating, None);
}

#[test]
fn force_default_without_default_image() {
    let generator = Generator::default().set_force_default(true);
    assert_eq!(generator.query_parameters(), "?f=y");
    let generator = generator.set_force_default(false);
    assert_eq!(generator.query_parameters(), "");
}

#[test]
fn single_options() {
    assert_eq!(Generator::default().set_image_size(80).query_parameters(), "?s=80");
    assert_eq!(Generator::default().set_image_size(-5).query_parameters(), "?s=-5");
    assert_eq!(Generator::default().set_rating("x").query_parameters(), "?r=x");
    assert_eq!(Generator::default().set_default_image("mp").query_parameters(), "?d=mp");
}

#[test]
fn extension_without_query() {
    let generator = Generator::default().set_include_file_extension(true);
    assert_eq!(
        generator.generate("me@bauke.xyz"),
        "https://www.gravatar.com/avatar/ecd836ee843ff0ab75d4720bd40c2baf.jpg"
    );
}

#[test]
fn order_is_fixed_whatever_the_setting_order() {
    let generator = Generator::default()
        .set_rating("pg")
        .set_image_size(64)
        .set_force_default(true)
        .set_default_image("retro");
    assert_eq!(generator.query_parameters(), "?d=retro&f=y&s=64&r=pg");
}

#[test]
fn setters_replace_earlier_values() {
    let generator = Generator::default()
        .set_base_url("a.example")
        .set_base_url("b.example")
        .set_image_size(1)
        .set_image_size(2);
    assert_eq!(generator.base_url, "b.example");
    assert_eq!(generator.image_size, Some(2));
    assert_eq!(generator.default_image, None);
}

#[test]
fn escaped_default_image() {
    let image = "https://example.com/a b.png";
    let generator = Generator::default().set_default_image(image);
    let query = generator.query_parameters();
    assert_eq!(query, "?d=https%3A%2F%2Fexample.com%2Fa%20b.png");
    let value = query.strip_prefix("?d=").unwrap();
    assert_eq!(urlencoding::decode(value).unwrap(), image);
}

#[test]
fn escaped_non_ascii_rating() {
    let generator = Generator::default().set_rating("é&=~");
    assert_eq!(generator.query_parameters(), "?r=%C3%A9%26%3D~");
    let value = generator.query_parameters();
    let value = value.strip_prefix("?r=").unwrap().to_string();
    assert_eq!(urlencoding::decode(&value).unwrap(), "é&=~");
}

#[test]
fn decimal_rendering() {
    assert_eq!(to_decimal(0), "0");
    assert_eq!(to_decimal(128), "128");
    assert_eq!(to_decimal(-42), "-42");
    assert_eq!(to_decimal(i32::MAX), "2147483647");
    assert_eq!(to_decimal(i32::MIN), "-2147483648");
    assert_eq!(Generator::default().set_image_size(i32::MIN).query_parameters(), "?s=-2147483648");
}

#[test]
fn hex_rendering() {
    assert_eq!(to_lower_hex(&[]), "");
    assert_eq!(to_lower_hex(&[0x00, 0x0f, 0xa5, 0xff]), "000fa5ff");
}
