use hello_py::module::{Export, ModuleTable};
use hello_py::text::{to_host, to_native, BoundaryError};

fn units(s: &str) -> Vec<u32> {
    s.chars().map(|c| c as u32).collect()
}

#[test]
fn empty_text_crosses_both_ways() {
    assert_eq!(to_native(&[]), Ok(String::new()));
    assert_eq!(to_host(""), Vec::<u32>::new());
}

#[test]
fn multibyte_text_to_host_gives_code_points() {
    assert_eq!(
        to_host("héllo🌍"),
        vec![0x68, 0xE9, 0x6C, 0x6C, 0x6F, 0x1F30D]
    );
}

#[test]
fn multibyte_text_to_native_keeps_every_character() {
    let r = to_native(&[0x68, 0xE9, 0x6C, 0x6C, 0x6F, 0x1F30D]).unwrap();
    assert_eq!(r, "héllo🌍");
    assert_eq!(r.len(), 10);
}

#[test]
fn lone_surrogate_is_an_encoding_error() {
    assert_eq!(
        to_native(&[0x61, 0x62, 0xD800, 0x63]),
        Err(BoundaryError::Encoding { position: 2 })
    );
}

#[test]
fn first_bad_code_point_is_reported() {
    assert_eq!(
        to_native(&[0xDFFF, 0x110000]),
        Err(BoundaryError::Encoding { position: 0 })
    );
    assert_eq!(
        to_native(&[0x10FFFF, 0x110000, 0xD800]),
        Err(BoundaryError::Encoding { position: 1 })
    );
}

#[test]
fn largest_scalar_values_are_accepted() {
    assert_eq!(to_native(&[0xD7FF, 0xE000, 0x10FFFF]), Ok("\u{D7FF}\u{E000}\u{10FFFF}".to_string()));
}

#[test]
fn native_output_round_trips_unaltered() {
    for s in ["", "Hello, world!", "héllo🌍", "日本語", "a\u{0}b"] {
        let host = to_host(s);
        let back = to_native(&host).unwrap();
        assert_eq!(back.as_bytes(), s.as_bytes());
    }
}

#[test]
fn host_text_round_trips_unaltered() {
    let host = vec![0x48, 0x20AC, 0x1F600, 0x0];
    let native = to_native(&host).unwrap();
    assert_eq!(to_host(&native), host);
}

#[test]
fn repeated_calls_give_identical_output() {
    let host = units("héllo🌍");
    let first = to_native(&host);
    let second = to_native(&host);
    assert_eq!(first, second);
    assert_eq!(to_host("héllo🌍"), to_host("héllo🌍"));
    assert_eq!(to_native(&[0xDC00]), to_native(&[0xDC00]));
}

#[test]
fn interleaved_calls_do_not_mix_results() {
    let a = units("a");
    let b = units("b");
    let ra = to_native(&a);
    let rb = to_native(&b);
    let ha = to_host("a");
    let hb = to_host("b");
    assert_eq!(ra, Ok("a".to_string()));
    assert_eq!(rb, Ok("b".to_string()));
    assert_eq!(ha, vec![0x61]);
    assert_eq!(hb, vec![0x62]);
}

#[test]
fn module_names_are_fixed() {
    let table = ModuleTable::load();
    assert_eq!(table.module_name(), "_rust");
    assert_eq!(table.function_name(), "hello");
}

#[test]
fn exported_function_resolves_by_module_name() {
    let table = ModuleTable::load();
    assert_eq!(table.resolve("_rust", "hello"), Some(Export::Hello));
    let arg = to_native(&units("world")).unwrap();
    assert_eq!(arg, "world");
}

#[test]
fn unknown_names_do_not_resolve() {
    let table = ModuleTable::load();
    assert_eq!(table.resolve("_rust", "hi"), None);
    assert_eq!(table.resolve("rust", "hello"), None);
    assert_eq!(table.resolve("", ""), None);
    assert_eq!(table.resolve("_rust", "Hello"), None);
}
