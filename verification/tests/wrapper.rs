use detrace::wrapper::{rewrap_value, unwrap_element, unwrap_entry, unwrap_value, unwrap_variant};
use detrace::{Deserializer, Wrapper};

#[test]
fn new_wraps_at_depth_zero() {
    let w = Wrapper::new(41u32);
    assert_eq!(w.inner, 41);
    assert_eq!(w.depth, 0);
}

#[test]
fn sub_wrap_goes_one_level_deeper() {
    let root = Wrapper::new("backend");
    let child = root.sub_wrap(7u8);
    let grandchild = child.sub_wrap(true);
    assert_eq!(root.depth, 0);
    assert_eq!(child.depth, 1);
    assert_eq!(grandchild.depth, 2);
    assert_eq!(child.inner, 7);
    assert_eq!(grandchild.inner, true);
}

#[test]
fn unwrap_returns_the_wrapped_value() {
    let w = Wrapper::new(String::from("payload"));
    assert_eq!(w.unwrap(), "payload");
    let nested = Wrapper::new(1i64).sub_wrap(vec![1u8, 2, 3]);
    assert_eq!(nested.unwrap(), vec![1u8, 2, 3]);
}

#[test]
fn deserializer_new_builds_root_wrapper() {
    let w = Deserializer::new(-5i32);
    assert_eq!(w.inner, -5);
    assert_eq!(w.depth, 0);
}

#[test]
fn default_wrapper_is_root_around_default() {
    let w: Wrapper<u64> = Default::default();
    assert_eq!(w.inner, 0);
    assert_eq!(w.depth, 0);
}

#[test]
fn from_wraps_at_depth_zero() {
    let w = Wrapper::from('x');
    assert_eq!(w.inner, 'x');
    assert_eq!(w.depth, 0);
}

#[test]
fn clone_preserves_inner_and_depth() {
    let w = Wrapper::new(String::from("a")).sub_wrap(String::from("b"));
    let c = w.clone();
    assert_eq!(c.inner, w.inner);
    assert_eq!(c.depth, w.depth);
}

#[test]
fn debug_shows_inner_and_depth() {
    let w = Wrapper::new(3u8);
    assert_eq!(format!("{:?}", w), "Wrapper { inner: 3, depth: 0 }");
}

#[test]
fn rewrap_value_wraps_success_and_passes_failure() {
    let ok: Result<u32, String> = Ok(9);
    let w = rewrap_value(ok).unwrap();
    assert_eq!(w.inner, 9);
    assert_eq!(w.depth, 0);
    let err: Result<u32, String> = Err(String::from("invalid type: string, expected u32"));
    assert_eq!(
        rewrap_value(err).unwrap_err(),
        "invalid type: string, expected u32"
    );
}

#[test]
fn unwrap_value_and_element_pass_errors_through() {
    let ok: Result<Wrapper<u8>, &str> = Ok(Wrapper::new(3));
    assert_eq!(unwrap_value(ok), Ok(3));
    let err: Result<Wrapper<u8>, &str> = Err("boom");
    assert_eq!(unwrap_value(err), Err("boom"));
    assert_eq!(unwrap_element::<u8, &str>(Ok(Some(Wrapper::new(7)))), Ok(Some(7)));
    assert_eq!(unwrap_element::<u8, &str>(Ok(None)), Ok(None));
    assert_eq!(unwrap_element::<u8, &str>(Err("end")), Err("end"));
}

#[test]
fn unwrap_entry_and_variant_keep_their_payloads() {
    let entry: Result<Option<(Wrapper<String>, Wrapper<u64>)>, &str> =
        Ok(Some((Wrapper::new(String::from("k")), Wrapper::new(5))));
    assert_eq!(unwrap_entry(entry), Ok(Some((String::from("k"), 5))));
    assert_eq!(unwrap_entry::<String, u64, &str>(Ok(None)), Ok(None));
    assert_eq!(unwrap_entry::<String, u64, &str>(Err("bad key")), Err("bad key"));
    assert_eq!(
        unwrap_variant::<u32, char, &str>(Ok((Wrapper::new(2), 'v'))),
        Ok((2, 'v'))
    );
    assert_eq!(unwrap_variant::<u32, char, &str>(Err("no variant")), Err("no variant"));
}
