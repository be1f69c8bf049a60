use live_gateway::signer::{sign_params, ParamMap};
use live_gateway::strutil::{i64_to_string, str_eq, str_le, u32_to_string, u64_to_string};

const APP_KEY: &str = "aae92bc66f3edfab";
const APP_SEC: &str = "af125a0d5279fd576c1b4418a3e8276d";

fn fixture_map() -> ParamMap {
    let mut p = ParamMap::new();
    p.insert("system_version".to_string(), "2".to_string());
    p.insert("ts".to_string(), "1000000000".to_string());
    p
}

fn sign_value(p: ParamMap) -> String {
    let signed = sign_params(p, APP_KEY, APP_SEC);
    signed.get("sign").expect("sign entry present").clone()
}

#[test]
fn signature_matches_fixed_vector() {
    let signed = sign_params(fixture_map(), APP_KEY, APP_SEC);
    assert_eq!(
        signed.get("appkey").map(|s| s.as_str()),
        Some("aae92bc66f3edfab")
    );
    assert_eq!(
        signed.get("sign").map(|s| s.as_str()),
        Some("cb27ddcffc742ccb5e5deea501d0d4d7")
    );
}

#[test]
fn signature_matches_digest_of_canonical_payload() {
    let payload = "appkey=aae92bc66f3edfab&system_version=2&ts=1000000000af125a0d5279fd576c1b4418a3e8276d";
    let expected = format!("{:x}", md5::compute(payload.as_bytes()));
    assert_eq!(sign_value(fixture_map()), expected);
}

#[test]
fn signing_is_deterministic() {
    assert_eq!(sign_value(fixture_map()), sign_value(fixture_map()));
}

#[test]
fn changing_a_value_changes_the_signature() {
    let mut other = ParamMap::new();
    other.insert("system_version".to_string(), "2".to_string());
    other.insert("ts".to_string(), "1000000001".to_string());
    assert_ne!(sign_value(fixture_map()), sign_value(other));
}

#[test]
fn empty_map_still_signs() {
    let signed = sign_params(ParamMap::new(), APP_KEY, APP_SEC);
    assert_eq!(signed.len(), 2);
    assert!(signed.get("appkey").is_some());
    let expected = format!(
        "{:x}",
        md5::compute(format!("appkey={}{}", APP_KEY, APP_SEC).as_bytes())
    );
    assert_eq!(signed.get("sign").map(|s| s.as_str()), Some(expected.as_str()));
}

#[test]
fn unescaped_keys_are_preserved() {
    let mut p = ParamMap::new();
    p.insert("a=b".to_string(), "x&y".to_string());
    let payload = format!("a=b=x&y&appkey={}{}", APP_KEY, APP_SEC);
    let expected = format!("{:x}", md5::compute(payload.as_bytes()));
    let signed = sign_params(p, APP_KEY, APP_SEC);
    assert_eq!(signed.get("sign").map(|s| s.as_str()), Some(expected.as_str()));
}

#[test]
fn insert_overwrites_existing_key() {
    let mut p = ParamMap::new();
    p.insert("k".to_string(), "1".to_string());
    p.insert("k".to_string(), "2".to_string());
    assert_eq!(p.len(), 1);
    assert_eq!(p.get("k").map(|s| s.as_str()), Some("2"));
}

#[test]
fn decimal_rendering_matches_std() {
    assert_eq!(u64_to_string(0), "0");
    assert_eq!(u64_to_string(1000000000), "1000000000");
    assert_eq!(u64_to_string(u64::MAX), u64::MAX.to_string());
    assert_eq!(u32_to_string(51), "51");
    assert_eq!(i64_to_string(-45), "-45");
    assert_eq!(i64_to_string(i64::MIN), i64::MIN.to_string());
    assert_eq!(i64_to_string(i64::MAX), i64::MAX.to_string());
}

#[test]
fn string_comparisons_match_std() {
    assert!(str_eq("abc", "abc"));
    assert!(!str_eq("abc", "abd"));
    assert!(str_le("appkey", "system_version"));
    assert!(str_le("sign", "ts"));
    assert!(!str_le("ts", "sign"));
    assert!(str_le("a", "ab"));
}

#[test]
fn insertion_order_does_not_change_the_signature() {
    let mut forward = ParamMap::new();
    forward.insert("system_version".to_string(), "2".to_string());
    forward.insert("ts".to_string(), "1000000000".to_string());
    let mut backward = ParamMap::new();
    backward.insert("ts".to_string(), "1000000000".to_string());
    backward.insert("system_version".to_string(), "2".to_string());
    assert_eq!(sign_value(forward), sign_value(backward));
}
