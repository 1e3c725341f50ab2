use deployc::{
    encode_secret_value, find_current_tier, generate_secret, normalize_credentials,
    sanitize_app_name, Tier,
};

#[test]
fn credentials_are_slugified_and_trimmed() {
    let (user, pass) = normalize_credentials(&"My User!\n".to_string(), &"  pw  ".to_string());
    assert_eq!(user, "my-user");
    assert_eq!(pass, "pw");
}

#[test]
fn app_names_are_slugified() {
    assert_eq!(sanitize_app_name(&"Hello World".to_string()), "hello-world");
    assert_eq!(sanitize_app_name(&"  --test_-_cool".to_string()), "test-cool");
    assert_eq!(sanitize_app_name(&"shop".to_string()), "shop");
}

#[test]
fn secret_values_are_base64_encoded() {
    assert_eq!(encode_secret_value(&"abc".to_string()), "YWJj");
    assert_eq!(encode_secret_value(&"abcd".to_string()), "YWJjZA==");
    assert_eq!(encode_secret_value(&String::new()), "");
}

#[test]
fn generated_secrets_are_alphanumeric() {
    let s = generate_secret(32);
    assert_eq!(s.len(), 32);
    assert!(s.chars().all(|c| c.is_ascii_alphanumeric()));
    assert_eq!(generate_secret(0), "");
}

#[test]
fn two_generated_secrets_differ() {
    // 64 alphanumeric characters colliding would mean the generator is
    // not drawing random values at all.
    assert_ne!(generate_secret(64), generate_secret(64));
}

fn tier(name: &str, pricing: &str) -> Tier {
    Tier { name: name.to_string(), pricing: pricing.to_string() }
}

#[test]
fn tiers_render_name_and_pricing() {
    assert_eq!(tier("standard", "$5/mo").display_text(), "standard ($5/mo)");
}

#[test]
fn tiers_match_by_name_alone() {
    let tiers = vec![tier("free", "$0"), tier("standard", "$5"), tier("pro", "$20")];
    let current = tier("standard", "out of date pricing");
    assert_eq!(find_current_tier(&tiers, &current), Some(1));
    assert_eq!(find_current_tier(&tiers, &tier("gone", "$1")), None);
    assert!(tier("a", "x").same(&tier("a", "y")));
    assert!(!tier("a", "x").same(&tier("b", "x")));
}
