use potato_code::UsageFields;
use potato_code::usage_of_fields;

#[test]
fn input_total_sums_all_three_counters() {
    let f = UsageFields {
        input_tokens: Some(1),
        cache_creation: Some(2),
        cache_read: Some(3),
        output_tokens: Some(4),
    };
    let u = usage_of_fields(&f);
    assert_eq!(u.input_tokens, 6);
    assert_eq!(u.output_tokens, 4);
}

#[test]
fn absent_usage_fields_count_as_zero() {
    let f = UsageFields {
        input_tokens: Some(10),
        cache_creation: None,
        cache_read: Some(5),
        output_tokens: None,
    };
    let u = usage_of_fields(&f);
    assert_eq!(u.input_tokens, 15);
    assert_eq!(u.output_tokens, 0);

    let empty = UsageFields {
        input_tokens: None,
        cache_creation: None,
        cache_read: None,
        output_tokens: None,
    };
    let z = usage_of_fields(&empty);
    assert_eq!(z.input_tokens, 0);
    assert_eq!(z.output_tokens, 0);
}

#[test]
fn input_total_saturates_instead_of_wrapping() {
    let f = UsageFields {
        input_tokens: Some(u64::MAX),
        cache_creation: Some(7),
        cache_read: Some(9),
        output_tokens: Some(1),
    };
    let u = usage_of_fields(&f);
    assert_eq!(u.input_tokens, u64::MAX);
}
